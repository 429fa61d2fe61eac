use vstd::prelude::*;

use crate::consts::{FL_ZRO, RCOND, RPC};
use crate::errors::VmError;
use crate::machine::{wrap_add, Machine};
use crate::vm::VM;

verus! {

/// Word `i` of an image: bytes `2i` and `2i + 1`, most significant first.
pub open spec fn be_word(bytes: Seq<u8>, i: int) -> u16 {
    (bytes[2 * i] as int * 256 + bytes[2 * i + 1] as int) as u16
}

/// The program words of an image: every whole word after the base address.
/// A trailing odd byte is no word.
pub open spec fn image_words(bytes: Seq<u8>) -> Seq<u16> {
    Seq::new(((bytes.len() - 2) / 2) as nat, |i: int| be_word(bytes, i + 1))
}

/// `mem` with `words` stored from `addr` on, the address wrapping at the top.
pub open spec fn load_words(mem: Seq<u16>, addr: u16, words: Seq<u16>) -> Seq<u16>
    decreases words.len(),
{
    if words.len() == 0 {
        mem
    } else {
        load_words(mem.update(addr as int, words[0]), wrap_add(addr, 1), words.drop_first())
    }
}

/// The machine after loading `image` into `m`: the words stored from the base
/// address on, PC at the base address and COND at ZRO.
pub open spec fn loaded(m: Machine, image: Seq<u8>) -> Machine {
    let base = be_word(image, 0);
    Machine {
        mem: load_words(m.mem, base, image_words(image)),
        regs: m.regs.update(RPC as int, base).update(RCOND as int, FL_ZRO),
        ..m
    }
}

/// Relies on byteorder's `BigEndian::read_u16`: the two bytes at `pos`, most
/// significant first.
#[verifier::external_body]
fn read_be_u16(buf: &[u8], pos: usize) -> (r: u16)
    requires
        pos + 2 <= buf@.len(),
    ensures
        r as int == buf@[pos as int] as int * 256 + buf@[pos + 1] as int,
{
    <byteorder::BigEndian as byteorder::ByteOrder>::read_u16(&buf[pos..])
}

impl VM {
    /// Loads a program image: a base address and then the words to store from
    /// there on, all big-endian. The PC is set to the base address and COND to
    /// ZRO. An image too short to hold the base address is refused.
    pub fn load_image(&mut self, image: &[u8]) -> (r: Result<(), VmError>)
        ensures
            image@.len() < 2 ==> (r matches Err(VmError::BadFileError(_))) && final(self)@ == old(
                self,
            )@,
            image@.len() >= 2 ==> r is Ok && final(self)@ == loaded(old(self)@, image@),
    {
        if image.len() < 2 {
            return Err(VmError::BadFileError("the image holds no base address".to_owned()));
        }
        let base = read_be_u16(image, 0);
        let len: usize = image.len();
        let count: usize = (len - 2) / 2;
        let ghost words = image_words(image@);
        let ghost m0 = self@;
        let mut address: u16 = base;
        let mut i: usize = 0;
        assert(words.skip(0) =~= words);
        while i < count
            invariant
                len == image@.len(),
                2 * count + 2 <= len,
                count == words.len(),
                words == image_words(image@),
                0 <= i <= count,
                self@ == (Machine { mem: self@.mem, ..m0 }),
                load_words(self@.mem, address, words.skip(i as int)) == load_words(
                    m0.mem,
                    base,
                    words,
                ),
            decreases count - i,
        {
            let word = read_be_u16(image, 2 * i + 2);
            assert(word == words[i as int]);
            assert(words.skip(i as int).drop_first() =~= words.skip(i + 1));
            self.mem_write(address, word);
            address = address.wrapping_add(1);
            i += 1;
        }
        assert(words.skip(count as int) =~= Seq::<u16>::empty());
        self.update_register_value(RPC, base)?;
        self.update_register_value(RCOND, FL_ZRO)?;
        Ok(())
    }
}

} // verus!
