//! Permission words of the security unit.
//!
//! A RAM region's permission register holds five flags; a peripheral's holds
//! its secure attribute among capability fields that software leaves alone.
//! The words are assembled with the register types of the peripheral access
//! crate, so the bit positions are the ones the hardware definitions give.

use embassy_nrf::pac::spu::regs::{PeriphidPerm, RamregionPerm};
use vstd::prelude::*;

verus! {

/// Bit of the instruction-fetch permission in a RAM region word.
pub const EXECUTE_BIT: u32 = 0x001;

/// Bit of the write permission in a RAM region word.
pub const WRITE_BIT: u32 = 0x002;

/// Bit of the read permission in a RAM region word.
pub const READ_BIT: u32 = 0x004;

/// Bit of the secure attribute, in RAM region and peripheral words alike.
pub const SECATTR_BIT: u32 = 0x010;

/// Bit that freezes a permission word until the next reset.
pub const LOCK_BIT: u32 = 0x100;

/// `word` with the bits of `mask` set to `on`.
pub open spec fn with_bit(word: u32, mask: u32, on: bool) -> u32 {
    if on {
        word | mask
    } else {
        word & !mask
    }
}

/// The bits of `mask` where `on`, and no bit otherwise.
pub open spec fn flag(on: bool, mask: u32) -> u32 {
    if on {
        mask
    } else {
        0
    }
}

/// Whether any bit of `mask` is set in `word`.
pub open spec fn has_bit(word: u32, mask: u32) -> bool {
    word & mask != 0
}

/// `RamregionPerm::set_execute` on the word `word`: bit 0 becomes `on`, every
/// other bit keeps its value.
#[verifier::external_body]
fn region_set_execute(word: u32, on: bool) -> (out: u32)
    ensures
        out == with_bit(word, EXECUTE_BIT, on),
{
    let mut w = RamregionPerm(word);
    w.set_execute(on);
    w.0
}

/// `RamregionPerm::set_write` on the word `word`: bit 1 becomes `on`, every
/// other bit keeps its value.
#[verifier::external_body]
fn region_set_write(word: u32, on: bool) -> (out: u32)
    ensures
        out == with_bit(word, WRITE_BIT, on),
{
    let mut w = RamregionPerm(word);
    w.set_write(on);
    w.0
}

/// `RamregionPerm::set_read` on the word `word`: bit 2 becomes `on`, every
/// other bit keeps its value.
#[verifier::external_body]
fn region_set_read(word: u32, on: bool) -> (out: u32)
    ensures
        out == with_bit(word, READ_BIT, on),
{
    let mut w = RamregionPerm(word);
    w.set_read(on);
    w.0
}

/// `RamregionPerm::set_secattr` on the word `word`: bit 4 becomes `on`, every
/// other bit keeps its value.
#[verifier::external_body]
fn region_set_secattr(word: u32, on: bool) -> (out: u32)
    ensures
        out == with_bit(word, SECATTR_BIT, on),
{
    let mut w = RamregionPerm(word);
    w.set_secattr(on);
    w.0
}

/// `RamregionPerm::set_lock` on the word `word`: bit 8 becomes `on`, every
/// other bit keeps its value.
#[verifier::external_body]
fn region_set_lock(word: u32, on: bool) -> (out: u32)
    ensures
        out == with_bit(word, LOCK_BIT, on),
{
    let mut w = RamregionPerm(word);
    w.set_lock(on);
    w.0
}

/// `PeriphidPerm::set_secattr` on the word `word`: bit 4 becomes `on`, every
/// other bit keeps its value.
#[verifier::external_body]
fn peripheral_set_secattr(word: u32, on: bool) -> (out: u32)
    ensures
        out == with_bit(word, SECATTR_BIT, on),
{
    let mut w = PeriphidPerm(word);
    w.set_secattr(on);
    w.0
}

/// Access permissions of one RAM region.
#[derive(Clone, Copy, Debug, PartialEq, Eq, Structural)]
pub struct RegionPerm {
    pub execute: bool,
    pub write: bool,
    pub read: bool,
    pub secure: bool,
    pub lock: bool,
}

impl RegionPerm {
    /// The register word that holds exactly these permissions: each flag at
    /// its bit, every other bit zero.
    pub open spec fn bits(self) -> u32 {
        flag(self.execute, EXECUTE_BIT) | flag(self.write, WRITE_BIT) | flag(self.read, READ_BIT)
            | flag(self.secure, SECATTR_BIT) | flag(self.lock, LOCK_BIT)
    }

    /// The permissions that the register word `word` grants.
    pub open spec fn decode(word: u32) -> RegionPerm {
        RegionPerm {
            execute: has_bit(word, EXECUTE_BIT),
            write: has_bit(word, WRITE_BIT),
            read: has_bit(word, READ_BIT),
            secure: has_bit(word, SECATTR_BIT),
            lock: has_bit(word, LOCK_BIT),
        }
    }

    /// What the modem's shared memory needs: read, write and execute from the
    /// non-secure domain, and no lock, so that a later boot stage can still
    /// adjust the region.
    pub open spec fn shared_access() -> RegionPerm {
        RegionPerm { execute: true, write: true, read: true, secure: false, lock: false }
    }

    /// The non-secure full-access permissions of the shared memory.
    pub fn non_secure_full_access() -> (perm: RegionPerm)
        ensures
            perm == Self::shared_access(),
    {
        RegionPerm { execute: true, write: true, read: true, secure: false, lock: false }
    }

    /// Encodes the permissions as the word to write to the region's register.
    /// The word is built from zero, as a register write that replaces the
    /// whole register does.
    pub fn to_bits(&self) -> (word: u32)
        ensures
            word == self.bits(),
            RegionPerm::decode(word) == *self,
    {
        let w1 = region_set_execute(0, self.execute);
        let w2 = region_set_write(w1, self.write);
        let w3 = region_set_read(w2, self.read);
        let w4 = region_set_secattr(w3, self.secure);
        let w5 = region_set_lock(w4, self.lock);
        proof {
            let (e, w, r, s, l) = (self.execute, self.write, self.read, self.secure, self.lock);
            assert(w5 == (if e { 0x001u32 } else { 0 }) | (if w { 0x002u32 } else { 0 }) | (if r {
                0x004u32
            } else {
                0
            }) | (if s { 0x010u32 } else { 0 }) | (if l { 0x100u32 } else { 0 })) by (bit_vector)
                requires
                    w1 == if e { 0u32 | 0x001u32 } else { 0u32 & !0x001u32 },
                    w2 == if w { w1 | 0x002u32 } else { w1 & !0x002u32 },
                    w3 == if r { w2 | 0x004u32 } else { w2 & !0x004u32 },
                    w4 == if s { w3 | 0x010u32 } else { w3 & !0x010u32 },
                    w5 == if l { w4 | 0x100u32 } else { w4 & !0x100u32 },
            ;
            Self::lemma_decode_bits(*self);
        }
        w5
    }

    /// Reads the permissions out of a register word. Bits that belong to no
    /// flag are ignored.
    pub fn from_bits(word: u32) -> (perm: RegionPerm)
        ensures
            perm == RegionPerm::decode(word),
    {
        RegionPerm {
            execute: word & EXECUTE_BIT != 0,
            write: word & WRITE_BIT != 0,
            read: word & READ_BIT != 0,
            secure: word & SECATTR_BIT != 0,
            lock: word & LOCK_BIT != 0,
        }
    }

    /// The word of the shared-access permissions is read, write and execute,
    /// and nothing else.
    pub proof fn lemma_shared_access_word()
        ensures
            RegionPerm::shared_access().bits() == 0x007,
    {
        assert(0x001u32 | 0x002u32 | 0x004u32 | 0u32 | 0u32 == 0x007u32) by (bit_vector);
    }

    /// Decoding the word of a permission set gives the set back, and the word
    /// has no bit outside the five flags.
    pub proof fn lemma_decode_bits(perm: RegionPerm)
        ensures
            RegionPerm::decode(perm.bits()) == perm,
            perm.bits() & !0x117u32 == 0,
    {
        let (e, w, r, s, l) = (perm.execute, perm.write, perm.read, perm.secure, perm.lock);
        let word = perm.bits();
        assert(word & !0x117u32 == 0 && ((word & 0x001u32 != 0) == e) && ((word & 0x002u32 != 0)
            == w) && ((word & 0x004u32 != 0) == r) && ((word & 0x010u32 != 0) == s) && ((word
            & 0x100u32 != 0) == l)) by (bit_vector)
            requires
                word == (if e { 0x001u32 } else { 0 }) | (if w { 0x002u32 } else { 0 }) | (if r {
                    0x004u32
                } else {
                    0
                }) | (if s { 0x010u32 } else { 0 }) | (if l { 0x100u32 } else { 0 }),
        ;
    }
}

/// The word of a peripheral's permission register after the peripheral is
/// handed to the non-secure domain: the secure attribute is cleared and every
/// other bit keeps the value it had.
pub open spec fn non_secure_word(word: u32) -> u32 {
    word & !SECATTR_BIT
}

/// Clears the secure attribute in a peripheral's permission word. Only that
/// bit can differ between `word` and the result.
pub fn clear_secure_attribute(word: u32) -> (out: u32)
    ensures
        out == non_secure_word(word),
        !has_bit(out, SECATTR_BIT),
        out & !SECATTR_BIT == word & !SECATTR_BIT,
{
    let out = peripheral_set_secattr(word, false);
    assert(out & 0x010u32 == 0 && out & !0x010u32 == word & !0x010u32) by (bit_vector)
        requires
            out == word & !0x010u32,
    ;
    out
}

/// Whether a permission word is frozen until the next reset.
pub fn is_locked(word: u32) -> (locked: bool)
    ensures
        locked == has_bit(word, LOCK_BIT),
{
    word & LOCK_BIT != 0
}

/// Whether a permission word marks its region or peripheral as secure.
pub fn is_secure(word: u32) -> (secure: bool)
    ensures
        secure == has_bit(word, SECATTR_BIT),
{
    word & SECATTR_BIT != 0
}

} // verus!
