//! The contract between the processor and what is mapped to its addresses.
use vstd::prelude::*;

verus! {

/// The 16-bit word whose high byte is `high` and whose low byte is `low`.
pub open spec fn word_of(high: u8, low: u8) -> u16 {
    (high * 256 + low) as u16
}

/// The high byte of a word.
pub open spec fn high_byte(word: u16) -> u8 {
    (word / 256) as u8
}

/// The low byte of a word.
pub open spec fn low_byte_of(word: u16) -> u8 {
    (word % 256) as u8
}

/// The 32-bit long word whose high word is `high` and whose low word is `low`.
pub open spec fn long_of(high: u16, low: u16) -> u32 {
    (high * 0x1_0000 + low) as u32
}

/// The high word of a long word.
pub open spec fn high_word(long: u32) -> u16 {
    (long / 0x1_0000) as u16
}

/// The low word of a long word.
pub open spec fn low_word_of(long: u32) -> u16 {
    (long % 0x1_0000) as u16
}

/// A byte read, given the word read at the same address: the word's high byte.
pub open spec fn byte_read_from<S>(word: (S, Option<u16>)) -> (S, Option<u8>) {
    (
        word.0,
        match word.1 {
            Some(w) => Some(high_byte(w)),
            None => None,
        },
    )
}

/// A long word read, given the word read at the address and the word read two
/// bytes further on in the state that the first read left.
pub open spec fn long_read_from<S>(high: (S, Option<u16>), low: (S, Option<u16>)) -> (
    S,
    Option<u32>,
) {
    (
        low.0,
        match (high.1, low.1) {
            (Some(h), Some(l)) => Some(long_of(h, l)),
            _ => None,
        },
    )
}

/// The word that a byte write puts back: `value` above the low byte that the
/// word at that address had.
pub open spec fn merged_word(value: u8, found: u16) -> u16 {
    word_of(value, low_byte_of(found))
}

/// Words and long words are big-endian: the first byte of a word is its
/// high byte, and the first word of a long word its high word.
pub proof fn lemma_big_endian(high: u8, low: u8, first: u16, second: u16)
    ensures
        word_of(high, low) == ((high as u16) << 8) | (low as u16),
        high_byte(word_of(high, low)) == high,
        low_byte_of(word_of(high, low)) == low,
        long_of(first, second) == ((first as u32) << 16) | (second as u32),
        high_word(long_of(first, second)) == first,
        low_word_of(long_of(first, second)) == second,
{
    assert((high * 256 + low) as u16 == ((high as u16) << 8) | (low as u16)) by (bit_vector);
    assert((first * 0x1_0000 + second) as u32 == ((first as u32) << 16) | (second as u32))
        by (bit_vector);
}

/// A byte write puts the byte above the low byte of the word that was there.
pub proof fn lemma_merged_word(value: u8, found: u16)
    ensures
        merged_word(value, found) == ((value as u16) << 8) | (found & 0xff),
        high_byte(merged_word(value, found)) == value,
        low_byte_of(merged_word(value, found)) == low_byte_of(found),
{
    assert((value * 256 + (found % 256) as u8) as u16 == ((value as u16) << 8) | (found & 0xff))
        by (bit_vector);
}

/// A peripheral, or a memory, that answers reads and writes at the addresses
/// it is mapped to, and says "absent" (`None`) at every other address.
///
/// A device is described by its view. What a word read or a word write
/// returns, and what either leaves behind, are functions of that view and of
/// the arguments; the passing of time is such a function too. Bytes and long
/// words are made of words: a byte is the high byte of the word at its
/// address, a long word is two words, most significant first.
pub trait MappedHardware: View {
    /// The device after `cycles` clock cycles.
    spec fn ticked(state: Self::V, cycles: usize) -> Self::V;

    /// The device after a word read at `address`, and what the read returns.
    spec fn word_read(state: Self::V, address: u32) -> (Self::V, Option<u16>);

    /// The device after a write of the word `value` at `address`, and what the
    /// write returns: `Some` when the device took it.
    spec fn word_written(state: Self::V, address: u32, value: u16) -> (Self::V, Option<u16>);

    /// Lets `cycles` clock cycles pass.
    fn tick(&mut self, cycles: usize)
        ensures
            final(self)@ == Self::ticked(old(self)@, cycles),
    ;

    /// Reads the word at `address`.
    fn read_word(&mut self, address: u32) -> (r: Option<u16>)
        ensures
            (final(self)@, r) == Self::word_read(old(self)@, address),
    ;

    /// Writes the word `value` at `address`.
    fn write_word(&mut self, address: u32, value: u16) -> (r: Option<u16>)
        ensures
            (final(self)@, r) == Self::word_written(old(self)@, address, value),
    ;

    /// Reads the byte at `address`: the high byte of the word there.
    fn read_byte(&mut self, address: u32) -> (r: Option<u8>)
        ensures
            (final(self)@, r) == byte_read_from(Self::word_read(old(self)@, address)),
    {
        match self.read_word(address) {
            Some(word) => Some((word / 256) as u8),
            None => None,
        }
    }

    /// Writes the byte `value` at `address`: reads the word there and writes
    /// it back with `value` as its high byte. Absent where the read or the
    /// write is.
    fn write_byte(&mut self, address: u32, value: u8) -> (r: Option<u8>)
        ensures
            ({
                let (after_read, found) = Self::word_read(old(self)@, address);
                match found {
                    None => final(self)@ == after_read && r is None,
                    Some(word) => {
                        let (after_write, taken) = Self::word_written(
                            after_read,
                            address,
                            merged_word(value, word),
                        );
                        final(self)@ == after_write && r == if taken is Some {
                            Some(value)
                        } else {
                            None
                        }
                    },
                }
            }),
    {
        match self.read_word(address) {
            Some(word) => {
                let merged: u16 = (value as u16) * 256 + word % 256;
                match self.write_word(address, merged) {
                    Some(_) => Some(value),
                    None => None,
                }
            },
            None => None,
        }
    }

    /// Reads the long word at `address`: the word there, then the word two
    /// bytes further on, whatever the first read gave.
    fn read_long(&mut self, address: u32) -> (r: Option<u32>)
        ensures
            ({
                let high = Self::word_read(old(self)@, address);
                let low = Self::word_read(high.0, address.wrapping_add(2));
                (final(self)@, r) == long_read_from(high, low)
            }),
    {
        let high = self.read_word(address);
        let low = self.read_word(address.wrapping_add(2));
        match (high, low) {
            (Some(h), Some(l)) => Some((h as u32) * 0x1_0000 + (l as u32)),
            _ => None,
        }
    }

    /// Writes the long word `value` at `address`: its high word there, then
    /// its low word two bytes further on. Where the first write is absent the
    /// second is not made.
    fn write_long(&mut self, address: u32, value: u32) -> (r: Option<u32>)
        ensures
            ({
                let (after_high, high_taken) = Self::word_written(
                    old(self)@,
                    address,
                    high_word(value),
                );
                match high_taken {
                    None => final(self)@ == after_high && r is None,
                    Some(_) => {
                        let (after_low, low_taken) = Self::word_written(
                            after_high,
                            address.wrapping_add(2),
                            low_word_of(value),
                        );
                        final(self)@ == after_low && r == if low_taken is Some {
                            Some(value)
                        } else {
                            None
                        }
                    },
                }
            }),
    {
        let high: u16 = (value / 0x1_0000) as u16;
        let low: u16 = (value % 0x1_0000) as u16;
        match self.write_word(address, high) {
            None => None,
            Some(_) => match self.write_word(address.wrapping_add(2), low) {
                None => None,
                Some(_) => Some(value),
            },
        }
    }
}

/// A byte read from a device in state `state`.
pub open spec fn byte_read<D: MappedHardware>(state: D::V, address: u32) -> (D::V, Option<u8>) {
    byte_read_from(D::word_read(state, address))
}

/// A long word read from a device in state `state`.
pub open spec fn long_read<D: MappedHardware>(state: D::V, address: u32) -> (D::V, Option<u32>) {
    let high = D::word_read(state, address);
    let low = D::word_read(high.0, address.wrapping_add(2));
    long_read_from(high, low)
}

/// A byte write to a device in state `state`.
pub open spec fn byte_written<D: MappedHardware>(state: D::V, address: u32, value: u8) -> (
    D::V,
    Option<u8>,
) {
    let (after_read, found) = D::word_read(state, address);
    match found {
        None => (after_read, None),
        Some(word) => {
            let (after_write, taken) = D::word_written(
                after_read,
                address,
                merged_word(value, word),
            );
            (
                after_write,
                if taken is Some {
                    Some(value)
                } else {
                    None
                },
            )
        },
    }
}

/// A long word write to a device in state `state`.
pub open spec fn long_written<D: MappedHardware>(state: D::V, address: u32, value: u32) -> (
    D::V,
    Option<u32>,
) {
    let (after_high, high_taken) = D::word_written(state, address, high_word(value));
    match high_taken {
        None => (after_high, None),
        Some(_) => {
            let (after_low, low_taken) = D::word_written(
                after_high,
                address.wrapping_add(2),
                low_word_of(value),
            );
            (
                after_low,
                if low_taken is Some {
                    Some(value)
                } else {
                    None
                },
            )
        },
    }
}

} // verus!
