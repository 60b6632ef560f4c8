use vstd::prelude::*;
use crate::driver::Sgp30;
use crate::types::Error;

verus! {

/// The value of a 16-bit word sent most significant byte first.
pub open spec fn be_word(hi: u8, lo: u8) -> u16 {
    (hi as int * 256 + lo as int) as u16
}

/// The two bytes of a 16-bit word, most significant first.
pub open spec fn word_bytes(w: u16) -> Seq<u8> {
    seq![(w as int / 256) as u8, (w as int % 256) as u8]
}

/// One bit step of the CRC-8 register with polynomial 0x31: shift left, and
/// fold the polynomial in when the bit shifted out was set.
pub open spec fn crc8_step(crc: u8) -> u8 {
    if crc & 0x80u8 == 0x80u8 {
        (crc << 1u8) ^ 0x31u8
    } else {
        crc << 1u8
    }
}

/// The register after reading one byte, most significant bit first.
pub open spec fn crc8_byte(crc: u8, byte: u8) -> u8 {
    crc8_step(crc8_step(crc8_step(crc8_step(crc8_step(crc8_step(crc8_step(crc8_step(
        crc ^ byte,
    ))))))))
}

/// The register after reading `data`, starting from `crc`.
pub open spec fn crc8_over(crc: u8, data: Seq<u8>) -> u8
    decreases data.len(),
{
    if data.len() == 0 {
        crc
    } else {
        crc8_over(crc8_byte(crc, data[0]), data.drop_first())
    }
}

/// The CRC-8 checksum that the SGP30 attaches to every data word: the
/// `CRC_8_NRSC_5` algorithm of the `crc` crate (width 8, polynomial 0x31,
/// initial value 0xff, no reflection, no final xor) over the given bytes.
pub open spec fn crc8_nrsc5(data: Seq<u8>) -> u8 {
    crc8_over(0xff, data)
}

/// The checksum of a two-byte word is the register after reading its two
/// bytes from the initial value 0xff.
pub proof fn lemma_crc8_of_word(hi: u8, lo: u8)
    ensures
        crc8_nrsc5(seq![hi, lo]) == crc8_byte(crc8_byte(0xff, hi), lo),
{
    let data = seq![hi, lo];
    assert(data.drop_first() =~= seq![lo]);
    assert(data.drop_first().drop_first() =~= Seq::<u8>::empty());
    reveal_with_fuel(crc8_over, 3);
}

/// Whether the checksum `crc` belongs to the word made of `hi` and `lo`.
pub open spec fn word_intact(hi: u8, lo: u8, crc: u8) -> bool {
    crc8_nrsc5(seq![hi, lo]) == crc
}

impl Sgp30 {
    /// The checksum of a data word, computed by the `crc` crate.
    ///
    /// Calls `crc::Crc::<u8>::new(&crc::CRC_8_NRSC_5).checksum`; the contract
    /// claims that the result is `crc8_nrsc5` of the two bytes, the CRC-8 that
    /// the catalogue parameters of `CRC_8_NRSC_5` define.
    #[verifier::external_body]
    pub(crate) fn calc_crc(data: &[u8; 2]) -> (crc: u8)
        ensures
            crc == crc8_nrsc5(data@),
    {
        crc::Crc::<u8>::new(&crc::CRC_8_NRSC_5).checksum(data)
    }

    /// Checks that `expected_crc` is the checksum of the word `data`.
    pub fn check_crc<E>(data: &[u8; 2], expected_crc: u8) -> (r: Result<(), Error<E>>)
        ensures
            r == (if crc8_nrsc5(data@) == expected_crc {
                Ok::<(), Error<E>>(())
            } else {
                Err(Error::BadCrc)
            }),
    {
        if Self::calc_crc(data) != expected_crc {
            Err(Error::BadCrc)
        } else {
            Ok(())
        }
    }

    /// Splits a word into its two bytes, most significant first.
    pub fn get_u8_array_value(data: u16) -> (bytes: [u8; 2])
        ensures
            bytes@ == word_bytes(data),
            bytes[0] as int * 256 + bytes[1] as int == data as int,
    {
        let hi = (data >> 8) as u8;
        let lo = (data & 0xff) as u8;
        assert(hi == data / 256 && lo == data % 256) by (bit_vector)
            requires
                hi == (data >> 8) as u8,
                lo == (data & 0xff) as u8,
        ;
        let bytes = [hi, lo];
        assert(bytes@ =~= word_bytes(data));
        bytes
    }

    /// Joins two bytes, most significant first, into a word.
    pub fn get_u16_value(data: &[u8; 2]) -> (w: u16)
        ensures
            w == be_word(data[0], data[1]),
            w as int == data[0] as int * 256 + data[1] as int,
    {
        let hi = data[0];
        let lo = data[1];
        let w = (hi as u16) << 8 | (lo as u16);
        assert(w == hi as int * 256 + lo as int) by (bit_vector)
            requires
                w == (hi as u16) << 8 | (lo as u16),
        ;
        w
    }
}

} // verus!
