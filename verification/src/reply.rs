use vstd::prelude::*;
use crate::driver::Sgp30;
use crate::types::{AirQuality, Error, RawSignals};
use crate::word::{be_word, word_intact};

verus! {

/// The `i`-th data word of a reply: replies are made of three-byte groups,
/// a word sent most significant byte first and then its checksum.
pub open spec fn reply_word(reply: Seq<u8>, i: int) -> u16 {
    be_word(reply[3 * i], reply[3 * i + 1])
}

/// Whether the `i`-th word of a reply came with the right checksum.
pub open spec fn reply_word_intact(reply: Seq<u8>, i: int) -> bool {
    word_intact(reply[3 * i], reply[3 * i + 1], reply[3 * i + 2])
}

/// Whether the first `n` words of a reply all came with the right checksum.
pub open spec fn reply_intact(reply: Seq<u8>, n: int) -> bool {
    forall|i: int| 0 <= i < n ==> #[trigger] reply_word_intact(reply, i)
}

/// The serial number that a serial-ID reply carries: its three words, the
/// first one the most significant.
pub open spec fn serial_id_of(reply: Seq<u8>) -> u64 {
    (reply_word(reply, 0) as int * 0x1_0000_0000 + reply_word(reply, 1) as int * 0x1_0000
        + reply_word(reply, 2) as int) as u64
}

impl Sgp30 {
    /// Reads the `i`-th word of a reply, checking its checksum.
    fn reply_word_at<E>(data: &[u8], i: usize) -> (r: Result<u16, Error<E>>)
        requires
            3 * i + 3 <= data@.len(),
        ensures
            r == (if reply_word_intact(data@, i as int) {
                Ok::<u16, Error<E>>(reply_word(data@, i as int))
            } else {
                Err(Error::BadCrc)
            }),
    {
        let len = data.len();
        assert(3 * i + 3 <= len);
        let word: [u8; 2] = [data[3 * i], data[3 * i + 1]];
        let crc = data[3 * i + 2];
        assert(word@ =~= seq![data@[3 * i], data@[3 * i + 1]]);
        match Self::check_crc::<E>(&word, crc) {
            Err(e) => Err(e),
            Ok(()) => Ok(Self::get_u16_value(&word)),
        }
    }

    /// Decodes the reply to a command that answers with an air quality
    /// measurement (or a baseline): the CO₂eq word, then the TVOC word.
    pub fn air_quality_from_reply<E>(reply: Result<[u8; 6], E>) -> (r: Result<AirQuality, Error<E>>)
        ensures
            match reply {
                Err(e) => r == Err::<AirQuality, Error<E>>(Error::I2c(e)),
                Ok(data) => r == if reply_intact(data@, 2) {
                    Ok(AirQuality { co2: reply_word(data@, 0), tvoc: reply_word(data@, 1) })
                } else {
                    Err(Error::<E>::BadCrc)
                },
            },
    {
        let data = match reply {
            Err(e) => return Err(Error::from(e)),
            Ok(data) => data,
        };
        let co2 = Self::reply_word_at::<E>(&data, 0);
        let tvoc = Self::reply_word_at::<E>(&data, 1);
        match (co2, tvoc) {
            (Ok(co2), Ok(tvoc)) => Ok(AirQuality { co2, tvoc }),
            _ => {
                assert(!reply_word_intact(data@, 0) || !reply_word_intact(data@, 1));
                Err(Error::BadCrc)
            },
        }
    }
    /// Decodes the reply to the raw signals measurement: the H₂ word, then
    /// the ethanol word.
    pub fn raw_signals_from_reply<E>(reply: Result<[u8; 6], E>) -> (r: Result<RawSignals, Error<E>>)
        ensures
            match reply {
                Err(e) => r == Err::<RawSignals, Error<E>>(Error::I2c(e)),
                Ok(data) => r == if reply_intact(data@, 2) {
                    Ok(RawSignals { h2: reply_word(data@, 0), ethanol: reply_word(data@, 1) })
                } else {
                    Err(Error::<E>::BadCrc)
                },
            },
    {
        let data = match reply {
            Err(e) => return Err(Error::from(e)),
            Ok(data) => data,
        };
        let h2 = Self::reply_word_at::<E>(&data, 0);
        let ethanol = Self::reply_word_at::<E>(&data, 1);
        match (h2, ethanol) {
            (Ok(h2), Ok(ethanol)) => Ok(RawSignals { h2, ethanol }),
            _ => {
                assert(!reply_word_intact(data@, 0) || !reply_word_intact(data@, 1));
                Err(Error::BadCrc)
            },
        }
    }

    /// Decodes the reply to the feature set query: a single word.
    pub fn feature_set_version_from_reply<E>(reply: Result<[u8; 3], E>) -> (r: Result<u16, Error<E>>)
        ensures
            match reply {
                Err(e) => r == Err::<u16, Error<E>>(Error::I2c(e)),
                Ok(data) => r == if reply_intact(data@, 1) {
                    Ok(reply_word(data@, 0))
                } else {
                    Err(Error::<E>::BadCrc)
                },
            },
    {
        let data = match reply {
            Err(e) => return Err(Error::from(e)),
            Ok(data) => data,
        };
        let version = Self::reply_word_at::<E>(&data, 0);
        assert(reply_intact(data@, 1) == reply_word_intact(data@, 0));
        version
    }

    /// Decodes the reply to the serial ID query: three words, the first one
    /// the most significant part of the 48-bit serial number.
    pub fn serial_id_from_reply<E>(reply: Result<[u8; 9], E>) -> (r: Result<u64, Error<E>>)
        ensures
            match reply {
                Err(e) => r == Err::<u64, Error<E>>(Error::I2c(e)),
                Ok(data) => r == if reply_intact(data@, 3) {
                    Ok(serial_id_of(data@))
                } else {
                    Err(Error::<E>::BadCrc)
                },
            },
    {
        let data = match reply {
            Err(e) => return Err(Error::from(e)),
            Ok(data) => data,
        };
        let id1 = Self::reply_word_at::<E>(&data, 0);
        let id2 = Self::reply_word_at::<E>(&data, 1);
        let id3 = Self::reply_word_at::<E>(&data, 2);
        match (id1, id2, id3) {
            (Ok(id1), Ok(id2), Ok(id3)) => {
                let id = (id1 as u64) << 32 | (id2 as u64) << 16 | (id3 as u64);
                assert(id == id1 as int * 0x1_0000_0000 + id2 as int * 0x1_0000 + id3 as int)
                    by (bit_vector)
                    requires
                        id == (id1 as u64) << 32 | (id2 as u64) << 16 | (id3 as u64),
                ;
                assert forall|i: int| 0 <= i < 3 implies #[trigger] reply_word_intact(data@, i) by {
                    assert(i == 0 || i == 1 || i == 2);
                }
                Ok(id)
            },
            _ => {
                assert(!reply_word_intact(data@, 0) || !reply_word_intact(data@, 1)
                    || !reply_word_intact(data@, 2));
                Err(Error::BadCrc)
            },
        }
    }
}

} // verus!
