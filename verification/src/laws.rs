use vstd::prelude::*;
use crate::driver::{framed, product_accepted, product_type, product_version, SET_BASELINE_COMMAND};
use crate::reply::{reply_intact, reply_word, reply_word_intact, serial_id_of};
use crate::types::AirQuality;
use crate::word::{be_word, crc8_byte, crc8_nrsc5, lemma_crc8_of_word, word_bytes, word_intact};

verus! {

/// Splitting a word into bytes and joining them again gives the word back.
pub proof fn lemma_word_bytes_roundtrip(w: u16)
    ensures
        word_bytes(w).len() == 2,
        be_word(word_bytes(w)[0], word_bytes(w)[1]) == w,
{
}

/// Joining two bytes into a word and splitting it again gives the bytes back.
pub proof fn lemma_be_word_roundtrip(hi: u8, lo: u8)
    ensures
        word_bytes(be_word(hi, lo)) == seq![hi, lo],
{
    assert(word_bytes(be_word(hi, lo)) =~= seq![hi, lo]);
}

/// Every word the driver sends carries the checksum that the sensor checks:
/// a framed word is intact, and its value is the word's.
pub proof fn lemma_framed_word_intact(w: u16)
    ensures
        framed(word_bytes(w)).len() == 3,
        reply_word_intact(framed(word_bytes(w)), 0),
        reply_word(framed(word_bytes(w)), 0) == w,
{
    let f = framed(word_bytes(w));
    assert(seq![f[0], f[1]] =~= word_bytes(w));
    lemma_word_bytes_roundtrip(w);
}

/// The two words that `set_baseline` sends, read the way a baseline reply is
/// read, are intact and carry the TVOC value first, then the CO₂eq value.
pub proof fn lemma_baseline_frame_decodes(baseline: AirQuality)
    ensures
        ({
            let payload = framed(word_bytes(baseline.tvoc)) + framed(word_bytes(baseline.co2));
            &&& payload.len() == 6
            &&& reply_intact(payload, 2)
            &&& reply_word(payload, 0) == baseline.tvoc
            &&& reply_word(payload, 1) == baseline.co2
        }),
{
    let first = framed(word_bytes(baseline.tvoc));
    let second = framed(word_bytes(baseline.co2));
    let payload = first + second;
    lemma_framed_word_intact(baseline.tvoc);
    lemma_framed_word_intact(baseline.co2);
    assert(payload.subrange(3, 6) =~= second);
    assert(payload[3] == second[0] && payload[4] == second[1] && payload[5] == second[2]);
    assert forall|i: int| 0 <= i < 2 implies #[trigger] reply_word_intact(payload, i) by {
        assert(i == 0 || i == 1);
    }
}

/// Restoring a saved baseline sends back exactly what the sensor gave when
/// it was saved, its two words in swapped order: a baseline reply that
/// decodes to `AirQuality { co2: reply_word(data, 0), tvoc: reply_word(data, 1) }`
/// is restored by sending the second three bytes of the reply, then the first.
pub proof fn lemma_baseline_restore(data: Seq<u8>)
    requires
        data.len() == 6,
        reply_intact(data, 2),
    ensures
        word_bytes(SET_BASELINE_COMMAND) + framed(word_bytes(reply_word(data, 1))) + framed(
            word_bytes(reply_word(data, 0)),
        ) == word_bytes(SET_BASELINE_COMMAND) + data.subrange(3, 6) + data.subrange(0, 3),
{
    assert(reply_word_intact(data, 0));
    assert(reply_word_intact(data, 1));
    lemma_be_word_roundtrip(data[0], data[1]);
    lemma_be_word_roundtrip(data[3], data[4]);
    assert(framed(word_bytes(reply_word(data, 0))) =~= data.subrange(0, 3));
    assert(framed(word_bytes(reply_word(data, 1))) =~= data.subrange(3, 6));
}

/// The serial ID is a 48-bit number whose three 16-bit parts are the three
/// words of the reply, the first one the most significant.
pub proof fn lemma_serial_id_parts(data: Seq<u8>)
    requires
        data.len() == 9,
    ensures
        serial_id_of(data) < 0x1_0000_0000_0000,
        serial_id_of(data) as int / 0x1_0000_0000 == reply_word(data, 0),
        serial_id_of(data) as int / 0x1_0000 % 0x1_0000 == reply_word(data, 1),
        serial_id_of(data) as int % 0x1_0000 == reply_word(data, 2),
{
    let a = reply_word(data, 0) as int;
    let b = reply_word(data, 1) as int;
    let c = reply_word(data, 2) as int;
    assert(a * 0x1_0000_0000 + b * 0x1_0000 + c < 0x1_0000_0000_0000);
    assert((a * 0x1_0000_0000 + b * 0x1_0000 + c) / 0x1_0000_0000 == a) by (nonlinear_arith)
        requires
            0 <= a < 0x1_0000,
            0 <= b < 0x1_0000,
            0 <= c < 0x1_0000,
    ;
    assert((a * 0x1_0000_0000 + b * 0x1_0000 + c) / 0x1_0000 == a * 0x1_0000 + b)
        by (nonlinear_arith)
        requires
            0 <= a < 0x1_0000,
            0 <= b < 0x1_0000,
            0 <= c < 0x1_0000,
    ;
    assert((a * 0x1_0000 + b) % 0x1_0000 == b) by (nonlinear_arith)
        requires
            0 <= a < 0x1_0000,
            0 <= b < 0x1_0000,
            0 <= c < 0x1_0000,
    ;
    assert((a * 0x1_0000_0000 + b * 0x1_0000 + c) % 0x1_0000 == c) by (nonlinear_arith)
        requires
            0 <= a < 0x1_0000,
            0 <= b < 0x1_0000,
            0 <= c < 0x1_0000,
    ;
}

/// A product that is accepted always announces a product version other than 0.
pub proof fn lemma_accepted_product_has_version(feature_set_version: u16)
    requires
        product_accepted(feature_set_version),
    ensures
        product_version(feature_set_version) != 0,
        feature_set_version < 0x1000,
{
}

/// A six-byte reply whose third and sixth bytes are the checksums of the two
/// words before them is intact, so that `air_quality_from_reply` and
/// `raw_signals_from_reply` decode it to those two words.
pub proof fn lemma_two_word_reply_intact(data: Seq<u8>)
    requires
        data.len() == 6,
        data[2] == crc8_nrsc5(seq![data[0], data[1]]),
        data[5] == crc8_nrsc5(seq![data[3], data[4]]),
    ensures
        reply_intact(data, 2),
        reply_word(data, 0) as int == data[0] as int * 256 + data[1] as int,
        reply_word(data, 1) as int == data[3] as int * 256 + data[4] as int,
{
    assert forall|i: int| 0 <= i < 2 implies #[trigger] reply_word_intact(data, i) by {
        assert(i == 0 || i == 1);
    }
    lemma_reply_word_value(data, 0);
    lemma_reply_word_value(data, 1);
}

/// The checksum is the one of the SGP30 datasheet: the word 0xBEEF has the
/// checksum 0x92.
pub proof fn lemma_datasheet_checksum()
    ensures
        crc8_nrsc5(seq![0xbeu8, 0xefu8]) == 0x92,
{
    lemma_crc8_of_word(0xbe, 0xef);
    assert(crc8_byte(crc8_byte(0xff, 0xbe), 0xef) == 0x92) by (bit_vector);
}

/// A word received as the bytes `hi`, `lo` has the value `hi * 256 + lo`:
/// the most significant byte comes first.
pub proof fn lemma_be_word_value(hi: u8, lo: u8)
    ensures
        be_word(hi, lo) as int == hi as int * 256 + lo as int,
{
}

/// A word `w` is sent as the bytes `w / 256`, then `w % 256`: the bytes are
/// digits of `w` in base 256, the most significant one first.
pub proof fn lemma_word_bytes_value(w: u16)
    ensures
        word_bytes(w).len() == 2,
        word_bytes(w)[0] as int * 256 + word_bytes(w)[1] as int == w as int,
        word_bytes(w)[0] as int == w as int / 256,
        word_bytes(w)[1] as int == w as int % 256,
{
}

/// The `i`-th word of a reply has the value of its first byte times 256 plus
/// its second byte, for replies of any length and any word index.
pub proof fn lemma_reply_word_value(reply: Seq<u8>, i: int)
    requires
        0 <= i,
        3 * i + 3 <= reply.len(),
    ensures
        reply_word(reply, i) as int == reply[3 * i] as int * 256 + reply[3 * i + 1] as int,
{
    lemma_be_word_value(reply[3 * i], reply[3 * i + 1]);
}

/// A reply word is intact exactly when its third byte is the CRC-8 of its
/// first two, for replies of any length and any word index.
pub proof fn lemma_reply_word_intact_iff_crc(reply: Seq<u8>, i: int)
    requires
        0 <= i,
        3 * i + 3 <= reply.len(),
    ensures
        reply_word_intact(reply, i) <==> reply[3 * i + 2] == crc8_nrsc5(
            seq![reply[3 * i], reply[3 * i + 1]],
        ),
{
}

/// A reply whose every word carries the CRC-8 of its two bytes is intact, and
/// a reply with one word whose checksum is not that CRC-8 is not.
pub proof fn lemma_reply_intact_iff_crcs(reply: Seq<u8>, n: int)
    requires
        0 <= n,
        3 * n <= reply.len(),
    ensures
        reply_intact(reply, n) <==> forall|i: int|
            0 <= i < n ==> #[trigger] reply[3 * i + 2] == crc8_nrsc5(
                seq![reply[3 * i], reply[3 * i + 1]],
            ),
{
    if reply_intact(reply, n) {
        assert forall|i: int| 0 <= i < n implies #[trigger] reply[3 * i + 2] == crc8_nrsc5(
            seq![reply[3 * i], reply[3 * i + 1]],
        ) by {
            assert(reply_word_intact(reply, i));
        }
    }
    if forall|i: int|
        0 <= i < n ==> #[trigger] reply[3 * i + 2] == crc8_nrsc5(
            seq![reply[3 * i], reply[3 * i + 1]],
        ) {
        assert forall|i: int| 0 <= i < n implies #[trigger] reply_word_intact(reply, i) by {
            assert(reply[3 * i + 2] == crc8_nrsc5(seq![reply[3 * i], reply[3 * i + 1]]));
        }
    }
}

/// A serial-ID reply whose three words carry the CRC-8 of their bytes is
/// intact, whatever the words are, so the probe accepts it; the serial number
/// it carries is its six data bytes read as one big-endian number.
pub proof fn lemma_serial_reply_accepted(data: Seq<u8>)
    requires
        data.len() == 9,
        data[2] == crc8_nrsc5(seq![data[0], data[1]]),
        data[5] == crc8_nrsc5(seq![data[3], data[4]]),
        data[8] == crc8_nrsc5(seq![data[6], data[7]]),
    ensures
        reply_intact(data, 3),
        serial_id_of(data) as int == (data[0] as int * 256 + data[1] as int) * 0x1_0000_0000
            + (data[3] as int * 256 + data[4] as int) * 0x1_0000 + (data[6] as int * 256
            + data[7] as int),
{
    assert forall|i: int| 0 <= i < 3 implies #[trigger] reply_word_intact(data, i) by {
        assert(i == 0 || i == 1 || i == 2);
    }
    lemma_reply_word_value(data, 0);
    lemma_reply_word_value(data, 1);
    lemma_reply_word_value(data, 2);
    lemma_serial_id_parts(data);
}

/// The product version recorded for a feature set version is its low byte,
/// its product type is its top four bits, and it is accepted exactly when
/// the top four bits are 0 and the low byte is not.
pub proof fn lemma_feature_set_fields(feature_set_version: u16)
    ensures
        product_version(feature_set_version) as int == feature_set_version as int % 0x100,
        product_type(feature_set_version) == feature_set_version as int / 0x1000,
        product_accepted(feature_set_version) <==> (feature_set_version < 0x1000
            && feature_set_version as int % 0x100 != 0),
{
}

} // verus!
