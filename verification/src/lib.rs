//! A platform-agnostic driver core for the Sensirion SGP30 gas sensor.
//!
//! The SGP30 speaks a small command protocol over I²C: every command is a
//! 16-bit word sent most significant byte first, and every word the sensor
//! answers with (or that it is sent as an argument) is followed by a CRC-8
//! checksum. This crate holds that protocol: it frames commands and their
//! arguments, checks and decodes the sensor's replies, and decides, step by
//! step, how the bring-up of a sensor goes on. The bus and the clock are left
//! to the caller, who performs each [`Transfer`] this crate describes and hands
//! back what the bus returned.

mod types;
mod word;
mod driver;
mod reply;
mod laws;

pub use types::{AirQuality, Error, RawSignals};
pub use word::{
    be_word, crc8_byte, crc8_nrsc5, crc8_over, crc8_step, lemma_crc8_of_word, word_bytes,
    word_intact,
};
pub use laws::{
    lemma_accepted_product_has_version, lemma_baseline_frame_decodes, lemma_baseline_restore,
    lemma_be_word_roundtrip, lemma_datasheet_checksum, lemma_framed_word_intact,
    lemma_be_word_value, lemma_feature_set_fields, lemma_reply_intact_iff_crcs,
    lemma_reply_word_intact_iff_crc, lemma_reply_word_value, lemma_serial_id_parts,
    lemma_serial_reply_accepted, lemma_two_word_reply_intact, lemma_word_bytes_roundtrip,
    lemma_word_bytes_value,
};
pub use reply::{reply_intact, reply_word, reply_word_intact, serial_id_of};
pub use driver::{
    framed, is_transaction, is_write, is_write_then_read, product_accepted, product_type,
    product_version, DeviceInfo, Identify, Probe, Sgp30, Transfer, Wait, DEFAULT_I2C_ADDRESS,
    FIRST_HUMIDITY_PRODUCT_VERSION, GET_BASELINE_COMMAND, GET_FEATURE_SET_VERSION_COMMAND,
    GET_SERIAL_ID_COMMAND, INIT_AIR_QUALITY_COMMAND, MEASURE_AIR_QUALITY_COMMAND,
    MEASURE_RAW_SIGNALS_COMMAND, RESET_COMMAND, SET_BASELINE_COMMAND, SET_HUMIDITY_COMMAND,
};
