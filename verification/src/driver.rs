use vstd::prelude::*;
use crate::reply::{reply_intact, reply_word};
use crate::types::{AirQuality, Error};
use crate::word::{crc8_nrsc5, word_bytes};

verus! {

/// The I²C address of the SGP30 chip.
pub const DEFAULT_I2C_ADDRESS: u8 = 0x58;

/// Command word: read the baseline of the air quality signals.
pub const GET_BASELINE_COMMAND: u16 = 0x2015;

/// Command word: read the feature set version.
pub const GET_FEATURE_SET_VERSION_COMMAND: u16 = 0x202f;

/// Command word: read the serial ID.
pub const GET_SERIAL_ID_COMMAND: u16 = 0x3682;

/// Command word: start the air quality measurement.
pub const INIT_AIR_QUALITY_COMMAND: u16 = 0x2003;

/// Command word: measure the air quality.
pub const MEASURE_AIR_QUALITY_COMMAND: u16 = 0x2008;

/// Command word: measure the raw signals.
pub const MEASURE_RAW_SIGNALS_COMMAND: u16 = 0x2050;

/// Command word: soft reset.
pub const RESET_COMMAND: u16 = 0x0006;

/// Command word: set the baseline of the air quality signals.
pub const SET_BASELINE_COMMAND: u16 = 0x201e;

/// Command word: set the absolute humidity for the on-chip compensation.
pub const SET_HUMIDITY_COMMAND: u16 = 0x2061;

/// The lowest product version that accepts a humidity value.
pub const FIRST_HUMIDITY_PRODUCT_VERSION: u8 = 0x20;

/// How long to wait after a write, before the sensor is asked anything else.
#[derive(Clone, Copy, Debug, PartialEq, Eq, Structural)]
pub enum Wait {
    /// Wait this many microseconds.
    Micros(u32),
    /// Wait this many milliseconds.
    Millis(u32),
}

/// One exchange with the sensor over the bus, to be carried out by the caller.
///
/// The steps of a transfer are carried out in order, and the first bus error
/// ends it: what comes after a failed step is skipped, and that error is what
/// the caller hands back to the library.
#[derive(Debug)]
pub enum Transfer {
    /// Write `bytes`, then wait; the wait is skipped when the write fails.
    Write { bytes: Vec<u8>, wait: Wait },
    /// Write `bytes`, wait, then read `len` bytes; the wait and the read are
    /// skipped when the write fails.
    WriteThenRead { bytes: Vec<u8>, wait: Wait, len: usize },
    /// Write `bytes` and read `len` bytes back within one I²C transaction.
    Transaction { bytes: Vec<u8>, len: usize },
}

/// A data word as it goes over the bus: its two bytes, then their checksum.
pub open spec fn framed(word: Seq<u8>) -> Seq<u8> {
    word + seq![crc8_nrsc5(word)]
}

/// Whether `t` writes exactly `bytes` and then waits `wait`.
pub open spec fn is_write(t: Transfer, bytes: Seq<u8>, wait: Wait) -> bool {
    t matches Transfer::Write { bytes: b, wait: w } && b@ == bytes && w == wait
}

/// Whether `t` writes exactly `bytes`, waits `wait` and then reads `len` bytes.
pub open spec fn is_write_then_read(t: Transfer, bytes: Seq<u8>, wait: Wait, len: int) -> bool {
    t matches Transfer::WriteThenRead { bytes: b, wait: w, len: n } && b@ == bytes && w == wait
        && n == len
}

/// Whether `t` writes exactly `bytes` and reads `len` bytes in one transaction.
pub open spec fn is_transaction(t: Transfer, bytes: Seq<u8>, len: int) -> bool {
    t matches Transfer::Transaction { bytes: b, len: n } && b@ == bytes && n == len
}

/// The product type that a feature set version announces: its top four bits.
pub open spec fn product_type(feature_set_version: u16) -> int {
    feature_set_version as int / 0x1000
}

/// The product version that a feature set version announces: its low byte.
pub open spec fn product_version(feature_set_version: u16) -> u8 {
    (feature_set_version as int % 0x100) as u8
}

/// Whether a feature set version belongs to an SGP30 this driver can work
/// with: product type 0 and a product version other than 0.
pub open spec fn product_accepted(feature_set_version: u16) -> bool {
    product_type(feature_set_version) == 0 && product_version(feature_set_version) != 0
}

/// What is known of a sensor that has been brought up.
#[derive(Clone, Copy, Debug, PartialEq, Eq, Structural)]
pub struct DeviceInfo {
    /// The bus address it answers on.
    pub address: u8,
    /// The product version it reported.
    pub product_version: u8,
}

/// The protocol state of one SGP30 sensor that has been brought up: the bus
/// address it answers on and the product version it reported.
#[derive(Debug)]
pub struct Sgp30 {
    address: u8,
    product_version: u8,
}

impl View for Sgp30 {
    type V = DeviceInfo;

    closed spec fn view(&self) -> DeviceInfo {
        DeviceInfo { address: self.address, product_version: self.product_version }
    }
}

/// The first step of bringing a sensor up: asking for its serial ID, which
/// tells whether a chip answers at the address at all.
#[derive(Debug)]
pub struct Probe {
    address: u8,
}

impl View for Probe {
    /// The address being probed.
    type V = u8;

    closed spec fn view(&self) -> u8 {
        self.address
    }
}

/// The second step of bringing a sensor up: a chip has answered, and its
/// feature set tells whether it is a product this driver works with.
#[derive(Debug)]
pub struct Identify {
    address: u8,
}

impl View for Identify {
    /// The address of the chip being identified.
    type V = u8;

    closed spec fn view(&self) -> u8 {
        self.address
    }
}

impl Sgp30 {
    #[verifier::type_invariant]
    spec fn has_product_version(self) -> bool {
        self.product_version != 0
    }

    /// The bytes of a command word, most significant first.
    pub fn command_bytes(command: u16) -> (bytes: Vec<u8>)
        ensures
            bytes@ == word_bytes(command),
    {
        let word = Self::get_u8_array_value(command);
        let mut bytes = Vec::new();
        bytes.push(word[0]);
        bytes.push(word[1]);
        assert(bytes@ =~= word@);
        bytes
    }

    /// Appends a data word and its checksum to a frame.
    fn push_word(frame: &mut Vec<u8>, word: [u8; 2])
        ensures
            final(frame)@ == old(frame)@ + framed(word@),
    {
        let crc = Self::calc_crc(&word);
        frame.push(word[0]);
        frame.push(word[1]);
        frame.push(crc);
        assert(final(frame)@ =~= old(frame)@ + framed(word@));
    }

    /// Starts bringing up the sensor at `address`.
    pub fn new(address: u8) -> (probe: Probe)
        ensures
            probe@ == address,
    {
        Probe { address }
    }

    /// The bus address of the sensor.
    pub fn address(&self) -> (address: u8)
        ensures
            address == self@.address,
    {
        self.address
    }

    /// The product version that the sensor reported; never 0.
    pub fn product_version(&self) -> (version: u8)
        ensures
            version == self@.product_version,
            version != 0,
    {
        proof {
            use_type_invariant(self);
        }
        self.product_version
    }

    /// The exchange that reads the serial ID.
    pub fn get_serial_id() -> (t: Transfer)
        ensures
            is_write_then_read(t, word_bytes(GET_SERIAL_ID_COMMAND), Wait::Micros(500), 9),
    {
        Transfer::WriteThenRead {
            bytes: Self::command_bytes(GET_SERIAL_ID_COMMAND),
            wait: Wait::Micros(500),
            len: 9,
        }
    }

    /// The exchange that reads the feature set version.
    pub fn get_feature_set_version() -> (t: Transfer)
        ensures
            is_transaction(t, word_bytes(GET_FEATURE_SET_VERSION_COMMAND), 3),
    {
        Transfer::Transaction { bytes: Self::command_bytes(GET_FEATURE_SET_VERSION_COMMAND), len: 3 }
    }

    /// The exchange that sends `command`, waits `wait` milliseconds and reads
    /// an air quality reply.
    pub fn get_air_quality(command: u16, wait: u32) -> (t: Transfer)
        ensures
            is_write_then_read(t, word_bytes(command), Wait::Millis(wait), 6),
    {
        Transfer::WriteThenRead { bytes: Self::command_bytes(command), wait: Wait::Millis(wait), len: 6 }
    }

    /// Get the baseline values for the air quality signals.
    ///
    /// The reply is decoded by [`Sgp30::air_quality_from_reply`]. The goal of
    /// this feature is to save the baseline at regular intervals on an external
    /// non-volatile memory and be able to restore these values after a new
    /// power-up or a soft reset of the sensor, with [`Sgp30::set_baseline`].
    pub fn get_baseline(&self) -> (t: Transfer)
        ensures
            is_write_then_read(t, word_bytes(GET_BASELINE_COMMAND), Wait::Millis(10), 6),
    {
        Self::get_air_quality(GET_BASELINE_COMMAND, 10)
    }

    /// Start the air quality measurement.
    ///
    /// After this, [`Sgp30::measure_air_quality`] has to be done at regular
    /// intervals of 1s. This has to be done after every power-up or after each
    /// soft reset performed with [`Sgp30::reset`].
    pub fn initialize_air_quality_measure(&self) -> (t: Transfer)
        ensures
            is_write(t, word_bytes(INIT_AIR_QUALITY_COMMAND), Wait::Millis(10)),
    {
        Transfer::Write { bytes: Self::command_bytes(INIT_AIR_QUALITY_COMMAND), wait: Wait::Millis(10) }
    }

    /// Measure the air quality (CO₂eq and TVOC).
    ///
    /// The reply is decoded by [`Sgp30::air_quality_from_reply`]. For the first
    /// 15s after the initialization, the sensor answers with fixed values of
    /// 400 ppm CO₂eq and 0 ppb TVOC.
    pub fn measure_air_quality(&self) -> (t: Transfer)
        ensures
            is_write_then_read(t, word_bytes(MEASURE_AIR_QUALITY_COMMAND), Wait::Millis(12), 6),
    {
        Self::get_air_quality(MEASURE_AIR_QUALITY_COMMAND, 12)
    }

    /// Measure the raw signals (H₂ and ethanol).
    ///
    /// The reply is decoded by [`Sgp30::raw_signals_from_reply`]. This is
    /// intended for part verification and testing purposes.
    pub fn measure_raw_signals(&self) -> (t: Transfer)
        ensures
            is_write_then_read(t, word_bytes(MEASURE_RAW_SIGNALS_COMMAND), Wait::Millis(25), 6),
    {
        Transfer::WriteThenRead {
            bytes: Self::command_bytes(MEASURE_RAW_SIGNALS_COMMAND),
            wait: Wait::Millis(25),
            len: 6,
        }
    }

    /// Perform a soft reset; afterwards wait for the sensor to enter its idle
    /// state.
    pub fn reset(&self) -> (t: Transfer)
        ensures
            is_write(t, word_bytes(RESET_COMMAND), Wait::Micros(600)),
    {
        Transfer::Write { bytes: Self::command_bytes(RESET_COMMAND), wait: Wait::Micros(600) }
    }

    /// Set the baseline values for the air quality signals: the TVOC word
    /// first, then the CO₂eq word, each with its checksum.
    ///
    /// This needs to be done just after [`Sgp30::initialize_air_quality_measure`],
    /// and prior to any [`Sgp30::measure_air_quality`].
    pub fn set_baseline(&self, baseline: AirQuality) -> (t: Transfer)
        ensures
            is_write(
                t,
                word_bytes(SET_BASELINE_COMMAND) + framed(word_bytes(baseline.tvoc)) + framed(
                    word_bytes(baseline.co2),
                ),
                Wait::Millis(10),
            ),
    {
        let mut data = Self::command_bytes(SET_BASELINE_COMMAND);
        let tvoc = Self::get_u8_array_value(baseline.tvoc);
        Self::push_word(&mut data, tvoc);
        let co2 = Self::get_u8_array_value(baseline.co2);
        Self::push_word(&mut data, co2);
        Transfer::Write { bytes: data, wait: Wait::Millis(10) }
    }

    /// Feed the on-chip humidity compensation algorithm with the absolute
    /// humidity, in g/m³ as an 8.8 fixed-point number: the integer part, then
    /// the fraction in 256ths.
    ///
    /// The feature is available from product version 0x20 on; on an older
    /// sensor this fails with [`Error::FeatureNotSupported`] and nothing is to
    /// be sent.
    pub fn set_humidity<E>(&self, humidity: [u8; 2]) -> (r: Result<Transfer, Error<E>>)
        ensures
            self@.product_version < FIRST_HUMIDITY_PRODUCT_VERSION ==> r matches Err(
                Error::FeatureNotSupported,
            ),
            self@.product_version >= FIRST_HUMIDITY_PRODUCT_VERSION ==> (r matches Ok(t) && is_write(
                t,
                word_bytes(SET_HUMIDITY_COMMAND) + framed(humidity@),
                Wait::Millis(10),
            )),
    {
        if self.product_version < FIRST_HUMIDITY_PRODUCT_VERSION {
            return Err(Error::FeatureNotSupported);
        }
        let mut data = Self::command_bytes(SET_HUMIDITY_COMMAND);
        Self::push_word(&mut data, humidity);
        Ok(Transfer::Write { bytes: data, wait: Wait::Millis(10) })
    }

    /// The outcome of a command that only writes: a bus error is reported as
    /// [`Error::I2c`].
    pub fn write_outcome<E>(written: Result<(), E>) -> (r: Result<(), Error<E>>)
        ensures
            match written {
                Ok(()) => r == Ok::<(), Error<E>>(()),
                Err(e) => r == Err::<(), Error<E>>(Error::I2c(e)),
            },
    {
        match written {
            Ok(()) => Ok(()),
            Err(e) => Err(Error::from(e)),
        }
    }

    /// The product version that a feature set version announces, or
    /// [`Error::InvalidProduct`] if it is not an SGP30 this driver works with.
    pub fn product_version_from<E>(feature_set_version: u16) -> (r: Result<u8, Error<E>>)
        ensures
            r == (if product_accepted(feature_set_version) {
                Ok::<u8, Error<E>>(product_version(feature_set_version))
            } else {
                Err(Error::InvalidProduct)
            }),
    {
        let product_type = (feature_set_version & 0xf000) >> 12;
        let version = (feature_set_version & 0x00ff) as u8;
        assert(product_type == feature_set_version / 0x1000 && version == feature_set_version
            % 0x100) by (bit_vector)
            requires
                product_type == (feature_set_version & 0xf000) >> 12,
                version == (feature_set_version & 0x00ff) as u8,
        ;
        if product_type != 0 || version == 0 {
            return Err(Error::InvalidProduct);
        }
        Ok(version)
    }
}

impl Probe {
    /// The address being probed.
    pub fn address(&self) -> (address: u8)
        ensures
            address == self@,
    {
        self.address
    }

    /// The exchange to carry out: reading the serial ID.
    pub fn transfer(&self) -> (t: Transfer)
        ensures
            is_write_then_read(t, word_bytes(GET_SERIAL_ID_COMMAND), Wait::Micros(500), 9),
    {
        Sgp30::get_serial_id()
    }

    /// Goes on with what the serial ID exchange gave: any failure, of the bus
    /// or of a checksum, means that no chip was detected.
    pub fn probed<E>(self, reply: Result<[u8; 9], E>) -> (r: Result<Identify, Error<E>>)
        ensures
            match reply {
                Ok(data) if reply_intact(data@, 3) => r matches Ok(next) && next@ == self@,
                _ => r matches Err(Error::ChipNotDetected),
            },
    {
        match Sgp30::serial_id_from_reply(reply) {
            Ok(_) => Ok(Identify { address: self.address }),
            Err(_) => Err(Error::ChipNotDetected),
        }
    }
}

impl Identify {
    /// The address of the chip being identified.
    pub fn address(&self) -> (address: u8)
        ensures
            address == self@,
    {
        self.address
    }

    /// The exchange to carry out: reading the feature set version.
    pub fn transfer(&self) -> (t: Transfer)
        ensures
            is_transaction(t, word_bytes(GET_FEATURE_SET_VERSION_COMMAND), 3),
    {
        Sgp30::get_feature_set_version()
    }

    /// Finishes bringing up the sensor with what the feature set exchange
    /// gave.
    pub fn identified<E>(self, reply: Result<[u8; 3], E>) -> (r: Result<Sgp30, Error<E>>)
        ensures
            match reply {
                Err(e) => r matches Err(Error::I2c(x)) && x == e,
                Ok(data) => if !reply_intact(data@, 1) {
                    r matches Err(Error::BadCrc)
                } else if !product_accepted(reply_word(data@, 0)) {
                    r matches Err(Error::InvalidProduct)
                } else {
                    r matches Ok(sensor) && sensor@ == (DeviceInfo {
                        address: self@,
                        product_version: product_version(reply_word(data@, 0)),
                    })
                },
            },
    {
        let feature_set_version = match Sgp30::feature_set_version_from_reply(reply) {
            Ok(v) => v,
            Err(e) => return Err(e),
        };
        let product_version = match Sgp30::product_version_from(feature_set_version) {
            Ok(v) => v,
            Err(e) => return Err(e),
        };
        Ok(Sgp30 { address: self.address, product_version })
    }
}

} // verus!
