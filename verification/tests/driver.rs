use embedded_sgp30::{
    AirQuality, Error, Identify, Probe, Sgp30, Transfer, Wait, DEFAULT_I2C_ADDRESS,
    GET_BASELINE_COMMAND, GET_FEATURE_SET_VERSION_COMMAND, GET_SERIAL_ID_COMMAND,
    INIT_AIR_QUALITY_COMMAND, MEASURE_AIR_QUALITY_COMMAND, MEASURE_RAW_SIGNALS_COMMAND,
    RESET_COMMAND, SET_BASELINE_COMMAND, SET_HUMIDITY_COMMAND,
};

/// The error a simulated bus reports.
#[derive(Debug, Clone, Copy, PartialEq, Eq)]
struct BusError;

/// One exchange that the simulated bus expects, with what it answers.
enum Expect {
    Write(Vec<u8>),
    WriteFails(Vec<u8>),
    WriteRead(Vec<u8>, Vec<u8>),
    Transaction(Vec<u8>, Vec<u8>),
}

/// A simulated I²C bus that holds a list of expected exchanges, checks each
/// transfer against the next one and answers as it says.
struct Bus {
    expectations: Vec<Expect>,
    waits: Vec<Wait>,
}

impl Bus {
    fn new(expectations: Vec<Expect>) -> Self {
        let mut expectations = expectations;
        expectations.reverse();
        Bus { expectations, waits: Vec::new() }
    }

    fn exchange<const N: usize>(&mut self, transfer: Transfer) -> Result<[u8; N], BusError> {
        let expected = self.expectations.pop().expect("no more exchanges expected");
        let mut data = [0u8; N];
        match (transfer, expected) {
            (Transfer::Write { bytes, wait }, Expect::Write(want)) => {
                assert_eq!(bytes, want);
                assert_eq!(N, 0);
                self.waits.push(wait);
            }
            (Transfer::Write { bytes, .. }, Expect::WriteFails(want))
            | (Transfer::WriteThenRead { bytes, .. }, Expect::WriteFails(want)) => {
                assert_eq!(bytes, want);
                return Err(BusError);
            }
            (Transfer::WriteThenRead { bytes, wait, len }, Expect::WriteRead(want, answer)) => {
                assert_eq!(bytes, want);
                assert_eq!(len, N);
                assert_eq!(answer.len(), N);
                self.waits.push(wait);
                data.copy_from_slice(&answer);
            }
            (Transfer::Transaction { bytes, len }, Expect::Transaction(want, answer)) => {
                assert_eq!(bytes, want);
                assert_eq!(len, N);
                assert_eq!(answer.len(), N);
                data.copy_from_slice(&answer);
            }
            (transfer, _) => panic!("unexpected transfer {:?}", transfer),
        }
        Ok(data)
    }

    fn done(&self) {
        assert!(self.expectations.is_empty(), "expected exchanges left over");
    }
}

fn command(word: u16) -> Vec<u8> {
    vec![(word >> 8) as u8, (word & 0xff) as u8]
}

fn bring_up(bus: &mut Bus) -> Result<Sgp30, Error<BusError>> {
    let probe: Probe = Sgp30::new(DEFAULT_I2C_ADDRESS);
    let serial = bus.exchange::<9>(probe.transfer());
    let identify: Identify = probe.probed(serial)?;
    let features = bus.exchange::<3>(identify.transfer());
    identify.identified(features)
}

fn probe_expectations(feature_set: [u8; 3]) -> Vec<Expect> {
    vec![
        Expect::WriteRead(
            command(GET_SERIAL_ID_COMMAND),
            vec![0x01, 0x02, 0x17, 0x03, 0x04, 0x68, 0x05, 0x06, 0x50],
        ),
        Expect::Transaction(command(GET_FEATURE_SET_VERSION_COMMAND), feature_set.to_vec()),
    ]
}

fn create_device() -> Sgp30 {
    let mut bus = Bus::new(probe_expectations([0x00, 0x20, 0x07]));
    let device = bring_up(&mut bus).unwrap();
    bus.done();
    device
}

fn humidity_fixed_point(humidity: f32) -> [u8; 2] {
    [humidity.trunc() as u8, (humidity.fract() * 256.0).trunc() as u8]
}

#[test]
fn chip_not_detected() {
    let mut bus = Bus::new(vec![Expect::WriteFails(command(GET_SERIAL_ID_COMMAND))]);
    assert!(matches!(bring_up(&mut bus), Err(Error::ChipNotDetected)));
    bus.done();
}

#[test]
fn invalid_product() {
    let mut bus = Bus::new(probe_expectations([0x00, 0x00, 0x81]));
    assert!(matches!(bring_up(&mut bus), Err(Error::InvalidProduct)));
    bus.done();
}

#[test]
fn bad_crc() {
    let mut bus = Bus::new(probe_expectations([0x00, 0x00, 0x07]));
    assert!(matches!(bring_up(&mut bus), Err(Error::BadCrc)));
    bus.done();
}

#[test]
fn get_baseline() {
    let device = create_device();
    let mut bus = Bus::new(vec![Expect::WriteRead(
        command(GET_BASELINE_COMMAND),
        vec![0x02, 0x76, 0x06, 0x02, 0xdd, 0x10],
    )]);
    let reply = bus.exchange::<6>(device.get_baseline());
    Sgp30::air_quality_from_reply(reply).unwrap();
    bus.done();
}

#[test]
fn initialize_air_quality_measure() {
    let device = create_device();
    let mut bus = Bus::new(vec![Expect::Write(command(INIT_AIR_QUALITY_COMMAND))]);
    let written = bus.exchange::<0>(device.initialize_air_quality_measure()).map(|_| ());
    Sgp30::write_outcome(written).unwrap();
    bus.done();
}

#[test]
fn measure_air_quality() {
    let device = create_device();
    let mut bus = Bus::new(vec![Expect::WriteRead(
        command(MEASURE_AIR_QUALITY_COMMAND),
        vec![0x02, 0x76, 0x06, 0x02, 0xdd, 0x10],
    )]);
    let reply = bus.exchange::<6>(device.measure_air_quality());
    Sgp30::air_quality_from_reply(reply).unwrap();
    bus.done();
}

#[test]
fn measure_raw_signals() {
    let device = create_device();
    let mut bus = Bus::new(vec![Expect::WriteRead(
        command(MEASURE_RAW_SIGNALS_COMMAND),
        vec![0x00, 0x24, 0xc3, 0x01, 0x51, 0x3a],
    )]);
    let reply = bus.exchange::<6>(device.measure_raw_signals());
    Sgp30::raw_signals_from_reply(reply).unwrap();
    bus.done();
}

#[test]
fn reset() {
    let device = create_device();
    let mut bus = Bus::new(vec![Expect::Write(command(RESET_COMMAND))]);
    let written = bus.exchange::<0>(device.reset()).map(|_| ());
    Sgp30::write_outcome(written).unwrap();
    bus.done();
}

#[test]
fn set_baseline() {
    let air_quality = AirQuality { co2: 630, tvoc: 733 };
    let set_baseline = command(SET_BASELINE_COMMAND);
    let device = create_device();
    let mut bus = Bus::new(vec![Expect::Write(vec![
        set_baseline[0],
        set_baseline[1],
        0x02,
        0xdd,
        0x10,
        0x02,
        0x76,
        0x06,
    ])]);
    let written = bus.exchange::<0>(device.set_baseline(air_quality)).map(|_| ());
    Sgp30::write_outcome(written).unwrap();
    bus.done();
}

#[test]
fn set_humidity() {
    let set_humidity = command(SET_HUMIDITY_COMMAND);
    let device = create_device();
    let mut bus = Bus::new(vec![Expect::Write(vec![
        set_humidity[0],
        set_humidity[1],
        0x09,
        0x35,
        0x72,
    ])]);
    let transfer = device.set_humidity::<BusError>(humidity_fixed_point(9.21)).unwrap();
    let written = bus.exchange::<0>(transfer).map(|_| ());
    Sgp30::write_outcome(written).unwrap();
    bus.done();
}

#[test]
fn set_humidity_feature_not_supported() {
    let mut bus = Bus::new(probe_expectations([0x00, 0x1A, 0x19]));
    let device = bring_up(&mut bus).unwrap();
    assert!(matches!(
        device.set_humidity::<BusError>(humidity_fixed_point(9.21)),
        Err(Error::FeatureNotSupported)
    ));
    bus.done();
}
