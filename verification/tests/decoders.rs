use piweather::modality::AirQuality;
use piweather::modality::Modality;
use piweather::modality::Particle;
use piweather::modality::Temperature;
use piweather::errors::DriverError;
use piweather::errors::ProtocolError;
use piweather::bus::MockBus;
use piweather::sensors::am2315::humidity_from_le_bytes;
use piweather::sensors::am2315::temperature_from_le_bytes;
use piweather::sensors::am2315::Am2315;
use piweather::sensors::am2315::Am2315Readout;
use piweather::sensors::pmsa003::ConcentrationUnit::Environmental;
use piweather::sensors::pmsa003::ConcentrationUnit::Standard;
use piweather::sensors::pmsa003::PmsA003;
use piweather::sensors::pmsa003::PmsA003Particle;
use piweather::sensors::pmsa003::PmsA003Readout;

const AM2315_REGISTER: [u8; 8] = [0x03, 0x04, 0x03, 0x39, 0x01, 0x15, 0xE1, 0xFE];

const PMSA003_REGISTER: [u8; 32] = [
    'B' as u8,
    'M' as u8,
    0,
    28,
    1,
    1,
    1,
    1,
    1,
    1,
    1,
    1,
    1,
    1,
    1,
    1,
    1,
    1,
    1,
    1,
    1,
    1,
    1,
    1,
    1,
    1,
    1,
    1,
    1,
    1,
    0,
    (26 + 28 + 66 + 77),
];

#[test]
fn read_humidity() {
    let humidity = humidity_from_le_bytes(0x03, 0x39);
    assert_eq!(humidity, 825);
}

#[test]
fn read_temperature() {
    let temperature = temperature_from_le_bytes(0x01, 0x15);
    assert_eq!(temperature, 277);
}

#[test]
fn read_temperature_sign_bit() {
    // The same magnitude with bit 15 of the raw value set is negative.
    assert_eq!(temperature_from_le_bytes(0x01, 0x15), 277);
    assert_eq!(temperature_from_le_bytes(0x81, 0x15), -277);
}

#[test]
fn amd2315_read() {
    // Write dummy data to the register bank of the in-memory bus.
    let device = MockBus::new(AM2315_REGISTER.to_vec());

    let mut am2315 = Am2315::new(device);

    // Handle read
    let readouts = am2315.read_temperature_and_humidity(0);
    assert!(readouts.is_ok(), "Error while reading from the sensor");

    let readouts = readouts.unwrap();

    for r in readouts {
        match r {
            Am2315Readout::Temperature(t) => assert!((277 - t as i32).abs() < 5),
            Am2315Readout::Humidity(h) => assert!((825 - h as i32).abs() < 10),
        }
    }
}

#[test]
fn am2315_decode_is_deterministic() {
    let frame = vec![0x03, 0x04, 0x03, 0x39, 0x81, 0x15];
    let first = Am2315::<MockBus>::decode(&frame).unwrap();
    let second = Am2315::<MockBus>::decode(&frame).unwrap();
    assert_eq!(first, second);
    assert_eq!(first, vec![
        Am2315Readout::Temperature(-277),
        Am2315Readout::Humidity(825),
    ]);
}

#[test]
fn am2315_decode_rejects_op_code() {
    let frame = vec![0x04, 0x04, 0x03, 0x39, 0x01, 0x15];
    assert_eq!(
        Am2315::<MockBus>::decode(&frame),
        Err(ProtocolError::OpCodeMismatch)
    );
}

#[test]
fn am2315_decode_rejects_length() {
    let frame = vec![0x03, 0x05, 0x03, 0x39, 0x01, 0x15];
    assert_eq!(
        Am2315::<MockBus>::decode(&frame),
        Err(ProtocolError::LengthMismatch)
    );
}

#[test]
fn am2315_bus_failure_is_bus_io() {
    let mut am2315 = Am2315::new(MockBus::failing());
    assert_eq!(am2315.read(0), Err(DriverError::BusIo));
}

#[test]
fn pmsa003_read() {
    // Write dummy data to the register bank of the in-memory bus.
    let device = MockBus::new(PMSA003_REGISTER.to_vec());

    let mut pmsa003 = PmsA003::new(device);

    // Handle read
    let readouts = pmsa003.read();
    assert!(readouts.is_ok(), "Error while reading from the sensor");

    let readouts = readouts.unwrap();
    if let Some(readouts) = readouts {
        assert_eq!(
            readouts[0],
            PmsA003Readout::Concentration(PmsA003Particle::PM1_0, Standard, 257)
        );
        assert_eq!(
            readouts[1],
            PmsA003Readout::Concentration(PmsA003Particle::PM2_5, Standard, 257)
        );
        assert_eq!(
            readouts[2],
            PmsA003Readout::Concentration(PmsA003Particle::PM10_0, Standard, 257)
        );
        assert_eq!(
            readouts[3],
            PmsA003Readout::Concentration(PmsA003Particle::PM1_0, Environmental, 257)
        );
        assert_eq!(
            readouts[4],
            PmsA003Readout::Concentration(PmsA003Particle::PM2_5, Environmental, 257)
        );
        assert_eq!(
            readouts[5],
            PmsA003Readout::Concentration(PmsA003Particle::PM10_0, Environmental, 257)
        );
        assert_eq!(
            readouts[6],
            PmsA003Readout::Count(PmsA003Particle::PM0_3, 257)
        );
        assert_eq!(
            readouts[7],
            PmsA003Readout::Count(PmsA003Particle::PM0_5, 257)
        );
        assert_eq!(
            readouts[8],
            PmsA003Readout::Count(PmsA003Particle::PM1_0, 257)
        );
        assert_eq!(
            readouts[9],
            PmsA003Readout::Count(PmsA003Particle::PM2_5, 257)
        );
        assert_eq!(
            readouts[10],
            PmsA003Readout::Count(PmsA003Particle::PM5_0, 257)
        );
        assert_eq!(
            readouts[11],
            PmsA003Readout::Count(PmsA003Particle::PM10_0, 257)
        );
    }
}

#[test]
fn pmsa003_decode_is_deterministic() {
    let frame = PMSA003_REGISTER.to_vec();
    let first = PmsA003::<MockBus>::decode(&frame).unwrap();
    let second = PmsA003::<MockBus>::decode(&frame).unwrap();
    assert_eq!(first, second);
}

#[test]
fn pmsa003_rejects_flipped_payload_byte() {
    // Flipping any single payload byte must fail the checksum check.
    for i in 4..30 {
        let mut frame = PMSA003_REGISTER.to_vec();
        frame[i] = frame[i] ^ 0xFF;
        assert_eq!(
            PmsA003::<MockBus>::decode(&frame),
            Err(ProtocolError::ChecksumMismatch)
        );
    }
}

#[test]
fn pmsa003_rejects_bad_header() {
    let mut frame = PMSA003_REGISTER.to_vec();
    frame[0] = 'C' as u8;
    assert_eq!(
        PmsA003::<MockBus>::decode(&frame),
        Err(ProtocolError::BadHeader)
    );
}

#[test]
fn pmsa003_rejects_declared_length() {
    let mut frame = PMSA003_REGISTER.to_vec();
    frame[3] = 27;
    assert_eq!(
        PmsA003::<MockBus>::decode(&frame),
        Err(ProtocolError::LengthMismatch)
    );
}

#[test]
fn readouts_lift_into_the_measurement_model() {

    // Tenths of a degree become hundredths in the model; humidity keeps its
    // tenths; air-quality values carry over unchanged.
    assert_eq!(
        Modality::from(Am2315Readout::Temperature(-277)),
        Modality::Temperature(Temperature::Celsius(-2770))
    );
    assert_eq!(
        Modality::from(Am2315Readout::Humidity(825)),
        Modality::Humidity(825)
    );
    assert_eq!(
        Modality::from(PmsA003Readout::Concentration(
            PmsA003Particle::PM2_5,
            Environmental,
            257
        )),
        Modality::AirQuality(AirQuality::Concentration(Particle::PM2_5, 257))
    );
    assert_eq!(
        Modality::from(PmsA003Readout::Count(PmsA003Particle::PM0_5, 42)),
        Modality::AirQuality(AirQuality::Count(Particle::PM0_5, 42))
    );
}

#[test]
fn pmsa003_bus_failure_is_bus_io() {
    let mut pmsa003 = PmsA003::new(MockBus::failing());
    assert_eq!(pmsa003.read(), Err(DriverError::BusIo));
}
