use piweather::bus::MockBus;
use piweather::errors::TransmitError;
use piweather::modality::AirQuality;
use piweather::modality::Modality;
use piweather::modality::Particle;
use piweather::modality::Temperature;
use piweather::engine::next_tick_boundary;
use piweather::engine::PiWeatherEngine;
use piweather::sensors::am2315::Am2315;
use piweather::sensors::pmsa003::PmsA003;
use piweather::sensors::PiWeatherSensor;
use piweather::transmitters::transmit_status_outcome;
use piweather::transmitters::MockTransmitter;

const AM2315_FRAME: [u8; 6] = [0x03, 0x04, 0x03, 0x39, 0x01, 0x15];

fn pmsa003_frame() -> Vec<u8> {
    let mut frame = vec![('B' as u8), ('M' as u8), 0, 28];
    for _ in 4..30 {
        frame.push(1);
    }
    // Checksum: 66 + 77 + 28 + 26 ones.
    frame.push(0);
    frame.push(26 + 28 + 66 + 77);
    frame
}

fn am2315_sensor() -> PiWeatherSensor<MockBus> {
    PiWeatherSensor::Am2315(Am2315::new(MockBus::new(AM2315_FRAME.to_vec())))
}

fn pmsa003_sensor() -> PiWeatherSensor<MockBus> {
    PiWeatherSensor::PmsA003(PmsA003::new(MockBus::new(pmsa003_frame())))
}

fn failing_sensor() -> PiWeatherSensor<MockBus> {
    PiWeatherSensor::Am2315(Am2315::new(MockBus::failing()))
}

fn tick_ok(
    engine: &mut PiWeatherEngine<MockBus, MockTransmitter>,
    now_ms: u64,
) -> piweather::engine::TickStats {
    match engine.tick(now_ms) {
        Ok((stats, _)) => stats,
        Err(_) => panic!("tick was not expected to fail"),
    }
}

#[test]
fn debounce_serves_cache_then_rereads() {
    let mut driver = Am2315::new(MockBus::new(AM2315_FRAME.to_vec()));

    let first = driver.read(0).unwrap().unwrap();
    assert_eq!(driver.device.reads, 1);
    assert_eq!(driver.device.writes, 2);

    // Within the minimum re-read interval: the identical cached readouts,
    // and no second bus transaction.
    let second = driver.read(1000).unwrap().unwrap();
    assert_eq!(second, first);
    assert_eq!(driver.device.reads, 1);
    assert_eq!(driver.device.writes, 2);

    // Once the interval has elapsed: a fresh transaction.
    let third = driver.read(2000).unwrap().unwrap();
    assert_eq!(third, first);
    assert_eq!(driver.device.reads, 2);
    assert_eq!(driver.device.writes, 4);
}

#[test]
fn engine_isolates_failing_sensor() {
    // Three registered sensors; the middle one always fails. Every tick's
    // batch holds the successful bundles of the two others, in order.
    let mut engine = PiWeatherEngine::new(2000, MockTransmitter::new());
    engine.register_sensor(am2315_sensor());
    engine.register_sensor(failing_sensor());
    engine.register_sensor(pmsa003_sensor());

    for tick in 0..3u64 {
        let stats = tick_ok(&mut engine, tick * 100);
        assert_eq!(stats.sensors_polled, 3);
        assert_eq!(stats.batch_len, 2);
        assert!(stats.delivered);
    }

    assert_eq!(engine.transmitter.sent.len(), 3);
    for batch in &engine.transmitter.sent {
        assert_eq!(batch.len(), 2);
        assert_eq!(batch[0].readouts.len(), 2);
        assert_eq!(
            batch[0].readouts[0],
            Modality::Temperature(Temperature::Celsius(2770))
        );
        assert_eq!(batch[0].readouts[1], Modality::Humidity(825));
        assert_eq!(batch[1].readouts.len(), 12);
        assert_eq!(
            batch[1].readouts[0],
            Modality::AirQuality(AirQuality::Concentration(Particle::PM1_0, 257))
        );
        assert_eq!(
            batch[1].readouts[6],
            Modality::AirQuality(AirQuality::Count(Particle::PM0_3, 257))
        );
    }
}

#[test]
fn three_tick_acquisition_scenario() {
    // One temperature/humidity sensor whose bus always returns the fixed
    // valid frame; three ticks inside the driver's re-read interval: exactly
    // one physical bus transaction, two cache hits, and three non-empty
    // batches delivered to the transmitter.
    let mut engine = PiWeatherEngine::new(900, MockTransmitter::new());
    engine.register_sensor(am2315_sensor());

    for tick in 0..3u64 {
        let stats = tick_ok(&mut engine, tick * 900);
        assert_eq!(stats.sensors_polled, 1);
        assert_eq!(stats.batch_len, 1);
        assert!(stats.delivered);
    }

    match &engine.sensors[0] {
        PiWeatherSensor::Am2315(driver) => {
            assert_eq!(driver.device.reads, 1);
            assert_eq!(driver.last_read, Some(0));
        }
        _ => unreachable!(),
    }

    assert_eq!(engine.transmitter.sent.len(), 3);
    for (tick, batch) in engine.transmitter.sent.iter().enumerate() {
        assert_eq!(batch.len(), 1);
        assert_eq!(batch[0].when_ms, (tick as u64) * 900);
        assert_eq!(
            batch[0].readouts,
            vec![
                Modality::Temperature(Temperature::Celsius(2770)),
                Modality::Humidity(825),
            ]
        );
    }
}

#[test]
fn transmitter_failure_is_escalated() {
    let mut engine = PiWeatherEngine::new(2000, MockTransmitter::failing());
    engine.register_sensor(am2315_sensor());

    let err = match engine.tick(0) {
        Err((err, _)) => err,
        Ok(_) => panic!("expected the transmitter failure to be escalated"),
    };
    assert_eq!(err, TransmitError::HttpTransmitterError(None, None));
    assert_eq!(engine.transmitter.sent.len(), 0);
}

#[test]
fn empty_engine_tick_sends_nothing() {
    let mut engine: PiWeatherEngine<MockBus, MockTransmitter> =
        PiWeatherEngine::new(2000, MockTransmitter::failing());
    let stats = tick_ok(&mut engine, 0);
    assert_eq!(stats.sensors_polled, 0);
    assert_eq!(stats.batch_len, 0);
    assert!(!stats.delivered);
    assert_eq!(engine.transmitter.sent.len(), 0);
}

#[test]
fn transmit_status_rule() {
    assert_eq!(transmit_status_outcome(200), Ok(()));
    assert_eq!(transmit_status_outcome(204), Ok(()));
    assert_eq!(transmit_status_outcome(299), Ok(()));
    assert_eq!(
        transmit_status_outcome(199),
        Err(TransmitError::HttpTransmitterError(Some(199), None))
    );
    assert_eq!(
        transmit_status_outcome(404),
        Err(TransmitError::HttpTransmitterError(Some(404), None))
    );
    assert_eq!(
        transmit_status_outcome(500),
        Err(TransmitError::HttpTransmitterError(Some(500), None))
    );
}

#[test]
fn tick_boundary_is_start_plus_interval() {
    assert_eq!(next_tick_boundary(1000, 600), 1600);
    assert_eq!(next_tick_boundary(u64::MAX - 5, 600), u64::MAX);
}
