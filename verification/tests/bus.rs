use piweather::bus::get_os_i2c_factory;
use piweather::bus::BusDevice;
use piweather::bus::LinuxI2CDeviceFactory;
use piweather::bus::MockBus;
use piweather::errors::PiWeatherError;

#[test]
fn factory_rejects_missing_device() {
    let missing = String::from("/dev/does-not-exist-piweather");
    match get_os_i2c_factory(missing.clone()) {
        Err(PiWeatherError::I2CError(path)) => assert_eq!(path, missing),
        other => panic!("expected a missing-device error, got {:?}", other),
    }
}

#[test]
fn factory_accepts_existing_path() {
    let factory = LinuxI2CDeviceFactory::new(String::from("/")).unwrap();
    assert_eq!(factory.fd, "/");
}

#[test]
fn mock_bus_reads_register_prefix() {
    let mut bus = MockBus::new(vec![10, 20, 30, 40]);
    assert_eq!(bus.read_frame(3).unwrap(), vec![10, 20, 30]);
    assert_eq!(bus.read_frame(4).unwrap(), vec![10, 20, 30, 40]);
    assert!(bus.read_frame(5).is_err());
    assert_eq!(bus.reads, 3);
}

#[test]
fn mock_bus_counts_writes_and_failures() {
    let mut bus = MockBus::failing();
    assert!(bus.write_frame(&vec![1, 2]).is_err());
    assert!(bus.read_frame(0).is_err());
    assert_eq!(bus.writes, 1);
    assert_eq!(bus.reads, 1);

    let mut healthy = MockBus::new(Vec::new());
    assert!(healthy.write_frame(&vec![1, 2]).is_ok());
    assert_eq!(healthy.writes, 1);
}
