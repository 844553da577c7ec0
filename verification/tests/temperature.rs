use piweather::modality::Temperature;

#[test]
fn temperature_celsius_to_celsius() {
    assert_eq!(
        Temperature::Celsius(1050).to_celsius(),
        Temperature::Celsius(1050)
    );
    assert_eq!(Temperature::Celsius(0).to_celsius(), Temperature::Celsius(0));

    assert_eq!(
        Temperature::Celsius(-1930).to_celsius(),
        Temperature::Celsius(-1930)
    );
}

#[test]
fn temperature_fahrenheit_to_fahrenheit() {
    assert_eq!(
        Temperature::Fahrenheit(1050).to_fahrenheit(),
        Temperature::Fahrenheit(1050)
    );
    assert_eq!(
        Temperature::Fahrenheit(0).to_fahrenheit(),
        Temperature::Fahrenheit(0)
    );

    assert_eq!(
        Temperature::Fahrenheit(-1930).to_fahrenheit(),
        Temperature::Fahrenheit(-1930)
    );
}

#[test]
fn temperature_celsius_to_fahrenheit() {
    assert_eq!(
        Temperature::Fahrenheit(-4000).to_celsius(),
        Temperature::Celsius(-4000),
    );
    assert_eq!(
        Temperature::Fahrenheit(5000).to_celsius(),
        Temperature::Celsius(1000)
    );
}

#[test]
fn temperature_fahrenheit_to_celsius() {
    assert_eq!(
        Temperature::Celsius(-4000).to_fahrenheit(),
        Temperature::Fahrenheit(-4000)
    );
    assert_eq!(
        Temperature::Celsius(990).to_fahrenheit(),
        Temperature::Fahrenheit(4982)
    );
}
