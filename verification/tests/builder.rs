use avr_tester::AvrTesterBuilder;
use avr_tester::Timeout;

fn target() -> AvrTesterBuilder {
    AvrTesterBuilder::new("some-random-avr")
}

#[test]
fn with_clock() {
    let target = target().with_clock(123);

    assert_eq!(Some(123), target.clock);
}

#[test]
fn with_clock_of_1_mhz() {
    let target = target().with_clock_of_1_mhz();

    assert_eq!(Some(1_000_000), target.clock);
}

#[test]
fn with_clock_of_4_mhz() {
    let target = target().with_clock_of_4_mhz();

    assert_eq!(Some(4_000_000), target.clock);
}

#[test]
fn with_clock_of_8_mhz() {
    let target = target().with_clock_of_8_mhz();

    assert_eq!(Some(8_000_000), target.clock);
}

#[test]
fn with_clock_of_12_mhz() {
    let target = target().with_clock_of_12_mhz();

    assert_eq!(Some(12_000_000), target.clock);
}

#[test]
fn with_clock_of_16_mhz() {
    let target = target().with_clock_of_16_mhz();

    assert_eq!(Some(16_000_000), target.clock);
}

#[test]
fn with_clock_of_20_mhz() {
    let target = target().with_clock_of_20_mhz();

    assert_eq!(Some(20_000_000), target.clock);
}

#[test]
fn with_clock_of_24_mhz() {
    let target = target().with_clock_of_24_mhz();

    assert_eq!(Some(24_000_000), target.clock);
}

#[test]
fn with_timeout() {
    let target = target().with_timeout(Timeout::from_secs(321));

    // The actual timeouting logic is covered by the scheduler tests - in
    // here we just want to assert that the field is stored correctly:
    assert_eq!(Some(Timeout::from_secs(321)), target.timeout);
}

#[test]
fn with_timeout_of_s() {
    let target = target().with_timeout_of_s(123);

    assert_eq!(Some(Timeout::from_secs(123)), target.timeout);
}

#[test]
fn with_timeout_of_ms() {
    let target = target().with_timeout_of_ms(123);

    assert_eq!(Some(Timeout::from_millis(123)), target.timeout);
}

#[test]
fn with_timeout_of_us() {
    let target = target().with_timeout_of_us(123);

    assert_eq!(Some(Timeout::from_micros(123)), target.timeout);
}

#[test]
fn new_has_no_clock_and_no_timeout() {
    let target = target();

    assert_eq!("some-random-avr", target.mcu);
    assert_eq!(None, target.clock);
    assert_eq!(None, target.timeout);
}
