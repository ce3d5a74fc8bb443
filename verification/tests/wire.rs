use avr_tester::AvrDuration;
use avr_tester::AvrState;
use avr_tester::CpuCyclesTaken;
use avr_tester::IoCtl;
use avr_tester::StepOutcome;
use avr_tester::Timeout;
use avr_tester::TwiPacket;
use avr_tester::spend_budget;

#[test]
fn ioctl_tags_pack_big_endian() {
    assert_eq!([b'a', b'd', b'c', b'0'], IoCtl::AdcGetIrq.into_ffi().to_be_bytes());
    assert_eq!(
        [b'i', b'o', b'g', b'C'],
        (IoCtl::IoPortGetIrq { port: 'C' }).into_ffi().to_be_bytes(),
    );
    assert_eq!(
        [b'i', b'o', b's', b'C'],
        (IoCtl::IoPortGetState { port: 'C' }).into_ffi().to_be_bytes(),
    );
    assert_eq!([b's', b'p', b'i', 3], (IoCtl::SpiGetIrq { id: 3 }).into_ffi().to_be_bytes());
    assert_eq!([b't', b'w', b'i', 3], (IoCtl::TwiGetIrq { id: 3 }).into_ffi().to_be_bytes());
    assert_eq!(
        [b'u', b'a', b'g', b'3'],
        (IoCtl::UartGetFlags { id: '3' }).into_ffi().to_be_bytes(),
    );
    assert_eq!(
        [b'u', b'a', b'r', b'3'],
        (IoCtl::UartGetIrq { id: '3' }).into_ffi().to_be_bytes(),
    );
    assert_eq!(
        [b'u', b'a', b's', b'3'],
        (IoCtl::UartSetFlags { id: '3' }).into_ffi().to_be_bytes(),
    );
}

#[test]
fn twi_packets_round_trip_through_the_wire_format() {
    let packet = TwiPacket { msg: TwiPacket::MSG_WRITE, addr: 0x44, data: 0xAB };

    assert_eq!(packet, TwiPacket::decode(packet.encode()));
    assert_eq!(u32::from_le_bytes([0, 16, 0x44, 0xAB]), packet.encode());
}

#[test]
fn twi_condition_bits_are_read_independently() {
    let packet = TwiPacket {
        msg: TwiPacket::MSG_START | TwiPacket::MSG_ADDR | TwiPacket::MSG_WRITE,
        addr: 0x44,
        data: 0,
    };

    assert!(packet.is_start());
    assert!(!packet.is_stop());
    assert!(packet.is_addr());
    assert!(!packet.is_ack());
    assert!(packet.is_write());
    assert!(!packet.is_read());
}

#[test]
fn twi_responses_keep_the_address() {
    let packet = TwiPacket { msg: TwiPacket::MSG_READ, addr: 0x44, data: 0 };

    let ack = packet.respond_ack();
    assert_eq!(TwiPacket::MSG_ACK, ack.msg);
    assert_eq!(0x44, ack.addr);
    assert_eq!(1, ack.data);

    let data = packet.respond_data(0x99);
    assert_eq!(TwiPacket::MSG_READ, data.msg);
    assert_eq!(0x44, data.addr);
    assert_eq!(0x99, data.data);
}

#[test]
fn cpu_cycles_taken_is_positive() {
    let taken = CpuCyclesTaken::new(2);

    assert_eq!(2, taken.get());
}

#[test]
fn step_outcome_carries_state_and_duration() {
    let outcome = StepOutcome { state: AvrState::Running, tt: AvrDuration::new(16_000_000, 2) };

    assert_eq!(AvrState::Running, outcome.state);
    assert_eq!(2, outcome.tt.as_cycles());
    assert!(!outcome.state.is_fatal());
    assert!(AvrState::Crashed.is_fatal());
    assert!(AvrState::Sleeping.is_fatal());
    assert!(AvrState::Limbo.is_fatal());
}

#[test]
fn timeouts_convert_to_microseconds() {
    assert_eq!(2_000_000, Timeout::from_secs(2).as_micros());
    assert_eq!(2_000, Timeout::from_millis(2).as_micros());
    assert_eq!(2, Timeout::from_micros(2).as_micros());
}

#[test]
fn budget_runs_out_exactly_at_zero() {
    // No budget: the run can never time out.
    assert_eq!((None, false), spend_budget(None, 1_000));

    // With a budget, each step's cycles are deducted...
    assert_eq!((Some(7), false), spend_budget(Some(10), 3));

    // ...and the run times out on the step that exhausts it, also when
    // the step overshoots:
    assert_eq!((Some(0), true), spend_budget(Some(3), 3));
    assert_eq!((Some(0), true), spend_budget(Some(3), 5));
}
