use embassy_daq::accel::{accel_frame, read_request};
use embassy_daq::button::ButtonMonitor;
use embassy_daq::can_frame::{daq_frame, CanFrame, DAQ_FRAME_ID};
use embassy_daq::echo::{count_frame, next_count, reply_to};
use embassy_daq::load_cell::{Action, Outcome, Phase};

#[test]
fn frame_accepts_standard_ids_and_short_payloads() {
    let f = CanFrame::new_data(0x7FF, &[1, 2, 3, 4, 5, 6, 7, 8]).unwrap();
    assert_eq!(f.id(), 0x7FF);
    assert_eq!(f.data(), &[1, 2, 3, 4, 5, 6, 7, 8]);
    let empty = CanFrame::new_data(0, &[]).unwrap();
    assert_eq!(empty.id(), 0);
    assert!(empty.data().is_empty());
}

#[test]
fn frame_rejects_long_ids_and_long_payloads() {
    assert!(CanFrame::new_data(0x800, &[1]).is_none());
    assert!(CanFrame::new_data(0xFFFF, &[]).is_none());
    assert!(CanFrame::new_data(0x123, &[0; 9]).is_none());
}

#[test]
fn daq_frames_use_the_firmware_id() {
    let f = daq_frame(&[9, 8, 7]);
    assert_eq!(f.id(), 0x123);
    assert_eq!(DAQ_FRAME_ID, 0x123);
    assert_eq!(f.data(), &[9, 8, 7]);
}

/// A comparable description of an action.
#[derive(Debug, PartialEq)]
enum Step {
    Wait(u64),
    Write([u8; 3]),
    Read(usize),
    Send(u16, Vec<u8>),
    Led,
    Poll,
}

fn describe(a: &Action) -> Step {
    match a {
        Action::Wait(ms) => Step::Wait(*ms),
        Action::WriteSensor(b) => Step::Write(*b),
        Action::ReadSensor(n) => Step::Read(*n),
        Action::Transmit(f) => Step::Send(f.id(), f.data().to_vec()),
        Action::ToggleLed => Step::Led,
        Action::CheckDataReady => Step::Poll,
    }
}

#[test]
fn load_cell_power_up_sequence() {
    let mut phase = Phase::PowerUp;
    let mut steps = Vec::new();
    for _ in 0..12 {
        let a = phase.action();
        steps.push(describe(&a));
        let outcome = match a {
            Action::ReadSensor(3) => Outcome::ConfigRead([0x00, 0x12, 0x34]),
            _ => Outcome::Done,
        };
        phase = phase.advance(outcome).unwrap();
    }
    assert_eq!(
        steps,
        vec![
            Step::Wait(3),
            Step::Write([0xA0, 0x00, 0x00]),
            Step::Wait(10),
            Step::Write([0x0F, 0x00, 0x00]),
            Step::Read(3),
            Step::Wait(1),
            Step::Send(0x123, vec![0x00, 0x12, 0x34]),
            Step::Write([0x4F, 0x12, 0x74]),
            Step::Wait(15),
            Step::Send(0x123, vec![0x4F, 0x12, 0x74]),
            Step::Write([0x80, 0x00, 0x00]),
            Step::Wait(20),
        ]
    );
    assert_eq!(phase, Phase::BlinkLed);
}

#[test]
fn load_cell_measurement_cycle() {
    let mut phase = Phase::BlinkLed;
    let mut steps = Vec::new();
    let outcomes = [
        Outcome::Done,
        Outcome::DataReady(false),
        Outcome::Done,
        Outcome::DataReady(true),
        Outcome::SampleRead([0xC1, 0x02, 0x03, 0x04]),
        Outcome::Done,
        Outcome::Done,
    ];
    for o in outcomes {
        steps.push(describe(&phase.action()));
        phase = phase.advance(o).unwrap();
    }
    assert_eq!(
        steps,
        vec![
            Step::Led,
            Step::Poll,
            Step::Wait(10),
            Step::Poll,
            Step::Read(4),
            Step::Send(0x123, vec![0x03, 0x01, 0x02, 0x10, 0x18]),
            Step::Wait(100),
        ]
    );
    assert_eq!(phase, Phase::BlinkLed);
}

#[test]
fn load_cell_refuses_outcomes_that_do_not_answer() {
    assert_eq!(Phase::PowerUp.advance(Outcome::DataReady(true)), None);
    assert_eq!(Phase::ReadBridgeConfig.advance(Outcome::Done), None);
    assert_eq!(Phase::ReadSample.advance(Outcome::ConfigRead([0; 3])), None);
    assert_eq!(Phase::AwaitDataReady.advance(Outcome::Done), None);
}

#[test]
fn echo_count_increments_and_wraps_after_five() {
    let expected = [1u8, 2, 3, 4, 5, 0];
    for (r, e) in (0u8..6).zip(expected) {
        assert_eq!(next_count(r), e);
    }
    assert_eq!(next_count(6), 0);
    assert_eq!(next_count(200), 0);
    assert_eq!(next_count(254), 0);
    assert_eq!(next_count(255), 0);
    let mut c = 0u8;
    for _ in 0..6 {
        c = next_count(c);
    }
    assert_eq!(c, 0);
}

#[test]
fn echo_reply_announces_the_new_count() {
    let (count, reply) = reply_to(&[3, 99]);
    assert_eq!(count, 4);
    assert_eq!(reply.id(), 4);
    assert_eq!(reply.data(), &[4]);
    let f = count_frame(0);
    assert_eq!(f.id(), 0);
    assert_eq!(f.data(), &[0]);
    let (count, reply) = reply_to(&[5]);
    assert_eq!(count, 0);
    assert_eq!(reply.id(), 0);
    assert_eq!(reply.data(), &[0]);
}

#[test]
fn button_announces_once_per_press() {
    let mut m = ButtonMonitor::new();
    let samples = [false, true, true, true, false, true, false, false, true];
    let mut announced = Vec::new();
    let mut leds = Vec::new();
    for s in samples {
        let r = m.update(s);
        announced.push(r.announce);
        leds.push(r.led_high);
    }
    assert_eq!(announced, vec![false, true, false, false, false, true, false, false, true]);
    assert_eq!(leds, samples.to_vec());
    assert!(m.button_pressed);
}

#[test]
fn accel_request_and_report() {
    assert_eq!(read_request(), [0x82]);
    let f = accel_frame([1, 2, 3, 4, 5, 6]);
    assert_eq!(f.id(), 0x123);
    assert_eq!(f.data(), &[1, 2, 3, 4, 5, 6]);
}
