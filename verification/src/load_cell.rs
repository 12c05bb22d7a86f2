//! The load-cell firmware's decisions, as a state machine that a driver runs.
//!
//! At power-up the driver sets the sensor's preamp gain to 192: it enters
//! command mode, reads the bridge configuration, reports it over CAN, writes
//! it back with the new gain, reports what it wrote and leaves command mode.
//! It then measures forever: toggle the LED, wait for the data-ready line,
//! read a measurement, send it over CAN and pause.
//!
//! The driver asks a phase for its [`Action`], performs it, and hands the
//! [`Outcome`] to [`Phase::advance`] for the next phase.

use vstd::prelude::*;
use crate::can_frame::{CanFrame, DAQ_FRAME_ID, daq_frame};
use crate::sensor::{
    CMD_MODE_START,
    CMD_MODE_STOP,
    EEPROM_BRIDGE_CONFIG,
    bridge_config_update,
    config_update_frame_spec,
    sample_payload,
    sample_payload_spec,
    be_word_spec,
    lemma_config_update_frame,
    lemma_sample_payload_bytes,
};

verus! {

/// Something for the driver to do.
#[derive(Debug, PartialEq, Eq)]
pub enum Action {
    /// Wait this many milliseconds.
    Wait(u64),
    /// Write these bytes to the sensor over I2C.
    WriteSensor([u8; 3]),
    /// Read this many bytes from the sensor over I2C.
    ReadSensor(usize),
    /// Send this frame on the CAN bus.
    Transmit(CanFrame),
    /// Toggle the status LED.
    ToggleLed,
    /// Sample the sensor's data-ready line.
    CheckDataReady,
}

/// What performing an action gave.
#[derive(Clone, Copy, Debug, PartialEq, Eq)]
pub enum Outcome {
    /// The action finished and returned nothing.
    Done,
    /// The three bytes the sensor answered a configuration read with.
    ConfigRead([u8; 3]),
    /// The four bytes the sensor answered a measurement read with.
    SampleRead([u8; 4]),
    /// The data-ready line: `true` when it is high.
    DataReady(bool),
}

/// Where the firmware stands.
#[derive(Clone, Copy, Debug, PartialEq, Eq)]
pub enum Phase {
    PowerUp,
    StartCommandMode,
    CommandModeSettle,
    RequestBridgeConfig,
    ReadBridgeConfig,
    ConfigReadSettle { config: [u8; 3] },
    ReportBridgeConfig { config: [u8; 3] },
    WriteBridgeConfig { config: [u8; 3] },
    ConfigWriteSettle { config: [u8; 3] },
    ReportConfigUpdate { config: [u8; 3] },
    EndCommandMode,
    CommandExitSettle,
    BlinkLed,
    AwaitDataReady,
    DataReadyBackoff,
    ReadSample,
    ReportSample { sample: [u8; 4] },
    SamplePause,
}

/// `a` writes exactly the bytes `bytes` to the sensor.
pub open spec fn writes(a: Action, bytes: Seq<u8>) -> bool {
    a matches Action::WriteSensor(w) && w@ == bytes
}

/// `a` sends exactly a frame with the firmware's identifier carrying `payload`.
pub open spec fn transmits(a: Action, payload: Seq<u8>) -> bool {
    a matches Action::Transmit(f) && f@ == (DAQ_FRAME_ID, payload)
}

impl Phase {
    /// The action the driver performs in this phase.
    pub open spec fn emits(self, a: Action) -> bool {
        match self {
            Phase::PowerUp => a == Action::Wait(3),
            Phase::StartCommandMode => writes(a, seq![CMD_MODE_START, 0, 0]),
            Phase::CommandModeSettle => a == Action::Wait(10),
            Phase::RequestBridgeConfig => writes(a, seq![EEPROM_BRIDGE_CONFIG, 0, 0]),
            Phase::ReadBridgeConfig => a == Action::ReadSensor(3),
            Phase::ConfigReadSettle { .. } => a == Action::Wait(1),
            Phase::ReportBridgeConfig { config } => transmits(a, config@),
            Phase::WriteBridgeConfig { config } => writes(a, config_update_frame_spec(config@)),
            Phase::ConfigWriteSettle { .. } => a == Action::Wait(15),
            Phase::ReportConfigUpdate { config } => transmits(a, config_update_frame_spec(config@)),
            Phase::EndCommandMode => writes(a, seq![CMD_MODE_STOP, 0, 0]),
            Phase::CommandExitSettle => a == Action::Wait(20),
            Phase::BlinkLed => a == Action::ToggleLed,
            Phase::AwaitDataReady => a == Action::CheckDataReady,
            Phase::DataReadyBackoff => a == Action::Wait(10),
            Phase::ReadSample => a == Action::ReadSensor(4),
            Phase::ReportSample { sample } => transmits(
                a,
                sample_payload_spec(be_word_spec(sample[0], sample[1], sample[2], sample[3])),
            ),
            Phase::SamplePause => a == Action::Wait(100),
        }
    }

    /// The phase after this one, given the outcome of its action; `None` when
    /// the outcome does not answer that action.
    pub open spec fn next(self, outcome: Outcome) -> Option<Phase> {
        match (self, outcome) {
            (Phase::PowerUp, Outcome::Done) => Some(Phase::StartCommandMode),
            (Phase::StartCommandMode, Outcome::Done) => Some(Phase::CommandModeSettle),
            (Phase::CommandModeSettle, Outcome::Done) => Some(Phase::RequestBridgeConfig),
            (Phase::RequestBridgeConfig, Outcome::Done) => Some(Phase::ReadBridgeConfig),
            (Phase::ReadBridgeConfig, Outcome::ConfigRead(config)) => Some(
                Phase::ConfigReadSettle { config },
            ),
            (Phase::ConfigReadSettle { config }, Outcome::Done) => Some(
                Phase::ReportBridgeConfig { config },
            ),
            (Phase::ReportBridgeConfig { config }, Outcome::Done) => Some(
                Phase::WriteBridgeConfig { config },
            ),
            (Phase::WriteBridgeConfig { config }, Outcome::Done) => Some(
                Phase::ConfigWriteSettle { config },
            ),
            (Phase::ConfigWriteSettle { config }, Outcome::Done) => Some(
                Phase::ReportConfigUpdate { config },
            ),
            (Phase::ReportConfigUpdate { .. }, Outcome::Done) => Some(Phase::EndCommandMode),
            (Phase::EndCommandMode, Outcome::Done) => Some(Phase::CommandExitSettle),
            (Phase::CommandExitSettle, Outcome::Done) => Some(Phase::BlinkLed),
            (Phase::BlinkLed, Outcome::Done) => Some(Phase::AwaitDataReady),
            (Phase::AwaitDataReady, Outcome::DataReady(ready)) => Some(
                if ready {
                    Phase::ReadSample
                } else {
                    Phase::DataReadyBackoff
                },
            ),
            (Phase::DataReadyBackoff, Outcome::Done) => Some(Phase::AwaitDataReady),
            (Phase::ReadSample, Outcome::SampleRead(sample)) => Some(
                Phase::ReportSample { sample },
            ),
            (Phase::ReportSample { .. }, Outcome::Done) => Some(Phase::SamplePause),
            (Phase::SamplePause, Outcome::Done) => Some(Phase::BlinkLed),
            _ => None,
        }
    }

    /// The phases of the measurement loop, which the firmware never leaves.
    pub open spec fn is_measuring(self) -> bool {
        match self {
            Phase::BlinkLed | Phase::AwaitDataReady | Phase::DataReadyBackoff | Phase::ReadSample
            | Phase::ReportSample { .. } | Phase::SamplePause => true,
            _ => false,
        }
    }

    /// The action to perform in this phase.
    pub fn action(&self) -> (a: Action)
        ensures
            self.emits(a),
    {
        match *self {
            Phase::PowerUp => Action::Wait(3),
            Phase::StartCommandMode => Action::WriteSensor(command(CMD_MODE_START)),
            Phase::CommandModeSettle => Action::Wait(10),
            Phase::RequestBridgeConfig => Action::WriteSensor(command(EEPROM_BRIDGE_CONFIG)),
            Phase::ReadBridgeConfig => Action::ReadSensor(3),
            Phase::ConfigReadSettle { .. } => Action::Wait(1),
            Phase::ReportBridgeConfig { config } => Action::Transmit(daq_frame(&config)),
            Phase::WriteBridgeConfig { config } => Action::WriteSensor(bridge_config_update(config)),
            Phase::ConfigWriteSettle { .. } => Action::Wait(15),
            Phase::ReportConfigUpdate { config } => Action::Transmit(daq_frame(&bridge_config_update(config))),
            Phase::EndCommandMode => Action::WriteSensor(command(CMD_MODE_STOP)),
            Phase::CommandExitSettle => Action::Wait(20),
            Phase::BlinkLed => Action::ToggleLed,
            Phase::AwaitDataReady => Action::CheckDataReady,
            Phase::DataReadyBackoff => Action::Wait(10),
            Phase::ReadSample => Action::ReadSensor(4),
            Phase::ReportSample { sample } => Action::Transmit(daq_frame(&sample_payload(sample))),
            Phase::SamplePause => Action::Wait(100),
        }
    }

    /// The phase after this one, given the outcome of its action.
    pub fn advance(self, outcome: Outcome) -> (next: Option<Phase>)
        ensures
            next == self.next(outcome),
    {
        match (self, outcome) {
            (Phase::PowerUp, Outcome::Done) => Some(Phase::StartCommandMode),
            (Phase::StartCommandMode, Outcome::Done) => Some(Phase::CommandModeSettle),
            (Phase::CommandModeSettle, Outcome::Done) => Some(Phase::RequestBridgeConfig),
            (Phase::RequestBridgeConfig, Outcome::Done) => Some(Phase::ReadBridgeConfig),
            (Phase::ReadBridgeConfig, Outcome::ConfigRead(config)) => Some(
                Phase::ConfigReadSettle { config },
            ),
            (Phase::ConfigReadSettle { config }, Outcome::Done) => Some(
                Phase::ReportBridgeConfig { config },
            ),
            (Phase::ReportBridgeConfig { config }, Outcome::Done) => Some(
                Phase::WriteBridgeConfig { config },
            ),
            (Phase::WriteBridgeConfig { config }, Outcome::Done) => Some(
                Phase::ConfigWriteSettle { config },
            ),
            (Phase::ConfigWriteSettle { config }, Outcome::Done) => Some(
                Phase::ReportConfigUpdate { config },
            ),
            (Phase::ReportConfigUpdate { .. }, Outcome::Done) => Some(Phase::EndCommandMode),
            (Phase::EndCommandMode, Outcome::Done) => Some(Phase::CommandExitSettle),
            (Phase::CommandExitSettle, Outcome::Done) => Some(Phase::BlinkLed),
            (Phase::BlinkLed, Outcome::Done) => Some(Phase::AwaitDataReady),
            (Phase::AwaitDataReady, Outcome::DataReady(ready)) => Some(
                if ready {
                    Phase::ReadSample
                } else {
                    Phase::DataReadyBackoff
                },
            ),
            (Phase::DataReadyBackoff, Outcome::Done) => Some(Phase::AwaitDataReady),
            (Phase::ReadSample, Outcome::SampleRead(sample)) => Some(
                Phase::ReportSample { sample },
            ),
            (Phase::ReportSample { .. }, Outcome::Done) => Some(Phase::SamplePause),
            (Phase::SamplePause, Outcome::Done) => Some(Phase::BlinkLed),
            _ => None,
        }
    }
}

/// A sensor command with no data: the command byte and two zero bytes.
fn command(cmd: u8) -> (frame: [u8; 3])
    ensures
        frame@ == seq![cmd, 0u8, 0u8],
{
    let frame = [cmd, 0x00, 0x00];
    assert(frame@ =~= seq![cmd, 0u8, 0u8]);
    frame
}

/// The phase reached from `p` by handing it the outcomes in order; `None` if
/// one of them does not answer the phase it is handed to.
pub open spec fn run(p: Phase, outcomes: Seq<Outcome>) -> Option<Phase>
    decreases outcomes.len(),
{
    if outcomes.len() == 0 {
        Some(p)
    } else {
        match p.next(outcomes[0]) {
            Some(q) => run(q, outcomes.drop_first()),
            None => None,
        }
    }
}

/// The outcomes of the power-up sequence when the sensor answers the
/// configuration read with `config`.
pub open spec fn startup_outcomes(config: [u8; 3]) -> Seq<Outcome> {
    seq![
        Outcome::Done,
        Outcome::Done,
        Outcome::Done,
        Outcome::Done,
        Outcome::ConfigRead(config),
        Outcome::Done,
        Outcome::Done,
        Outcome::Done,
        Outcome::Done,
        Outcome::Done,
        Outcome::Done,
        Outcome::Done,
    ]
}

/// Whatever configuration the sensor reports, the power-up sequence ends in
/// the measurement loop after twelve actions.
pub proof fn lemma_startup_reaches_measuring(config: [u8; 3])
    ensures
        run(Phase::PowerUp, startup_outcomes(config)) == Some(Phase::BlinkLed),
        Phase::BlinkLed.is_measuring(),
{
    lemma_run_from(config, 0);
    assert(startup_outcomes(config).skip(0) =~= startup_outcomes(config));
}

/// The phase the power-up sequence is in after `k` of its actions.
pub open spec fn startup_phase(config: [u8; 3], k: int) -> Phase {
    if k <= 0 {
        Phase::PowerUp
    } else if k == 1 {
        Phase::StartCommandMode
    } else if k == 2 {
        Phase::CommandModeSettle
    } else if k == 3 {
        Phase::RequestBridgeConfig
    } else if k == 4 {
        Phase::ReadBridgeConfig
    } else if k == 5 {
        Phase::ConfigReadSettle { config }
    } else if k == 6 {
        Phase::ReportBridgeConfig { config }
    } else if k == 7 {
        Phase::WriteBridgeConfig { config }
    } else if k == 8 {
        Phase::ConfigWriteSettle { config }
    } else if k == 9 {
        Phase::ReportConfigUpdate { config }
    } else if k == 10 {
        Phase::EndCommandMode
    } else if k == 11 {
        Phase::CommandExitSettle
    } else {
        Phase::BlinkLed
    }
}

/// From the phase reached after `k` of the power-up outcomes, the remaining
/// ones lead to the measurement loop.
proof fn lemma_run_from(config: [u8; 3], k: int)
    requires
        0 <= k <= 12,
    ensures
        run(startup_phase(config, k), startup_outcomes(config).skip(k)) == Some(Phase::BlinkLed),
    decreases 12 - k,
{
    let o = startup_outcomes(config);
    if k < 12 {
        lemma_run_from(config, k + 1);
        assert(o.skip(k).drop_first() =~= o.skip(k + 1));
        assert(o.skip(k)[0] == o[k]);
        assert(startup_phase(config, k).next(o[k]) == Some(startup_phase(config, k + 1)));
    } else {
        assert(o.skip(12).len() == 0);
    }
}

/// Once measuring, the firmware stays in the measurement loop: no outcome
/// leads out of it.
pub proof fn lemma_measuring_is_closed(p: Phase, outcome: Outcome)
    requires
        p.is_measuring(),
    ensures
        p.next(outcome) matches Some(q) ==> q.is_measuring(),
{
}

/// While measuring, the firmware never writes to the sensor: it only reads
/// measurements, so the sensor's configuration is written once, at power-up.
pub proof fn lemma_measuring_never_writes(p: Phase, a: Action)
    requires
        p.is_measuring(),
        p.emits(a),
    ensures
        !(a is WriteSensor),
{
}

/// Every frame the load-cell firmware sends carries its identifier.
pub proof fn lemma_frames_use_daq_id(p: Phase, a: Action)
    requires
        p.emits(a),
    ensures
        a matches Action::Transmit(f) ==> f@.0 == DAQ_FRAME_ID,
{
}

/// `a` sends on the CAN bus a data frame with identifier `id` and payload `payload`.
pub open spec fn sent_on_can(a: Action, id: u16, payload: Seq<u8>) -> bool {
    a matches Action::Transmit(f) && f@.0 == id && f@.1 == payload
}

/// `a` writes the bytes `bytes` to the sensor.
pub open spec fn wrote_to_sensor(a: Action, bytes: Seq<u8>) -> bool {
    a matches Action::WriteSensor(w) && w@ == bytes
}

/// `written` is the EEPROM write command 0x4F followed by the configuration
/// word in bytes 1 and 2 of `read` (high byte first) with its gain bits 4-6
/// set to 0b111 and every other bit kept.
pub open spec fn is_gain_update_of(read: Seq<u8>, written: Seq<u8>) -> bool {
    let old_word = read[1] * 256 + read[2];
    let new_word = written[1] * 256 + written[2];
    &&& written.len() == 3
    &&& written[0] == 0x4F
    &&& new_word == old_word - 16 * ((old_word / 16) % 8) + 0x70
    &&& (new_word / 16) % 8 == 7
    &&& new_word % 16 == old_word % 16
    &&& new_word / 128 == old_word / 128
}

/// The payload sent for the sample `s`: the status (top two bits of the first
/// byte), the bridge value (rest of the first byte, then the second byte) and
/// the temperature bits (low five bits of the second byte, the third byte,
/// top three bits of the fourth byte).
pub open spec fn sample_report_bytes(s: [u8; 4]) -> Seq<u8> {
    seq![
        s[0] / 64,
        s[0] % 64,
        s[1],
        ((s[1] % 32) * 8 + s[2] / 32) as u8,
        ((s[2] % 32) * 8 + s[3] / 32) as u8,
    ]
}

/// The sensor commands: command mode is entered with [0xA0, 0, 0], the bridge
/// configuration is asked for with [0x0F, 0, 0] and read as three bytes,
/// command mode is left with [0x80, 0, 0]; a measurement is read as four bytes.
pub proof fn lemma_sensor_commands(a: Action)
    ensures
        Phase::StartCommandMode.emits(a) ==> wrote_to_sensor(a, seq![0xA0u8, 0u8, 0u8]),
        Phase::RequestBridgeConfig.emits(a) ==> wrote_to_sensor(a, seq![0x0Fu8, 0u8, 0u8]),
        Phase::EndCommandMode.emits(a) ==> wrote_to_sensor(a, seq![0x80u8, 0u8, 0u8]),
        Phase::ReadBridgeConfig.emits(a) ==> a == Action::ReadSensor(3),
        Phase::ReadSample.emits(a) ==> a == Action::ReadSensor(4),
{
}

/// The waits and signals: 3 ms after power-up, 10 ms after entering command
/// mode, 1 ms after reading the configuration, 15 ms after writing it, 20 ms
/// after leaving command mode; each measurement cycle toggles the LED, samples
/// the data-ready line (looking again after 10 ms while it is low), and ends
/// with a 100 ms pause.
pub proof fn lemma_timing(config: [u8; 3], a: Action)
    ensures
        Phase::PowerUp.emits(a) ==> a == Action::Wait(3),
        Phase::CommandModeSettle.emits(a) ==> a == Action::Wait(10),
        (Phase::ConfigReadSettle { config }).emits(a) ==> a == Action::Wait(1),
        (Phase::ConfigWriteSettle { config }).emits(a) ==> a == Action::Wait(15),
        Phase::CommandExitSettle.emits(a) ==> a == Action::Wait(20),
        Phase::BlinkLed.emits(a) ==> a == Action::ToggleLed,
        Phase::AwaitDataReady.emits(a) ==> a == Action::CheckDataReady,
        Phase::DataReadyBackoff.emits(a) ==> a == Action::Wait(10),
        Phase::SamplePause.emits(a) ==> a == Action::Wait(100),
{
}

/// The configuration read is reported over CAN as read: a frame with
/// identifier 0x123 carrying the three bytes, in order.
pub proof fn lemma_config_reported_as_read(config: [u8; 3], a: Action)
    requires
        (Phase::ReportBridgeConfig { config }).emits(a),
    ensures
        sent_on_can(a, 0x123, seq![config[0], config[1], config[2]]),
{
    assert(config@ =~= seq![config[0], config[1], config[2]]);
}

/// The gain update writes to the sensor the configuration read with only its
/// gain bits changed, to 0b111 (a gain of 192).
pub proof fn lemma_gain_update_written(config: [u8; 3], a: Action)
    requires
        (Phase::WriteBridgeConfig { config }).emits(a),
    ensures
        a matches Action::WriteSensor(w) && is_gain_update_of(config@, w@),
{
    lemma_config_update_frame(config@);
}

/// The gain update is then reported over CAN: a frame with identifier 0x123
/// carrying the bytes written.
pub proof fn lemma_gain_update_reported(config: [u8; 3], a: Action)
    requires
        (Phase::ReportConfigUpdate { config }).emits(a),
    ensures
        a matches Action::Transmit(f) && f@.0 == 0x123 && is_gain_update_of(config@, f@.1),
{
    lemma_config_update_frame(config@);
}

/// Every measurement read is reported: after reading the sample the firmware
/// sends it in a frame with identifier 0x123, then pauses.
pub proof fn lemma_every_sample_reported(sample: [u8; 4], a: Action)
    ensures
        Phase::ReadSample.next(Outcome::SampleRead(sample)) == Some((Phase::ReportSample { sample })),
        (Phase::ReportSample { sample }).emits(a) ==> sent_on_can(a, 0x123, sample_report_bytes(sample)),
        (Phase::ReportSample { sample }).next(Outcome::Done) == Some(Phase::SamplePause),
{
    lemma_sample_payload_bytes(sample[0], sample[1], sample[2], sample[3]);
}

/// The measurement cycle outcomes: LED toggled, data ready, the sample, sent, paused.
pub open spec fn cycle_outcomes(sample: [u8; 4]) -> Seq<Outcome> {
    seq![
        Outcome::Done,
        Outcome::DataReady(true),
        Outcome::SampleRead(sample),
        Outcome::Done,
        Outcome::Done,
    ]
}

/// One measurement cycle returns to its start; a low data-ready line means
/// waiting and looking again, a high one means reading the sample.
pub proof fn lemma_measurement_cycle(sample: [u8; 4])
    ensures
        run(Phase::BlinkLed, cycle_outcomes(sample)) == Some(Phase::BlinkLed),
        run(Phase::AwaitDataReady, seq![Outcome::DataReady(false), Outcome::Done]) == Some(Phase::AwaitDataReady),
        Phase::AwaitDataReady.next(Outcome::DataReady(true)) == Some(Phase::ReadSample),
{
    reveal_with_fuel(run, 6);
}

} // verus!
