//! The button firmware's decisions: the LED follows the button (lit while it
//! is held down, the input reading low), and a press is announced once, when
//! the button goes down, not again while it stays down.

use vstd::prelude::*;

verus! {

/// What to do after sampling the button.
#[derive(Clone, Copy, Debug, PartialEq, Eq, Structural)]
pub struct ButtonResponse {
    /// Drive the LED high.
    pub led_high: bool,
    /// Announce a new press.
    pub announce: bool,
}

/// Remembers whether the button was down at the previous sample.
#[derive(Clone, Copy, Debug, PartialEq, Eq, Structural)]
pub struct ButtonMonitor {
    pub button_pressed: bool,
}

/// A press is announced when the button is down now and was not before.
pub open spec fn announces(was_pressed: bool, button_low: bool) -> bool {
    button_low && !was_pressed
}

impl ButtonMonitor {
    /// A monitor that has not seen the button down.
    pub fn new() -> (m: ButtonMonitor)
        ensures
            !m.button_pressed,
    {
        ButtonMonitor { button_pressed: false }
    }

    /// Takes one sample of the button (`button_low` when it is held down).
    pub fn update(&mut self, button_low: bool) -> (r: ButtonResponse)
        ensures
            final(self).button_pressed == button_low,
            r.led_high == button_low,
            r.announce == announces(old(self).button_pressed, button_low),
    {
        let mut announce = false;
        let led_high;
        if button_low {
            if !self.button_pressed {
                announce = true;
                self.button_pressed = true;
            }
            led_high = true;
        } else {
            self.button_pressed = false;
            led_high = false;
        }
        ButtonResponse { led_high, announce }
    }
}

/// The announcements made over a run of samples, from a monitor whose
/// remembered state is `was_pressed`.
pub open spec fn announcements(was_pressed: bool, samples: Seq<bool>) -> Seq<bool>
    decreases samples.len(),
{
    if samples.len() == 0 {
        Seq::empty()
    } else {
        seq![announces(was_pressed, samples[0])] + announcements(samples[0], samples.drop_first())
    }
}

/// Over any run of samples, a press is announced exactly at the samples where
/// the button is down and was up at the sample before: once per press.
pub proof fn lemma_announce_once_per_press(was_pressed: bool, samples: Seq<bool>)
    ensures
        announcements(was_pressed, samples).len() == samples.len(),
        forall|i: int|
            0 <= i < samples.len() ==> #[trigger] announcements(was_pressed, samples)[i] == (
            samples[i] && !(if i == 0 {
                was_pressed
            } else {
                samples[i - 1]
            })),
    decreases samples.len(),
{
    if samples.len() > 0 {
        let rest = samples.drop_first();
        lemma_announce_once_per_press(samples[0], rest);
        assert forall|i: int| 0 <= i < samples.len() implies #[trigger] announcements(
            was_pressed,
            samples,
        )[i] == (samples[i] && !(if i == 0 {
            was_pressed
        } else {
            samples[i - 1]
        })) by {
            if i > 0 {
                assert(announcements(was_pressed, samples)[i] == announcements(samples[0], rest)[i
                    - 1]);
                assert(rest[i - 1] == samples[i]);
                if i > 1 {
                    assert(rest[i - 2] == samples[i - 1]);
                }
            }
        }
    }
}

} // verus!
