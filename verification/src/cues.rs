//! The audible cues that accompany session transitions.
//!
//! A cue is data: a short sequence of pure tones and pauses. The
//! surrounding program synthesizes the tones and queues them on its shared
//! playback sink; failure to do so is non-fatal and never blocks a
//! transition. Amplitudes are carried in thousandths of full scale so the
//! cues stay plain integer values.

use vstd::prelude::*;

verus! {

/// One pure tone: frequency in hertz, duration in milliseconds, amplitude
/// in thousandths of full scale.
#[derive(Clone, Copy, Debug, PartialEq, Eq, Structural)]
pub struct Tone {
    pub frequency_hz: u32,
    pub duration_ms: u32,
    pub amplitude_milli: u32,
}

/// One step of a cue: sound a tone, or stay silent for a pause.
#[derive(Clone, Copy, Debug, PartialEq, Eq, Structural)]
pub enum CueStep {
    Tone(Tone),
    Pause { duration_ms: u32 },
}

/// The start cue: two short rising tones with a fixed pause between them.
pub open spec fn start_cue_model() -> Seq<CueStep> {
    seq![
        CueStep::Tone(Tone { frequency_hz: 1000, duration_ms: 80, amplitude_milli: 350 }),
        CueStep::Pause { duration_ms: 50 },
        CueStep::Tone(Tone { frequency_hz: 1200, duration_ms: 80, amplitude_milli: 350 }),
    ]
}

/// The stop cue: a single lower tone.
pub open spec fn stop_cue_model() -> Seq<CueStep> {
    seq![CueStep::Tone(Tone { frequency_hz: 400, duration_ms: 100, amplitude_milli: 300 })]
}

/// The cue played before a start is attempted.
pub fn start_cue() -> (cue: Vec<CueStep>)
    ensures
        cue@ == start_cue_model(),
{
    let mut cue: Vec<CueStep> = Vec::new();
    cue.push(CueStep::Tone(Tone { frequency_hz: 1000, duration_ms: 80, amplitude_milli: 350 }));
    cue.push(CueStep::Pause { duration_ms: 50 });
    cue.push(CueStep::Tone(Tone { frequency_hz: 1200, duration_ms: 80, amplitude_milli: 350 }));
    proof {
        assert(cue@ =~= start_cue_model());
    }
    cue
}

/// The cue played when a stop begins.
pub fn stop_cue() -> (cue: Vec<CueStep>)
    ensures
        cue@ == stop_cue_model(),
{
    let mut cue: Vec<CueStep> = Vec::new();
    cue.push(CueStep::Tone(Tone { frequency_hz: 400, duration_ms: 100, amplitude_milli: 300 }));
    proof {
        assert(cue@ =~= stop_cue_model());
    }
    cue
}

/// Law: the start cue is tone, pause, tone with the second tone higher
/// than the first, and the stop cue is a single tone lower than either.
pub proof fn lemma_cue_shapes()
    ensures
        start_cue_model().len() == 3,
        start_cue_model()[1] matches CueStep::Pause { .. },
        start_cue_model()[0] matches CueStep::Tone(first) && start_cue_model()[2]
            matches CueStep::Tone(second) && first.frequency_hz < second.frequency_hz,
        stop_cue_model().len() == 1,
        start_cue_model()[0] matches CueStep::Tone(first) && stop_cue_model()[0]
            matches CueStep::Tone(lone) && lone.frequency_hz < first.frequency_hz,
{
}

} // verus!
