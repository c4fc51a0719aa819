//! The real-time core of a monophonic synthesiser voice with a lowpass
//! filter: parameter ramps, the note state machine with sample-accurate
//! event dispatch, per-channel filter history, the peak meter's rule, and
//! the block-level control that ties them together. Audio values are carried
//! as IEEE-754 bit patterns (`Level`); the arithmetic on them is the caller's.

mod filter;
mod level;
mod meter;
mod note;
mod signal;
mod smoother;

pub use filter::{ChannelHistory, FilterHistory, CHANNELS};
pub use level::{Level, MAGNITUDE_MASK, POSITIVE_INFINITY_BITS, SIGN_BIT};
pub use meter::next_peak;
pub use note::{lemma_applied_all_concat, lemma_applied_all_push, lemma_only_active_note_responds, NoteEvent, NoteState};
pub use signal::{lemma_dispatch_exact, lemma_reset_forgets, sorted_by_timing, SignalPath};
pub use smoother::{
    effective_shape, lemma_ramp_arrives, lemma_settled_idempotent, ramp_steps, ramp_steps_spec, RampShape,
    SmoothedValue,
};
