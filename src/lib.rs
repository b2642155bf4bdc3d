use vstd::prelude::*;

pub mod handle;
pub mod query;
pub mod signal;

pub use handle::{
    check_module_data, create_outcome, stereo_frame_count, CreateError, MIN_MODULE_DATA_LEN,
};

pub use query::{
    channel_in_range, instrument_in_range, pattern_in_range, sample_in_range, PlayingSpeed,
    Position,
};
pub use signal::{LoopEvent, LoopWaiter, LoopWatcher, WaitState};

verus! {

/// The engine's playback state, opaque on this side. The private field keeps
/// it from being built outside this crate: values only ever exist behind the
/// pointer that the engine's constructor hands out.
#[allow(non_camel_case_types)]
pub struct xm_context {
    _opaque: (),
}

#[allow(non_camel_case_types)]
pub type xm_context_t = xm_context;

} // verus!
