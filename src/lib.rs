//! Decision core of a realtime speech-recognition streaming client: framing of
//! the session envelopes, the audio source, the uplink and downlink tasks as
//! state machines, and the shutdown coordinator that races their completions.
use vstd::prelude::*;

pub mod codec;
pub mod downlink;
pub mod pipeline;
pub mod shutdown;
pub mod source;
pub mod uplink;

verus! {

} // verus!
