//! How the uplink's shutdown signal reaches the coordinator, and what that
//! means for when the process ends.
use vstd::prelude::*;
use crate::shutdown::Completion;
use crate::shutdown::Coordinator;
use crate::shutdown::observe_spec;
use crate::codec::append_envelope;
use crate::source::chunks_read;
use crate::source::lemma_chunks_are_leading_reads;
use crate::uplink::UplinkInput;
use crate::uplink::UplinkOutput;
use crate::uplink::fire_count;
use crate::uplink::fresh_uplink;
use crate::uplink::lemma_close_fires_once;
use crate::uplink::lemma_keep_open_never_fires;
use crate::uplink::chunk_inputs;
use crate::uplink::lemma_chunks_sent_in_order;
use crate::uplink::uplink_run;

verus! {

/// What the coordinator receives from the shutdown signal once the uplink has
/// done `outs` and gone away: a firing if it fired, else only the sender's drop.
pub open spec fn signal_completion(outs: Seq<UplinkOutput>) -> Completion {
    if fire_count(outs) > 0 {
        Completion::SignalFired
    } else {
        Completion::SignalDropped
    }
}

/// With keep-open, nothing the uplink meets (the end of the audio input
/// included) ends the process: the signal never fires, and what reaches the
/// coordinator from it leaves the coordinator as it was.
pub proof fn lemma_keep_open_exhaustion_does_not_end(inputs: Seq<UplinkInput>, c: Coordinator)
    ensures
        fire_count(uplink_run(fresh_uplink(true), inputs).1) == 0,
        observe_spec(c, signal_completion(uplink_run(fresh_uplink(true), inputs).1)) == (c, false),
{
    lemma_keep_open_never_fires(fresh_uplink(true), inputs);
}

/// Without keep-open, once the audio input is exhausted (the channel closes)
/// the signal has fired exactly once, whatever came before, and the
/// coordinator has ended the process after seeing it, from any state and with
/// no frame from the remote endpoint.
pub proof fn lemma_exhaustion_ends_process(inputs: Seq<UplinkInput>, c: Coordinator)
    ensures
        fire_count(uplink_run(fresh_uplink(false), inputs.push(UplinkInput::ChannelClosed)).1) == 1,
        observe_spec(
            c,
            signal_completion(uplink_run(fresh_uplink(false), inputs.push(UplinkInput::ChannelClosed)).1),
        ).0.exit is Some,
{
    lemma_close_fires_once(fresh_uplink(false), inputs);
}

/// The audio-append envelopes go out in the order the input was read: the
/// uplink sends one envelope per non-empty read, for the reads before the
/// first empty one, in that order, and nothing else.
pub proof fn lemma_reads_sent_in_order(keep_open: bool, reads: Seq<Seq<u8>>, ids: Seq<Seq<char>>)
    requires
        ids.len() == chunks_read(reads).len(),
    ensures
        uplink_run(fresh_uplink(keep_open), chunk_inputs(chunks_read(reads), ids)).1 == Seq::new(
            ids.len(),
            |i: int| UplinkOutput::Send(append_envelope(ids[i], reads[i])),
        ),
{
    lemma_chunks_are_leading_reads(reads);
    lemma_chunks_sent_in_order(fresh_uplink(keep_open), chunks_read(reads), ids);
    assert(Seq::new(
        ids.len(),
        |i: int| UplinkOutput::Send(append_envelope(ids[i], chunks_read(reads)[i])),
    ) =~= Seq::new(ids.len(), |i: int| UplinkOutput::Send(append_envelope(ids[i], reads[i]))));
}

} // verus!
