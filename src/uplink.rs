//! Uplink task: forwards audio chunks as envelopes until the channel closes or
//! a write fails, then, unless the session is kept open, fires the shutdown
//! signal once.
use vstd::prelude::*;
use crate::codec::append_envelope;
use crate::codec::audio_append_with_id;
use crate::codec::fresh_event_id;

verus! {

/// Whether the uplink still forwards audio.
#[derive(PartialEq, Eq, Structural, Clone, Copy, Debug)]
pub enum UplinkPhase {
    Streaming,
    Drained,
}

/// State of the uplink task.
#[derive(Clone, Copy, Debug)]
pub struct Uplink {
    pub phase: UplinkPhase,
    /// Whether the session stays open after the audio input ends.
    pub keep_open: bool,
}

/// What the uplink task learns next.
pub enum UplinkEvent {
    /// A chunk arrived from the audio channel; its envelope gets `event_id`.
    Chunk { data: Vec<u8>, event_id: String },
    /// Writing an envelope to the connection failed.
    SendFailed,
    /// The audio channel is closed and drained.
    ChannelClosed,
}

/// An uplink event as a value: chunk bytes and identifier as sequences.
pub enum UplinkInput {
    Chunk(Seq<u8>, Seq<char>),
    SendFailed,
    ChannelClosed,
}

impl View for UplinkEvent {
    type V = UplinkInput;

    open spec fn view(&self) -> UplinkInput {
        match self {
            UplinkEvent::Chunk { data, event_id } => UplinkInput::Chunk(data@, event_id@),
            UplinkEvent::SendFailed => UplinkInput::SendFailed,
            UplinkEvent::ChannelClosed => UplinkInput::ChannelClosed,
        }
    }
}

/// What the uplink task does next.
pub enum UplinkAction {
    /// Write this envelope to the connection.
    Send(String),
    /// Fire the shutdown signal (a failed firing is ignored).
    FireShutdown,
    /// Nothing to do.
    Nothing,
}

/// An uplink action as a value.
pub enum UplinkOutput {
    Send(Seq<char>),
    FireShutdown,
    Nothing,
}

impl View for UplinkAction {
    type V = UplinkOutput;

    open spec fn view(&self) -> UplinkOutput {
        match self {
            UplinkAction::Send(s) => UplinkOutput::Send(s@),
            UplinkAction::FireShutdown => UplinkOutput::FireShutdown,
            UplinkAction::Nothing => UplinkOutput::Nothing,
        }
    }
}

/// One transition: while streaming a chunk becomes its envelope; a failed write
/// or a closed channel drains the task, which fires the signal unless the
/// session is kept open. A drained task does nothing more.
pub open spec fn uplink_step(u: Uplink, input: UplinkInput) -> (Uplink, UplinkOutput) {
    if u.phase == UplinkPhase::Drained {
        (u, UplinkOutput::Nothing)
    } else {
        match input {
            UplinkInput::Chunk(data, id) => (u, UplinkOutput::Send(append_envelope(id, data))),
            _ => (
                Uplink { phase: UplinkPhase::Drained, keep_open: u.keep_open },
                if u.keep_open { UplinkOutput::Nothing } else { UplinkOutput::FireShutdown },
            ),
        }
    }
}

/// The uplink after a run of events, and what it did on each.
pub open spec fn uplink_run(u: Uplink, inputs: Seq<UplinkInput>) -> (Uplink, Seq<UplinkOutput>)
    decreases inputs.len(),
{
    if inputs.len() == 0 {
        (u, seq![])
    } else {
        let (u1, o) = uplink_step(u, inputs[0]);
        let (u2, os) = uplink_run(u1, inputs.drop_first());
        (u2, seq![o] + os)
    }
}

/// How many times a run fires the shutdown signal.
pub open spec fn fire_count(outs: Seq<UplinkOutput>) -> nat
    decreases outs.len(),
{
    if outs.len() == 0 {
        0
    } else {
        (if outs[0] is FireShutdown { 1nat } else { 0nat }) + fire_count(outs.drop_first())
    }
}

/// The events of a run of chunks, each with its envelope's identifier.
pub open spec fn chunk_inputs(chunks: Seq<Seq<u8>>, ids: Seq<Seq<char>>) -> Seq<UplinkInput> {
    Seq::new(chunks.len(), |i: int| UplinkInput::Chunk(chunks[i], ids[i]))
}

/// A new uplink task: streaming, with the given keep-open setting.
pub open spec fn fresh_uplink(keep_open: bool) -> Uplink {
    Uplink { phase: UplinkPhase::Streaming, keep_open }
}

impl Uplink {
    pub fn new(keep_open: bool) -> (r: Uplink)
        ensures
            r == fresh_uplink(keep_open),
    {
        Uplink { phase: UplinkPhase::Streaming, keep_open }
    }

    /// Takes one event and says what to do about it.
    pub fn step(&mut self, event: &UplinkEvent) -> (r: UplinkAction)
        requires
            event matches UplinkEvent::Chunk { data, .. } ==> data@.len() <= usize::MAX / 2,
        ensures
            (*final(self), r@) == uplink_step(*old(self), event@),
    {
        if self.phase == UplinkPhase::Drained {
            return UplinkAction::Nothing;
        }
        match event {
            UplinkEvent::Chunk { data, event_id } => {
                UplinkAction::Send(audio_append_with_id(event_id.as_str(), data.as_slice()))
            },
            _ => {
                self.phase = UplinkPhase::Drained;
                if self.keep_open {
                    UplinkAction::Nothing
                } else {
                    UplinkAction::FireShutdown
                }
            },
        }
    }

    /// Takes a chunk from the channel and frames it under a fresh identifier.
    pub fn on_chunk(&mut self, data: Vec<u8>) -> (r: UplinkAction)
        requires
            data@.len() <= usize::MAX / 2,
        ensures
            exists|id: Seq<char>|
                id.len() == 36 && (*final(self), r@) == #[trigger] uplink_step(
                    *old(self),
                    UplinkInput::Chunk(data@, id),
                ),
    {
        let event_id = fresh_event_id();
        let event = UplinkEvent::Chunk { data, event_id };
        let r = self.step(&event);
        assert(uplink_step(*old(self), event@) == uplink_step(
            *old(self),
            UplinkInput::Chunk(data@, event_id@),
        ));
        r
    }
}

/// While the uplink streams, each chunk it takes is sent as one envelope, in
/// the order the chunks came, and it keeps streaming.
pub proof fn lemma_chunks_sent_in_order(u: Uplink, chunks: Seq<Seq<u8>>, ids: Seq<Seq<char>>)
    requires
        u.phase == UplinkPhase::Streaming,
        chunks.len() == ids.len(),
    ensures
        uplink_run(u, chunk_inputs(chunks, ids)).0 == u,
        uplink_run(u, chunk_inputs(chunks, ids)).1 == Seq::new(
            chunks.len(),
            |i: int| UplinkOutput::Send(append_envelope(ids[i], chunks[i])),
        ),
    decreases chunks.len(),
{
    let inputs = chunk_inputs(chunks, ids);
    let expected = Seq::new(
        chunks.len(),
        |i: int| UplinkOutput::Send(append_envelope(ids[i], chunks[i])),
    );
    if chunks.len() == 0 {
        assert(uplink_run(u, inputs).1 =~= expected);
    } else {
        let rest_c = chunks.drop_first();
        let rest_i = ids.drop_first();
        lemma_chunks_sent_in_order(u, rest_c, rest_i);
        assert(inputs.drop_first() =~= chunk_inputs(rest_c, rest_i));
        let tail = Seq::new(
            rest_c.len(),
            |i: int| UplinkOutput::Send(append_envelope(rest_i[i], rest_c[i])),
        );
        assert(seq![UplinkOutput::Send(append_envelope(ids[0], chunks[0]))] + tail =~= expected);
    }
}

/// A session kept open never fires the shutdown signal, whatever happens.
pub proof fn lemma_keep_open_never_fires(u: Uplink, inputs: Seq<UplinkInput>)
    requires
        u.keep_open,
    ensures
        fire_count(uplink_run(u, inputs).1) == 0,
        uplink_run(u, inputs).0.keep_open,
    decreases inputs.len(),
{
    if inputs.len() > 0 {
        let (u1, o) = uplink_step(u, inputs[0]);
        lemma_keep_open_never_fires(u1, inputs.drop_first());
        let os = uplink_run(u1, inputs.drop_first()).1;
        assert((seq![o] + os).drop_first() =~= os);
    }
}

/// Without keep-open, a run that ends with the channel closing fires the
/// shutdown signal once if it started streaming, and never if it started
/// drained, whatever came before the close.
pub proof fn lemma_close_fires_once(u: Uplink, inputs: Seq<UplinkInput>)
    requires
        !u.keep_open,
    ensures
        fire_count(uplink_run(u, inputs.push(UplinkInput::ChannelClosed)).1) == if u.phase
            == UplinkPhase::Streaming {
            1nat
        } else {
            0nat
        },
    decreases inputs.len(),
{
    let all = inputs.push(UplinkInput::ChannelClosed);
    let (u1, o) = uplink_step(u, all[0]);
    let os = uplink_run(u1, all.drop_first()).1;
    if inputs.len() == 0 {
        assert(os =~= seq![]);
    } else {
        assert(all.drop_first() =~= inputs.drop_first().push(UplinkInput::ChannelClosed));
        lemma_close_fires_once(u1, inputs.drop_first());
    }
    assert((seq![o] + os).drop_first() =~= os);
    assert(fire_count(uplink_run(u, all).1) == (if o is FireShutdown { 1nat } else { 0nat })
        + fire_count(os));
}

} // verus!
