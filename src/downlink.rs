//! Downlink task: relays textual frames as output lines, in arrival order,
//! until a close frame or a read error ends it.
use vstd::prelude::*;

verus! {

/// A frame read from the connection.
pub enum Frame {
    /// A textual frame: one serialized event record.
    Text(String),
    /// A close frame.
    Close,
    /// Reading from the connection failed.
    Failed,
    /// Any other kind of frame (binary, ping, pong).
    Other,
}

/// A frame as a value: the text of a textual frame as a sequence.
pub enum FrameModel {
    Text(Seq<char>),
    Close,
    Failed,
    Other,
}

impl View for Frame {
    type V = FrameModel;

    open spec fn view(&self) -> FrameModel {
        match self {
            Frame::Text(t) => FrameModel::Text(t@),
            Frame::Close => FrameModel::Close,
            Frame::Failed => FrameModel::Failed,
            Frame::Other => FrameModel::Other,
        }
    }
}

/// What the downlink task does with a frame.
pub enum DownlinkAction {
    /// Write this text, unmodified, as one output line.
    Relay(String),
    /// End the task.
    Stop,
    /// Skip the frame.
    Ignore,
}

/// A downlink action as a value.
pub enum DownlinkOutput {
    Relay(Seq<char>),
    Stop,
    Ignore,
}

impl View for DownlinkAction {
    type V = DownlinkOutput;

    open spec fn view(&self) -> DownlinkOutput {
        match self {
            DownlinkAction::Relay(t) => DownlinkOutput::Relay(t@),
            DownlinkAction::Stop => DownlinkOutput::Stop,
            DownlinkAction::Ignore => DownlinkOutput::Ignore,
        }
    }
}

/// State of the downlink task.
#[derive(Clone, Copy, Debug)]
pub struct Downlink {
    pub running: bool,
}

/// One transition: a running task relays text, stops on a close frame or a
/// read error, and skips other frames; a stopped task does nothing more.
pub open spec fn downlink_step(d: Downlink, f: FrameModel) -> (Downlink, DownlinkOutput) {
    if !d.running {
        (d, DownlinkOutput::Ignore)
    } else {
        match f {
            FrameModel::Text(t) => (d, DownlinkOutput::Relay(t)),
            FrameModel::Close | FrameModel::Failed => (Downlink { running: false }, DownlinkOutput::Stop),
            FrameModel::Other => (d, DownlinkOutput::Ignore),
        }
    }
}

/// The downlink after a run of frames, and what it did with each.
pub open spec fn downlink_run(d: Downlink, frames: Seq<FrameModel>) -> (Downlink, Seq<DownlinkOutput>)
    decreases frames.len(),
{
    if frames.len() == 0 {
        (d, seq![])
    } else {
        let (d1, o) = downlink_step(d, frames[0]);
        let (d2, os) = downlink_run(d1, frames.drop_first());
        (d2, seq![o] + os)
    }
}

/// The output lines of a run, in order.
pub open spec fn relayed_lines(outs: Seq<DownlinkOutput>) -> Seq<Seq<char>>
    decreases outs.len(),
{
    if outs.len() == 0 {
        seq![]
    } else {
        match outs[0] {
            DownlinkOutput::Relay(t) => seq![t] + relayed_lines(outs.drop_first()),
            _ => relayed_lines(outs.drop_first()),
        }
    }
}

/// Textual frames carrying the given texts, in order.
pub open spec fn text_frames(texts: Seq<Seq<char>>) -> Seq<FrameModel> {
    Seq::new(texts.len(), |i: int| FrameModel::Text(texts[i]))
}

impl Downlink {
    pub fn new() -> (r: Downlink)
        ensures
            r.running,
    {
        Downlink { running: true }
    }

    /// Takes one frame and says what to do with it.
    pub fn step(&mut self, frame: Frame) -> (r: DownlinkAction)
        ensures
            (*final(self), r@) == downlink_step(*old(self), frame@),
    {
        if !self.running {
            return DownlinkAction::Ignore;
        }
        match frame {
            Frame::Text(t) => DownlinkAction::Relay(t),
            Frame::Close | Frame::Failed => {
                self.running = false;
                DownlinkAction::Stop
            },
            Frame::Other => DownlinkAction::Ignore,
        }
    }
}

/// A stopped downlink relays nothing more.
pub proof fn lemma_stopped_relays_nothing(d: Downlink, frames: Seq<FrameModel>)
    requires
        !d.running,
    ensures
        relayed_lines(downlink_run(d, frames).1) == Seq::<Seq<char>>::empty(),
        downlink_run(d, frames).0 == d,
    decreases frames.len(),
{
    if frames.len() > 0 {
        lemma_stopped_relays_nothing(d, frames.drop_first());
        let os = downlink_run(d, frames.drop_first()).1;
        assert((seq![DownlinkOutput::Ignore] + os).drop_first() =~= os);
    }
}

/// Textual frames are relayed as lines in the order they arrived, and once a
/// close frame or a read error has ended the task nothing more is relayed.
pub proof fn lemma_lines_relayed_in_order(
    texts: Seq<Seq<char>>,
    end: FrameModel,
    tail: Seq<FrameModel>,
)
    requires
        end is Close || end is Failed,
    ensures
        relayed_lines(downlink_run(Downlink { running: true }, text_frames(texts) + seq![end] + tail).1)
            == texts,
        !downlink_run(Downlink { running: true }, text_frames(texts) + seq![end] + tail).0.running,
    decreases texts.len(),
{
    let d = Downlink { running: true };
    let frames = text_frames(texts) + seq![end] + tail;
    if texts.len() == 0 {
        assert(frames.drop_first() =~= tail);
        lemma_stopped_relays_nothing(Downlink { running: false }, tail);
        let os = downlink_run(Downlink { running: false }, tail).1;
        assert((seq![DownlinkOutput::Stop] + os).drop_first() =~= os);
    } else {
        let rest = texts.drop_first();
        lemma_lines_relayed_in_order(rest, end, tail);
        assert(frames.drop_first() =~= text_frames(rest) + seq![end] + tail);
        let os = downlink_run(d, frames.drop_first()).1;
        assert((seq![DownlinkOutput::Relay(texts[0])] + os).drop_first() =~= os);
        assert(seq![texts[0]] + rest =~= texts);
    }
}

} // verus!
