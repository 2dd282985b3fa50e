//! The bridges between a session and what an operator attaches to it: a log
//! tail, which feeds lines to the session, and a terminal, which feeds the
//! output of a shell to the session and the session's keystrokes to the shell.

use crate::error::MyError;
use crate::manager::{Tables, WebsocketManager};
use crate::text::{lossy_decoding, lossy_text};
use tokio::sync::mpsc::UnboundedSender;
use vstd::prelude::*;
use vstd::utf8::{decode_utf8, encode_utf8, valid_utf8};

verus! {

/// The size of the buffer into which the output of a shell is read.
pub const OUTPUT_CHUNK: usize = 4096;

/// What the producer of a log tail yields when it is asked for the next line.
#[derive(Debug)]
pub enum LinePull {
    /// The next line.
    Line(String),
    /// The producer is exhausted.
    End,
    /// The producer failed.
    Failed,
}

/// The text of each line, in order.
pub open spec fn texts_of(lines: Seq<String>) -> Seq<Seq<char>> {
    Seq::new(lines.len(), |i: int| lines[i]@)
}

/// One turn of a log tail for session `client_id`: sends the line that was
/// pulled, and says whether the tail goes on.
///
/// Where the producer is exhausted or failed, and where no session is
/// entered under `client_id`, nothing is offered, nothing changes and the
/// tail ends. In every other case the line is offered to the session's
/// channel once, and the tail goes on exactly if the channel took it.
pub fn relay_line(manager: &mut WebsocketManager, client_id: u128, pull: LinePull) -> (goes_on:
    bool)
    ensures
        !(pull is Line) || !old(manager)@.has_session(client_id) ==> !goes_on && final(manager)@
            == old(manager)@,
        pull is Line && old(manager)@.has_session(client_id) ==> final(manager)@
            == old(manager)@.offer(client_id, pull->Line_0@, goes_on),
{
    match pull {
        LinePull::Line(line) => manager.send_message(client_id, line).is_ok(),
        LinePull::End => false,
        LinePull::Failed => false,
    }
}

/// The tables after a log tail over the backlog `texts` for session `id`, of
/// which the channel took the first `taken`: those are in the history of
/// what the channel took, in the order of the backlog, and the one after
/// them, if there is one, is in the history of what it refused. The lines
/// behind that one were never offered.
pub open spec fn after_backlog(tables: Tables, id: u128, texts: Seq<Seq<char>>, taken: int) -> Tables
    recommends
        tables.has_session(id),
        0 <= taken <= texts.len(),
{
    if taken < texts.len() {
        tables.deliver_all(id, texts.take(taken)).refuse(id, texts[taken])
    } else {
        tables.deliver_all(id, texts)
    }
}

/// A log tail over a finite backlog: offers the lines to the channel of
/// session `client_id` in their order until one is not taken, and returns how
/// many were taken.
///
/// Where no session is entered under `client_id`, nothing is offered and
/// nothing changes. Where one is, every line up to the first that the channel
/// refuses is offered once, in the order of the backlog, and no line behind
/// it; a backlog of which every line is taken is relayed whole.
pub fn relay_backlog(manager: &mut WebsocketManager, client_id: u128, lines: &Vec<String>) -> (taken:
    usize)
    ensures
        taken <= lines.len(),
        !old(manager)@.has_session(client_id) ==> taken == 0 && final(manager)@ == old(manager)@,
        old(manager)@.has_session(client_id) ==> final(manager)@ == after_backlog(
            old(manager)@,
            client_id,
            texts_of(lines@),
            taken as int,
        ),
{
    let mut taken: usize = 0;
    while taken < lines.len()
        invariant
            taken <= lines.len(),
            !old(manager)@.has_session(client_id) ==> taken == 0,
            manager@.has_session(client_id) == old(manager)@.has_session(client_id),
            manager@ == old(manager)@.deliver_all(client_id, texts_of(lines@).take(taken as int)),
        decreases lines.len() - taken,
    {
        let line = lines[taken].clone();
        if !relay_line(manager, client_id, LinePull::Line(line)) {
            return taken;
        }
        proof {
            let next = texts_of(lines@).take(taken + 1);
            assert(next.drop_last() =~= texts_of(lines@).take(taken as int));
        }
        taken = taken + 1;
    }
    assert(texts_of(lines@).take(taken as int) =~= texts_of(lines@));
    taken
}

/// A request to attach a terminal: the workload, the container in it, and the
/// command to run there.
#[derive(Debug, Clone)]
pub struct PodTerminalStream {
    pub namespace: String,
    pub name: String,
    pub container: String,
    pub command: Vec<String>,
}

/// How far an attempt to attach a terminal to a workload came.
#[derive(Debug)]
pub enum AttachStage {
    /// The workload did not become ready; the text says why.
    NotReady(String),
    /// The shell could not be started; the text says why.
    ExecFailed(String),
    /// The shell has no output stream.
    NoStdout,
    /// The shell has no input sink.
    NoStdin,
    /// The shell runs, with both of its streams.
    Ready,
}

/// The message with which an attempt that stopped at `stage` fails.
pub open spec fn attach_failure(stage: AttachStage) -> Seq<char> {
    match stage {
        AttachStage::NotReady(why) => "Pod not ready: "@ + why@,
        AttachStage::ExecFailed(why) => "Failed to exec into pod: "@ + why@,
        AttachStage::NoStdout => "No stdout available"@,
        AttachStage::NoStdin => "No stdin available"@,
        AttachStage::Ready => Seq::empty(),
    }
}

/// Attaches a terminal to session `client_id`, if the attempt came all the
/// way: binds `input`, the channel that feeds the shell, to the session.
///
/// An attempt that stopped at any earlier stage fails with a `KubeError` that
/// names the stage, and leaves both tables as they were: nothing is bound,
/// and so nothing can be relayed.
pub fn attach(
    manager: &mut WebsocketManager,
    client_id: u128,
    stage: AttachStage,
    input: UnboundedSender<String>,
) -> (r: Result<(), MyError>)
    ensures
        stage is Ready ==> r is Ok && final(manager)@ == old(manager)@.bind(client_id, input),
        !(stage is Ready) ==> r is Err && r->Err_0 is KubeError && r->Err_0.detail()
            == attach_failure(stage) && final(manager)@ == old(manager)@,
        !(stage is Ready) && !old(manager)@.is_bound(client_id) ==> !final(manager)@.is_bound(
            client_id,
        ),
{
    match stage {
        AttachStage::Ready => {
            manager.set_terminal_input(client_id, input);
            Ok(())
        },
        AttachStage::NotReady(why) => {
            let mut text = "Pod not ready: ".to_string();
            text.append(why.as_str());
            Err(MyError::KubeError(text))
        },
        AttachStage::ExecFailed(why) => {
            let mut text = "Failed to exec into pod: ".to_string();
            text.append(why.as_str());
            Err(MyError::KubeError(text))
        },
        AttachStage::NoStdout => Err(MyError::KubeError("No stdout available".to_string())),
        AttachStage::NoStdin => Err(MyError::KubeError("No stdin available".to_string())),
    }
}

/// What reading from the output of a shell gave.
#[derive(Debug)]
pub enum ShellRead {
    /// The bytes that were read; none at the end of the stream.
    Chunk(Vec<u8>),
    /// Reading failed.
    Failed,
}

/// The read gave bytes of the shell: it did not fail, and the stream has not
/// ended.
pub open spec fn carries_output(read: ShellRead) -> bool {
    read is Chunk && read->Chunk_0@.len() > 0
}

/// One turn of the output side of a terminal of session `client_id`: sends
/// the chunk as text, and says whether the side goes on.
///
/// At the end of the stream, where reading failed, and where no session is
/// entered under `client_id`, nothing is offered, nothing changes and the
/// side ends. In every other case the text of the chunk is offered to the
/// session's channel once, and the side goes on exactly if the channel took
/// it. A chunk of valid UTF-8 is offered as the text that it encodes; in any
/// other chunk each ill-formed stretch is replaced.
pub fn relay_output(manager: &mut WebsocketManager, client_id: u128, read: ShellRead) -> (goes_on:
    bool)
    ensures
        !carries_output(read) || !old(manager)@.has_session(client_id) ==> !goes_on
            && final(manager)@ == old(manager)@,
        carries_output(read) && old(manager)@.has_session(client_id) ==> final(manager)@
            == old(manager)@.offer(client_id, lossy_decoding(read->Chunk_0@), goes_on),
        carries_output(read) && old(manager)@.has_session(client_id) && valid_utf8(
            read->Chunk_0@,
        ) ==> final(manager)@ == old(manager)@.offer(
            client_id,
            decode_utf8(read->Chunk_0@),
            goes_on,
        ),
{
    match read {
        ShellRead::Chunk(bytes) => {
            if bytes.len() == 0 {
                false
            } else {
                manager.send_message(client_id, lossy_text(bytes.as_slice())).is_ok()
            }
        },
        ShellRead::Failed => false,
    }
}

/// Where the input side of a terminal stands.
#[derive(Clone, Copy, Debug, PartialEq, Eq, Structural)]
pub enum PumpPhase {
    /// Waiting for keystrokes from the bound channel.
    Idle,
    /// Keystrokes are being written to the shell.
    Writing,
    /// The shell's input sink is being flushed.
    Flushing,
    /// The side has ended.
    Done,
}

/// What happened to the input side of a terminal.
#[derive(Debug)]
pub enum PumpEvent {
    /// The bound channel yielded keystrokes.
    Input(String),
    /// The bound channel is closed and empty.
    InputClosed,
    /// The write to the shell succeeded.
    Written,
    /// The write to the shell failed.
    WriteFailed,
    /// The flush succeeded.
    Flushed,
    /// The flush failed.
    FlushFailed,
}

/// What the input side of a terminal is to do next.
#[derive(Debug)]
pub enum PumpAction {
    /// Wait for keystrokes.
    Receive,
    /// Write these bytes to the shell.
    Write(Vec<u8>),
    /// Flush the shell's input sink.
    Flush,
    /// End the side.
    Stop,
}

/// A [`PumpAction`], with its bytes as a sequence.
pub enum PumpActionView {
    Receive,
    Write(Seq<u8>),
    Flush,
    Stop,
}

impl View for PumpAction {
    type V = PumpActionView;

    open spec fn view(&self) -> PumpActionView {
        match self {
            PumpAction::Receive => PumpActionView::Receive,
            PumpAction::Write(bytes) => PumpActionView::Write(bytes@),
            PumpAction::Flush => PumpActionView::Flush,
            PumpAction::Stop => PumpActionView::Stop,
        }
    }
}

/// The phase that follows `phase` on `event`. An event that the phase does
/// not wait for ends the side.
pub open spec fn phase_after(phase: PumpPhase, event: PumpEvent) -> PumpPhase {
    match (phase, event) {
        (PumpPhase::Idle, PumpEvent::Input(_)) => PumpPhase::Writing,
        (PumpPhase::Writing, PumpEvent::Written) => PumpPhase::Flushing,
        (PumpPhase::Flushing, PumpEvent::Flushed) => PumpPhase::Idle,
        _ => PumpPhase::Done,
    }
}

/// What is to be done when `event` happens in `phase`: keystrokes are
/// written as their UTF-8 bytes, every write is followed by a flush, and
/// every flush by the wait for more keystrokes.
pub open spec fn action_on(phase: PumpPhase, event: PumpEvent) -> PumpActionView {
    match (phase, event) {
        (PumpPhase::Idle, PumpEvent::Input(text)) => PumpActionView::Write(encode_utf8(text@)),
        (PumpPhase::Writing, PumpEvent::Written) => PumpActionView::Flush,
        (PumpPhase::Flushing, PumpEvent::Flushed) => PumpActionView::Receive,
        _ => PumpActionView::Stop,
    }
}

/// The input side of a terminal stops exactly when it is done, and between a
/// write and the next wait for keystrokes there is always a flush.
pub proof fn law_every_write_is_flushed(phase: PumpPhase, event: PumpEvent)
    ensures
        action_on(phase, event) is Stop <==> phase_after(phase, event) is Done,
        action_on(phase, event) is Write <==> phase_after(phase, event) is Writing,
        phase is Writing ==> !(action_on(phase, event) is Receive) && !(action_on(
            phase,
            event,
        ) is Write),
        action_on(phase, event) is Receive ==> phase is Flushing,
{
}

/// The input side of a terminal: it takes keystrokes from the bound channel,
/// writes them to the shell and flushes, one after the other.
#[derive(Debug)]
pub struct InputPump {
    phase: PumpPhase,
}

impl View for InputPump {
    type V = PumpPhase;

    closed spec fn view(&self) -> PumpPhase {
        self.phase
    }
}

impl InputPump {
    /// A side that waits for its first keystrokes.
    pub fn new() -> (p: Self)
        ensures
            p@ == PumpPhase::Idle,
    {
        InputPump { phase: PumpPhase::Idle }
    }

    pub fn phase(&self) -> (p: PumpPhase)
        ensures
            p == self@,
    {
        self.phase
    }

    /// Takes one event into account and says what is to be done next.
    pub fn step(&mut self, event: PumpEvent) -> (action: PumpAction)
        ensures
            final(self)@ == phase_after(old(self)@, event),
            action@ == action_on(old(self)@, event),
    {
        match (self.phase, event) {
            (PumpPhase::Idle, PumpEvent::Input(text)) => {
                self.phase = PumpPhase::Writing;
                PumpAction::Write(text.as_str().as_bytes_vec())
            },
            (PumpPhase::Writing, PumpEvent::Written) => {
                self.phase = PumpPhase::Flushing;
                PumpAction::Flush
            },
            (PumpPhase::Flushing, PumpEvent::Flushed) => {
                self.phase = PumpPhase::Idle;
                PumpAction::Receive
            },
            _ => {
                self.phase = PumpPhase::Done;
                PumpAction::Stop
            },
        }
    }
}

} // verus!
