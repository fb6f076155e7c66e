//! Opening and arming a pressure source, one action at a time.
//!
//! [`init_monitor`] classifies the source and returns a [`Setup`]. The
//! caller performs the action that the setup asks for and reports its
//! outcome to [`Setup::advance`], until the setup is finished. An action
//! that fails ends the setup with that failure: nothing is tried again, and
//! no further action is asked for.
//!
//! Every setup ends with the one action that writes the arm configuration,
//! so a source is armed exactly once, after it was opened and before the
//! first wait.

use vstd::prelude::*;
use crate::config::{ConfigView, MonitorConfig};
use crate::error::Error;
use crate::source::{FileType, SourceKind};

verus! {

/// How a file or a named pipe is opened. The creation mode is always empty:
/// the source is never created.
#[derive(Clone, Copy, Debug, PartialEq, Eq, Structural)]
pub struct OpenFlags {
    /// Open for reading and writing.
    pub read_write: bool,
    /// Close the descriptor when the process executes another program.
    pub close_on_exec: bool,
    /// Never block in a read or a write.
    pub non_blocking: bool,
}

/// One step of opening and arming a source.
#[derive(Clone, Copy, Debug, PartialEq, Eq, Structural)]
pub enum SetupAction {
    /// Open the path with these flags.
    Open(OpenFlags),
    /// Connect to the path as a client of a Unix stream socket.
    Connect,
    /// Put the connection into non-blocking mode.
    SetNonBlocking,
    /// Hand the arm configuration to the source in a single write.
    Write,
    /// Write the arm configuration, repeating the write until the source
    /// has taken every byte.
    WriteAll,
}

impl SetupAction {
    /// Whether the action writes the arm configuration.
    pub open spec fn writes(self) -> bool {
        self is Write || self is WriteAll
    }

    /// Whether the action produces the handle of the source.
    pub open spec fn opens(self) -> bool {
        self is Open || self is Connect
    }

    /// The actions from this one to the end of a setup.
    spec fn tail(self) -> Seq<SetupAction> {
        match self {
            SetupAction::Open(flags) => seq![SetupAction::Open(flags), SetupAction::Write],
            SetupAction::Write => seq![SetupAction::Write],
            SetupAction::Connect => seq![
                SetupAction::Connect,
                SetupAction::SetNonBlocking,
                SetupAction::WriteAll,
            ],
            SetupAction::SetNonBlocking => seq![SetupAction::SetNonBlocking, SetupAction::WriteAll],
            SetupAction::WriteAll => seq![SetupAction::WriteAll],
        }
    }
}

/// The flags of every open: read-write, close-on-exec and non-blocking.
/// Non-blocking is needed because the owner also writes to the source, and
/// a blocking write could stall for good on a full buffer.
pub open spec fn source_flags() -> OpenFlags {
    OpenFlags { read_write: true, close_on_exec: true, non_blocking: true }
}

impl SourceKind {
    /// The actions that open and arm a source of this kind, in order.
    pub open spec fn setup_script(self) -> Seq<SetupAction> {
        match self {
            SourceKind::RegularFile | SourceKind::NamedPipe => seq![
                SetupAction::Open(source_flags()),
                SetupAction::Write,
            ],
            SourceKind::StreamSocket => seq![
                SetupAction::Connect,
                SetupAction::SetNonBlocking,
                SetupAction::WriteAll,
            ],
        }
    }
}

/// A setup in progress: the source it is for and the actions that are
/// still to be performed.
///
/// The pending action is always one of the script of the kind: see
/// [`SetupView::wf`].
#[derive(Debug)]
pub struct Setup {
    kind: SourceKind,
    path: String,
    arm: Vec<u8>,
    pending: SetupAction,
}

/// The mathematical content of a [`Setup`].
pub struct SetupView {
    /// The kind the source was classified as.
    pub kind: SourceKind,
    /// The path of the source.
    pub path: Seq<char>,
    /// The arm configuration.
    pub arm: Seq<u8>,
    /// The actions still to be performed, the next one first. Never empty.
    pub remaining: Seq<SetupAction>,
}

/// The mathematical content of a [`SetupStep`].
pub enum SetupStepView {
    /// More is to be done.
    Next(SetupView),
    /// The setup is over: a source of this kind is open and armed, or an
    /// action failed.
    Finished(Result<SourceKind, Error>),
}

/// What a setup has come to after some of its actions: the actions that
/// were asked for, in order, and the result if the setup is over.
pub struct SetupTrace {
    pub actions: Seq<SetupAction>,
    pub result: Option<Result<SourceKind, Error>>,
}

impl SetupView {
    /// What holds of every setup: the actions still to be performed are a
    /// tail of the script of the kind, and at least one is left.
    pub open spec fn wf(self) -> bool {
        let script = self.kind.setup_script();
        &&& 1 <= self.remaining.len() <= script.len()
        &&& self.remaining == script.skip(script.len() - self.remaining.len())
    }

    /// The number of actions that were performed already.
    pub open spec fn done(self) -> int {
        self.kind.setup_script().len() - self.remaining.len()
    }

    /// The step that follows when the pending action ends with `outcome`.
    ///
    /// A failure ends the setup with that failure. After a success the
    /// setup is finished if the action was the last one; otherwise the
    /// same source is left with one action fewer.
    pub open spec fn advanced(self, outcome: Result<(), Error>) -> SetupStepView {
        match outcome {
            Err(e) => SetupStepView::Finished(Err(e)),
            Ok(_) => if self.remaining.len() > 1 {
                SetupStepView::Next(SetupView { remaining: self.remaining.skip(1), ..self })
            } else {
                SetupStepView::Finished(Ok(self.kind))
            },
        }
    }

    /// The course of the setup from this state on, where the actions that
    /// are asked for end as `outcomes` says, the pending one first.
    ///
    /// Outcomes beyond the end of the setup are not looked at. If the
    /// outcomes run out first, the last action of the trace is the one that
    /// is still pending, and there is no result yet.
    pub open spec fn trace(self, outcomes: Seq<Result<(), Error>>) -> SetupTrace
        decreases outcomes.len(),
    {
        if outcomes.len() == 0 {
            SetupTrace { actions: seq![self.remaining[0]], result: None }
        } else {
            match self.advanced(outcomes[0]) {
                SetupStepView::Finished(result) => SetupTrace {
                    actions: seq![self.remaining[0]],
                    result: Some(result),
                },
                SetupStepView::Next(next) => {
                    let rest = next.trace(outcomes.skip(1));
                    SetupTrace {
                        actions: seq![self.remaining[0]] + rest.actions,
                        result: rest.result,
                    }
                },
            }
        }
    }
}

impl View for Setup {
    type V = SetupView;

    closed spec fn view(&self) -> SetupView {
        SetupView {
            kind: self.kind,
            path: self.path@,
            arm: self.arm@,
            remaining: self.pending.tail(),
        }
    }
}

/// The token of a setup that was carried to its end: the source was
/// opened and its arm configuration written. Only [`Setup::advance`] makes
/// one, and a monitor cannot be made without one, so no wait comes before
/// the source is armed.
#[derive(Debug)]
pub struct Armed {
    kind: SourceKind,
}

impl Armed {
    /// The kind of the source that was armed.
    pub closed spec fn kind_of(self) -> SourceKind {
        self.kind
    }

    /// The kind of the source that was armed.
    pub fn kind(&self) -> (kind: SourceKind)
        ensures
            kind == self.kind_of(),
    {
        self.kind
    }
}

/// What [`Setup::advance`] answers.
#[derive(Debug)]
pub enum SetupStep {
    /// More is to be done: perform the action of this setup.
    Next(Setup),
    /// The setup is over: the source is open and armed, or an action
    /// failed.
    Finished(Result<Armed, Error>),
}

impl View for SetupStep {
    type V = SetupStepView;

    open spec fn view(&self) -> SetupStepView {
        match *self {
            SetupStep::Next(setup) => SetupStepView::Next(setup@),
            SetupStep::Finished(Ok(armed)) => SetupStepView::Finished(Ok(armed.kind_of())),
            SetupStep::Finished(Err(e)) => SetupStepView::Finished(Err(e)),
        }
    }
}

/// The setup of the source that `config` describes, given what the file
/// system answered when it was asked for the type of the file at the
/// path.
///
/// If the file system gave no answer, because the path does not exist or
/// cannot be reached, that failure is the result. A regular file, a named
/// pipe or a socket gets the setup of its kind, with nothing done yet. Any
/// other type is refused with [`Error::UnexpectedFileType`]. Where there is
/// no setup, nothing is opened and nothing written.
pub open spec fn planned(config: ConfigView, found: Result<FileType, std::io::Error>) -> Result<
    SetupView,
    Error,
> {
    match found {
        Ok(file_type) => match file_type.kind() {
            Some(kind) => Ok(
                SetupView {
                    kind,
                    path: config.path,
                    arm: config.arm,
                    remaining: kind.setup_script(),
                },
            ),
            None => Err(Error::UnexpectedFileType),
        },
        Err(e) => Err(Error::Io(e)),
    }
}

/// Starts the setup of the source that `config` describes, given what the
/// file system answered when it was asked for the type of the file at the
/// path: see [`planned`].
pub fn init_monitor(config: MonitorConfig, found: Result<FileType, std::io::Error>) -> (r: Result<
    Setup,
    Error,
>)
    ensures
        match r {
            Ok(setup) => planned(config@, found) == Ok::<SetupView, Error>(setup@) && setup@.wf()
                && setup@.done() == 0,
            Err(e) => planned(config@, found) == Err::<SetupView, Error>(e),
        },
{
    let file_type = match found {
        Ok(file_type) => file_type,
        Err(e) => {
            return Err(Error::Io(e));
        },
    };
    match file_type.classify() {
        Some(kind) => {
            let pending = match kind {
                SourceKind::RegularFile | SourceKind::NamedPipe => SetupAction::Open(
                    OpenFlags { read_write: true, close_on_exec: true, non_blocking: true },
                ),
                SourceKind::StreamSocket => SetupAction::Connect,
            };
            let setup = Setup { kind, path: config.path, arm: config.arm, pending };
            proof {
                setup.lemma_wf();
            }
            Ok(setup)
        },
        None => Err(Error::UnexpectedFileType),
    }
}

impl Setup {
    #[verifier::type_invariant]
    spec fn pending_is_of_the_script(self) -> bool {
        match self.kind {
            SourceKind::RegularFile | SourceKind::NamedPipe => self.pending == SetupAction::Open(
                source_flags(),
            ) || self.pending is Write,
            SourceKind::StreamSocket => self.pending is Connect || self.pending is SetNonBlocking
                || self.pending is WriteAll,
        }
    }

    /// A setup whose pending action is of the script of its kind is
    /// well-formed.
    proof fn lemma_wf(self)
        requires
            self.pending_is_of_the_script(),
        ensures
            self@.wf(),
    {
        let script = self.kind.setup_script();
        let left = self.pending.tail();
        assert(left =~= script.skip(script.len() - left.len()));
    }

    /// The kind the source was classified as.
    pub fn kind(&self) -> (kind: SourceKind)
        ensures
            kind == self@.kind,
    {
        self.kind
    }

    /// The path of the source, for the action that opens it.
    pub fn path(&self) -> (path: &str)
        ensures
            path@ == self@.path,
    {
        self.path.as_str()
    }

    /// The arm configuration, for the action that writes it.
    pub fn arm(&self) -> (arm: &[u8])
        ensures
            arm@ == self@.arm,
    {
        self.arm.as_slice()
    }

    /// The action to perform now.
    pub fn action(&self) -> (action: SetupAction)
        ensures
            self@.wf(),
            action == self@.remaining[0],
            action == self@.kind.setup_script()[self@.done()],
    {
        proof {
            use_type_invariant(self);
            self.lemma_wf();
        }
        self.pending
    }

    /// Takes the outcome of the pending action and says how the setup goes
    /// on: see [`SetupView::advanced`]. A setup that finishes with success
    /// vouches for the armed source.
    pub fn advance(self, outcome: Result<(), Error>) -> (step: SetupStep)
        ensures
            self@.wf(),
            step@ == self@.advanced(outcome),
            step matches SetupStep::Next(next) ==> next@.wf(),
    {
        proof {
            use_type_invariant(&self);
            self.lemma_wf();
        }
        match outcome {
            Ok(_) => {},
            Err(e) => {
                return SetupStep::Finished(Err(e));
            },
        }
        let following = match self.pending {
            SetupAction::Open(_) => Some(SetupAction::Write),
            SetupAction::Connect => Some(SetupAction::SetNonBlocking),
            SetupAction::SetNonBlocking => Some(SetupAction::WriteAll),
            SetupAction::Write | SetupAction::WriteAll => None,
        };
        match following {
            Some(pending) => {
                proof {
                    assert(self.pending.tail().skip(1) =~= pending.tail());
                }
                let next = Setup { kind: self.kind, path: self.path, arm: self.arm, pending };
                proof {
                    next.lemma_wf();
                }
                SetupStep::Next(next)
            },
            None => SetupStep::Finished(Ok(Armed { kind: self.kind })),
        }
    }
}

} // verus!
