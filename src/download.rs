//! The decisions of one download, as a state machine: the caller performs each
//! action (create the file, read the next chunk, write a chunk) and hands the
//! outcome back as the next event.
use vstd::prelude::*;

use crate::progress::{create_progress_bar, mode_for, capped, Progress};

verus! {

#[verifier::external_type_specification]
#[verifier::external_body]
pub struct ExUrl(reqwest::Url);

/// Whether the text parses as an absolute URL.
pub uninterp spec fn url_accepts(s: Seq<char>) -> bool;

/// Relies on reqwest::Url::parse (the url crate's `Url::parse`): it succeeds
/// exactly on well-formed absolute URLs, and its answer depends on the text alone.
#[verifier::external_body]
fn parse_url(s: &str) -> (r: Option<reqwest::Url>)
    ensures
        r is Some == url_accepts(s@),
{
    reqwest::Url::parse(s).ok()
}

/// Why a download failed.
#[derive(Clone, Copy, Debug, PartialEq, Eq, Structural)]
pub enum DownloadError {
    /// The target is not a well-formed absolute URL.
    InvalidUrl,
    /// The server answered with a status outside 200..=299.
    HttpStatus(u16),
    /// The request could not be made, or the body stream broke off.
    Transport,
    /// The destination could not be created or written.
    Io,
}

/// Where a download stands.
#[derive(Clone, Copy, Debug, PartialEq, Eq, Structural)]
pub enum Phase {
    /// The request is out; its response is awaited.
    Requesting,
    /// The response was accepted; the destination is being created.
    Creating,
    /// The next chunk of the body is awaited.
    Reading,
    /// A chunk is being appended to the destination.
    Writing,
    /// The body has ended and every chunk was written.
    Complete,
    /// The download stopped with this error.
    Failed(DownloadError),
}

/// The outcome of an action, handed back to the machine.
#[derive(Debug)]
pub enum Event {
    /// The server answered, with its status and advertised body length.
    Responded { status: u16, content_length: Option<u64> },
    /// The request could not be sent or answered.
    RequestFailed,
    /// The destination was created (or truncated).
    FileCreated,
    /// The destination could not be created.
    CreateFailed,
    /// The next chunk of the body arrived.
    Chunk(Vec<u8>),
    /// Reading the body failed.
    ReadFailed,
    /// The pending chunk was written in full.
    Written,
    /// Writing the pending chunk failed.
    WriteFailed,
    /// The body ended.
    Ended,
}

/// What the machine asks its driver to do next.
#[derive(Debug)]
pub enum Action {
    /// Create or truncate the destination.
    CreateFile,
    /// Await the next chunk of the body.
    ReadChunk,
    /// Append these bytes to the destination.
    Write(Vec<u8>),
    /// Finish the indicator with the completion message: the download succeeded.
    Finish,
    /// Stop: the download failed with this error.
    Fail(DownloadError),
    /// The event was not expected in this phase and changed nothing.
    Idle,
}

/// An event as a mathematical value.
pub enum EventModel {
    Responded { status: u16, content_length: Option<u64> },
    RequestFailed,
    FileCreated,
    CreateFailed,
    Chunk(Seq<u8>),
    ReadFailed,
    Written,
    WriteFailed,
    Ended,
}

/// An action as a mathematical value.
pub enum ActionModel {
    CreateFile,
    ReadChunk,
    Write(Seq<u8>),
    Finish,
    Fail(DownloadError),
    Idle,
}

impl View for Event {
    type V = EventModel;

    open spec fn view(&self) -> EventModel {
        match self {
            Event::Responded { status, content_length } => EventModel::Responded {
                status: *status,
                content_length: *content_length,
            },
            Event::RequestFailed => EventModel::RequestFailed,
            Event::FileCreated => EventModel::FileCreated,
            Event::CreateFailed => EventModel::CreateFailed,
            Event::Chunk(b) => EventModel::Chunk(b@),
            Event::ReadFailed => EventModel::ReadFailed,
            Event::Written => EventModel::Written,
            Event::WriteFailed => EventModel::WriteFailed,
            Event::Ended => EventModel::Ended,
        }
    }
}

impl View for Action {
    type V = ActionModel;

    open spec fn view(&self) -> ActionModel {
        match self {
            Action::CreateFile => ActionModel::CreateFile,
            Action::ReadChunk => ActionModel::ReadChunk,
            Action::Write(b) => ActionModel::Write(b@),
            Action::Finish => ActionModel::Finish,
            Action::Fail(e) => ActionModel::Fail(*e),
            Action::Idle => ActionModel::Idle,
        }
    }
}

/// The state of a download as a mathematical value. `file` is what this run
/// has put in the destination (`None` until it is created); `pending` is the
/// chunk being written.
pub struct DownloadState {
    pub phase: Phase,
    pub quiet: bool,
    pub total: Option<u64>,
    pub progress: Option<Progress>,
    pub pending: Seq<u8>,
    pub file: Option<Seq<u8>>,
}

/// A status in 200..=299.
pub open spec fn is_success(status: u16) -> bool {
    200 <= status <= 299
}

/// The state in which a download starts: its request is out.
pub open spec fn initial(quiet: bool) -> DownloadState {
    DownloadState {
        phase: Phase::Requesting,
        quiet,
        total: None,
        progress: None,
        pending: Seq::empty(),
        file: None,
    }
}

/// `s` moved to the failed phase, with the action that reports it.
pub open spec fn fail(s: DownloadState, e: DownloadError) -> (DownloadState, ActionModel) {
    (DownloadState { phase: Phase::Failed(e), ..s }, ActionModel::Fail(e))
}

/// One step: the state after event `e` in state `s`, and the action asked for.
pub open spec fn next(s: DownloadState, e: EventModel) -> (DownloadState, ActionModel) {
    match (s.phase, e) {
        (Phase::Requesting, EventModel::Responded { status, content_length }) => {
            if is_success(status) {
                (
                    DownloadState {
                        phase: Phase::Creating,
                        total: content_length,
                        progress: Some(
                            Progress {
                                mode: mode_for(s.quiet, content_length),
                                position: 0,
                                finished: false,
                            },
                        ),
                        ..s
                    },
                    ActionModel::CreateFile,
                )
            } else {
                fail(s, DownloadError::HttpStatus(status))
            }
        },
        (Phase::Requesting, EventModel::RequestFailed) => fail(s, DownloadError::Transport),
        (Phase::Creating, EventModel::FileCreated) => (
            DownloadState { phase: Phase::Reading, file: Some(Seq::empty()), ..s },
            ActionModel::ReadChunk,
        ),
        (Phase::Creating, EventModel::CreateFailed) => fail(s, DownloadError::Io),
        (Phase::Reading, EventModel::Chunk(b)) => (
            DownloadState { phase: Phase::Writing, pending: b, ..s },
            ActionModel::Write(b),
        ),
        (Phase::Reading, EventModel::ReadFailed) => fail(s, DownloadError::Transport),
        (Phase::Reading, EventModel::Ended) => (
            DownloadState {
                phase: Phase::Complete,
                progress: Some(Progress { finished: true, ..s.progress.unwrap() }),
                ..s
            },
            ActionModel::Finish,
        ),
        (Phase::Writing, EventModel::Written) => {
            let p = s.progress.unwrap();
            (
                DownloadState {
                    phase: Phase::Reading,
                    progress: Some(
                        Progress {
                            position: capped(p.position + s.pending.len()),
                            ..p
                        },
                    ),
                    file: Some(s.file.unwrap() + s.pending),
                    pending: Seq::empty(),
                    ..s
                },
                ActionModel::ReadChunk,
            )
        },
        (Phase::Writing, EventModel::WriteFailed) => fail(s, DownloadError::Io),
        _ => (s, ActionModel::Idle),
    }
}

/// One download in progress.
pub struct Download {
    phase: Phase,
    quiet: bool,
    total: Option<u64>,
    progress: Option<Progress>,
    pending_len: u64,
    pending: Ghost<Seq<u8>>,
    file: Ghost<Option<Seq<u8>>>,
}

impl View for Download {
    type V = DownloadState;

    closed spec fn view(&self) -> DownloadState {
        DownloadState {
            phase: self.phase,
            quiet: self.quiet,
            total: self.total,
            progress: self.progress,
            pending: self.pending@,
            file: self.file@,
        }
    }
}

/// Begins a download of `target`: parses it, and on success returns the URL
/// to request together with a machine awaiting the response. A malformed
/// target is rejected with `InvalidUrl` before any request exists.
pub fn start(target: &str, quiet: bool) -> (r: Result<(reqwest::Url, Download), DownloadError>)
    ensures
        r is Ok <==> url_accepts(target@),
        r matches Err(e) ==> e == DownloadError::InvalidUrl,
        r matches Ok((_, d)) ==> d@ == initial(quiet),
{
    match parse_url(target) {
        Some(url) => Ok((url, Download::new(quiet))),
        None => Err(DownloadError::InvalidUrl),
    }
}

impl Download {
    #[verifier::type_invariant]
    spec fn well_formed(&self) -> bool {
        &&& self.pending_len as int == self.pending@.len()
        &&& self.phase is Creating ==> self.progress is Some
        &&& (self.phase is Reading || self.phase is Writing) ==> self.progress is Some
            && self.file@ is Some
    }

    /// A download whose request is out, in quiet mode or not.
    pub fn new(quiet: bool) -> (r: Download)
        ensures
            r@ == initial(quiet),
    {
        Download {
            phase: Phase::Requesting,
            quiet,
            total: None,
            progress: None,
            pending_len: 0,
            pending: Ghost(Seq::empty()),
            file: Ghost(None),
        }
    }

    /// Where the download stands.
    pub fn phase(&self) -> (r: Phase)
        ensures
            r == self@.phase,
    {
        self.phase
    }

    /// The progress counter, once the response has been accepted.
    pub fn progress(&self) -> (r: Option<Progress>)
        ensures
            r == self@.progress,
    {
        self.progress
    }

    /// The body length that the server advertised, once the response has been accepted.
    pub fn total(&self) -> (r: Option<u64>)
        ensures
            r == self@.total,
    {
        self.total
    }

    /// Takes the outcome of the last action and says what to do next.
    pub fn step(&mut self, ev: Event) -> (r: Action)
        ensures
            (final(self)@, r@) == next(old(self)@, ev@),
    {
        proof {
            use_type_invariant(&*self);
        }
        let phase = self.phase;
        match (phase, ev) {
            (Phase::Requesting, Event::Responded { status, content_length }) => {
                if 200 <= status && status <= 299 {
                    let p = create_progress_bar(self.quiet, content_length);
                    *self = Download {
                        phase: Phase::Creating,
                        quiet: self.quiet,
                        total: content_length,
                        progress: Some(p),
                        pending_len: self.pending_len,
                        pending: self.pending,
                        file: self.file,
                    };
                    Action::CreateFile
                } else {
                    self.fail(DownloadError::HttpStatus(status))
                }
            },
            (Phase::Requesting, Event::RequestFailed) => self.fail(DownloadError::Transport),
            (Phase::Creating, Event::FileCreated) => {
                *self = Download {
                    phase: Phase::Reading,
                    quiet: self.quiet,
                    total: self.total,
                    progress: self.progress,
                    pending_len: self.pending_len,
                    pending: self.pending,
                    file: Ghost(Some(Seq::empty())),
                };
                Action::ReadChunk
            },
            (Phase::Creating, Event::CreateFailed) => self.fail(DownloadError::Io),
            (Phase::Reading, Event::Chunk(b)) => {
                *self = Download {
                    phase: Phase::Writing,
                    quiet: self.quiet,
                    total: self.total,
                    progress: self.progress,
                    pending_len: b.len() as u64,
                    pending: Ghost(b@),
                    file: self.file,
                };
                Action::Write(b)
            },
            (Phase::Reading, Event::ReadFailed) => self.fail(DownloadError::Transport),
            (Phase::Reading, Event::Ended) => {
                let mut p = self.progress.unwrap();
                p.finish();
                self.phase = Phase::Complete;
                self.progress = Some(p);
                Action::Finish
            },
            (Phase::Writing, Event::Written) => {
                let mut p = self.progress.unwrap();
                p.increment(self.pending_len);
                *self = Download {
                    phase: Phase::Reading,
                    quiet: self.quiet,
                    total: self.total,
                    progress: Some(p),
                    pending_len: 0,
                    pending: Ghost(Seq::empty()),
                    file: Ghost(Some(self.file@.unwrap() + self.pending@)),
                };
                Action::ReadChunk
            },
            (Phase::Writing, Event::WriteFailed) => self.fail(DownloadError::Io),
            _ => Action::Idle,
        }
    }

    fn fail(&mut self, e: DownloadError) -> (r: Action)
        ensures
            (final(self)@, r@) == fail(old(self)@, e),
    {
        proof {
            use_type_invariant(&*self);
        }
        self.phase = Phase::Failed(e);
        Action::Fail(e)
    }
}

} // verus!
