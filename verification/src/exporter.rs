use vstd::prelude::*;
use vstd::string::*;
use crate::error::ExportError;
use crate::model::{LoginRequest, NoteDownload, NoteMetadata, UserInfo};
use crate::path::NotePath;
use crate::reply::Reply;

verus! {

/// Where a run stands. `Exporting(i)` is at the document of index `i` in
/// the catalog.
#[derive(Debug, Clone, Copy, PartialEq, Eq, Structural)]
pub enum Phase {
    Idle,
    Authenticating,
    SyncingMetadata,
    Exporting(usize),
    Done,
    Failed,
}

/// The state of one run.
#[derive(Debug, Clone)]
pub struct Run {
    pub phase: Phase,
    /// The directory that the documents are written below.
    pub output_dir: String,
    /// The session, from the login on.
    pub session: Option<UserInfo>,
    /// The version that the next page of the catalog is asked from.
    pub watermark: String,
    /// The records received so far, in the order of arrival.
    pub catalog: Vec<NoteMetadata>,
    /// In `Exporting`: whether the document was fetched and is being
    /// written.
    pub saving: bool,
}

/// What happened outside since the last action.
#[derive(Debug, Clone)]
pub enum Event {
    /// The run starts; whether the output directory is there already.
    Begin { output_dir_exists: bool },
    /// The answer to the login.
    Login(Reply<UserInfo>),
    /// The answer to a request for a page of the catalog.
    Page(Reply<Vec<NoteMetadata>>),
    /// The answer to a request for a document.
    Detail(Reply<NoteDownload>),
    /// The document was written, or could not be.
    Stored { failure: Option<String> },
}

/// One header of a request.
#[derive(Debug, Clone)]
pub struct Header {
    pub name: String,
    pub value: String,
}

/// What is to be done outside next.
#[derive(Debug, Clone)]
pub enum Action {
    /// Send the login.
    Login { url: String, headers: Vec<Header>, body: LoginRequest },
    /// Wait `pause_secs` seconds, then ask for a page of the catalog.
    FetchPage { url: String, headers: Vec<Header>, pause_secs: u64 },
    /// Ask for a document.
    FetchDetail { url: String, headers: Vec<Header> },
    /// Make the directory, write `content` to the file as it is, then wait
    /// `pause_secs` seconds.
    Save { path: NotePath, content: String, pause_secs: u64 },
    /// Nothing more: the run is done.
    Finish,
    /// Nothing more: the run has failed.
    Fail(ExportError),
}

/// Names and values of a list of headers.
pub open spec fn header_views(headers: Seq<Header>) -> Seq<(Seq<char>, Seq<char>)> {
    Seq::new(headers.len(), |i: int| (headers[i].name@, headers[i].value@))
}

/// The run has failed with `error`, and nothing else of it has changed.
pub open spec fn failed_with(run: Run, next: Run, action: Action, error: ExportError) -> bool {
    &&& next == (Run { phase: Phase::Failed, ..run })
    &&& action == Action::Fail(error)
}

/// The run has failed with `error` and has dropped the records it had
/// gathered; nothing else of it has changed.
pub open spec fn failed_empty_handed(run: Run, next: Run, action: Action, error: ExportError) -> bool {
    &&& next.phase == Phase::Failed
    &&& next.output_dir == run.output_dir
    &&& next.session == run.session
    &&& next.watermark == run.watermark
    &&& next.catalog@ == Seq::<NoteMetadata>::empty()
    &&& next.saving == run.saving
    &&& action == Action::Fail(error)
}

impl Run {
    /// What holds of a run at every step: the catalog is only read within
    /// a session, and while exporting the run stands at a record of the
    /// catalog that is exported.
    pub open spec fn wf(&self) -> bool {
        &&& self.phase == Phase::SyncingMetadata ==> self.session is Some
        &&& self.phase matches Phase::Exporting(index) ==> {
            &&& self.session is Some
            &&& index < self.catalog@.len()
            &&& self.catalog@[index as int].spec_is_exportable()
        }
    }

    /// A run that has not started.
    pub fn new(output_dir: String) -> (run: Run)
        ensures
            run.phase == Phase::Idle,
            run.output_dir == output_dir,
            run.session is None,
            run.watermark@ == "0"@,
            run.catalog@.len() == 0,
            !run.saving,
            run.wf(),
    {
        Run {
            phase: Phase::Idle,
            output_dir,
            session: None,
            watermark: String::from_str("0"),
            catalog: Vec::new(),
            saving: false,
        }
    }

    /// Ends the run with `error`.
    pub fn fail(self, error: ExportError) -> (r: (Run, Action))
        ensures
            failed_with(self, r.0, r.1, error),
    {
        let mut next = self;
        next.phase = Phase::Failed;
        (next, Action::Fail(error))
    }

    /// Ends the run with `error` and drops the records gathered so far.
    pub fn fail_empty_handed(self, error: ExportError) -> (r: (Run, Action))
        ensures
            failed_empty_handed(self, r.0, r.1, error),
    {
        let mut next = self;
        next.phase = Phase::Failed;
        next.catalog = Vec::new();
        (next, Action::Fail(error))
    }

    /// Whether the run has ended, well or badly.
    pub fn is_over(&self) -> (b: bool)
        ensures
            b == (self.phase == Phase::Done || self.phase == Phase::Failed),
    {
        match self.phase {
            Phase::Done => true,
            Phase::Failed => true,
            _ => false,
        }
    }
}

/// A service that notes can be exported from, as a machine: it is told what
/// happened and says what to do next.
pub trait Exporter {
    /// Whether `next` and `action` are the answer to `event` in `run`.
    spec fn transition(&self, run: Run, event: Event, next: Run, action: Action) -> bool;

    /// One step of the run.
    fn export(&self, run: Run, event: Event) -> (r: (Run, Action))
        ensures
            self.transition(run, event, r.0, r.1),
    ;
}

} // verus!
