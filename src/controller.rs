//! The state machine of one invocation.
//!
//! The controller never touches the filesystem. It names the next effect the
//! driver has to perform (`effect`), and the driver answers with what came of
//! it (`advance`), until the controller finishes with the invocation's result.
use vstd::prelude::*;
use vstd::string::*;
use crate::config::{Action, Config, clipboard, record_file_name, text_of};
use crate::error::{ClipError, TransferFailure};
use crate::path::{join, parent};
use crate::record::{Mode, PendingOperation, RecordError, encode_record, parse, parse_record, record_text};

verus! {

/// Where an invocation stands.
#[derive(Clone, Copy, Debug)]
pub enum Phase {
    /// Marking: waiting to learn whether the source exists.
    CheckingSource,
    /// Marking: waiting for the record to be written.
    Writing,
    /// Pasting: waiting to learn whether the destination exists.
    CheckingDestination,
    /// Pasting: waiting for the destination to be created.
    CreatingDestination,
    /// Pasting: waiting for the record's content.
    Reading,
    /// Pasting: waiting for the transfer to end.
    Transferring,
    /// Pasting a cut source: waiting for the source to be removed.
    RemovingSource,
    /// Pasting a cut source: waiting for the record to be cleared.
    Clearing,
    /// Done, with the invocation's result.
    Finished(Result<(), ClipError>),
}

/// Work for the driver. `P` is a path or a text: `String` for the driver,
/// `Seq<char>` in specifications.
#[derive(Debug)]
pub enum Effect<P> {
    /// Tell whether anything exists at the path; answer `Exists`.
    CheckExists(P),
    /// Create the directory with all its missing parents; answer `Done`.
    CreateDirectory(P),
    /// Replace the whole content of the record file (first) with the text
    /// (second); answer `Done`.
    WriteRecord(P, P),
    /// Read the record file, an absent file reading as empty; answer `Contents`.
    ReadRecord(P),
    /// Copy or move the source into the destination directory, keeping its
    /// name; answer `Transferred`.
    Transfer { source: P, destination: P, mode: Mode },
    /// Remove the source where it still exists; answer `Done`.
    RemoveSource(P),
    /// Nothing more to do: the invocation ends with this result.
    Finish(Result<(), ClipError>),
}

/// What came of an effect.
#[derive(Debug)]
pub enum Event<P> {
    Exists(bool),
    Done(bool),
    /// The record's content, `None` where it could not be read.
    Contents(Option<P>),
    Transferred(Result<(), TransferFailure>),
}

impl View for Effect<String> {
    type V = Effect<Seq<char>>;

    open spec fn view(&self) -> Effect<Seq<char>> {
        match self {
            Effect::CheckExists(p) => Effect::CheckExists(p@),
            Effect::CreateDirectory(p) => Effect::CreateDirectory(p@),
            Effect::WriteRecord(p, t) => Effect::WriteRecord(p@, t@),
            Effect::ReadRecord(p) => Effect::ReadRecord(p@),
            Effect::Transfer { source, destination, mode } => Effect::Transfer {
                source: source@,
                destination: destination@,
                mode: *mode,
            },
            Effect::RemoveSource(p) => Effect::RemoveSource(p@),
            Effect::Finish(r) => Effect::Finish(*r),
        }
    }
}

impl View for Event<String> {
    type V = Event<Seq<char>>;

    open spec fn view(&self) -> Event<Seq<char>> {
        match self {
            Event::Exists(b) => Event::Exists(*b),
            Event::Done(b) => Event::Done(*b),
            Event::Contents(c) => Event::Contents(text_of(*c)),
            Event::Transferred(r) => Event::Transferred(*r),
        }
    }
}

/// The controller as a mathematical value.
pub struct ControllerView {
    pub action: Action,
    /// The path of the invocation: source to mark, or destination directory.
    pub target: Seq<char>,
    /// The record file, where the executable's location is known.
    pub store: Option<Seq<char>>,
    pub phase: Phase,
    /// The pending operation read from the record.
    pub op: Option<(Mode, Seq<char>)>,
}

/// The mode that marking with an action records.
pub open spec fn marked_mode(a: Action) -> Mode {
    match a {
        Action::Cut => Mode::Cut,
        _ => Mode::Copy,
    }
}

/// The record file beside the executable at `exe`.
pub open spec fn located(exe: Option<Seq<char>>) -> Option<Seq<char>> {
    match exe {
        Some(e) => Some(join(parent(e), record_file_name())),
        None => None,
    }
}

/// The mode of the operation read from the record.
pub open spec fn pending_mode(v: ControllerView) -> Mode {
    match v.op {
        Some((m, _)) => m,
        None => Mode::Copy,
    }
}

/// The source of the operation read from the record.
pub open spec fn pending_source(v: ControllerView) -> Seq<char> {
    match v.op {
        Some((_, s)) => s,
        None => Seq::empty(),
    }
}

pub open spec fn initial(action: Action, target: Seq<char>, store: Option<Seq<char>>) -> ControllerView {
    ControllerView {
        action,
        target,
        store,
        phase: if action == Action::Paste {
            Phase::CheckingDestination
        } else {
            Phase::CheckingSource
        },
        op: None,
    }
}

pub open spec fn well_formed(v: ControllerView) -> bool {
    match v.phase {
        Phase::CheckingSource => v.action != Action::Paste,
        Phase::Writing => v.action != Action::Paste && v.store is Some,
        Phase::CheckingDestination => v.action == Action::Paste,
        Phase::CreatingDestination => v.action == Action::Paste,
        Phase::Reading => v.action == Action::Paste && v.store is Some,
        Phase::Transferring => v.action == Action::Paste && v.store is Some && v.op is Some,
        Phase::RemovingSource => v.action == Action::Paste && v.store is Some && v.op is Some
            && pending_mode(v) == Mode::Cut,
        Phase::Clearing => v.action == Action::Paste && v.store is Some && v.op is Some
            && pending_mode(v) == Mode::Cut,
        Phase::Finished(_) => true,
    }
}

/// The effect that a controller in state `v` waits on.
pub open spec fn pending_effect(v: ControllerView) -> Effect<Seq<char>> {
    match v.phase {
        Phase::CheckingSource => Effect::CheckExists(v.target),
        Phase::Writing => Effect::WriteRecord(v.store->0, record_text(marked_mode(v.action), v.target)),
        Phase::CheckingDestination => Effect::CheckExists(v.target),
        Phase::CreatingDestination => Effect::CreateDirectory(v.target),
        Phase::Reading => Effect::ReadRecord(v.store->0),
        Phase::Transferring => Effect::Transfer {
            source: pending_source(v),
            destination: v.target,
            mode: pending_mode(v),
        },
        Phase::RemovingSource => Effect::RemoveSource(pending_source(v)),
        Phase::Clearing => Effect::WriteRecord(v.store->0, Seq::empty()),
        Phase::Finished(r) => Effect::Finish(r),
    }
}

pub open spec fn enter(v: ControllerView, p: Phase) -> ControllerView {
    ControllerView { phase: p, ..v }
}

pub open spec fn finish(v: ControllerView, r: Result<(), ClipError>) -> ControllerView {
    enter(v, Phase::Finished(r))
}

/// Moves on to a phase that needs the record file, or fails where it is unknown.
pub open spec fn enter_with_store(v: ControllerView, p: Phase) -> ControllerView {
    if v.store is Some {
        enter(v, p)
    } else {
        finish(v, Err(ClipError::LocateFailed))
    }
}

/// The error that a paste reports for a record that describes no operation.
pub open spec fn record_failure(e: RecordError) -> ClipError {
    match e {
        RecordError::Empty => ClipError::NothingToPaste,
        RecordError::InvalidMode => ClipError::InvalidClipboardData,
        RecordError::MissingSource => ClipError::IncompleteClipboardData,
    }
}

/// The state after event `e` in state `v`. An event that does not answer the
/// effect waited on changes nothing.
pub open spec fn next(v: ControllerView, e: Event<Seq<char>>) -> ControllerView {
    match v.phase {
        Phase::CheckingSource => match e {
            Event::Exists(true) => enter_with_store(v, Phase::Writing),
            Event::Exists(false) => finish(v, Err(ClipError::SourceNotFound)),
            _ => v,
        },
        Phase::Writing => match e {
            Event::Done(true) => finish(v, Ok(())),
            Event::Done(false) => finish(v, Err(ClipError::WriteFailed)),
            _ => v,
        },
        Phase::CheckingDestination => match e {
            Event::Exists(true) => enter_with_store(v, Phase::Reading),
            Event::Exists(false) => enter(v, Phase::CreatingDestination),
            _ => v,
        },
        Phase::CreatingDestination => match e {
            Event::Done(true) => enter_with_store(v, Phase::Reading),
            Event::Done(false) => finish(v, Err(ClipError::DestinationCreateFailed)),
            _ => v,
        },
        Phase::Reading => match e {
            Event::Contents(None) => finish(v, Err(ClipError::ReadFailed)),
            Event::Contents(Some(s)) => match parse(s) {
                Err(re) => finish(v, Err(record_failure(re))),
                Ok(op) => ControllerView { phase: Phase::Transferring, op: Some(op), ..v },
            },
            _ => v,
        },
        Phase::Transferring => match e {
            Event::Transferred(Err(k)) => finish(v, Err(ClipError::Transfer(k))),
            Event::Transferred(Ok(())) => if pending_mode(v) == Mode::Cut {
                enter(v, Phase::RemovingSource)
            } else {
                finish(v, Ok(()))
            },
            _ => v,
        },
        Phase::RemovingSource => match e {
            Event::Done(true) => enter(v, Phase::Clearing),
            Event::Done(false) => finish(v, Err(ClipError::SourceCleanupFailed)),
            _ => v,
        },
        Phase::Clearing => match e {
            Event::Done(true) => finish(v, Ok(())),
            Event::Done(false) => finish(v, Err(ClipError::ClearFailed)),
            _ => v,
        },
        Phase::Finished(_) => v,
    }
}

/// One invocation in progress.
pub struct Controller {
    action: Action,
    target: String,
    store: Option<String>,
    phase: Phase,
    op: Option<PendingOperation>,
}

impl View for Controller {
    type V = ControllerView;

    closed spec fn view(&self) -> ControllerView {
        ControllerView {
            action: self.action,
            target: self.target@,
            store: text_of(self.store),
            phase: self.phase,
            op: match self.op {
                Some(o) => Some(o@),
                None => None,
            },
        }
    }
}

impl Controller {
    #[verifier::type_invariant]
    spec fn inv(&self) -> bool {
        well_formed(self@)
    }

    /// Starts the invocation `config`; `exe` is the path of the running
    /// executable, `None` where it could not be had.
    pub fn new(config: Config, exe: Option<String>) -> (r: Controller)
        ensures
            r@ == initial(config.action, config.filename@, located(text_of(exe))),
    {
        let store = match clipboard(exe) {
            Ok(p) => Some(p),
            Err(_) => None,
        };
        let phase = match config.action {
            Action::Paste => Phase::CheckingDestination,
            _ => Phase::CheckingSource,
        };
        Controller { action: config.action, target: config.filename, store, phase, op: None }
    }

    fn store_path(&self) -> (r: String)
        requires
            self@.store is Some,
        ensures
            r@ == self@.store->0,
    {
        match &self.store {
            Some(p) => p.clone(),
            None => String::new(),
        }
    }

    fn source_path(&self) -> (r: String)
        requires
            self@.op is Some,
        ensures
            r@ == pending_source(self@),
    {
        match &self.op {
            Some(o) => o.source.clone(),
            None => String::new(),
        }
    }

    /// The effect the controller waits on.
    pub fn effect(&self) -> (r: Effect<String>)
        ensures
            r@ == pending_effect(self@),
    {
        proof { use_type_invariant(self); }
        match self.phase {
            Phase::CheckingSource => Effect::CheckExists(self.target.clone()),
            Phase::Writing => {
                let mode = match self.action {
                    Action::Cut => Mode::Cut,
                    _ => Mode::Copy,
                };
                Effect::WriteRecord(self.store_path(), encode_record(mode, self.target.as_str()))
            },
            Phase::CheckingDestination => Effect::CheckExists(self.target.clone()),
            Phase::CreatingDestination => Effect::CreateDirectory(self.target.clone()),
            Phase::Reading => Effect::ReadRecord(self.store_path()),
            Phase::Transferring => {
                let mode = match &self.op {
                    Some(o) => o.mode,
                    None => Mode::Copy,
                };
                Effect::Transfer {
                    source: self.source_path(),
                    destination: self.target.clone(),
                    mode,
                }
            },
            Phase::RemovingSource => Effect::RemoveSource(self.source_path()),
            Phase::Clearing => Effect::WriteRecord(self.store_path(), String::new()),
            Phase::Finished(r) => Effect::Finish(r),
        }
    }

    /// Moves to the phase `p`, or fails where `p` needs the record file and it is unknown.
    fn enter_with_store(&mut self, p: Phase)
        requires
            well_formed(enter(old(self)@, p)) || old(self)@.store is None,
        ensures
            final(self)@ == enter_with_store(old(self)@, p),
    {
        if self.store.is_some() {
            self.phase = p;
        } else {
            self.phase = Phase::Finished(Err(ClipError::LocateFailed));
        }
    }

    /// Takes in what came of the effect waited on.
    pub fn advance(&mut self, e: Event<String>)
        ensures
            final(self)@ == next(old(self)@, e@),
    {
        proof { use_type_invariant(&*self); }
        match self.phase {
            Phase::CheckingSource => match e {
                Event::Exists(true) => self.enter_with_store(Phase::Writing),
                Event::Exists(false) => self.phase = Phase::Finished(Err(ClipError::SourceNotFound)),
                _ => {},
            },
            Phase::Writing => match e {
                Event::Done(true) => self.phase = Phase::Finished(Ok(())),
                Event::Done(false) => self.phase = Phase::Finished(Err(ClipError::WriteFailed)),
                _ => {},
            },
            Phase::CheckingDestination => match e {
                Event::Exists(true) => self.enter_with_store(Phase::Reading),
                Event::Exists(false) => self.phase = Phase::CreatingDestination,
                _ => {},
            },
            Phase::CreatingDestination => match e {
                Event::Done(true) => self.enter_with_store(Phase::Reading),
                Event::Done(false) => self.phase = Phase::Finished(
                    Err(ClipError::DestinationCreateFailed),
                ),
                _ => {},
            },
            Phase::Reading => match e {
                Event::Contents(None) => self.phase = Phase::Finished(Err(ClipError::ReadFailed)),
                Event::Contents(Some(s)) => match parse_record(s.as_str()) {
                    Err(re) => {
                        let err = match re {
                            RecordError::Empty => ClipError::NothingToPaste,
                            RecordError::InvalidMode => ClipError::InvalidClipboardData,
                            RecordError::MissingSource => ClipError::IncompleteClipboardData,
                        };
                        self.phase = Phase::Finished(Err(err));
                    },
                    Ok(op) => {
                        self.op = Some(op);
                        self.phase = Phase::Transferring;
                    },
                },
                _ => {},
            },
            Phase::Transferring => match e {
                Event::Transferred(Err(k)) => self.phase = Phase::Finished(
                    Err(ClipError::Transfer(k)),
                ),
                Event::Transferred(Ok(())) => {
                    let cut = match &self.op {
                        Some(o) => o.mode == Mode::Cut,
                        None => false,
                    };
                    if cut {
                        self.phase = Phase::RemovingSource;
                    } else {
                        self.phase = Phase::Finished(Ok(()));
                    }
                },
                _ => {},
            },
            Phase::RemovingSource => match e {
                Event::Done(true) => self.phase = Phase::Clearing,
                Event::Done(false) => self.phase = Phase::Finished(
                    Err(ClipError::SourceCleanupFailed),
                ),
                _ => {},
            },
            Phase::Clearing => match e {
                Event::Done(true) => self.phase = Phase::Finished(Ok(())),
                Event::Done(false) => self.phase = Phase::Finished(Err(ClipError::ClearFailed)),
                _ => {},
            },
            Phase::Finished(_) => {},
        }
    }

    /// The phase the invocation stands in.
    pub fn phase(&self) -> (r: Phase)
        ensures
            r == self@.phase,
    {
        self.phase
    }

    /// The invocation's result, once it has finished.
    pub fn outcome(&self) -> (r: Option<Result<(), ClipError>>)
        ensures
            match self@.phase {
                Phase::Finished(res) => r == Some(res),
                _ => r is None,
            },
    {
        match self.phase {
            Phase::Finished(res) => Some(res),
            _ => None,
        }
    }
}

} // verus!
