//! The refresh of the store from the published document.
//!
//! A refresh is a run of steps, each of which needs work that this crate
//! does not do: fetching the document, writing a copy of it to durable
//! storage, writing the records to a durable table. A [`RefreshSession`]
//! decides, from what such work reports, what is to be done next. It is
//! owned by the caller that runs the refresh and builds the new snapshot
//! off to the side.
//!
//! The [`Coordinator`] holds what callers share: the store and the guard.
//! It hands out a session only where no refresh is in progress, and takes
//! the result of a session back: it installs the snapshot of a refresh
//! that succeeded, leaves the store as it was after one that failed, and
//! releases the guard in either case.

use crate::document::{document_records, records_in};
use crate::guard::RefreshGuard;
use crate::json::{decode_json, parsed_json};
use crate::record::{CombinationRecord, RecordView};
use crate::store::{MappingStore, Snapshot};
use crate::text::string_from_utf8;
use vstd::prelude::*;
use vstd::utf8::*;

verus! {

/// Why a body could not be read as a document.
#[derive(Debug, Clone, PartialEq, Eq)]
pub enum DecodeFailure {
    /// The body is not UTF-8 text.
    NotUtf8,
    /// The text is not JSON; with the decoder's message.
    NotJson(String),
}

/// The stage at which a refresh failed, and why.
#[derive(Debug, Clone, PartialEq, Eq)]
pub enum RefreshError {
    /// The document could not be fetched; with the reason reported.
    Network(String),
    /// The reply had a status other than success.
    HttpStatus(u16),
    /// The body of the reply is not a document.
    Decode(DecodeFailure),
    /// The copy of the document could not be written; with the reason
    /// reported.
    Persist(String),
    /// The durable table could not be written; with the reason reported.
    Store(String),
}

/// The mathematical model of a [`RefreshError`]. Of a text that is not
/// JSON the decoder's message is left out.
pub enum RefreshErrorView {
    Network(Seq<char>),
    HttpStatus(u16),
    NotUtf8,
    NotJson,
    Persist(Seq<char>),
    Store(Seq<char>),
}

impl View for RefreshError {
    type V = RefreshErrorView;

    open spec fn view(&self) -> RefreshErrorView {
        match self {
            RefreshError::Network(reason) => RefreshErrorView::Network(reason@),
            RefreshError::HttpStatus(status) => RefreshErrorView::HttpStatus(*status),
            RefreshError::Decode(DecodeFailure::NotUtf8) => RefreshErrorView::NotUtf8,
            RefreshError::Decode(DecodeFailure::NotJson(_)) => RefreshErrorView::NotJson,
            RefreshError::Persist(reason) => RefreshErrorView::Persist(reason@),
            RefreshError::Store(reason) => RefreshErrorView::Store(reason@),
        }
    }
}

/// What the work done for a refresh reports.
#[derive(Debug, Clone, PartialEq, Eq)]
pub enum RefreshEvent {
    /// No reply came: the transport failed or ran out of time.
    FetchFailed(String),
    /// A reply came, with this status and body.
    Fetched { status: u16, body: Vec<u8> },
    /// The copy of the document has been written.
    Persisted,
    /// The copy of the document could not be written.
    PersistFailed(String),
    /// The records have been written to the durable table.
    Stored,
    /// The records could not be written to the durable table.
    StoreFailed(String),
}

/// The mathematical model of a [`RefreshEvent`].
pub enum EventView {
    FetchFailed(Seq<char>),
    Fetched { status: u16, body: Seq<u8> },
    Persisted,
    PersistFailed(Seq<char>),
    Stored,
    StoreFailed(Seq<char>),
}

impl View for RefreshEvent {
    type V = EventView;

    open spec fn view(&self) -> EventView {
        match self {
            RefreshEvent::FetchFailed(reason) => EventView::FetchFailed(reason@),
            RefreshEvent::Fetched { status, body } => EventView::Fetched {
                status: *status,
                body: body@,
            },
            RefreshEvent::Persisted => EventView::Persisted,
            RefreshEvent::PersistFailed(reason) => EventView::PersistFailed(reason@),
            RefreshEvent::Stored => EventView::Stored,
            RefreshEvent::StoreFailed(reason) => EventView::StoreFailed(reason@),
        }
    }
}

/// What is to be done next for a refresh.
#[derive(Debug)]
pub enum RefreshAction {
    /// Write the text of [`RefreshSession::raw_document`] to durable
    /// storage, then report `Persisted` or `PersistFailed`.
    PersistRaw,
    /// Write the records of [`RefreshSession::pending_records`] to the
    /// durable table, in place of what it held, then report `Stored` or
    /// `StoreFailed`.
    Store,
    /// The refresh is over. Hand the result to
    /// [`Coordinator::finish_refresh`].
    Done(Result<Snapshot, RefreshError>),
    /// The event is not one that the session was waiting for. Nothing has
    /// changed.
    Rejected,
}

/// The mathematical model of a [`RefreshAction`].
pub enum ActionView {
    PersistRaw,
    Store,
    Done(Result<Seq<RecordView>, RefreshErrorView>),
    Rejected,
}

impl View for RefreshAction {
    type V = ActionView;

    open spec fn view(&self) -> ActionView {
        match self {
            RefreshAction::PersistRaw => ActionView::PersistRaw,
            RefreshAction::Store => ActionView::Store,
            RefreshAction::Done(Ok(snapshot)) => ActionView::Done(Ok(snapshot@)),
            RefreshAction::Done(Err(error)) => ActionView::Done(Err(error@)),
            RefreshAction::Rejected => ActionView::Rejected,
        }
    }
}

/// What a session is waiting for.
#[derive(Debug)]
enum Stage {
    Fetch,
    Persist(String),
    Store(Snapshot),
    Nothing,
}

/// One run of a refresh.
#[derive(Debug)]
pub struct RefreshSession {
    stage: Stage,
}

/// The mathematical model of a [`RefreshSession`].
pub enum SessionView {
    /// Waiting for the reply.
    AwaitingFetch,
    /// Waiting for the copy of this text to be written.
    AwaitingPersist(Seq<char>),
    /// Waiting for these records to be written to the durable table.
    AwaitingStore(Seq<RecordView>),
    /// The refresh is over.
    Finished,
}

impl View for RefreshSession {
    type V = SessionView;

    closed spec fn view(&self) -> SessionView {
        match self.stage {
            Stage::Fetch => SessionView::AwaitingFetch,
            Stage::Persist(text) => SessionView::AwaitingPersist(text@),
            Stage::Store(snapshot) => SessionView::AwaitingStore(snapshot@),
            Stage::Nothing => SessionView::Finished,
        }
    }
}

/// Whether a status tells success: 200 to 299.
pub open spec fn status_ok(status: u16) -> bool {
    200 <= status <= 299
}

/// What a session makes of an event: the session afterwards, and what is
/// to be done next.
///
/// A refresh fetches, then writes the copy of the text, then decodes the
/// text and reads its records, then writes the durable table. The first
/// failure ends it. An event that the session is not waiting for changes
/// nothing.
pub open spec fn step_spec(session: SessionView, event: EventView) -> (SessionView, ActionView) {
    match (session, event) {
        (SessionView::AwaitingFetch, EventView::FetchFailed(reason)) => (
            SessionView::Finished,
            ActionView::Done(Err(RefreshErrorView::Network(reason))),
        ),
        (SessionView::AwaitingFetch, EventView::Fetched { status, body }) => {
            if !status_ok(status) {
                (SessionView::Finished, ActionView::Done(Err(RefreshErrorView::HttpStatus(status))))
            } else if !valid_utf8(body) {
                (SessionView::Finished, ActionView::Done(Err(RefreshErrorView::NotUtf8)))
            } else {
                (SessionView::AwaitingPersist(decode_utf8(body)), ActionView::PersistRaw)
            }
        },
        (SessionView::AwaitingPersist(text), EventView::PersistFailed(reason)) => (
            SessionView::Finished,
            ActionView::Done(Err(RefreshErrorView::Persist(reason))),
        ),
        (SessionView::AwaitingPersist(text), EventView::Persisted) => match parsed_json(text) {
            None => (SessionView::Finished, ActionView::Done(Err(RefreshErrorView::NotJson))),
            Some(document) => (
                SessionView::AwaitingStore(document_records(document)),
                ActionView::Store,
            ),
        },
        (SessionView::AwaitingStore(records), EventView::StoreFailed(reason)) => (
            SessionView::Finished,
            ActionView::Done(Err(RefreshErrorView::Store(reason))),
        ),
        (SessionView::AwaitingStore(records), EventView::Stored) => (
            SessionView::Finished,
            ActionView::Done(Ok(records)),
        ),
        _ => (session, ActionView::Rejected),
    }
}

/// Whether a status tells success.
pub fn is_success(status: u16) -> (r: bool)
    ensures
        r == status_ok(status),
{
    200 <= status && status <= 299
}

impl RefreshSession {
    /// A session that waits for the reply.
    fn start() -> (r: RefreshSession)
        ensures
            r@ == SessionView::AwaitingFetch,
    {
        RefreshSession { stage: Stage::Fetch }
    }

    /// The text whose copy is to be written, while the session waits for
    /// that.
    pub fn raw_document(&self) -> (r: Option<&str>)
        ensures
            match r {
                Some(text) => self@ == SessionView::AwaitingPersist(text@),
                None => !(self@ is AwaitingPersist),
            },
    {
        match &self.stage {
            Stage::Persist(text) => Some(text.as_str()),
            _ => None,
        }
    }

    /// The records that are to be written to the durable table, while the
    /// session waits for that.
    pub fn pending_records(&self) -> (r: Option<&Vec<CombinationRecord>>)
        ensures
            match r {
                Some(records) => self@ == SessionView::AwaitingStore(records.deep_view()),
                None => !(self@ is AwaitingStore),
            },
    {
        match &self.stage {
            Stage::Store(snapshot) => Some(snapshot.records()),
            _ => None,
        }
    }

    /// Whether the refresh is over.
    pub fn is_finished(&self) -> (r: bool)
        ensures
            r == (self@ is Finished),
    {
        match &self.stage {
            Stage::Nothing => true,
            _ => false,
        }
    }

    /// Takes an event, and says what is to be done next.
    pub fn step(self, event: RefreshEvent) -> (r: (RefreshSession, RefreshAction))
        ensures
            (r.0@, r.1@) == step_spec(self@, event@),
    {
        let finished = RefreshSession { stage: Stage::Nothing };
        match (self.stage, event) {
            (Stage::Fetch, RefreshEvent::FetchFailed(reason)) => (
                finished,
                RefreshAction::Done(Err(RefreshError::Network(reason))),
            ),
            (Stage::Fetch, RefreshEvent::Fetched { status, body }) => {
                if !is_success(status) {
                    (finished, RefreshAction::Done(Err(RefreshError::HttpStatus(status))))
                } else {
                    match string_from_utf8(body) {
                        None => (
                            finished,
                            RefreshAction::Done(Err(RefreshError::Decode(DecodeFailure::NotUtf8))),
                        ),
                        Some(text) => (
                            RefreshSession { stage: Stage::Persist(text) },
                            RefreshAction::PersistRaw,
                        ),
                    }
                }
            },
            (Stage::Persist(text), RefreshEvent::PersistFailed(reason)) => (
                finished,
                RefreshAction::Done(Err(RefreshError::Persist(reason))),
            ),
            (Stage::Persist(text), RefreshEvent::Persisted) => {
                match decode_json(text.as_str()) {
                    Err(message) => (
                        finished,
                        RefreshAction::Done(
                            Err(RefreshError::Decode(DecodeFailure::NotJson(message))),
                        ),
                    ),
                    Ok(document) => {
                        let snapshot = Snapshot::build(records_in(&document));
                        (RefreshSession { stage: Stage::Store(snapshot) }, RefreshAction::Store)
                    },
                }
            },
            (Stage::Store(snapshot), RefreshEvent::StoreFailed(reason)) => (
                finished,
                RefreshAction::Done(Err(RefreshError::Store(reason))),
            ),
            (Stage::Store(snapshot), RefreshEvent::Stored) => (
                finished,
                RefreshAction::Done(Ok(snapshot)),
            ),
            (stage, _) => (RefreshSession { stage }, RefreshAction::Rejected),
        }
    }
}

/// How a refresh ended for the caller that asked for it.
#[derive(Debug, Clone, PartialEq, Eq)]
pub enum RefreshOutcome {
    /// The store now holds the snapshot of the document, with this many
    /// records.
    Replaced(usize),
    /// Another refresh was in progress; nothing was fetched.
    AlreadyInProgress,
}

/// What a caller that asks for a refresh is told.
#[derive(Debug)]
pub enum RefreshStart {
    /// Another refresh is in progress. Nothing is to be fetched; the
    /// caller reports [`RefreshOutcome::AlreadyInProgress`].
    AlreadyInProgress,
    /// The caller runs the refresh: it fetches the document and reports to
    /// the session.
    Fetch(RefreshSession),
}

/// The store and the guard, which callers share.
#[derive(Debug)]
pub struct Coordinator {
    guard: RefreshGuard,
    store: MappingStore,
}

/// The mathematical model of a [`Coordinator`].
pub struct CoordinatorView {
    /// Whether a refresh is in progress.
    pub in_progress: bool,
    /// The records of the current snapshot, if there is one.
    pub store: Option<Seq<RecordView>>,
}

impl View for Coordinator {
    type V = CoordinatorView;

    closed spec fn view(&self) -> CoordinatorView {
        CoordinatorView { in_progress: self.guard@, store: self.store@ }
    }
}

/// What a request for a refresh does to the coordinator, and whether the
/// request starts a refresh.
pub open spec fn begin_spec(c: CoordinatorView) -> (CoordinatorView, bool) {
    (CoordinatorView { in_progress: true, store: c.store }, !c.in_progress)
}

/// What the end of a refresh does to the coordinator: the guard is
/// released, and the store holds the new records where there are any.
pub open spec fn finish_spec(
    c: CoordinatorView,
    result: Result<Seq<RecordView>, RefreshErrorView>,
) -> CoordinatorView {
    CoordinatorView {
        in_progress: false,
        store: match result {
            Ok(records) => Some(records),
            Err(_) => c.store,
        },
    }
}

impl Coordinator {
    /// A coordinator with no snapshot and no refresh in progress.
    pub fn new() -> (r: Coordinator)
        ensures
            r@ == (CoordinatorView { in_progress: false, store: None }),
    {
        Coordinator { guard: RefreshGuard::new(), store: MappingStore::new() }
    }

    /// A coordinator around a store, with no refresh in progress.
    pub fn with_store(store: MappingStore) -> (r: Coordinator)
        ensures
            r@ == (CoordinatorView { in_progress: false, store: store@ }),
    {
        Coordinator { guard: RefreshGuard::new(), store }
    }

    /// Whether a refresh is in progress.
    pub fn is_refreshing(&self) -> (r: bool)
        ensures
            r == self@.in_progress,
    {
        self.guard.is_in_progress()
    }

    /// The store, to read.
    pub fn store(&self) -> (r: &MappingStore)
        ensures
            r@ == self@.store,
    {
        &self.store
    }

    /// Asks for a refresh. Where none is in progress the guard is claimed
    /// and the caller gets the session to run; where one is, nothing
    /// changes. The store is not touched.
    pub fn begin_refresh(&mut self) -> (r: RefreshStart)
        ensures
            final(self)@ == begin_spec(old(self)@).0,
            match r {
                RefreshStart::Fetch(session) => begin_spec(old(self)@).1 && session@
                    == SessionView::AwaitingFetch,
                RefreshStart::AlreadyInProgress => !begin_spec(old(self)@).1,
            },
    {
        if self.guard.try_begin() {
            RefreshStart::Fetch(RefreshSession::start())
        } else {
            RefreshStart::AlreadyInProgress
        }
    }

    /// Takes the result of a refresh. A snapshot is installed in place of
    /// what the store held; after a failure the store is as it was. The
    /// guard is released in either case.
    pub fn finish_refresh(&mut self, result: Result<Snapshot, RefreshError>) -> (r: Result<
        RefreshOutcome,
        RefreshError,
    >)
        ensures
            match result {
                Ok(snapshot) => {
                    &&& final(self)@ == finish_spec(old(self)@, Ok(snapshot@))
                    &&& r matches Ok(RefreshOutcome::Replaced(n))
                    &&& n == snapshot@.len()
                },
                Err(error) => {
                    &&& final(self)@ == finish_spec(old(self)@, Err(error@))
                    &&& r == Err::<RefreshOutcome, RefreshError>(error)
                },
            },
    {
        let r = match result {
            Ok(snapshot) => {
                let n = snapshot.len();
                self.store.install(snapshot);
                Ok(RefreshOutcome::Replaced(n))
            },
            Err(error) => Err(error),
        };
        self.guard.end();
        r
    }
}

/// The coordinator after `n` requests for a refresh in a row, none of
/// which has ended.
pub open spec fn after_begins(c: CoordinatorView, n: nat) -> CoordinatorView
    decreases n,
{
    if n == 0 {
        c
    } else {
        begin_spec(after_begins(c, (n - 1) as nat)).0
    }
}

/// How many of `n` requests for a refresh in a row start one.
pub open spec fn starts_among(c: CoordinatorView, n: nat) -> nat
    decreases n,
{
    if n == 0 {
        0
    } else {
        let before = after_begins(c, (n - 1) as nat);
        starts_among(c, (n - 1) as nat) + if begin_spec(before).1 {
            1nat
        } else {
            0nat
        }
    }
}

/// Of any number of requests for a refresh that come while none has
/// ended, exactly one starts a refresh where none was in progress: the
/// first. All the others are told that one is in progress, and none
/// touches the store.
pub proof fn law_one_refresh_at_a_time(c: CoordinatorView, n: nat)
    requires
        n >= 1,
    ensures
        !c.in_progress ==> starts_among(c, n) == 1 && begin_spec(c).1,
        c.in_progress ==> starts_among(c, n) == 0,
        forall|k: nat| 1 <= k ==> !(#[trigger] begin_spec(after_begins(c, k))).1,
        after_begins(c, n).in_progress,
        after_begins(c, n).store == c.store,
    decreases n,
{
    assert forall|k: nat| 1 <= k implies !(#[trigger] begin_spec(after_begins(c, k))).1 by {
        assert(after_begins(c, k) == begin_spec(after_begins(c, (k - 1) as nat)).0);
    }
    if n == 1 {
        assert(after_begins(c, 0) == c);
        assert(starts_among(c, 0) == 0);
    } else {
        law_one_refresh_at_a_time(c, (n - 1) as nat);
    }
}

/// The reply, or the lack of one, ends the refresh at the fetch: no reply
/// came, the status does not tell success, or the body is not UTF-8.
pub open spec fn fails_at_fetch(event: EventView) -> bool {
    match event {
        EventView::FetchFailed(_) => true,
        EventView::Fetched { status, body } => !status_ok(status) || !valid_utf8(body),
        _ => false,
    }
}

/// A refresh that fails at the fetch ends at once with an error, and
/// handing that error to the coordinator leaves the store as it was and
/// releases the guard.
pub proof fn law_failed_fetch_changes_nothing(c: CoordinatorView, event: EventView)
    requires
        fails_at_fetch(event),
    ensures
        step_spec(SessionView::AwaitingFetch, event).0 == SessionView::Finished,
        step_spec(SessionView::AwaitingFetch, event).1 matches ActionView::Done(Err(error))
            && finish_spec(c, Err(error)).store == c.store && !finish_spec(
            c,
            Err(error),
        ).in_progress,
{
}

/// However a session ends, it ends with a result, and the coordinator
/// that takes the result has its guard released; after an error its store
/// is as it was.
pub proof fn law_guard_released_on_every_exit(
    c: CoordinatorView,
    session: SessionView,
    event: EventView,
)
    ensures
        step_spec(session, event).0 is Finished && !(session is Finished) ==> step_spec(
            session,
            event,
        ).1 is Done,
        step_spec(session, event).1 matches ActionView::Done(result) ==> {
            &&& !finish_spec(c, result).in_progress
            &&& result is Err ==> finish_spec(c, result).store == c.store
            &&& result matches Ok(records) ==> finish_spec(c, result).store == Some(records)
        },
{
}

} // verus!
