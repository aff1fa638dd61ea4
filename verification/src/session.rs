//! The session as a state machine: provision once, answer queries
//! one at a time, then tear the index down. Each step takes the
//! current phase and an event from the outside (file contents, a
//! service outcome, a line of input) and returns the next phase and
//! the one action to perform.

use vstd::prelude::*;
use crate::catalog::ParseError;
use crate::catalog::parse_catalog;
use crate::catalog::spec_parse_catalog;
use crate::input::is_quit;
use crate::input::spec_is_quit;
use crate::input::spec_trim;
use crate::input::trim_line;
use crate::records::Clothes;
use crate::records::ClothesDisplay;
use crate::records::ClothesDisplayV;
use crate::records::ClothesV;
use crate::records::views_of_clothes;
use crate::records::views_of_display;
use crate::render::render_hits;
use crate::render::spec_render_hits;

verus! {

/// Where the session stands.
#[derive(Clone, Copy, Debug, PartialEq, Eq, Structural)]
pub enum Phase {
    Idle,
    Provisioning,
    Ready,
    Querying,
    Teardown,
    Terminated,
}

/// Why the session aborts, one kind per failure the program treats
/// as fatal.
#[derive(Clone, Copy, Debug, PartialEq, Eq, Structural)]
pub enum AbortKind {
    FileAccess,
    Deserialization,
    ServiceRequest,
    ServiceTask,
}

/// What the outside hands the machine.
pub enum Event {
    /// The catalog file's text was read.
    CatalogLoaded(String),
    /// The catalog file could not be read; the detail says why.
    CatalogUnreadable(String),
    /// Provisioning finished and the service reported success.
    ProvisionDone,
    /// Provisioning failed; the detail is the service's report.
    ProvisionFailed(String),
    /// The user entered a line.
    Line(String),
    /// A query returned these hits.
    QueryDone(Vec<ClothesDisplay>),
    /// A query failed; the detail is the service's report.
    QueryFailed(String),
    /// The index was deleted.
    TeardownDone,
    /// The index could not be deleted.
    TeardownFailed(String),
}

/// Mathematical image of an [`Event`].
pub ghost enum EventV {
    CatalogLoaded(Seq<char>),
    CatalogUnreadable(Seq<char>),
    ProvisionDone,
    ProvisionFailed(Seq<char>),
    Line(Seq<char>),
    QueryDone(Seq<ClothesDisplayV>),
    QueryFailed(Seq<char>),
    TeardownDone,
    TeardownFailed(Seq<char>),
}

impl View for Event {
    type V = EventV;

    open spec fn view(&self) -> EventV {
        match self {
            Event::CatalogLoaded(t) => EventV::CatalogLoaded(t@),
            Event::CatalogUnreadable(t) => EventV::CatalogUnreadable(t@),
            Event::ProvisionDone => EventV::ProvisionDone,
            Event::ProvisionFailed(t) => EventV::ProvisionFailed(t@),
            Event::Line(t) => EventV::Line(t@),
            Event::QueryDone(h) => EventV::QueryDone(views_of_display(h@)),
            Event::QueryFailed(t) => EventV::QueryFailed(t@),
            Event::TeardownDone => EventV::TeardownDone,
            Event::TeardownFailed(t) => EventV::TeardownFailed(t@),
        }
    }
}

/// What the machine asks the outside to do next.
pub enum Action {
    /// Push configuration and these documents to the index, in order,
    /// and wait for the write task to finish.
    Provision(Vec<Clothes>),
    /// Show the prompt and read a line.
    Prompt,
    /// Run a free-text search with this trimmed query.
    Query(String),
    /// Write this text to the terminal, then prompt again.
    Print(String),
    /// Delete the index.
    DeleteIndex,
    /// Leave with success.
    Exit,
    /// Leave at once with an error of this kind and detail.
    Abort(AbortKind, String),
    /// Nothing: the event does not belong to this phase.
    Ignore,
}

/// Mathematical image of an [`Action`].
pub ghost enum ActionV {
    Provision(Seq<ClothesV>),
    Prompt,
    Query(Seq<char>),
    Print(Seq<char>),
    DeleteIndex,
    Exit,
    Abort(AbortKind, Seq<char>),
    Ignore,
}

impl View for Action {
    type V = ActionV;

    open spec fn view(&self) -> ActionV {
        match self {
            Action::Provision(v) => ActionV::Provision(views_of_clothes(v@)),
            Action::Prompt => ActionV::Prompt,
            Action::Query(t) => ActionV::Query(t@),
            Action::Print(t) => ActionV::Print(t@),
            Action::DeleteIndex => ActionV::DeleteIndex,
            Action::Exit => ActionV::Exit,
            Action::Abort(k, t) => ActionV::Abort(*k, t@),
            Action::Ignore => ActionV::Ignore,
        }
    }
}

/// The whole behaviour of the session: from a phase and an event to
/// the next phase and the action owed.
pub open spec fn spec_step(phase: Phase, e: EventV) -> (Phase, ActionV) {
    match (phase, e) {
        (Phase::Idle, EventV::CatalogLoaded(text)) => match spec_parse_catalog(text) {
            Some(recs) => (Phase::Provisioning, ActionV::Provision(recs)),
            None => (
                Phase::Terminated,
                ActionV::Abort(AbortKind::Deserialization, "malformed catalog"@),
            ),
        },
        (Phase::Idle, EventV::CatalogUnreadable(d)) => (
            Phase::Terminated,
            ActionV::Abort(AbortKind::FileAccess, d),
        ),
        (Phase::Provisioning, EventV::ProvisionDone) => (Phase::Ready, ActionV::Prompt),
        (Phase::Provisioning, EventV::ProvisionFailed(d)) => (
            Phase::Terminated,
            ActionV::Abort(AbortKind::ServiceTask, d),
        ),
        (Phase::Ready, EventV::Line(l)) => if spec_is_quit(l) {
            (Phase::Teardown, ActionV::DeleteIndex)
        } else {
            (Phase::Querying, ActionV::Query(spec_trim(l)))
        },
        (Phase::Querying, EventV::QueryDone(hits)) => (
            Phase::Ready,
            ActionV::Print(spec_render_hits(hits)),
        ),
        (Phase::Querying, EventV::QueryFailed(d)) => (
            Phase::Terminated,
            ActionV::Abort(AbortKind::ServiceRequest, d),
        ),
        (Phase::Teardown, EventV::TeardownDone) => (Phase::Terminated, ActionV::Exit),
        (Phase::Teardown, EventV::TeardownFailed(d)) => (
            Phase::Terminated,
            ActionV::Abort(AbortKind::ServiceRequest, d),
        ),
        _ => (phase, ActionV::Ignore),
    }
}

/// Take one step of the session.
pub fn step(phase: Phase, event: Event) -> (r: (Phase, Action))
    ensures
        r.0 == spec_step(phase, event@).0,
        r.1@ == spec_step(phase, event@).1,
{
    match (phase, event) {
        (Phase::Idle, Event::CatalogLoaded(text)) => match parse_catalog(text.as_str()) {
            Ok(v) => (Phase::Provisioning, Action::Provision(v)),
            Err(ParseError::Malformed) => {
                let mut d = String::new();
                d.append("malformed catalog");
                (Phase::Terminated, Action::Abort(AbortKind::Deserialization, d))
            },
        },
        (Phase::Idle, Event::CatalogUnreadable(d)) => (
            Phase::Terminated,
            Action::Abort(AbortKind::FileAccess, d),
        ),
        (Phase::Provisioning, Event::ProvisionDone) => (Phase::Ready, Action::Prompt),
        (Phase::Provisioning, Event::ProvisionFailed(d)) => (
            Phase::Terminated,
            Action::Abort(AbortKind::ServiceTask, d),
        ),
        (Phase::Ready, Event::Line(l)) => {
            if is_quit(l.as_str()) {
                (Phase::Teardown, Action::DeleteIndex)
            } else {
                (Phase::Querying, Action::Query(trim_line(l.as_str())))
            }
        },
        (Phase::Querying, Event::QueryDone(hits)) => {
            let out = render_hits(&hits);
            (Phase::Ready, Action::Print(out))
        },
        (Phase::Querying, Event::QueryFailed(d)) => (
            Phase::Terminated,
            Action::Abort(AbortKind::ServiceRequest, d),
        ),
        (Phase::Teardown, Event::TeardownDone) => (Phase::Terminated, Action::Exit),
        (Phase::Teardown, Event::TeardownFailed(d)) => (
            Phase::Terminated,
            Action::Abort(AbortKind::ServiceRequest, d),
        ),
        (p, _) => (p, Action::Ignore),
    }
}

/// Law: a line that trims to `q`, `quit` or nothing ends the loop
/// and deletes the index; no search is issued for it.
pub proof fn lemma_quit_ends_loop(l: Seq<char>)
    requires
        spec_is_quit(l),
    ensures
        spec_step(Phase::Ready, EventV::Line(l)) == (Phase::Teardown, ActionV::DeleteIndex),
{
}

/// Law: any other line is searched, trimmed, and the session goes on.
pub proof fn lemma_other_line_queries(l: Seq<char>)
    requires
        !spec_is_quit(l),
    ensures
        spec_step(Phase::Ready, EventV::Line(l)) == (
            Phase::Querying,
            ActionV::Query(spec_trim(l)),
        ),
{
}

/// Law: once teardown begins no query and no provisioning is ever
/// asked for again, the session never returns to an earlier phase,
/// and a terminated session stays terminated.
pub proof fn lemma_no_query_after_teardown(p: Phase, e: EventV)
    requires
        p == Phase::Teardown || p == Phase::Terminated,
    ensures
        !(spec_step(p, e).1 is Query),
        !(spec_step(p, e).1 is Provision),
        spec_step(p, e).0 == Phase::Teardown || spec_step(p, e).0 == Phase::Terminated,
        p == Phase::Terminated ==> spec_step(p, e).0 == Phase::Terminated,
{
}

/// Law: a catalog that does not parse aborts the session at once; the
/// one step that reaches the service from `Idle` is `Provision`, and
/// it is not taken.
pub proof fn lemma_malformed_catalog_aborts(text: Seq<char>)
    requires
        spec_parse_catalog(text) is None,
    ensures
        spec_step(Phase::Idle, EventV::CatalogLoaded(text)).0 == Phase::Terminated,
        spec_step(Phase::Idle, EventV::CatalogLoaded(text)).1 matches ActionV::Abort(k, _)
            && k == AbortKind::Deserialization,
{
}

/// Law: a catalog that parses is provisioned whole: the action
/// carries exactly the records the text denotes.
pub proof fn lemma_valid_catalog_provisions(text: Seq<char>, recs: Seq<ClothesV>)
    requires
        spec_parse_catalog(text) == Some(recs),
    ensures
        spec_step(Phase::Idle, EventV::CatalogLoaded(text)) == (
            Phase::Provisioning,
            ActionV::Provision(recs),
        ),
{
}

} // verus!
