//! The query description pipeline as a state machine: from a database URL
//! and what the connection answers to the descriptor of a query.
//!
//! This module decides; it performs nothing. The caller hands it what
//! happened as an [`Event`], performs the [`Action`] that comes back, and
//! stops when the state is `Finished`. One request uses one connection, in
//! order: the connection is opened, then asked once, and the answer ends the
//! request. An event is taken only in the state that waits for it.

use crate::describe::backend_for_scheme;
use crate::describe::parse_url;
use crate::describe::descriptor_for;
use crate::describe::scheme_backend;
use crate::describe::url_parsed;
use crate::describe::Backend;
use crate::describe::DatabaseUrl;
use crate::describe::Describe;
use crate::describe::DescribeError;
use crate::describe::DescribeErrorView;
use crate::describe::Drivers;
use crate::describe::QueryData;
use crate::describe::QueryDataView;
use vstd::prelude::*;

verus! {

/// Where a request stands.
#[derive(Clone, Copy, Debug, PartialEq, Eq, Structural)]
pub enum PipelineState {
    /// Nothing has happened yet.
    Start,
    /// The connection to `backend` is being opened.
    Connecting { backend: Backend },
    /// The connection to `backend` is open and has been asked.
    Describing { backend: Backend },
    /// The request has ended, with a descriptor or an error.
    Finished,
}

/// What happened outside the pipeline.
#[derive(Debug)]
pub enum Event {
    /// A descriptor is asked for, from the database at `db_url`.
    Begin { db_url: String },
    /// The connection is open.
    Connected,
    /// The connection could not be opened.
    ConnectFailed { message: String },
    /// The connection described the query.
    Described { describe: Describe },
    /// The connection could not describe the query.
    DescribeFailed { message: String },
}

/// What the caller is to do next.
#[derive(Debug)]
pub enum Action {
    /// Open a connection to `backend` at `url`.
    Connect { backend: Backend, url: String },
    /// Ask the open connection to describe the query.
    Describe,
    /// Hand out the descriptor. The request has ended.
    Finish { data: QueryData },
    /// Hand out the error. The request has ended.
    Fail { error: DescribeError },
}

/// An [`Action`] with its texts as sequences.
pub enum ActionView {
    Connect { backend: Backend, url: Seq<char> },
    Describe,
    Finish { data: QueryDataView },
    Fail { error: DescribeErrorView },
}

impl View for Action {
    type V = ActionView;

    open spec fn view(&self) -> ActionView {
        match *self {
            Action::Connect { backend, url } => ActionView::Connect { backend, url: url@ },
            Action::Describe => ActionView::Describe,
            Action::Finish { data } => ActionView::Finish { data: data@ },
            Action::Fail { error } => ActionView::Fail { error: error@ },
        }
    }
}

/// The end of a request with `error`.
pub open spec fn failed(error: DescribeErrorView) -> (PipelineState, ActionView) {
    (PipelineState::Finished, ActionView::Fail { error })
}

/// What follows from a parsed URL of the given scheme and text: a connection
/// to the backend of the scheme where the build holds its driver, else the
/// end of the request.
pub open spec fn connect_for(scheme: Seq<char>, text: Seq<char>, drivers: Drivers) -> (
    PipelineState,
    ActionView,
) {
    match scheme_backend(scheme) {
        None => failed(DescribeErrorView::UnknownScheme { scheme, url: text }),
        Some(backend) => if drivers.spec_has(backend) {
            (PipelineState::Connecting { backend }, ActionView::Connect { backend, url: text })
        } else {
            failed(DescribeErrorView::BackendNotCompiled { scheme, backend, url: text })
        },
    }
}

/// What follows from the outcome of parsing the text `input` as a URL.
pub open spec fn begin_for(
    parsed: Option<(Seq<char>, Seq<char>)>,
    input: Seq<char>,
    drivers: Drivers,
) -> (PipelineState, ActionView) {
    match parsed {
        Some((scheme, text)) => connect_for(scheme, text, drivers),
        None => failed(DescribeErrorView::InvalidUrl { url: input }),
    }
}

/// What follows from the answer of the connection of `backend`.
pub open spec fn finish_for(backend: Backend, describe: Describe) -> (PipelineState, ActionView) {
    match descriptor_for(backend, describe) {
        Ok(data) => (PipelineState::Finished, ActionView::Finish { data }),
        Err(error) => failed(error),
    }
}

impl PipelineState {
    /// Whether the state waits for `event`.
    pub open spec fn spec_expects(self, event: Event) -> bool {
        match self {
            PipelineState::Start => event is Begin,
            PipelineState::Connecting { .. } => event is Connected || event is ConnectFailed,
            PipelineState::Describing { .. } => event is Described || event is DescribeFailed,
            PipelineState::Finished => false,
        }
    }

    /// The state and the action that follow when `event` happens in a state
    /// that waits for it.
    pub open spec fn next(self, event: Event, drivers: Drivers) -> (PipelineState, ActionView) {
        match event {
            Event::Begin { db_url } => begin_for(url_parsed(db_url@), db_url@, drivers),
            Event::Connected => (
                PipelineState::Describing { backend: self->Connecting_backend },
                ActionView::Describe,
            ),
            Event::ConnectFailed { message } => failed(
                DescribeErrorView::ConnectionFailure { message: message@ },
            ),
            Event::Described { describe } => finish_for(self->Describing_backend, describe),
            Event::DescribeFailed { message } => failed(
                DescribeErrorView::DescribeFailure { message: message@ },
            ),
        }
    }

    /// Whether the state waits for `event`.
    pub fn expects(&self, event: &Event) -> (expected: bool)
        ensures
            expected == self.spec_expects(*event),
    {
        match self {
            PipelineState::Start => match event {
                Event::Begin { .. } => true,
                _ => false,
            },
            PipelineState::Connecting { .. } => match event {
                Event::Connected => true,
                Event::ConnectFailed { .. } => true,
                _ => false,
            },
            PipelineState::Describing { .. } => match event {
                Event::Described { .. } => true,
                Event::DescribeFailed { .. } => true,
                _ => false,
            },
            PipelineState::Finished => false,
        }
    }

    /// Takes `event` where the state waits for it, and refuses it where the
    /// state does not.
    pub fn step(self, event: Event, drivers: &Drivers) -> (r: Option<(PipelineState, Action)>)
        ensures
            r is Some <==> self.spec_expects(event),
            r matches Some((state, action)) ==> (state, action@) == self.next(event, *drivers),
    {
        match self {
            PipelineState::Start => match event {
                Event::Begin { db_url } => Some(begin(db_url, drivers)),
                _ => None,
            },
            PipelineState::Connecting { backend } => match event {
                Event::Connected => Some((PipelineState::Describing { backend }, Action::Describe)),
                Event::ConnectFailed { message } => Some(
                    (
                        PipelineState::Finished,
                        Action::Fail { error: DescribeError::ConnectionFailure { message } },
                    ),
                ),
                _ => None,
            },
            PipelineState::Describing { backend } => match event {
                Event::Described { describe } => Some(finish(backend, &describe)),
                Event::DescribeFailed { message } => Some(
                    (
                        PipelineState::Finished,
                        Action::Fail { error: DescribeError::DescribeFailure { message } },
                    ),
                ),
                _ => None,
            },
            PipelineState::Finished => None,
        }
    }
}

/// Parses the text as a URL and picks the backend, or ends the request
/// where the text is no URL.
pub fn begin(db_url: String, drivers: &Drivers) -> (r: (PipelineState, Action))
    ensures
        (r.0, r.1@) == begin_for(url_parsed(db_url@), db_url@, *drivers),
{
    match parse_url(db_url.as_str()) {
        Ok(url) => select_backend(url, drivers),
        Err(_) => (
            PipelineState::Finished,
            Action::Fail { error: DescribeError::InvalidUrl { url: db_url } },
        ),
    }
}

/// Picks the backend for a parsed URL and asks for the connection, or ends
/// the request where no driver serves the scheme.
pub fn select_backend(url: DatabaseUrl, drivers: &Drivers) -> (r: (PipelineState, Action))
    ensures
        (r.0, r.1@) == connect_for(url.scheme@, url.text@, *drivers),
{
    match backend_for_scheme(url.scheme.as_str()) {
        None => (
            PipelineState::Finished,
            Action::Fail { error: DescribeError::UnknownScheme { scheme: url.scheme, url: url.text } },
        ),
        Some(backend) => if drivers.has(backend) {
            (PipelineState::Connecting { backend }, Action::Connect { backend, url: url.text })
        } else {
            (
                PipelineState::Finished,
                Action::Fail {
                    error: DescribeError::BackendNotCompiled {
                        scheme: url.scheme,
                        backend,
                        url: url.text,
                    },
                },
            )
        },
    }
}

/// Ends the request with the descriptor that the answer of the connection
/// comes to, or with the reason why it comes to none.
pub fn finish(backend: Backend, describe: &Describe) -> (r: (PipelineState, Action))
    ensures
        (r.0, r.1@) == finish_for(backend, *describe),
{
    match QueryData::from_describe(backend, describe) {
        Ok(data) => (PipelineState::Finished, Action::Finish { data }),
        Err(error) => (PipelineState::Finished, Action::Fail { error }),
    }
}

/// A request that has ended takes no event, and every event that is taken
/// leads on: from the start to connecting, from connecting to describing,
/// and from anywhere to the end. No connection is asked before it is open,
/// and none is asked twice.
pub proof fn lemma_pipeline_order(state: PipelineState, event: Event, drivers: Drivers)
    requires
        state.spec_expects(event),
    ensures
        state != PipelineState::Finished,
        ({
            let (after, action) = state.next(event, drivers);
            &&& action is Connect <==> after is Connecting
            &&& action is Describe <==> after is Describing
            &&& (action is Finish || action is Fail) <==> after is Finished
            &&& after is Connecting ==> state is Start
            &&& after is Describing ==> state is Connecting
            &&& action is Finish ==> state is Describing
            &&& after != PipelineState::Start
        }),
{
}

} // verus!
