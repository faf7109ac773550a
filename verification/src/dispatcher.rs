//! The listener: what is done when the socket is bound and when a connection comes
//! in. The work itself, and the pool of workers, are the caller's.

use crate::config::{Config, ConfigView};
use vstd::prelude::*;
use vstd::string::*;

verus! {

/// What happened at the listening socket.
#[derive(Debug, PartialEq, Eq)]
pub enum ListenerEvent {
    /// The server is starting.
    Started,
    /// The socket is bound.
    Bound,
    /// The socket could not be bound.
    BindFailed { reason: String },
    /// A connection came in.
    Accepted,
    /// A connection could not be accepted.
    AcceptFailed { reason: String },
}

/// What a `ListenerEvent` stands for.
pub enum ListenerEventView {
    Started,
    Bound,
    BindFailed { reason: Seq<char> },
    Accepted,
    AcceptFailed { reason: Seq<char> },
}

impl View for ListenerEvent {
    type V = ListenerEventView;

    open spec fn view(&self) -> ListenerEventView {
        match self {
            ListenerEvent::Started => ListenerEventView::Started,
            ListenerEvent::Bound => ListenerEventView::Bound,
            ListenerEvent::BindFailed { reason } => ListenerEventView::BindFailed {
                reason: reason@,
            },
            ListenerEvent::Accepted => ListenerEventView::Accepted,
            ListenerEvent::AcceptFailed { reason } => ListenerEventView::AcceptFailed {
                reason: reason@,
            },
        }
    }
}

/// What the listener is to do next.
#[derive(Debug, PartialEq, Eq)]
pub enum ListenerAction {
    /// Bind the socket at `address`.
    Bind { address: String },
    /// Set up a pool of `workers` workers, then wait for a connection.
    Listen { workers: usize },
    /// Hand the connection that came in to a worker, then wait for the next.
    Serve,
    /// Wait for the next connection.
    Accept,
    /// End the process with `status`.
    Exit { status: u8 },
}

/// What a `ListenerAction` stands for.
pub enum ListenerActionView {
    Bind { address: Seq<char> },
    Listen { workers: nat },
    Serve,
    Accept,
    Exit { status: u8 },
}

impl View for ListenerAction {
    type V = ListenerActionView;

    open spec fn view(&self) -> ListenerActionView {
        match self {
            ListenerAction::Bind { address } => ListenerActionView::Bind { address: address@ },
            ListenerAction::Listen { workers } => ListenerActionView::Listen {
                workers: *workers as nat,
            },
            ListenerAction::Serve => ListenerActionView::Serve,
            ListenerAction::Accept => ListenerActionView::Accept,
            ListenerAction::Exit { status } => ListenerActionView::Exit { status: *status },
        }
    }
}

/// What the listener does about an event: an error for the log, where the event is
/// a failure, and the next action.
#[derive(Debug, PartialEq, Eq)]
pub struct Dispatch {
    pub error: Option<String>,
    pub action: ListenerAction,
}

/// What a `Dispatch` stands for.
pub struct DispatchView {
    pub error: Option<Seq<char>>,
    pub action: ListenerActionView,
}

impl View for Dispatch {
    type V = DispatchView;

    open spec fn view(&self) -> DispatchView {
        DispatchView { error: self.error.deep_view(), action: self.action@ }
    }
}

/// The error that says that `address` could not be bound, for `reason`.
pub open spec fn bind_error(address: Seq<char>, reason: Seq<char>) -> Seq<char> {
    "Couldn't bind to addr "@ + address + ": "@ + reason
}

/// The error that says that a connection could not be accepted, for `reason`.
pub open spec fn accept_error(reason: Seq<char>) -> Seq<char> {
    "Listener gave us an invalid TCPStream!: "@ + reason
}

/// What the listener does about `event`.
///
/// It binds the address of the settings. A socket that cannot be bound ends the
/// process with status 1. Once bound, the pool is set up with as many workers as
/// the settings say. Each connection that comes in is handed to a worker; one that
/// cannot be accepted is reported and passed over, and the listener goes on.
pub open spec fn dispatch_of(event: ListenerEventView, config: ConfigView) -> DispatchView {
    match event {
        ListenerEventView::Started => DispatchView {
            error: None,
            action: ListenerActionView::Bind { address: config.listen_addr },
        },
        ListenerEventView::Bound => DispatchView {
            error: None,
            action: ListenerActionView::Listen { workers: config.threads_max },
        },
        ListenerEventView::BindFailed { reason } => DispatchView {
            error: Some(bind_error(config.listen_addr, reason)),
            action: ListenerActionView::Exit { status: 1 },
        },
        ListenerEventView::Accepted => DispatchView {
            error: None,
            action: ListenerActionView::Serve,
        },
        ListenerEventView::AcceptFailed { reason } => DispatchView {
            error: Some(accept_error(reason)),
            action: ListenerActionView::Accept,
        },
    }
}

/// Decides what the listener does about `event`.
pub fn dispatch(event: ListenerEvent, config: &Config) -> (decided: Dispatch)
    ensures
        decided@ == dispatch_of(event@, config@),
        decided.action matches ListenerAction::Listen { workers } ==> workers > 0,
{
    match event {
        ListenerEvent::Started => Dispatch {
            error: None,
            action: ListenerAction::Bind { address: config.listen_addr().to_owned() },
        },
        ListenerEvent::Bound => Dispatch {
            error: None,
            action: ListenerAction::Listen { workers: config.threads_max() },
        },
        ListenerEvent::BindFailed { reason } => {
            let mut error = String::from_str("Couldn't bind to addr ");
            error.append(config.listen_addr());
            error.append(": ");
            error.append(reason.as_str());
            Dispatch { error: Some(error), action: ListenerAction::Exit { status: 1 } }
        },
        ListenerEvent::Accepted => Dispatch { error: None, action: ListenerAction::Serve },
        ListenerEvent::AcceptFailed { reason } => {
            let mut error = String::from_str("Listener gave us an invalid TCPStream!: ");
            error.append(reason.as_str());
            Dispatch { error: Some(error), action: ListenerAction::Accept }
        },
    }
}

/// Only a socket that cannot be bound ends the process: a connection that cannot be
/// accepted does not stop the listener.
pub proof fn lemma_only_bind_failure_is_fatal(event: ListenerEventView, config: ConfigView)
    ensures
        dispatch_of(event, config).action is Exit <==> event is BindFailed,
        dispatch_of(event, config).error is Some <==> (event is BindFailed || event is AcceptFailed),
{
}

} // verus!
