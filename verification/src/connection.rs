//! The life of one connection, as a state machine.
//!
//! The machine decides; whoever drives it does the work. A driver starts with
//! `ConnState::Start` and `Event::Accepted`, hands both to `step`, logs the warning
//! of the step if it has one, carries out its action and comes back with the event
//! that tells how the action went, until the action is `Action::Stop`.

use crate::config::{Config, ConfigView};
use crate::mime::{default_mime, lookup_mime, mime_of_extension};
use crate::request::{
    is_token, lemma_method_ends_at_first_space, lemma_parse_errors_are_400,
    lemma_parse_reads_request_line, parse_request, request_line, Request, RequestView, CR, LF,
    SPACE,
};
use crate::resource::{extension_of, filesystem_path, mime_of, ResourcePath};
use crate::response::{
    sent_body, sent_mime, text_response, wire_format, Data, DataView, Response, ResponseView,
};
use crate::status::{
    code_is_success, is_served_code, is_success, lemma_served_codes_are_named, reason_of,
    reason_phrase,
};
use crate::text::{decimal, decimal_string, decode_text, str_eq};
use vstd::prelude::*;
use vstd::string::*;
use vstd::utf8::*;

verus! {

/// How the one read of a connection went: the buffer with the number of bytes that
/// were read into it, or the reason why nothing was read.
#[derive(Debug, PartialEq, Eq)]
pub enum ReadOutcome {
    Received { buffer: Vec<u8>, count: usize },
    Failed { reason: String },
}

/// What a `ReadOutcome` stands for.
pub enum ReadOutcomeView {
    Received { buffer: Seq<u8>, count: nat },
    Failed { reason: Seq<char> },
}

impl View for ReadOutcome {
    type V = ReadOutcomeView;

    open spec fn view(&self) -> ReadOutcomeView {
        match self {
            ReadOutcome::Received { buffer, count } => ReadOutcomeView::Received {
                buffer: buffer@,
                count: *count as nat,
            },
            ReadOutcome::Failed { reason } => ReadOutcomeView::Failed { reason: reason@ },
        }
    }
}

/// What is to be done about a request: answer at once, or load a file first.
#[derive(Debug, PartialEq, Eq)]
pub enum Routing {
    Respond { response: Response },
    Load { path: String, mime: String, warning: Option<String> },
}

/// What a `Routing` stands for.
pub enum RoutingView {
    Respond { response: ResponseView },
    Load { path: Seq<char>, mime: Seq<char>, warning: Option<Seq<char>> },
}

impl View for Routing {
    type V = RoutingView;

    open spec fn view(&self) -> RoutingView {
        match self {
            Routing::Respond { response } => RoutingView::Respond { response: response@ },
            Routing::Load { path, mime, warning } => RoutingView::Load {
                path: path@,
                mime: mime@,
                warning: warning.deep_view(),
            },
        }
    }
}

/// The response to a read that failed for `reason`: status 400.
pub open spec fn read_failure(reason: Seq<char>) -> ResponseView {
    text_response(
        400,
        "The network stream didn't stay valid long enough for the server to read it: "@ + reason,
    )
}

/// The response to a request that is too large: status 413 and no text.
pub open spec fn too_large() -> ResponseView {
    text_response(413, Seq::empty())
}

/// The response to a method other than `GET`: status 501.
pub open spec fn method_not_served() -> ResponseView {
    text_response(501, "This server only accepts GET requests."@)
}

/// The response to a version other than `HTTP/1.1`: status 505.
pub open spec fn version_not_served() -> ResponseView {
    text_response(505, "This server only speaks HTTP/1.1"@)
}

/// The response for a file that could not be read for `reason`: status 404.
pub open spec fn not_found(reason: Seq<char>) -> ResponseView {
    text_response(404, reason)
}

/// The response that serves `content` as `mime`: status 200, with a body that is
/// text where `content` is well-formed UTF-8, and bytes where it is not.
pub open spec fn found(mime: Seq<char>, content: Seq<u8>) -> ResponseView {
    ResponseView {
        code: 200,
        mime,
        body: if valid_utf8(content) {
            DataView::Text(decode_utf8(content))
        } else {
            DataView::Binary(content)
        },
    }
}

/// The warning that is due where the MIME table lacks the extension of
/// `resource`, and none where it has it.
pub open spec fn mime_warning(resource: Seq<char>) -> Option<Seq<char>> {
    if mime_of_extension(extension_of(resource)) is None {
        Some("Could not find MIME type for file extension: "@ + extension_of(resource))
    } else {
        None
    }
}

/// The warning that is due where the status table lacks `code`, and none where it
/// has it.
pub open spec fn status_warning(code: u16) -> Option<Seq<char>> {
    if reason_of(code) is None {
        Some("Returning HTTP response code with no name: "@ + decimal(code as nat))
    } else {
        None
    }
}

/// The warning that the address of the peer could not be had, for `reason`.
pub open spec fn peer_warning(reason: Seq<char>) -> Seq<char> {
    "Couldn't get peer IP: "@ + reason
}

/// The warning that the error page could not be had, for `reason`, and the one
/// that is built in is used.
pub open spec fn template_warning(reason: Seq<char>) -> Seq<char> {
    "Using default error page because we couldn't find error.html - "@ + reason
}

/// The line of the request log for a connection: the address of the peer, or
/// `Unknown` where there is none, and the code of the response.
pub open spec fn request_log_line(peer: Option<Seq<char>>, code: u16) -> Seq<char> {
    "From: "@ + match peer {
        Some(address) => address,
        None => "Unknown"@,
    } + " Response code: "@ + decimal(code as nat)
}

/// What is to be done about `request`: a method other than `GET` is answered with
/// 501, then a version other than `HTTP/1.1` with 505; else the file that the
/// resource stands for under `webroot` is to be loaded.
pub open spec fn request_routing(request: RequestView, webroot: Seq<char>) -> RoutingView {
    if request.method != "GET"@ {
        RoutingView::Respond { response: method_not_served() }
    } else if request.http_version != "HTTP/1.1"@ {
        RoutingView::Respond { response: version_not_served() }
    } else {
        RoutingView::Load {
            path: filesystem_path(request.resource, webroot),
            mime: mime_of(request.resource),
            warning: mime_warning(request.resource),
        }
    }
}

/// What is to be done once the read is over: a failed read is answered with 400; a
/// read of as many bytes as a request may have, or more, with 413, whatever the
/// bytes are; else the buffer is parsed, and a request that cannot be parsed is
/// answered with the parser's response.
pub open spec fn read_routing(read: ReadOutcomeView, config: ConfigView) -> RoutingView {
    match read {
        ReadOutcomeView::Failed { reason } => RoutingView::Respond {
            response: read_failure(reason),
        },
        ReadOutcomeView::Received { buffer, count } => {
            if count >= config.request_max_bytes {
                RoutingView::Respond { response: too_large() }
            } else {
                match parse_request(buffer) {
                    Err(response) => RoutingView::Respond { response },
                    Ok(request) => request_routing(request, config.webroot),
                }
            }
        },
    }
}

/// Decides what is to be done about a request that was parsed.
pub fn route_request(request: Request, webroot: &str) -> (routing: Routing)
    ensures
        routing@ == request_routing(request@, webroot@),
{
    if !str_eq(request.method.as_str(), "GET") {
        Routing::Respond {
            response: Response::new(
                501,
                String::from_str("This server only accepts GET requests."),
            ),
        }
    } else if !str_eq(request.http_version.as_str(), "HTTP/1.1") {
        Routing::Respond {
            response: Response::new(505, String::from_str("This server only speaks HTTP/1.1")),
        }
    } else {
        let resource = ResourcePath { resource: request.resource };
        let path = resource.get_path(webroot.to_owned());
        let extension = resource.get_extension();
        match lookup_mime(extension.as_str()) {
            Some(mime) => Routing::Load { path, mime: String::from_str(mime), warning: None },
            None => {
                let mut warning = String::from_str("Could not find MIME type for file extension: ");
                warning.append(extension.as_str());
                Routing::Load {
                    path,
                    mime: String::from_str("text/plain"),
                    warning: Some(warning),
                }
            },
        }
    }
}

/// Decides what is to be done once the read of a connection is over.
pub fn route_read(read: ReadOutcome, config: &Config) -> (routing: Routing)
    ensures
        routing@ == read_routing(read@, config@),
{
    match read {
        ReadOutcome::Failed { reason } => {
            let mut text = String::from_str(
                "The network stream didn't stay valid long enough for the server to read it: ",
            );
            text.append(reason.as_str());
            Routing::Respond { response: Response::new(400, text) }
        },
        ReadOutcome::Received { buffer, count } => {
            if count >= config.request_max_bytes() {
                Routing::Respond { response: Response::new(413, String::new()) }
            } else {
                match Request::from_bytes(buffer.as_slice()) {
                    Err(response) => Routing::Respond { response },
                    Ok(request) => route_request(request, config.webroot()),
                }
            }
        },
    }
}

/// The response that serves a file which was read, as `mime`.
pub fn serve_file(mime: String, content: Vec<u8>) -> (response: Response)
    ensures
        response@ == found(mime@, content@),
{
    match decode_text(content.as_slice()) {
        Ok(text) => Response { code: 200, mime, body: Data::Text(text) },
        Err(_) => Response { code: 200, mime, body: Data::Binary(content) },
    }
}

/// Writes the line of the request log.
pub fn log_line(peer: Option<&str>, code: u16) -> (line: String)
    ensures
        line@ == request_log_line(
            match peer {
                Some(address) => Some(address@),
                None => None,
            },
            code,
        ),
{
    let mut line = String::from_str("From: ");
    match peer {
        Some(address) => line.append(address),
        None => line.append("Unknown"),
    }
    line.append(" Response code: ");
    line.append(decimal_string(code as usize).as_str());
    line
}

/// Where a connection stands.
#[derive(Debug, PartialEq, Eq)]
pub enum ConnState {
    /// Nothing has been done yet.
    Start,
    /// The one read is under way.
    Reading,
    /// The read is over and the read side is being closed.
    Closing { read: ReadOutcome },
    /// The file that the request asks for is being loaded.
    Loading { mime: String },
    /// The response is made and the address of the peer is being asked for.
    Identifying { response: Response },
    /// The line of the request log is being written.
    Logging { response: Response },
    /// The template of the error page is being loaded.
    Templating { response: Response },
    /// The message is being sent.
    Sending,
    /// The connection is done with.
    Done,
}

/// What a `ConnState` stands for.
pub enum ConnStateView {
    Start,
    Reading,
    Closing { read: ReadOutcomeView },
    Loading { mime: Seq<char> },
    Identifying { response: ResponseView },
    Logging { response: ResponseView },
    Templating { response: ResponseView },
    Sending,
    Done,
}

impl View for ConnState {
    type V = ConnStateView;

    open spec fn view(&self) -> ConnStateView {
        match self {
            ConnState::Start => ConnStateView::Start,
            ConnState::Reading => ConnStateView::Reading,
            ConnState::Closing { read } => ConnStateView::Closing { read: read@ },
            ConnState::Loading { mime } => ConnStateView::Loading { mime: mime@ },
            ConnState::Identifying { response } => ConnStateView::Identifying {
                response: response@,
            },
            ConnState::Logging { response } => ConnStateView::Logging { response: response@ },
            ConnState::Templating { response } => ConnStateView::Templating {
                response: response@,
            },
            ConnState::Sending => ConnStateView::Sending,
            ConnState::Done => ConnStateView::Done,
        }
    }
}

/// What happened on a connection: how the last action went.
#[derive(Debug, PartialEq, Eq)]
pub enum Event {
    /// The connection was accepted.
    Accepted,
    /// The read is over.
    Read { outcome: ReadOutcome },
    /// The read side was closed, or closing it was tried.
    ReadClosed,
    /// The file was read.
    FileLoaded { content: Vec<u8> },
    /// The file could not be read.
    FileFailed { reason: String },
    /// The peer has this address.
    PeerKnown { address: String },
    /// The address of the peer could not be had.
    PeerUnknown { reason: String },
    /// The line was logged.
    Logged,
    /// The template of the error page was read.
    TemplateLoaded { page: String },
    /// The template of the error page could not be read.
    TemplateMissing { reason: String },
    /// The message was sent, or sending it was tried.
    Sent,
}

/// What an `Event` stands for.
pub enum EventView {
    Accepted,
    Read { outcome: ReadOutcomeView },
    ReadClosed,
    FileLoaded { content: Seq<u8> },
    FileFailed { reason: Seq<char> },
    PeerKnown { address: Seq<char> },
    PeerUnknown { reason: Seq<char> },
    Logged,
    TemplateLoaded { page: Seq<char> },
    TemplateMissing { reason: Seq<char> },
    Sent,
}

impl View for Event {
    type V = EventView;

    open spec fn view(&self) -> EventView {
        match self {
            Event::Accepted => EventView::Accepted,
            Event::Read { outcome } => EventView::Read { outcome: outcome@ },
            Event::ReadClosed => EventView::ReadClosed,
            Event::FileLoaded { content } => EventView::FileLoaded { content: content@ },
            Event::FileFailed { reason } => EventView::FileFailed { reason: reason@ },
            Event::PeerKnown { address } => EventView::PeerKnown { address: address@ },
            Event::PeerUnknown { reason } => EventView::PeerUnknown { reason: reason@ },
            Event::Logged => EventView::Logged,
            Event::TemplateLoaded { page } => EventView::TemplateLoaded { page: page@ },
            Event::TemplateMissing { reason } => EventView::TemplateMissing { reason: reason@ },
            Event::Sent => EventView::Sent,
        }
    }
}

/// What is to be done next on a connection.
#[derive(Debug, PartialEq, Eq)]
pub enum Action {
    /// Read once, into a buffer of `capacity` bytes.
    Read { capacity: usize },
    /// Close the read side, so that what was not read is thrown away.
    CloseRead,
    /// Read the file at `path`.
    LoadFile { path: String },
    /// Ask for the address of the peer.
    QueryPeer,
    /// Write `line` to the request log.
    Log { line: String },
    /// Read the template of the error page.
    LoadTemplate,
    /// Write `message` to the connection and flush it.
    Send { message: Vec<u8> },
    /// Nothing is left to do.
    Stop,
}

/// What an `Action` stands for.
pub enum ActionView {
    Read { capacity: nat },
    CloseRead,
    LoadFile { path: Seq<char> },
    QueryPeer,
    Log { line: Seq<char> },
    LoadTemplate,
    Send { message: Seq<u8> },
    Stop,
}

impl View for Action {
    type V = ActionView;

    open spec fn view(&self) -> ActionView {
        match self {
            Action::Read { capacity } => ActionView::Read { capacity: *capacity as nat },
            Action::CloseRead => ActionView::CloseRead,
            Action::LoadFile { path } => ActionView::LoadFile { path: path@ },
            Action::QueryPeer => ActionView::QueryPeer,
            Action::Log { line } => ActionView::Log { line: line@ },
            Action::LoadTemplate => ActionView::LoadTemplate,
            Action::Send { message } => ActionView::Send { message: message@ },
            Action::Stop => ActionView::Stop,
        }
    }
}

/// One step of a connection: the state it is in now, a warning for the server's
/// log where one is due, and what is to be done next.
#[derive(Debug, PartialEq, Eq)]
pub struct Step {
    pub state: ConnState,
    pub warning: Option<String>,
    pub action: Action,
}

/// What a `Step` stands for.
pub struct StepView {
    pub state: ConnStateView,
    pub warning: Option<Seq<char>>,
    pub action: ActionView,
}

impl View for Step {
    type V = StepView;

    open spec fn view(&self) -> StepView {
        StepView { state: self.state@, warning: self.warning.deep_view(), action: self.action@ }
    }
}

/// The step that ends a connection.
pub open spec fn halt() -> StepView {
    StepView { state: ConnStateView::Done, warning: None, action: ActionView::Stop }
}

/// The step that follows once the response is made: the address of the peer is
/// asked for.
pub open spec fn identify(response: ResponseView) -> StepView {
    StepView {
        state: ConnStateView::Identifying { response },
        warning: None,
        action: ActionView::QueryPeer,
    }
}

/// The step that sends `response`, with `template` for its error page and
/// `warning` for the server's log.
pub open spec fn send(
    response: ResponseView,
    template: Option<Seq<char>>,
    warning: Option<Seq<char>>,
) -> StepView {
    StepView {
        state: ConnStateView::Sending,
        warning,
        action: ActionView::Send { message: wire_format(response, template) },
    }
}

/// The step that a connection in `state` takes on `event`.
///
/// A connection is read once, into a buffer with room for one byte more than a
/// request may have; then its read side is closed; then the request is routed, and
/// its file loaded where it asks for one; then the line of the request log is
/// written, with the peer's address; then the message is sent, after the template
/// of the error page was loaded where the response is an error. An event that the
/// state does not wait for ends the connection.
pub open spec fn next_step(state: ConnStateView, event: EventView, config: ConfigView) -> StepView {
    match state {
        ConnStateView::Start => match event {
            EventView::Accepted => StepView {
                state: ConnStateView::Reading,
                warning: None,
                action: ActionView::Read { capacity: config.request_max_bytes + 1 },
            },
            _ => halt(),
        },
        ConnStateView::Reading => match event {
            EventView::Read { outcome } => StepView {
                state: ConnStateView::Closing { read: outcome },
                warning: None,
                action: ActionView::CloseRead,
            },
            _ => halt(),
        },
        ConnStateView::Closing { read } => match event {
            EventView::ReadClosed => match read_routing(read, config) {
                RoutingView::Respond { response } => identify(response),
                RoutingView::Load { path, mime, warning } => StepView {
                    state: ConnStateView::Loading { mime },
                    warning,
                    action: ActionView::LoadFile { path },
                },
            },
            _ => halt(),
        },
        ConnStateView::Loading { mime } => match event {
            EventView::FileLoaded { content } => identify(found(mime, content)),
            EventView::FileFailed { reason } => identify(not_found(reason)),
            _ => halt(),
        },
        ConnStateView::Identifying { response } => match event {
            EventView::PeerKnown { address } => StepView {
                state: ConnStateView::Logging { response },
                warning: None,
                action: ActionView::Log { line: request_log_line(Some(address), response.code) },
            },
            EventView::PeerUnknown { reason } => StepView {
                state: ConnStateView::Logging { response },
                warning: Some(peer_warning(reason)),
                action: ActionView::Log { line: request_log_line(None, response.code) },
            },
            _ => halt(),
        },
        ConnStateView::Logging { response } => match event {
            EventView::Logged => if is_success(response.code) {
                send(response, None, status_warning(response.code))
            } else {
                StepView {
                    state: ConnStateView::Templating { response },
                    warning: status_warning(response.code),
                    action: ActionView::LoadTemplate,
                }
            },
            _ => halt(),
        },
        ConnStateView::Templating { response } => match event {
            EventView::TemplateLoaded { page } => send(response, Some(page), None),
            EventView::TemplateMissing { reason } => send(
                response,
                None,
                Some(template_warning(reason)),
            ),
            _ => halt(),
        },
        ConnStateView::Sending => halt(),
        ConnStateView::Done => halt(),
    }
}

/// A file is sent byte for byte, whether its content is text or not, under the
/// media type that was found for it.
pub proof fn lemma_file_is_sent_as_it_is(
    mime: Seq<char>,
    content: Seq<u8>,
    template: Option<Seq<char>>,
)
    ensures
        sent_body(found(mime, content), template) == content,
        sent_mime(found(mime, content)) == mime,
{
    if valid_utf8(content) {
        decode_utf8_encode_utf8(content);
    }
}

/// A read of as many bytes as a request may have, or of more, is answered with 413
/// and an empty text, whatever was read.
pub proof fn lemma_oversized_is_refused(buffer: Seq<u8>, count: nat, config: ConfigView)
    requires
        count >= config.request_max_bytes,
    ensures
        read_routing(ReadOutcomeView::Received { buffer, count }, config) == (RoutingView::Respond {
            response: text_response(413, Seq::empty()),
        }),
{
}

/// A request line that is read in full, below the largest size, is routed as the
/// request that it writes: by its method first, then by its version, then by its
/// resource.
pub proof fn lemma_request_line_is_routed(
    request: RequestView,
    line_break: u8,
    rest: Seq<u8>,
    count: nat,
    config: ConfigView,
)
    requires
        is_token(request.method),
        is_token(request.resource),
        is_token(request.http_version),
        line_break == CR || line_break == LF,
        count < config.request_max_bytes,
    ensures
        read_routing(
            ReadOutcomeView::Received {
                buffer: request_line(request) + seq![line_break] + rest,
                count,
            },
            config,
        ) == request_routing(request, config.webroot),
{
    lemma_parse_reads_request_line(request, line_break, rest);
}

/// A request line that begins with a space is never served: where it is parsed at
/// all, its method is empty, which is not `GET`, and the answer is 501; else it is
/// the parser's 400.
pub proof fn lemma_leading_space_is_refused(buffer: Seq<u8>, count: nat, config: ConfigView)
    requires
        buffer.len() > 0,
        buffer[0] == SPACE,
        count < config.request_max_bytes,
    ensures
        read_routing(ReadOutcomeView::Received { buffer, count }, config)
            matches RoutingView::Respond { response } && (response.code == 400 || response.code
            == 501),
{
    lemma_method_ends_at_first_space(buffer);
    lemma_parse_errors_are_400(buffer);
    reveal_strlit("GET");
    assert("GET"@.len() == 3);
}

/// A request with a method other than `GET` is answered with 501.
pub proof fn lemma_other_methods_are_refused(request: RequestView, webroot: Seq<char>)
    requires
        request.method != "GET"@,
    ensures
        request_routing(request, webroot) matches RoutingView::Respond { response }
            && response.code == 501,
{
}

/// A `GET` request with a version other than `HTTP/1.1` is answered with 505.
pub proof fn lemma_other_versions_are_refused(request: RequestView, webroot: Seq<char>)
    requires
        request.method == "GET"@,
        request.http_version != "HTTP/1.1"@,
    ensures
        request_routing(request, webroot) matches RoutingView::Respond { response }
            && response.code == 505,
{
}

/// A `GET` request over `HTTP/1.1` always comes to loading a file, whatever its
/// resource is; where the MIME table lacks the extension of the resource, the file
/// is served as `text/plain`, and a warning says so.
pub proof fn lemma_unknown_extension_is_plain_text(request: RequestView, webroot: Seq<char>)
    requires
        request.method == "GET"@,
        request.http_version == "HTTP/1.1"@,
    ensures
        request_routing(request, webroot) matches RoutingView::Load { path, mime, warning } && (
        mime_of_extension(extension_of(request.resource)) is None ==> mime == default_mime()
            && warning is Some),
{
}

/// True of a state in which no response has a code other than those that this
/// server gives.
pub open spec fn holds_served_code(state: ConnStateView) -> bool {
    match state {
        ConnStateView::Identifying { response } => is_served_code(response.code),
        ConnStateView::Logging { response } => is_served_code(response.code),
        ConnStateView::Templating { response } => is_served_code(response.code),
        _ => true,
    }
}

/// Every response that a connection comes to has one of the codes 200, 400, 404,
/// 413, 501 and 505: the first state holds no other, and no step brings one in.
pub proof fn lemma_steps_keep_served_codes(
    state: ConnStateView,
    event: EventView,
    config: ConfigView,
)
    requires
        holds_served_code(state),
    ensures
        holds_served_code(ConnStateView::Start),
        holds_served_code(next_step(state, event, config).state),
{
}

/// No connection that holds the server's own codes alone is ever warned of a code
/// without a name.
pub proof fn lemma_served_codes_need_no_warning(state: ConnStateView, config: ConfigView)
    requires
        holds_served_code(state),
        state is Logging,
    ensures
        next_step(state, EventView::Logged, config).warning is None,
{
    lemma_served_codes_are_named(state->Logging_response.code);
}

/// How far a connection has come: the number of the stage that `state` belongs to.
pub open spec fn stage(state: ConnStateView) -> nat {
    match state {
        ConnStateView::Start => 0,
        ConnStateView::Reading => 1,
        ConnStateView::Closing { .. } => 2,
        ConnStateView::Loading { .. } => 3,
        ConnStateView::Identifying { .. } => 4,
        ConnStateView::Logging { .. } => 5,
        ConnStateView::Templating { .. } => 6,
        ConnStateView::Sending => 7,
        ConnStateView::Done => 8,
    }
}

/// A connection only moves on: each step brings it to a later stage, or leaves it
/// done. It stops exactly when it is done, and sends only on its way to the last
/// stage before that.
pub proof fn lemma_steps_move_on(state: ConnStateView, event: EventView, config: ConfigView)
    ensures
        stage(next_step(state, event, config).state) > stage(state) || next_step(
            state,
            event,
            config,
        ).state is Done,
        next_step(state, event, config).action is Stop <==> next_step(
            state,
            event,
            config,
        ).state is Done,
        next_step(state, event, config).action is Send <==> next_step(
            state,
            event,
            config,
        ).state is Sending,
{
}

/// The state that a connection in `state` comes to through `events`, one step for
/// each of them.
pub open spec fn state_after(
    state: ConnStateView,
    events: Seq<EventView>,
    config: ConfigView,
) -> ConnStateView
    decreases events.len(),
{
    if events.len() == 0 {
        state
    } else {
        state_after(next_step(state, events[0], config).state, events.drop_first(), config)
    }
}

/// Every connection runs to its end: whatever happens, it is done after eight steps
/// at the most, and once it is done it stays so.
pub proof fn lemma_every_run_ends(state: ConnStateView, events: Seq<EventView>, config: ConfigView)
    ensures
        stage(state_after(state, events, config)) >= stage(state),
        stage(state) + events.len() >= 8 ==> state_after(state, events, config) is Done,
    decreases events.len(),
{
    if events.len() > 0 {
        lemma_steps_move_on(state, events[0], config);
        lemma_every_run_ends(
            next_step(state, events[0], config).state,
            events.drop_first(),
            config,
        );
    }
}

/// The step that ends a connection.
fn stop() -> (step: Step)
    ensures
        step@ == halt(),
{
    Step { state: ConnState::Done, warning: None, action: Action::Stop }
}

/// The step that asks for the address of the peer, with `response` made.
fn ask_peer(response: Response) -> (step: Step)
    ensures
        step@ == identify(response@),
{
    Step { state: ConnState::Identifying { response }, warning: None, action: Action::QueryPeer }
}

/// The warning about a status code that has no name, where one is due.
fn warn_of_status(code: u16) -> (warning: Option<String>)
    ensures
        warning.deep_view() == status_warning(code),
{
    match reason_phrase(code) {
        Some(_) => None,
        None => {
            let mut warning = String::from_str("Returning HTTP response code with no name: ");
            warning.append(decimal_string(code as usize).as_str());
            Some(warning)
        },
    }
}

/// Takes one step on a connection: from the state it is in and what happened to the
/// state it is in next, with what is to be done now.
pub fn step(state: ConnState, event: Event, config: &Config) -> (next: Step)
    ensures
        next@ == next_step(state@, event@, config@),
{
    match state {
        ConnState::Start => match event {
            Event::Accepted => Step {
                state: ConnState::Reading,
                warning: None,
                action: Action::Read { capacity: config.request_max_bytes() + 1 },
            },
            _ => stop(),
        },
        ConnState::Reading => match event {
            Event::Read { outcome } => Step {
                state: ConnState::Closing { read: outcome },
                warning: None,
                action: Action::CloseRead,
            },
            _ => stop(),
        },
        ConnState::Closing { read } => match event {
            Event::ReadClosed => match route_read(read, config) {
                Routing::Respond { response } => ask_peer(response),
                Routing::Load { path, mime, warning } => Step {
                    state: ConnState::Loading { mime },
                    warning,
                    action: Action::LoadFile { path },
                },
            },
            _ => stop(),
        },
        ConnState::Loading { mime } => match event {
            Event::FileLoaded { content } => ask_peer(serve_file(mime, content)),
            Event::FileFailed { reason } => ask_peer(Response::new(404, reason)),
            _ => stop(),
        },
        ConnState::Identifying { response } => match event {
            Event::PeerKnown { address } => {
                let line = log_line(Some(address.as_str()), response.code);
                Step {
                    state: ConnState::Logging { response },
                    warning: None,
                    action: Action::Log { line },
                }
            },
            Event::PeerUnknown { reason } => {
                let mut warning = String::from_str("Couldn't get peer IP: ");
                warning.append(reason.as_str());
                let line = log_line(None, response.code);
                Step {
                    state: ConnState::Logging { response },
                    warning: Some(warning),
                    action: Action::Log { line },
                }
            },
            _ => stop(),
        },
        ConnState::Logging { response } => match event {
            Event::Logged => {
                let warning = warn_of_status(response.code);
                if code_is_success(response.code) {
                    Step {
                        state: ConnState::Sending,
                        warning,
                        action: Action::Send { message: response.to_vec(None) },
                    }
                } else {
                    Step {
                        state: ConnState::Templating { response },
                        warning,
                        action: Action::LoadTemplate,
                    }
                }
            },
            _ => stop(),
        },
        ConnState::Templating { response } => match event {
            Event::TemplateLoaded { page } => Step {
                state: ConnState::Sending,
                warning: None,
                action: Action::Send { message: response.to_vec(Some(page.as_str())) },
            },
            Event::TemplateMissing { reason } => {
                let mut warning = String::from_str(
                    "Using default error page because we couldn't find error.html - ",
                );
                warning.append(reason.as_str());
                Step {
                    state: ConnState::Sending,
                    warning: Some(warning),
                    action: Action::Send { message: response.to_vec(None) },
                }
            },
            _ => stop(),
        },
        ConnState::Sending => stop(),
        ConnState::Done => stop(),
    }
}

} // verus!
