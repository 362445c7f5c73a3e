//! The dispatcher: one message's delivery, as a machine that is told what
//! happened and answers with what to do next. It asks for the tenant's
//! secret, checks the destination, has its host resolved, pins the request to
//! the first public address, classifies the response and has the attempt
//! recorded. It never talks to the network itself.

use crate::address::{
    all_private, first_public, is_first_public_at, lemma_all_private_has_no_target,
    lemma_target_is_first_public, select_target, spec_is_private_ip, SocketAddress,
};
use crate::destination::{
    resolve_destination, spec_destination, url_parts, Destination, DestinationView,
};
use crate::headers::{
    build_headers, header_entries, lemma_request_has_content_type, lemma_signature_header,
    names_no_header, request_headers, CONTENT_TYPE_NAME, MAX_CUSTOM_HEADERS, SIGNATURE_NAME,
};
use crate::message::{
    audit_record, failure_record, optional_text, spec_audit_record, spec_failure_record,
    QueueMessageView, WebhookLog, WebhookLogView, WebhookQueueMessage,
};
use crate::outcome::{
    classify_status, is_success_status, outcome_of_status, status_line, status_text,
    DispatchResult, HttpStatus,
};
use crate::secret::{json_string_field, secret_from_response, spec_secret, SECRET_FIELD};
use crate::signature::{sign_payload, signature_of};
use reqwest::header::HeaderMap;
use vstd::prelude::*;
use vstd::string::StringExecFns;

verus! {

/// The table of the record store that holds the tenants.
pub const TEAMS_TABLE: &'static str = "teams";

/// The table of the record store that the audit records go to.
pub const AUDIT_TABLE: &'static str = "webhook_logs";

/// Delivers webhooks for the tenants of one record store.
#[derive(Clone, Debug, PartialEq, Eq)]
pub struct WebhookDispatcher {
    /// The address of the record store's query interface.
    pub rest_url: String,
    /// The credential sent as the API key.
    pub api_key: String,
    /// The credential sent as the authorization.
    pub authorization: String,
}

/// A request ready to be sent.
#[derive(Debug, PartialEq, Eq)]
pub struct OutboundRequest {
    /// The address to post to.
    pub url: String,
    /// The host that `target` was resolved for.
    pub host: String,
    /// The address to connect to for `host`, in place of resolving it again.
    pub target: SocketAddress,
    /// The time the whole request may take, in milliseconds.
    pub timeout_ms: u64,
    /// The request headers.
    pub headers: HeaderMap,
    /// The request body.
    pub body: String,
}

/// The texts, numbers and header entries of an `OutboundRequest`.
pub struct OutboundRequestView {
    pub url: Seq<char>,
    pub host: Seq<char>,
    pub target: SocketAddress,
    pub timeout_ms: u64,
    pub headers: Map<Seq<char>, Seq<char>>,
    pub body: Seq<char>,
}

impl View for OutboundRequest {
    type V = OutboundRequestView;

    open spec fn view(&self) -> OutboundRequestView {
        OutboundRequestView {
            url: self.url@,
            host: self.host@,
            target: self.target,
            timeout_ms: self.timeout_ms,
            headers: header_entries(self.headers),
            body: self.body@,
        }
    }
}

/// How far the delivery of one message has come.
#[derive(Clone, Debug, PartialEq, Eq)]
pub enum DispatchState {
    /// Nothing has been done yet.
    Created,
    /// The record store has been asked for the tenant's secret.
    AwaitingSecret,
    /// The destination's host is being resolved.
    AwaitingAddresses { secret: Option<String>, destination: Destination },
    /// The request has been handed out.
    AwaitingResponse,
    /// The audit record has been handed out; `outcome` is what the attempt
    /// came to.
    AwaitingAudit { outcome: DispatchResult },
    /// The delivery is over.
    Finished,
}

/// The texts of a `DispatchState`.
pub enum DispatchStateView {
    Created,
    AwaitingSecret,
    AwaitingAddresses { secret: Option<Seq<char>>, destination: DestinationView },
    AwaitingResponse,
    AwaitingAudit { outcome: DispatchResult },
    Finished,
}

impl View for DispatchState {
    type V = DispatchStateView;

    open spec fn view(&self) -> DispatchStateView {
        match *self {
            DispatchState::Created => DispatchStateView::Created,
            DispatchState::AwaitingSecret => DispatchStateView::AwaitingSecret,
            DispatchState::AwaitingAddresses { secret, destination } => {
                DispatchStateView::AwaitingAddresses {
                    secret: optional_text(secret),
                    destination: destination@,
                }
            },
            DispatchState::AwaitingResponse => DispatchStateView::AwaitingResponse,
            DispatchState::AwaitingAudit { outcome } => DispatchStateView::AwaitingAudit {
                outcome,
            },
            DispatchState::Finished => DispatchStateView::Finished,
        }
    }
}

/// What happened since the dispatcher last said what to do.
#[derive(Clone, Debug, PartialEq, Eq)]
pub enum DispatchEvent {
    /// The delivery begins.
    Started,
    /// The record store answered the lookup of the secret.
    SecretAnswered { store_status: u16, body: String },
    /// The lookup of the secret did not get an answer: the request goes
    /// out unsigned.
    SecretLookupFailed { error: String },
    /// The host resolved to these candidates, in this order.
    AddressesResolved { addresses: Vec<SocketAddress> },
    /// The host did not resolve.
    ResolutionFailed { error: String },
    /// The receiver answered the request.
    ResponseReceived { status: HttpStatus },
    /// The request got no answer: a timeout, a refused connection and the like.
    SendFailed { failure_status: Option<u16>, error: String },
    /// No client could be set up for the request.
    ClientFailed { error: String },
    /// The audit record was handed to the record store; `written` tells
    /// whether the store took it.
    AuditDone { written: bool },
}

/// What the dispatcher wants done next.
#[derive(Debug, PartialEq, Eq)]
pub enum DispatchAction {
    /// Look up the signing secret of the tenant `team_id`.
    FetchSecret { team_id: String },
    /// Resolve `host` to its addresses, for connections to `port`.
    Resolve { host: String, port: u16 },
    /// Send the request.
    Send(OutboundRequest),
    /// Write the audit record.
    WriteAudit(WebhookLog),
    /// The delivery ended with this outcome.
    Complete(DispatchResult),
    /// The delivery broke off with an error.
    Fail(String),
}

/// The texts of a `DispatchAction`.
pub enum DispatchActionView {
    FetchSecret { team_id: Seq<char> },
    Resolve { host: Seq<char>, port: u16 },
    Send(OutboundRequestView),
    WriteAudit(WebhookLogView),
    Complete(DispatchResult),
    Fail(Seq<char>),
}

impl View for DispatchAction {
    type V = DispatchActionView;

    open spec fn view(&self) -> DispatchActionView {
        match *self {
            DispatchAction::FetchSecret { team_id } => DispatchActionView::FetchSecret {
                team_id: team_id@,
            },
            DispatchAction::Resolve { host, port } => DispatchActionView::Resolve {
                host: host@,
                port,
            },
            DispatchAction::Send(request) => DispatchActionView::Send(request@),
            DispatchAction::WriteAudit(log) => DispatchActionView::WriteAudit(log@),
            DispatchAction::Complete(outcome) => DispatchActionView::Complete(outcome),
            DispatchAction::Fail(error) => DispatchActionView::Fail(error@),
        }
    }
}

/// The audit record is on its way and the attempt counts as `outcome`.
pub open spec fn audited(outcome: DispatchResult, log: WebhookLogView) -> (
    DispatchStateView,
    DispatchActionView,
) {
    (DispatchStateView::AwaitingAudit { outcome }, DispatchActionView::WriteAudit(log))
}

/// The delivery breaks off with the error `error`.
pub open spec fn failed(error: Seq<char>) -> (DispatchStateView, DispatchActionView) {
    (DispatchStateView::Finished, DispatchActionView::Fail(error))
}

/// The signature for the message's body, where the tenant has a secret.
pub open spec fn spec_signature(m: QueueMessageView, secret: Option<Seq<char>>) -> Option<
    Seq<char>,
> {
    match secret {
        Some(s) => Some(signature_of(s, m.payload)),
        None => None,
    }
}

/// The request for the message `m`, pinned to `target`.
pub open spec fn spec_request(
    m: QueueMessageView,
    secret: Option<Seq<char>>,
    destination: DestinationView,
    target: SocketAddress,
) -> OutboundRequestView {
    OutboundRequestView {
        url: destination.url,
        host: destination.host,
        target,
        timeout_ms: m.timeout_ms,
        headers: request_headers(m.headers, spec_signature(m, secret)),
        body: m.payload,
    }
}

/// With the secret settled, found or not: a destination that does not parse
/// or has no host ends the attempt as fatal; any other has its host resolved.
pub open spec fn after_secret(m: QueueMessageView, secret: Option<Seq<char>>) -> (
    DispatchStateView,
    DispatchActionView,
) {
    match spec_destination(url_parts(m.webhook_url)) {
        Err(text) => audited(DispatchResult::FatalError, spec_failure_record(m, text)),
        Ok(d) => (
            DispatchStateView::AwaitingAddresses { secret, destination: d },
            DispatchActionView::Resolve { host: d.host, port: d.port },
        ),
    }
}

/// With the candidates known: the request goes to the first public one;
/// where there is none the attempt ends as fatal.
pub open spec fn after_resolution(
    m: QueueMessageView,
    secret: Option<Seq<char>>,
    destination: DestinationView,
    addresses: Seq<SocketAddress>,
) -> (DispatchStateView, DispatchActionView) {
    match first_public(addresses) {
        None => audited(
            DispatchResult::FatalError,
            spec_failure_record(m, "Resolved to private/blocked IP"@),
        ),
        Some(target) => (
            DispatchStateView::AwaitingResponse,
            DispatchActionView::Send(spec_request(m, secret, destination, target)),
        ),
    }
}

/// With a response received: the attempt is recorded with the status, and
/// counts as what the status stands for.
pub open spec fn after_response(m: QueueMessageView, status: u16) -> (
    DispatchStateView,
    DispatchActionView,
) {
    if is_success_status(status) {
        audited(DispatchResult::Success, spec_audit_record(m, true, Some(status as i32), None))
    } else {
        audited(
            outcome_of_status(status),
            spec_audit_record(
                m,
                false,
                Some(status as i32),
                Some("HTTP Status "@ + status_line(status)),
            ),
        )
    }
}

/// The status of a failed send, as the audit record holds it.
pub open spec fn spec_failure_code(status: Option<u16>) -> Option<i32> {
    match status {
        Some(code) => Some(code as i32),
        None => None,
    }
}

/// Whether the answer to `event` in `state` is a request: the host has
/// resolved and some candidate is public.
pub open spec fn builds_request(state: DispatchStateView, event: DispatchEvent) -> bool {
    &&& state is AwaitingAddresses
    &&& event matches DispatchEvent::AddressesResolved { addresses }
    &&& first_public(addresses@) is Some
}

/// What the dispatcher does in `state` when `event` happens, for the
/// message `m`: the next state and the action.
pub open spec fn spec_dispatch(m: QueueMessageView, state: DispatchStateView, event: DispatchEvent) -> (
    DispatchStateView,
    DispatchActionView,
) {
    match (state, event) {
        (DispatchStateView::Created, DispatchEvent::Started) => (
            DispatchStateView::AwaitingSecret,
            DispatchActionView::FetchSecret { team_id: m.team_id },
        ),
        (DispatchStateView::AwaitingSecret, DispatchEvent::SecretAnswered { store_status, body }) => {
            after_secret(m, spec_secret(store_status, json_string_field(body@, SECRET_FIELD@)))
        },
        (DispatchStateView::AwaitingSecret, DispatchEvent::SecretLookupFailed { error }) => {
            after_secret(m, None)
        },
        (
            DispatchStateView::AwaitingAddresses { secret, destination },
            DispatchEvent::AddressesResolved { addresses },
        ) => after_resolution(m, secret, destination, addresses@),
        (
            DispatchStateView::AwaitingAddresses { secret, destination },
            DispatchEvent::ResolutionFailed { error },
        ) => audited(
            DispatchResult::FatalError,
            spec_failure_record(m, "DNS failed: "@ + error@),
        ),
        (DispatchStateView::AwaitingResponse, DispatchEvent::ResponseReceived { status }) => {
            after_response(m, status@)
        },
        (DispatchStateView::AwaitingResponse, DispatchEvent::SendFailed { failure_status, error }) => {
            audited(
                DispatchResult::RetryableError,
                spec_audit_record(m, false, spec_failure_code(failure_status), Some(error@)),
            )
        },
        (DispatchStateView::AwaitingResponse, DispatchEvent::ClientFailed { error }) => failed(
            "Client build failed: "@ + error@,
        ),
        (DispatchStateView::AwaitingAudit { outcome }, DispatchEvent::AuditDone { written }) => (
            DispatchStateView::Finished,
            DispatchActionView::Complete(outcome),
        ),
        _ => failed("Unexpected event"@),
    }
}

/// The views of a state and an action.
pub open spec fn step_view(step: (DispatchState, DispatchAction)) -> (
    DispatchStateView,
    DispatchActionView,
) {
    (step.0@, step.1@)
}

/// A text made of a fixed beginning and the text `rest`.
fn prefixed(beginning: &str, rest: &str) -> (text: String)
    ensures
        text@ == beginning@ + rest@,
{
    String::from_str(beginning).concat(rest)
}

impl WebhookDispatcher {
    /// A dispatcher for the record store at `supabase_url`, which is
    /// queried under `/rest/v1` with `supabase_service_token` as API key and
    /// as bearer credential.
    pub fn new(supabase_url: &str, supabase_service_token: &str) -> (dispatcher: Self)
        ensures
            dispatcher.rest_url@ == supabase_url@ + "/rest/v1"@,
            dispatcher.api_key@ == supabase_service_token@,
            dispatcher.authorization@ == "Bearer "@ + supabase_service_token@,
    {
        WebhookDispatcher {
            rest_url: String::from_str(supabase_url).concat("/rest/v1"),
            api_key: String::from_str(supabase_service_token),
            authorization: prefixed("Bearer ", supabase_service_token),
        }
    }

    /// Builds the request for `message` to `destination`, pinned to `target`
    /// and signed where `secret` is there.
    pub fn build_request(
        message: &WebhookQueueMessage,
        secret: Option<String>,
        destination: Destination,
        target: SocketAddress,
    ) -> (request: OutboundRequest)
        requires
            message.headers@.len() <= MAX_CUSTOM_HEADERS,
        ensures
            request@ == spec_request(message@, optional_text(secret), destination@, target),
    {
        let signature = match secret {
            Some(s) => Some(sign_payload(s.as_str(), message.payload.as_str())),
            None => None,
        };
        let headers = match &signature {
            Some(s) => build_headers(&message.headers, Some(s.as_str())),
            None => build_headers(&message.headers, None),
        };
        OutboundRequest {
            url: destination.url,
            host: destination.host,
            target,
            timeout_ms: message.timeout_ms,
            headers,
            body: message.payload.clone(),
        }
    }

    /// With the secret settled, checks the destination: a URL that does not
    /// parse or names no host ends the attempt as fatal; any other has its
    /// host resolved.
    fn check_destination(message: &WebhookQueueMessage, secret: Option<String>) -> (next: (
        DispatchState,
        DispatchAction,
    ))
        ensures
            step_view(next) == after_secret(message@, optional_text(secret)),
    {
        match resolve_destination(message.webhook_url.as_str()) {
            Err(text) => (
                DispatchState::AwaitingAudit { outcome: DispatchResult::FatalError },
                DispatchAction::WriteAudit(failure_record(message, text)),
            ),
            Ok(destination) => {
                let host = destination.host.clone();
                let port = destination.port;
                (
                    DispatchState::AwaitingAddresses { secret, destination },
                    DispatchAction::Resolve { host, port },
                )
            },
        }
    }

    /// Whether `dispatch` takes this step: every step but the one that
    /// builds a request for a message with more headers than a request holds.
    pub fn fits(message: &WebhookQueueMessage, state: &DispatchState, event: &DispatchEvent) -> (ok:
        bool)
        ensures
            ok == (builds_request(state@, *event) ==> message.headers@.len()
                <= MAX_CUSTOM_HEADERS),
    {
        match (state, event) {
            (
                DispatchState::AwaitingAddresses { secret, destination },
                DispatchEvent::AddressesResolved { addresses },
            ) => {
                match select_target(addresses) {
                    Some(target) => message.headers.len() <= MAX_CUSTOM_HEADERS,
                    None => true,
                }
            },
            _ => true,
        }
    }

    /// Advances the delivery of `message` by one step: from the state the
    /// delivery is in and what happened, to the next state and what to do.
    /// It begins in `Created` with `Started` and is over with `Complete` or
    /// `Fail`. An event that does not belong to the state breaks it off.
    /// Only the step that builds the request asks anything of the message:
    /// that its headers fit into one request.
    pub fn dispatch(
        &self,
        message: &WebhookQueueMessage,
        state: DispatchState,
        event: DispatchEvent,
    ) -> (next: (DispatchState, DispatchAction))
        requires
            builds_request(state@, event) ==> message.headers@.len() <= MAX_CUSTOM_HEADERS,
        ensures
            step_view(next) == spec_dispatch(message@, state@, event),
    {
        match (state, event) {
            (DispatchState::Created, DispatchEvent::Started) => (
                DispatchState::AwaitingSecret,
                DispatchAction::FetchSecret { team_id: message.team_id.clone() },
            ),
            (DispatchState::AwaitingSecret, DispatchEvent::SecretAnswered { store_status, body }) => {
                let secret = secret_from_response(store_status, body.as_str());
                Self::check_destination(message, secret)
            },
            (DispatchState::AwaitingSecret, DispatchEvent::SecretLookupFailed { error }) => {
                Self::check_destination(message, None)
            },
            (
                DispatchState::AwaitingAddresses { secret, destination },
                DispatchEvent::AddressesResolved { addresses },
            ) => {
                match select_target(&addresses) {
                    None => (
                        DispatchState::AwaitingAudit { outcome: DispatchResult::FatalError },
                        DispatchAction::WriteAudit(
                            failure_record(
                                message,
                                String::from_str("Resolved to private/blocked IP"),
                            ),
                        ),
                    ),
                    Some(target) => (
                        DispatchState::AwaitingResponse,
                        DispatchAction::Send(
                            Self::build_request(message, secret, destination, target),
                        ),
                    ),
                }
            },
            (
                DispatchState::AwaitingAddresses { secret, destination },
                DispatchEvent::ResolutionFailed { error },
            ) => (
                DispatchState::AwaitingAudit { outcome: DispatchResult::FatalError },
                DispatchAction::WriteAudit(
                    failure_record(message, prefixed("DNS failed: ", error.as_str())),
                ),
            ),
            (DispatchState::AwaitingResponse, DispatchEvent::ResponseReceived { status }) => {
                let code = status.code();
                let outcome = classify_status(code);
                let log = if 200 <= code && code <= 299 {
                    audit_record(message, true, Some(code as i32), None)
                } else {
                    let line = status_text(code);
                    audit_record(
                        message,
                        false,
                        Some(code as i32),
                        Some(prefixed("HTTP Status ", line.as_str())),
                    )
                };
                (DispatchState::AwaitingAudit { outcome }, DispatchAction::WriteAudit(log))
            },
            (DispatchState::AwaitingResponse, DispatchEvent::SendFailed { failure_status, error }) => {
                let code = match failure_status {
                    Some(code) => Some(code as i32),
                    None => None,
                };
                (
                    DispatchState::AwaitingAudit { outcome: DispatchResult::RetryableError },
                    DispatchAction::WriteAudit(audit_record(message, false, code, Some(error))),
                )
            },
            (DispatchState::AwaitingResponse, DispatchEvent::ClientFailed { error }) => (
                DispatchState::Finished,
                DispatchAction::Fail(prefixed("Client build failed: ", error.as_str())),
            ),
            (DispatchState::AwaitingAudit { outcome }, DispatchEvent::AuditDone { written }) => (
                DispatchState::Finished,
                DispatchAction::Complete(outcome),
            ),
            _ => (DispatchState::Finished, DispatchAction::Fail(String::from_str("Unexpected event"))),
        }
    }
}

/// The actions of a delivery: what the dispatcher answers, one after the
/// other, to the events `events`, beginning in `state`.
pub open spec fn dispatch_trace(
    m: QueueMessageView,
    state: DispatchStateView,
    events: Seq<DispatchEvent>,
) -> Seq<DispatchActionView>
    decreases events.len(),
{
    if events.len() == 0 {
        Seq::empty()
    } else {
        let step = spec_dispatch(m, state, events[0]);
        seq![step.1] + dispatch_trace(m, step.0, events.drop_first())
    }
}

/// No action of `actions` sends a request.
pub open spec fn sends_nothing(actions: Seq<DispatchActionView>) -> bool {
    forall|i: int| 0 <= i < actions.len() ==> !(#[trigger] actions[i] is Send)
}

/// Every request among `actions` is pinned to a public address.
pub open spec fn sends_only_to_public(actions: Seq<DispatchActionView>) -> bool {
    forall|i: int|
        0 <= i < actions.len() ==> (#[trigger] actions[i] matches DispatchActionView::Send(request)
            ==> !spec_is_private_ip(request.target.ip))
}

/// A request is sent at one point only: when the host has resolved and some
/// candidate is public. It is pinned to the first public candidate, even
/// where private candidates come before or after it.
pub proof fn lemma_request_goes_to_first_public_address(
    m: QueueMessageView,
    state: DispatchStateView,
    event: DispatchEvent,
)
    ensures
        spec_dispatch(m, state, event).1 matches DispatchActionView::Send(request) ==> {
            &&& state is AwaitingAddresses
            &&& event matches DispatchEvent::AddressesResolved { addresses }
            &&& !all_private(addresses@)
            &&& first_public(addresses@) == Some(request.target)
            &&& !spec_is_private_ip(request.target.ip)
            &&& exists|i: int|
                is_first_public_at(addresses@, i) && addresses@[i] == request.target
        },
{
    if spec_dispatch(m, state, event).1 is Send {
        match event {
            DispatchEvent::AddressesResolved { addresses } => {
                lemma_all_private_has_no_target(addresses@);
                lemma_target_is_first_public(addresses@);
            },
            _ => {},
        }
    }
}

/// No request is sent by an action that is none, followed by actions that
/// send none.
proof fn lemma_sends_nothing_cons(first: DispatchActionView, rest: Seq<DispatchActionView>)
    requires
        !(first is Send),
        sends_nothing(rest),
    ensures
        sends_nothing(seq![first] + rest),
{
    let all = seq![first] + rest;
    assert forall|i: int| 0 <= i < all.len() implies !(#[trigger] all[i] is Send) by {
        if i > 0 {
            assert(all[i] == rest[i - 1]);
        }
    }
}

/// The actions that answer the event `event` and then the events `later`
/// are the answer to `event` followed by the answers to `later`.
proof fn lemma_trace_unfolds(
    m: QueueMessageView,
    state: DispatchStateView,
    event: DispatchEvent,
    later: Seq<DispatchEvent>,
)
    ensures
        dispatch_trace(m, state, seq![event] + later) == seq![spec_dispatch(m, state, event).1]
            + dispatch_trace(m, spec_dispatch(m, state, event).0, later),
{
    let events = seq![event] + later;
    assert(events[0] == event);
    assert(events.drop_first() =~= later);
}

/// Once the request is out, or the attempt is decided, or the delivery is
/// over, no request is sent any more, whatever happens.
pub proof fn lemma_no_request_once_decided(
    m: QueueMessageView,
    state: DispatchStateView,
    events: Seq<DispatchEvent>,
)
    requires
        state is AwaitingResponse || state is AwaitingAudit || state is Finished,
    ensures
        sends_nothing(dispatch_trace(m, state, events)),
    decreases events.len(),
{
    if events.len() > 0 {
        let step = spec_dispatch(m, state, events[0]);
        lemma_no_request_once_decided(m, step.0, events.drop_first());
        lemma_sends_nothing_cons(step.1, dispatch_trace(m, step.0, events.drop_first()));
    }
}

/// A destination whose host resolves to blocked addresses only is never
/// sent to: the attempt is recorded as a failure without a status, it ends
/// as fatal whether or not the record could be written, and no request is
/// sent, then or later.
pub proof fn lemma_blocked_destination_is_fatal(
    m: QueueMessageView,
    secret: Option<Seq<char>>,
    destination: DestinationView,
    addresses: Vec<SocketAddress>,
    written: bool,
    later: Seq<DispatchEvent>,
)
    requires
        all_private(addresses@),
    ensures
        spec_dispatch(
            m,
            DispatchStateView::AwaitingAddresses { secret, destination },
            DispatchEvent::AddressesResolved { addresses },
        ) == audited(
            DispatchResult::FatalError,
            spec_failure_record(m, "Resolved to private/blocked IP"@),
        ),
        !spec_failure_record(m, "Resolved to private/blocked IP"@).success,
        spec_dispatch(
            m,
            DispatchStateView::AwaitingAudit { outcome: DispatchResult::FatalError },
            DispatchEvent::AuditDone { written },
        ) == (DispatchStateView::Finished, DispatchActionView::Complete(DispatchResult::FatalError)),
        sends_nothing(
            dispatch_trace(
                m,
                DispatchStateView::AwaitingAddresses { secret, destination },
                seq![DispatchEvent::AddressesResolved { addresses }] + later,
            ),
        ),
{
    lemma_all_private_has_no_target(addresses@);
    let state = DispatchStateView::AwaitingAddresses { secret, destination };
    let event = DispatchEvent::AddressesResolved { addresses };
    let step = spec_dispatch(m, state, event);
    lemma_trace_unfolds(m, state, event, later);
    lemma_no_request_once_decided(m, step.0, later);
    lemma_sends_nothing_cons(step.1, dispatch_trace(m, step.0, later));
}

/// The record store cannot keep a delivery from its outcome. Whether the
/// lookup of the secret is answered or not, the destination is checked
/// next, and no answer counts as no secret; so a delivery to a host that
/// resolves to blocked addresses only ends as fatal with no request sent,
/// with the store unreachable from the first step to the last.
pub proof fn lemma_store_failure_does_not_block(
    m: QueueMessageView,
    error: String,
    addresses: Vec<SocketAddress>,
    written: bool,
)
    requires
        all_private(addresses@),
        spec_destination(url_parts(m.webhook_url)) is Ok,
    ensures
        spec_dispatch(
            m,
            DispatchStateView::AwaitingSecret,
            DispatchEvent::SecretLookupFailed { error },
        ) == after_secret(m, None),
        dispatch_trace(
            m,
            DispatchStateView::Created,
            seq![
                DispatchEvent::Started,
                DispatchEvent::SecretLookupFailed { error },
                DispatchEvent::AddressesResolved { addresses },
                DispatchEvent::AuditDone { written },
            ],
        ).last() == DispatchActionView::Complete(DispatchResult::FatalError),
        sends_nothing(
            dispatch_trace(
                m,
                DispatchStateView::Created,
                seq![
                    DispatchEvent::Started,
                    DispatchEvent::SecretLookupFailed { error },
                    DispatchEvent::AddressesResolved { addresses },
                    DispatchEvent::AuditDone { written },
                ],
            ),
        ),
{
    let e0 = DispatchEvent::Started;
    let e1 = DispatchEvent::SecretLookupFailed { error };
    let e2 = DispatchEvent::AddressesResolved { addresses };
    let e3 = DispatchEvent::AuditDone { written };
    let events = seq![e0, e1, e2, e3];
    let s0 = DispatchStateView::Created;
    let t0 = spec_dispatch(m, s0, e0);
    let t1 = spec_dispatch(m, t0.0, e1);
    let t2 = spec_dispatch(m, t1.0, e2);
    let t3 = spec_dispatch(m, t2.0, e3);
    lemma_all_private_has_no_target(addresses@);
    assert(events =~= seq![e0] + seq![e1, e2, e3]);
    lemma_trace_unfolds(m, s0, e0, seq![e1, e2, e3]);
    assert(seq![e1, e2, e3] =~= seq![e1] + seq![e2, e3]);
    lemma_trace_unfolds(m, t0.0, e1, seq![e2, e3]);
    assert(seq![e2, e3] =~= seq![e2] + seq![e3]);
    lemma_trace_unfolds(m, t1.0, e2, seq![e3]);
    assert(seq![e3] =~= seq![e3] + Seq::<DispatchEvent>::empty());
    lemma_trace_unfolds(m, t2.0, e3, Seq::empty());
    let trace = dispatch_trace(m, s0, events);
    assert(trace =~= seq![t0.1, t1.1, t2.1, t3.1]);
    assert(t3.1 == DispatchActionView::Complete(DispatchResult::FatalError));
    assert(sends_nothing(trace));
}

/// Whatever happens in a delivery, every request it sends is pinned to a
/// public address.
pub proof fn lemma_every_request_targets_public_address(
    m: QueueMessageView,
    state: DispatchStateView,
    events: Seq<DispatchEvent>,
)
    ensures
        sends_only_to_public(dispatch_trace(m, state, events)),
    decreases events.len(),
{
    if events.len() > 0 {
        let step = spec_dispatch(m, state, events[0]);
        let rest = dispatch_trace(m, step.0, events.drop_first());
        lemma_every_request_targets_public_address(m, step.0, events.drop_first());
        lemma_request_goes_to_first_public_address(m, state, events[0]);
        let all = seq![step.1] + rest;
        assert forall|i: int| 0 <= i < all.len() implies (#[trigger] all[i] matches DispatchActionView::Send(
            request,
        ) ==> !spec_is_private_ip(request.target.ip)) by {
            if i > 0 {
                assert(all[i] == rest[i - 1]);
            }
        }
    }
}

/// The status of the response alone decides what an attempt comes to: the
/// attempt is recorded with that status, and when the record has been
/// handed over, written or not, the delivery ends with the outcome that
/// belongs to the status.
pub proof fn lemma_response_decides_outcome(m: QueueMessageView, status: HttpStatus, written: bool)
    ensures
        spec_dispatch(
            m,
            DispatchStateView::AwaitingResponse,
            DispatchEvent::ResponseReceived { status },
        ).0 == (DispatchStateView::AwaitingAudit { outcome: outcome_of_status(status@) }),
        spec_dispatch(
            m,
            DispatchStateView::AwaitingResponse,
            DispatchEvent::ResponseReceived { status },
        ).1 matches DispatchActionView::WriteAudit(log) && log.success == is_success_status(status@)
            && log.status_code == Some(status@ as i32),
        spec_dispatch(
            m,
            DispatchStateView::AwaitingAudit { outcome: outcome_of_status(status@) },
            DispatchEvent::AuditDone { written },
        ).1 == DispatchActionView::Complete(outcome_of_status(status@)),
{
}

/// A tenant without a secret gets its request all the same, and unsigned:
/// to a destination with a public address exactly one request is sent; its
/// body is the message's payload; it carries the content type; and it
/// carries no signature header, unless the message's own headers name one.
/// With a secret the same request goes to the same place, signed; what the
/// response comes to does not depend on the secret.
pub proof fn lemma_unsigned_request(
    m: QueueMessageView,
    destination: DestinationView,
    addresses: Vec<SocketAddress>,
    secret: Seq<char>,
)
    requires
        !all_private(addresses@),
    ensures
        spec_dispatch(
            m,
            DispatchStateView::AwaitingAddresses { secret: None, destination },
            DispatchEvent::AddressesResolved { addresses },
        ) == (
            DispatchStateView::AwaitingResponse,
            DispatchActionView::Send(
                spec_request(m, None, destination, first_public(addresses@).unwrap()),
            ),
        ),
        spec_request(m, None, destination, first_public(addresses@).unwrap()).body == m.payload,
        spec_request(m, None, destination, first_public(addresses@).unwrap()).headers.contains_key(
            CONTENT_TYPE_NAME@,
        ),
        names_no_header(m.headers, SIGNATURE_NAME@) ==> !spec_request(
            m,
            None,
            destination,
            first_public(addresses@).unwrap(),
        ).headers.contains_key(SIGNATURE_NAME@),
        spec_request(m, Some(secret), destination, first_public(addresses@).unwrap()) == (
            OutboundRequestView {
                headers: request_headers(m.headers, Some(signature_of(secret, m.payload))),
                ..spec_request(m, None, destination, first_public(addresses@).unwrap())
            }
        ),
{
    lemma_all_private_has_no_target(addresses@);
    lemma_request_has_content_type(m.headers, None);
    lemma_signature_header(m.headers, secret);
}

/// A destination with a public address gets exactly one request: it is
/// pinned to the first public candidate, whatever blocked candidates come
/// before or after it, it names the destination's own host and address, and
/// nothing is sent after it, whatever happens.
pub proof fn lemma_public_destination_gets_one_request(
    m: QueueMessageView,
    secret: Option<Seq<char>>,
    destination: DestinationView,
    addresses: Vec<SocketAddress>,
    later: Seq<DispatchEvent>,
)
    requires
        !all_private(addresses@),
    ensures
        builds_request(
            DispatchStateView::AwaitingAddresses { secret, destination },
            DispatchEvent::AddressesResolved { addresses },
        ),
        spec_dispatch(
            m,
            DispatchStateView::AwaitingAddresses { secret, destination },
            DispatchEvent::AddressesResolved { addresses },
        ) == (
            DispatchStateView::AwaitingResponse,
            DispatchActionView::Send(
                spec_request(m, secret, destination, first_public(addresses@).unwrap()),
            ),
        ),
        exists|k: int|
            is_first_public_at(addresses@, k) && spec_request(
                m,
                secret,
                destination,
                first_public(addresses@).unwrap(),
            ).target == addresses@[k],
        spec_request(m, secret, destination, first_public(addresses@).unwrap()).host
            == destination.host,
        spec_request(m, secret, destination, first_public(addresses@).unwrap()).url
            == destination.url,
        sends_nothing(dispatch_trace(m, DispatchStateView::AwaitingResponse, later)),
{
    lemma_all_private_has_no_target(addresses@);
    lemma_target_is_first_public(addresses@);
    lemma_no_request_once_decided(m, DispatchStateView::AwaitingResponse, later);
}

/// The secret decides nothing but the signature. With or without one, the
/// same candidates lead to the same state, and the same response or failed
/// send then gives the same record and the same outcome.
pub proof fn lemma_outcome_does_not_depend_on_secret(
    m: QueueMessageView,
    one: Option<Seq<char>>,
    other: Option<Seq<char>>,
    destination: DestinationView,
    addresses: Vec<SocketAddress>,
    event: DispatchEvent,
)
    ensures
        spec_dispatch(
            m,
            DispatchStateView::AwaitingAddresses { secret: one, destination },
            DispatchEvent::AddressesResolved { addresses },
        ).0 == spec_dispatch(
            m,
            DispatchStateView::AwaitingAddresses { secret: other, destination },
            DispatchEvent::AddressesResolved { addresses },
        ).0,
        all_private(addresses@) ==> spec_dispatch(
            m,
            DispatchStateView::AwaitingAddresses { secret: one, destination },
            DispatchEvent::AddressesResolved { addresses },
        ) == spec_dispatch(
            m,
            DispatchStateView::AwaitingAddresses { secret: other, destination },
            DispatchEvent::AddressesResolved { addresses },
        ),
        spec_dispatch(
            m,
            spec_dispatch(
                m,
                DispatchStateView::AwaitingAddresses { secret: one, destination },
                DispatchEvent::AddressesResolved { addresses },
            ).0,
            event,
        ) == spec_dispatch(
            m,
            spec_dispatch(
                m,
                DispatchStateView::AwaitingAddresses { secret: other, destination },
                DispatchEvent::AddressesResolved { addresses },
            ).0,
            event,
        ),
{
    lemma_all_private_has_no_target(addresses@);
}

} // verus!
