//! The forwarding handler: one inbound request becomes either a rejection
//! or one request to forward, and the upstream's answer becomes the response.
//!
//! The gates are passed in a fixed order: the target is extracted, parsed,
//! its host is authorized, the method is mapped. The first gate that fails
//! decides the rejection.

use vstd::prelude::*;
use crate::config::{allow_list, ProxyConfig};
use crate::method::{map_method, method_of, Method};
use crate::response::{
    bare, bytes_of, content_type_of, content_type_spec, relay_headers, Response, ResponseView,
    BAD_GATEWAY, BAD_REQUEST, FORBIDDEN, METHOD_NOT_ALLOWED, OK,
};
use crate::target::{host_or_empty, parse_url, parsed_view, url_parse, Target, TargetView};
use crate::text::contains_text;

verus! {

/// Why an inbound request is not forwarded.
#[derive(Clone, Debug)]
pub enum Rejection {
    /// The request names no target, or an empty one.
    MissingTarget,
    /// The target is no absolute URL; `reason` is the parser's message.
    InvalidTarget { reason: String },
    /// An allow-list is configured and does not hold the target's host.
    ForbiddenHost { host: String },
    /// The method is none of the forwarded ones.
    UnsupportedMethod,
}

/// A `Rejection` with its texts as character sequences.
pub enum RejectionView {
    MissingTarget,
    InvalidTarget { reason: Seq<char> },
    ForbiddenHost { host: Seq<char> },
    UnsupportedMethod,
}

impl View for Rejection {
    type V = RejectionView;

    open spec fn view(&self) -> RejectionView {
        match self {
            Rejection::MissingTarget => RejectionView::MissingTarget,
            Rejection::InvalidTarget { reason } => RejectionView::InvalidTarget { reason: reason@ },
            Rejection::ForbiddenHost { host } => RejectionView::ForbiddenHost { host: host@ },
            Rejection::UnsupportedMethod => RejectionView::UnsupportedMethod,
        }
    }
}

/// The status that answers a rejection.
pub open spec fn rejection_status(rejection: RejectionView) -> u16 {
    match rejection {
        RejectionView::MissingTarget => BAD_REQUEST,
        RejectionView::InvalidTarget { .. } => BAD_REQUEST,
        RejectionView::ForbiddenHost { .. } => FORBIDDEN,
        RejectionView::UnsupportedMethod => METHOD_NOT_ALLOWED,
    }
}

/// The response that answers a rejection: its status, no header, no body.
pub open spec fn rejection_response(rejection: RejectionView) -> ResponseView {
    bare(rejection_status(rejection))
}

impl Rejection {
    /// The status that answers this rejection.
    pub fn status(&self) -> (status: u16)
        ensures
            status == rejection_status(self@),
    {
        match self {
            Rejection::MissingTarget => BAD_REQUEST,
            Rejection::InvalidTarget { .. } => BAD_REQUEST,
            Rejection::ForbiddenHost { .. } => FORBIDDEN,
            Rejection::UnsupportedMethod => METHOD_NOT_ALLOWED,
        }
    }

    /// The response to the caller: the rejection's status, no header, no body.
    pub fn response(&self) -> (response: Response)
        ensures
            response@ == rejection_response(self@),
    {
        Response::empty(self.status())
    }
}

/// One request to send upstream: the method, the target and the body. No
/// header of the inbound request is part of it.
#[derive(Clone, Debug)]
pub struct ForwardRequest {
    /// The target as the inbound request wrote it.
    pub raw_target: String,
    /// The target as it parsed.
    pub target: Target,
    pub method: Method,
    /// The inbound body, byte for byte.
    pub body: Vec<u8>,
}

/// A `ForwardRequest` as plain sequences.
pub struct ForwardView {
    pub raw_target: Seq<char>,
    pub target: TargetView,
    pub method: Method,
    pub body: Seq<u8>,
}

impl View for ForwardRequest {
    type V = ForwardView;

    open spec fn view(&self) -> ForwardView {
        ForwardView {
            raw_target: self.raw_target@,
            target: self.target@,
            method: self.method,
            body: self.body@,
        }
    }
}

/// What the handler decides on an inbound request.
#[derive(Clone, Debug)]
pub enum Step {
    /// Answer the caller at once.
    Reject(Rejection),
    /// Send this request upstream, then answer with `handle_upstream`.
    Forward(ForwardRequest),
}

/// A `Step` as plain sequences.
pub enum StepView {
    Reject(RejectionView),
    Forward(ForwardView),
}

impl View for Step {
    type V = StepView;

    open spec fn view(&self) -> StepView {
        match self {
            Step::Reject(rejection) => StepView::Reject(rejection@),
            Step::Forward(request) => StepView::Forward(request@),
        }
    }
}

/// Whether the allow-list lets a host pass: there is no list, or the host is
/// on it, character for character.
pub open spec fn host_authorized(allowed: Option<Seq<Seq<char>>>, host: Seq<char>) -> bool {
    match allowed {
        Some(hosts) => hosts.contains(host),
        None => true,
    }
}

/// The gates behind the parser, for a target that is not empty: what becomes
/// of a request whose target parsed as `parsed`.
pub open spec fn gates(
    raw_target: Seq<char>,
    parsed: Result<TargetView, Seq<char>>,
    method: Seq<char>,
    body: Seq<u8>,
    allowed: Option<Seq<Seq<char>>>,
) -> StepView {
    match parsed {
        Err(reason) => StepView::Reject(RejectionView::InvalidTarget { reason }),
        Ok(target) => {
            let host = host_or_empty(target.host);
            if !host_authorized(allowed, host) {
                StepView::Reject(RejectionView::ForbiddenHost { host })
            } else {
                match method_of(method) {
                    None => StepView::Reject(RejectionView::UnsupportedMethod),
                    Some(mapped) => StepView::Forward(
                        ForwardView { raw_target, target, method: mapped, body },
                    ),
                }
            }
        }
    }
}

/// The characters of an optional string slice.
pub open spec fn slice_text(s: Option<&str>) -> Option<Seq<char>> {
    match s {
        Some(s) => Some(s@),
        None => None,
    }
}

/// Whether a target is present and not empty.
pub open spec fn has_target(raw_target: Option<Seq<char>>) -> bool {
    raw_target is Some && raw_target->0.len() > 0
}

/// What becomes of an inbound request: rejected for want of a target, or
/// passed through the gates with what the URL parser makes of the target.
pub open spec fn inbound(
    raw_target: Option<Seq<char>>,
    method: Seq<char>,
    body: Seq<u8>,
    allowed: Option<Seq<Seq<char>>>,
) -> StepView {
    if has_target(raw_target) {
        gates(raw_target->0, url_parse(raw_target->0), method, body, allowed)
    } else {
        StepView::Reject(RejectionView::MissingTarget)
    }
}

/// Whether the allow-list lets `target` pass.
pub fn authorize(target: &Target, allowed: &Option<Vec<String>>) -> (ok: bool)
    ensures
        ok == host_authorized(allow_list(*allowed), host_or_empty(target@.host)),
{
    match allowed {
        Some(hosts) => {
            let host = target.host_str();
            contains_text(hosts, host.as_str())
        },
        None => true,
    }
}

/// Passes a request whose target has been parsed through the remaining
/// gates: a target that did not parse is rejected, then a host that is not
/// allowed, then a method that is not forwarded. What is left is forwarded
/// with the mapped method and the body unchanged.
pub fn decide(
    raw_target: &str,
    parsed: Result<Target, String>,
    method: &str,
    body: Vec<u8>,
    allowed: &Option<Vec<String>>,
) -> (step: Step)
    ensures
        step@ == gates(raw_target@, parsed_view(parsed), method@, body@, allow_list(*allowed)),
{
    match parsed {
        Err(reason) => Step::Reject(Rejection::InvalidTarget { reason }),
        Ok(target) => {
            if !authorize(&target, allowed) {
                Step::Reject(Rejection::ForbiddenHost { host: target.host_str() })
            } else {
                match map_method(method) {
                    None => Step::Reject(Rejection::UnsupportedMethod),
                    Some(mapped) => Step::Forward(
                        ForwardRequest {
                            raw_target: raw_target.to_owned(),
                            target,
                            method: mapped,
                            body,
                        },
                    ),
                }
            }
        },
    }
}

/// Handles one inbound request up to the point where it is either answered
/// or ready to be sent upstream. `raw_target` is `None` where the request
/// carries no target at all.
pub fn handle_inbound(
    raw_target: Option<&str>,
    method: &str,
    body: Vec<u8>,
    config: &ProxyConfig,
) -> (step: Step)
    ensures
        step@ == inbound(
            slice_text(raw_target),
            method@,
            body@,
            allow_list(config.allowed_domains),
        ),
{
    match raw_target {
        None => Step::Reject(Rejection::MissingTarget),
        Some(raw) => {
            if raw.unicode_len() == 0 {
                Step::Reject(Rejection::MissingTarget)
            } else {
                let parsed = parse_url(raw);
                decide(raw, parsed, method, body, &config.allowed_domains)
            }
        },
    }
}

/// How the upstream call ended.
#[derive(Clone, Debug)]
pub enum UpstreamOutcome {
    /// No reply came: the connection, the name lookup or the transfer failed.
    TransportFailure,
    /// A reply came, with whatever status.
    Reply {
        /// The raw value of the reply's content-type header, if it has one.
        content_type: Option<Vec<u8>>,
        body: Vec<u8>,
    },
}

/// An `UpstreamOutcome` as plain sequences.
pub enum OutcomeView {
    TransportFailure,
    Reply { content_type: Option<Seq<u8>>, body: Seq<u8> },
}

impl View for UpstreamOutcome {
    type V = OutcomeView;

    open spec fn view(&self) -> OutcomeView {
        match self {
            UpstreamOutcome::TransportFailure => OutcomeView::TransportFailure,
            UpstreamOutcome::Reply { content_type, body } => OutcomeView::Reply {
                content_type: bytes_of(*content_type),
                body: body@,
            },
        }
    }
}

/// The response that follows an upstream outcome: 502 without headers or
/// body where the call failed; otherwise 200 with the cross-origin headers,
/// the chosen content type and the reply's body.
pub open spec fn upstream_response(outcome: OutcomeView) -> ResponseView {
    match outcome {
        OutcomeView::TransportFailure => bare(BAD_GATEWAY),
        OutcomeView::Reply { content_type, body } => ResponseView {
            status: OK,
            headers: relay_headers(content_type_spec(content_type)),
            body,
        },
    }
}

/// The one response that a request gets: the rejection's where a gate fails,
/// and otherwise the one that follows `outcome`, the end of the upstream call.
pub open spec fn handled(
    raw_target: Option<Seq<char>>,
    method: Seq<char>,
    body: Seq<u8>,
    allowed: Option<Seq<Seq<char>>>,
    outcome: OutcomeView,
) -> ResponseView {
    match inbound(raw_target, method, body, allowed) {
        StepView::Reject(rejection) => rejection_response(rejection),
        StepView::Forward(_) => upstream_response(outcome),
    }
}

/// Turns the upstream's answer into the response to the caller.
pub fn handle_upstream(outcome: UpstreamOutcome) -> (response: Response)
    ensures
        response@ == upstream_response(outcome@),
{
    match outcome {
        UpstreamOutcome::TransportFailure => Response::empty(BAD_GATEWAY),
        UpstreamOutcome::Reply { content_type, body } => {
            let chosen = content_type_of(&content_type);
            Response::relay(chosen, body)
        },
    }
}

} // verus!
