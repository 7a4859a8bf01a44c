//! What holds of every request and every upstream outcome.

use vstd::prelude::*;
use crate::handler::{
    handled, has_target, host_authorized, inbound, rejection_response, rejection_status, upstream_response,
    OutcomeView, RejectionView, StepView, UpstreamOutcome,
};
use crate::method::method_of;
use crate::response::{
    bare, content_type_spec, relay_headers, ResponseView, BAD_GATEWAY, BAD_REQUEST, FORBIDDEN,
    METHOD_NOT_ALLOWED, OK,
};
use crate::target::{host_or_empty, url_parse};

verus! {

/// A request without a target, or with an empty one, is answered with status
/// 400, no header and an empty body, whatever its method, body and allow-list.
pub proof fn lemma_missing_target_is_bad_request(
    raw_target: Option<Seq<char>>,
    method: Seq<char>,
    body: Seq<u8>,
    allowed: Option<Seq<Seq<char>>>,
)
    requires
        !has_target(raw_target),
    ensures
        inbound(raw_target, method, body, allowed) == StepView::Reject(
            RejectionView::MissingTarget,
        ),
        rejection_response(RejectionView::MissingTarget) == bare(BAD_REQUEST),
        bare(BAD_REQUEST).status == 400,
        bare(BAD_REQUEST).body.len() == 0,
{
}

/// A request whose target the URL parser refuses is rejected with status 400.
pub proof fn lemma_unparseable_target_is_bad_request(
    raw_target: Seq<char>,
    method: Seq<char>,
    body: Seq<u8>,
    allowed: Option<Seq<Seq<char>>>,
)
    requires
        url_parse(raw_target) is Err,
    ensures
        inbound(Some(raw_target), method, body, allowed) matches StepView::Reject(rejection)
            && rejection_status(rejection) == 400,
{
}

/// With an allow-list, a target that parses and whose host is not on the
/// list is rejected with status 403, whatever the method.
pub proof fn lemma_unlisted_host_is_forbidden(
    raw_target: Seq<char>,
    method: Seq<char>,
    body: Seq<u8>,
    hosts: Seq<Seq<char>>,
)
    requires
        raw_target.len() > 0,
        url_parse(raw_target) is Ok,
        !hosts.contains(host_or_empty(url_parse(raw_target)->Ok_0.host)),
    ensures
        inbound(Some(raw_target), method, body, Some(hosts)) matches StepView::Reject(rejection)
            && rejection matches RejectionView::ForbiddenHost { host } && host == host_or_empty(
            url_parse(raw_target)->Ok_0.host,
        ) && rejection_status(rejection) == 403,
{
}

/// Without an allow-list no request is rejected for its host.
pub proof fn lemma_no_allow_list_forbids_nothing(
    raw_target: Option<Seq<char>>,
    method: Seq<char>,
    body: Seq<u8>,
)
    ensures
        !(inbound(raw_target, method, body, None) matches StepView::Reject(
            RejectionView::ForbiddenHost { .. },
        )),
{
}

/// A request is forwarded exactly when its target is present and parses, its
/// host passes the allow-list and its method is one of the four; what is
/// forwarded is then the parsed target, the mapped method and the body as it
/// came.
pub proof fn lemma_forwarded_iff_all_gates_pass(
    raw_target: Option<Seq<char>>,
    method: Seq<char>,
    body: Seq<u8>,
    allowed: Option<Seq<Seq<char>>>,
)
    ensures
        inbound(raw_target, method, body, allowed) is Forward <==> {
            &&& has_target(raw_target)
            &&& url_parse(raw_target->0) is Ok
            &&& host_authorized(allowed, host_or_empty(url_parse(raw_target->0)->Ok_0.host))
            &&& method_of(method) is Some
        },
        inbound(raw_target, method, body, allowed) matches StepView::Forward(request) ==> {
            &&& request.raw_target == raw_target->0
            &&& Ok::<_, Seq<char>>(request.target) == url_parse(raw_target->0)
            &&& Some(request.method) == method_of(method)
            &&& request.body == body
        },
{
}

/// `HEAD`, `PATCH`, `OPTIONS`, `TRACE` and `CONNECT` are not forwarded, and a
/// method name in lower case is none of the four.
pub proof fn lemma_other_methods_unmapped()
    ensures
        method_of("HEAD"@) is None,
        method_of("PATCH"@) is None,
        method_of("OPTIONS"@) is None,
        method_of("TRACE"@) is None,
        method_of("CONNECT"@) is None,
        method_of("get"@) is None,
{
    reveal_strlit("GET");
    reveal_strlit("POST");
    reveal_strlit("PUT");
    reveal_strlit("DELETE");
    reveal_strlit("HEAD");
    reveal_strlit("PATCH");
    reveal_strlit("OPTIONS");
    reveal_strlit("TRACE");
    reveal_strlit("CONNECT");
    reveal_strlit("get");
    assert("HEAD"@[0] == 'H' && "HEAD"@.len() == 4);
    assert("PATCH"@.len() == 5);
    assert("OPTIONS"@.len() == 7);
    assert("TRACE"@.len() == 5);
    assert("CONNECT"@.len() == 7);
    assert("get"@[0] == 'g' && "get"@.len() == 3);
    assert("GET"@[0] == 'G' && "GET"@.len() == 3);
    assert("POST"@[0] == 'P' && "POST"@.len() == 4);
    assert("PUT"@[0] == 'P' && "PUT"@.len() == 3);
    assert("DELETE"@.len() == 6);
}

/// A request with a target that parses and a host that passes, but with a
/// method that is none of the four, is rejected with status 405.
pub proof fn lemma_unmapped_method_is_not_allowed(
    raw_target: Seq<char>,
    method: Seq<char>,
    body: Seq<u8>,
    allowed: Option<Seq<Seq<char>>>,
)
    requires
        raw_target.len() > 0,
        url_parse(raw_target) is Ok,
        host_authorized(allowed, host_or_empty(url_parse(raw_target)->Ok_0.host)),
        method_of(method) is None,
    ensures
        inbound(Some(raw_target), method, body, allowed) == StepView::Reject(
            RejectionView::UnsupportedMethod,
        ),
        rejection_status(RejectionView::UnsupportedMethod) == 405,
{
}

/// The gates are passed in order: a target that does not parse is rejected
/// before its host is looked at, and a host that is not allowed before the
/// method.
pub proof fn lemma_gate_order(
    raw_target: Seq<char>,
    method: Seq<char>,
    body: Seq<u8>,
    allowed: Option<Seq<Seq<char>>>,
)
    requires
        raw_target.len() > 0,
    ensures
        url_parse(raw_target) is Err ==> inbound(Some(raw_target), method, body, allowed)
            == StepView::Reject(
            RejectionView::InvalidTarget { reason: url_parse(raw_target)->Err_0 },
        ),
        url_parse(raw_target) is Ok && !host_authorized(
            allowed,
            host_or_empty(url_parse(raw_target)->Ok_0.host),
        ) ==> inbound(Some(raw_target), method, body, allowed) == StepView::Reject(
            RejectionView::ForbiddenHost {
                host: host_or_empty(url_parse(raw_target)->Ok_0.host),
            },
        ),
{
}

/// Every rejection is answered without header and with an empty body, with
/// status 400, 403 or 405.
pub proof fn lemma_rejections_are_bare(rejection: RejectionView)
    ensures
        rejection_response(rejection).headers.len() == 0,
        rejection_response(rejection).body.len() == 0,
        rejection_response(rejection).status == 400 || rejection_response(rejection).status == 403
            || rejection_response(rejection).status == 405,
{
}

/// A reply from upstream is relayed with status 200 whatever its own status
/// was, with its body unchanged, with five headers of which the first opens
/// the response to every origin.
pub proof fn lemma_reply_is_relayed(content_type: Option<Seq<u8>>, body: Seq<u8>)
    ensures
        upstream_response(OutcomeView::Reply { content_type, body }).status == 200,
        upstream_response(OutcomeView::Reply { content_type, body }).body == body,
        upstream_response(OutcomeView::Reply { content_type, body }).headers.len() == 5,
        upstream_response(OutcomeView::Reply { content_type, body }).headers[0] == (
            "Access-Control-Allow-Origin"@,
            "*"@,
        ),
        upstream_response(OutcomeView::Reply { content_type, body }).headers[4].0
            == "Content-Type"@,
{
}

/// An upstream call that failed is answered with status 502, no header and
/// no body.
pub proof fn lemma_transport_failure_is_bad_gateway()
    ensures
        upstream_response(OutcomeView::TransportFailure) == bare(BAD_GATEWAY),
        bare(BAD_GATEWAY).status == 502,
        bare(BAD_GATEWAY).body.len() == 0,
        bare(BAD_GATEWAY).headers.len() == 0,
{
}

/// Two upstream outcomes that hold the same bytes get the same response,
/// byte for byte.
pub proof fn lemma_same_outcome_same_response(first: UpstreamOutcome, second: UpstreamOutcome)
    requires
        first@ == second@,
    ensures
        upstream_response(first@) == upstream_response(second@),
{
}

/// Two identical requests whose upstream calls end alike get the same
/// response, byte for byte.
pub proof fn lemma_same_request_same_response(
    raw_target: Option<Seq<char>>,
    method: Seq<char>,
    body: Seq<u8>,
    allowed: Option<Seq<Seq<char>>>,
    first: UpstreamOutcome,
    second: UpstreamOutcome,
)
    requires
        first@ == second@,
    ensures
        handled(raw_target, method, body, allowed, first@) == handled(
            raw_target,
            method,
            body,
            allowed,
            second@,
        ),
{
}

/// Every request gets exactly the response of the first line that fits:
/// 400 without a target, 400 for a target that does not parse, 403 for a host
/// that is not allowed, 405 for a method that is not forwarded, 502 where the
/// upstream call fails, and otherwise 200 with the relayed reply. All but the
/// last come without header and with an empty body.
pub proof fn lemma_response_table(
    raw_target: Option<Seq<char>>,
    method: Seq<char>,
    body: Seq<u8>,
    allowed: Option<Seq<Seq<char>>>,
    outcome: OutcomeView,
)
    ensures
        handled(raw_target, method, body, allowed, outcome) == (if !has_target(raw_target) {
            bare(BAD_REQUEST)
        } else if url_parse(raw_target->0) is Err {
            bare(BAD_REQUEST)
        } else if !host_authorized(allowed, host_or_empty(url_parse(raw_target->0)->Ok_0.host)) {
            bare(FORBIDDEN)
        } else if method_of(method) is None {
            bare(METHOD_NOT_ALLOWED)
        } else {
            match outcome {
                OutcomeView::TransportFailure => bare(BAD_GATEWAY),
                OutcomeView::Reply { content_type, body: reply } => ResponseView {
                    status: OK,
                    headers: relay_headers(content_type_spec(content_type)),
                    body: reply,
                },
            }
        }),
{
}

} // verus!
