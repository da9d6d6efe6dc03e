//! Audit records of API requests: building them, and reading the resource
//! and resource identifier out of a request path.

use vstd::prelude::*;
use vstd::string::*;
use crate::entities::{AuditLog, is_v4};
use crate::boundary::new_uuid_v4;
use crate::email::{lemma_occurs_between, occurs_in};
use crate::text::{
    digits_value, law_decimal, chars_of, decimal, split_on, split_text, trim, trim_text, u128_text, views,
    lemma_split_on_concat, lemma_split_on_nonempty, lemma_split_on_single,
};
use crate::timestamp::Timestamp;

verus! {

/// The audit queue is closed.
#[derive(Debug, Clone, Copy, PartialEq, Eq)]
pub enum AuditChannelError {
    Closed,
}

/// Whether a path segment names an API version: `v` followed by one or
/// more decimal digits, such as `v1`.
pub open spec fn is_version(segment: Seq<char>) -> bool {
    &&& segment.len() >= 2
    &&& segment[0] == 'v'
    &&& forall|i: int| 1 <= i < segment.len() ==> '0' <= #[trigger] segment[i] <= '9'
}

/// The resource a request path is recorded under: the segment after the
/// API prefix (the third `/`-separated segment, as a path starts with `/`),
/// or the one after it when that segment is a version and another follows;
/// without any query, or `unknown` when the path has no such segment.
/// So `/api/v1/devices/7` and `/api/devices?x=1` are both recorded under
/// `devices`.
pub open spec fn resource_of(uri: Seq<char>) -> Seq<char> {
    let segments = split_on(uri, '/');
    if segments.len() <= 2 {
        "unknown"@
    } else if is_version(segments[2]) && segments.len() > 3 {
        split_on(segments[3], '?')[0]
    } else {
        split_on(segments[2], '?')[0]
    }
}

/// Whether `segment` names an API version.
fn version_segment(segment: &str) -> (r: bool)
    ensures
        r == is_version(segment@),
{
    let chars = chars_of(segment);
    if chars.len() < 2 || chars[0] != 'v' {
        return false;
    }
    let mut i: usize = 1;
    while i < chars.len()
        invariant
            chars@ == segment@,
            1 <= i <= chars@.len(),
            forall|j: int| 1 <= j < i ==> '0' <= #[trigger] chars@[j] <= '9',
        decreases chars@.len() - i,
    {
        let c = chars[i];
        if c < '0' || c > '9' {
            return false;
        }
        i = i + 1;
    }
    true
}

/// The part of a path segment before any query.
fn without_query(segment: &str) -> (r: String)
    ensures
        r@ == split_on(segment@, '?')[0],
{
    let pieces = split_text(segment, '?');
    proof {
        lemma_split_on_nonempty(segment@, '?');
        assert(views(pieces@)[0] == pieces@[0]@);
    }
    pieces[0].clone()
}

/// The pieces of `/<p>/<x>` split on `/`, for `p` and `x` without `/`.
proof fn lemma_two_segments(p: Seq<char>, x: Seq<char>)
    requires
        !p.contains('/'),
        !x.contains('/'),
    ensures
        split_on("/"@ + p + "/"@ + x, '/') == seq![Seq::<char>::empty(), p, x],
{
    reveal_strlit("/");
    let e = Seq::<char>::empty();
    assert(!e.contains('/'));
    lemma_split_on_single(e, '/');
    lemma_split_on_single(p, '/');
    lemma_split_on_single(x, '/');
    lemma_split_on_concat(e, p, '/');
    assert("/"@ + p =~= e.push('/') + p);
    lemma_split_on_concat("/"@ + p, x, '/');
    assert("/"@ + p + "/"@ + x =~= ("/"@ + p).push('/') + x);
    assert(seq![e] + seq![p] + seq![x] =~= seq![e, p, x]);
}

/// Where the resource of a request path is read from: the segment after
/// the API prefix, or the one after a version segment that follows the
/// prefix; always without its query. For `p` the prefix (such as `api`), `v`
/// a version (such as `v1`), `r` a resource name and `id` an identifier:
/// `/p/r`, `/p/r?q`, `/p/r/...` (when `r` is no version), `/p/v/r`,
/// `/p/v/r?q` and `/p/v/r/...` are all recorded under `r`, and
/// `/p/v/r/id` names the resource identifier `id`.
pub proof fn law_request_resource(
    p: Seq<char>,
    v: Seq<char>,
    r: Seq<char>,
    q: Seq<char>,
    id: Seq<char>,
    rest: Seq<char>,
)
    requires
        !p.contains('/'),
        is_version(v),
        !r.contains('/'),
        !r.contains('?'),
        !q.contains('/'),
        !id.contains('/'),
    ensures
        resource_of("/"@ + p + "/"@ + r) == r,
        resource_of("/"@ + p + "/"@ + r + "?"@ + q) == r,
        !is_version(r) ==> resource_of("/"@ + p + "/"@ + r + "/"@ + rest) == r,
        resource_of("/"@ + p + "/"@ + v + "/"@ + r) == r,
        resource_of("/"@ + p + "/"@ + v + "/"@ + r + "?"@ + q) == r,
        resource_of("/"@ + p + "/"@ + v + "/"@ + r + "/"@ + rest) == r,
        resource_id_of("/"@ + p + "/"@ + v + "/"@ + r + "/"@ + id) == Some(id),
{
    reveal_strlit("/");
    reveal_strlit("?");
    lemma_split_on_single(r, '?');
    assert(!v.contains('/')) by {
        if v.contains('/') {
            let i = choose|i: int| 0 <= i < v.len() && v[i] == '/';
            assert('0' <= v[i] <= '9' || i == 0);
        }
    }
    // A segment holding a query is no version.
    let rq = r + "?"@ + q;
    assert(!rq.contains('/')) by {
        if rq.contains('/') {
            let i = choose|i: int| 0 <= i < rq.len() && rq[i] == '/';
            if i < r.len() {
                assert(r[i] == '/');
            } else if i > r.len() {
                assert(q[i - r.len() - 1] == '/');
            }
        }
    }
    assert(!is_version(rq)) by {
        if rq.len() >= 2 && rq[0] == 'v' {
            assert(rq[r.len() as int] == '?');
            if r.len() == 0 {
                assert(rq[0] == '?');
            }
        }
    }
    assert(rq =~= r.push('?') + q);
    lemma_split_on_concat(r, q, '?');
    lemma_split_on_nonempty(q, '?');
    assert(split_on(rq, '?')[0] == r);
    // Unversioned paths.
    lemma_two_segments(p, r);
    lemma_two_segments(p, rq);
    assert("/"@ + p + "/"@ + r + "?"@ + q =~= "/"@ + p + "/"@ + rq);
    lemma_split_on_concat("/"@ + p + "/"@ + r, rest, '/');
    assert("/"@ + p + "/"@ + r + "/"@ + rest =~= ("/"@ + p + "/"@ + r).push('/') + rest);
    lemma_split_on_nonempty(rest, '/');
    assert((seq![Seq::<char>::empty(), p, r] + split_on(rest, '/'))[2] == r);
    // Versioned paths.
    lemma_two_segments(p, v);
    let pv = "/"@ + p + "/"@ + v;
    lemma_split_on_single(r, '/');
    lemma_split_on_single(rq, '/');
    lemma_split_on_single(id, '/');
    lemma_split_on_concat(pv, r, '/');
    assert(pv + "/"@ + r =~= pv.push('/') + r);
    lemma_split_on_concat(pv, rq, '/');
    assert(pv + "/"@ + r + "?"@ + q =~= pv.push('/') + rq);
    let pvr = pv + "/"@ + r;
    lemma_split_on_concat(pvr, rest, '/');
    assert(pvr + "/"@ + rest =~= pvr.push('/') + rest);
    lemma_split_on_concat(pvr, id, '/');
    assert(pvr + "/"@ + id =~= pvr.push('/') + id);
    let s4 = seq![Seq::<char>::empty(), p, v] + seq![r];
    assert(s4[2] == v && s4[3] == r && s4.len() == 4);
    assert((s4 + split_on(rest, '/'))[3] == r);
    assert((s4 + split_on(rest, '/'))[2] == v);
    assert((s4 + seq![id])[4] == id);
    let s4q = seq![Seq::<char>::empty(), p, v] + seq![rq];
    assert(s4q[2] == v && s4q[3] == rq);
}

/// The resource named by a request path.
pub fn extract_resource(uri: &str) -> (r: String)
    ensures
        r@ == resource_of(uri@),
{
    let segments = split_text(uri, '/');
    proof {
        assert(views(segments@).len() == segments@.len());
    }
    if segments.len() <= 2 {
        return String::from_str("unknown");
    }
    assert(views(segments@)[2] == segments@[2]@);
    if segments.len() > 3 && version_segment(segments[2].as_str()) {
        assert(views(segments@)[3] == segments@[3]@);
        without_query(segments[3].as_str())
    } else {
        without_query(segments[2].as_str())
    }
}

/// The resource identifier a request path is recorded under: its fifth
/// `/`-separated segment, if there is one (`7` for `/api/v1/devices/7`).
pub open spec fn resource_id_of(uri: Seq<char>) -> Option<Seq<char>> {
    let segments = split_on(uri, '/');
    if segments.len() > 4 {
        Some(segments[4])
    } else {
        None
    }
}

/// The resource identifier named by a request path.
pub fn extract_resource_id(uri: &str) -> (r: Option<String>)
    ensures
        match r {
            Some(s) => resource_id_of(uri@) == Some(s@),
            None => resource_id_of(uri@) is None,
        },
{
    let segments = split_text(uri, '/');
    proof {
        assert(views(segments@).len() == segments@.len());
    }
    if segments.len() > 4 {
        assert(views(segments@)[4] == segments@[4]@);
        Some(segments[4].clone())
    } else {
        None
    }
}

/// The client address an `X-Forwarded-For` header names: its first
/// comma-separated entry, trimmed.
pub open spec fn forwarded_address(header: Seq<char>) -> Seq<char> {
    trim(split_on(header, ',')[0])
}

/// The client address an `X-Forwarded-For` header value names.
pub fn forwarded_client(header: Option<&str>) -> (r: Option<String>)
    ensures
        match header {
            Some(h) => r matches Some(a) && a@ == forwarded_address(h@),
            None => r is None,
        },
{
    match header {
        Some(h) => {
            let parts = split_text(h, ',');
            proof {
                lemma_split_on_nonempty(h@, ',');
                assert(views(parts@)[0] == parts@[0]@);
            }
            Some(trim_text(parts[0].as_str()))
        },
        None => None,
    }
}

/// An audit record being put together.
#[derive(Debug, Clone)]
pub struct AuditLogBuilder {
    pub user_id: Option<u128>,
    pub action: String,
    pub resource: String,
    pub resource_id: Option<String>,
    pub details: Option<String>,
    pub ip_address: Option<String>,
    pub user_agent: Option<String>,
}

impl AuditLogBuilder {
    /// A record of `action` on `resource`, with nothing else known yet.
    pub fn new(action: String, resource: String) -> (b: Self)
        ensures
            b.action == action,
            b.resource == resource,
            b.user_id is None,
            b.resource_id is None,
            b.details is None,
            b.ip_address is None,
            b.user_agent is None,
    {
        AuditLogBuilder {
            user_id: None,
            action,
            resource,
            resource_id: None,
            details: None,
            ip_address: None,
            user_agent: None,
        }
    }

    /// The same record, by user `user_id`.
    pub fn user_id(self, user_id: u128) -> (b: Self)
        ensures
            b == (AuditLogBuilder { user_id: Some(user_id), ..self }),
    {
        AuditLogBuilder { user_id: Some(user_id), ..self }
    }

    /// The same record, about the resource instance `resource_id`.
    pub fn resource_id(self, resource_id: String) -> (b: Self)
        ensures
            b == (AuditLogBuilder { resource_id: Some(resource_id), ..self }),
    {
        AuditLogBuilder { resource_id: Some(resource_id), ..self }
    }

    /// The same record, with `details`.
    pub fn details(self, details: String) -> (b: Self)
        ensures
            b == (AuditLogBuilder { details: Some(details), ..self }),
    {
        AuditLogBuilder { details: Some(details), ..self }
    }

    /// The same record, from the address `ip`.
    pub fn ip_address(self, ip: String) -> (b: Self)
        ensures
            b == (AuditLogBuilder { ip_address: Some(ip), ..self }),
    {
        AuditLogBuilder { ip_address: Some(ip), ..self }
    }

    /// The same record, from the user agent `ua`.
    pub fn user_agent(self, ua: String) -> (b: Self)
        ensures
            b == (AuditLogBuilder { user_agent: Some(ua), ..self }),
    {
        AuditLogBuilder { user_agent: Some(ua), ..self }
    }

    /// The finished record, with a fresh random identifier, created now.
    pub fn build(self) -> (l: AuditLog)
        ensures
            is_v4(l.id),
            l.user_id == self.user_id,
            l.action == self.action,
            l.resource == self.resource,
            l.resource_id == self.resource_id,
            l.details == self.details,
            l.ip_address == self.ip_address,
            l.user_agent == self.user_agent,
    {
        AuditLog {
            id: new_uuid_v4(),
            user_id: self.user_id,
            action: self.action,
            resource: self.resource,
            resource_id: self.resource_id,
            details: self.details,
            ip_address: self.ip_address,
            user_agent: self.user_agent,
            created_at: Timestamp::now(),
        }
    }
}

/// The JSON details recorded for a request.
pub open spec fn request_details(method: Seq<char>, uri: Seq<char>, status: u16, duration_ms: u128) -> Seq<char> {
    "{\"method\":\""@ + method + "\",\"uri\":\""@ + uri + "\",\"status\":\""@ + decimal(status as nat)
        + "\",\"duration_ms\":"@ + decimal(duration_ms as nat) + "}"@
}

/// The details of an audit record give each property of the request under
/// its own key: the method after `"method":"`, the path after `"uri":"`,
/// the status, in decimal, after `"status":"`, and the duration in
/// milliseconds, in decimal, after `"duration_ms":`; the text is one JSON
/// object.
pub proof fn law_request_details(method: Seq<char>, uri: Seq<char>, status: u16, duration_ms: u128)
    ensures
        occurs_in("{\"method\":\""@ + method + "\",\"uri\":\""@, request_details(method, uri, status, duration_ms)),
        occurs_in("\",\"uri\":\""@ + uri + "\",\"status\":\""@, request_details(method, uri, status, duration_ms)),
        occurs_in(
            "\",\"status\":\""@ + decimal(status as nat) + "\",\"duration_ms\":"@,
            request_details(method, uri, status, duration_ms),
        ),
        occurs_in(
            "\",\"duration_ms\":"@ + decimal(duration_ms as nat) + "}"@,
            request_details(method, uri, status, duration_ms),
        ),
        digits_value(decimal(status as nat)) == status,
        digits_value(decimal(duration_ms as nat)) == duration_ms,
{
    let a = "{\"method\":\""@;
    let b = "\",\"uri\":\""@;
    let c = "\",\"status\":\""@;
    let d = "\",\"duration_ms\":"@;
    let e = "}"@;
    let st = decimal(status as nat);
    let du = decimal(duration_ms as nat);
    let x = request_details(method, uri, status, duration_ms);
    let none = Seq::<char>::empty();
    assert(x =~= none + (a + method + b) + (uri + c + st + d + du + e));
    lemma_occurs_between(none, a + method + b, uri + c + st + d + du + e);
    assert(x =~= (a + method) + (b + uri + c) + (st + d + du + e));
    lemma_occurs_between(a + method, b + uri + c, st + d + du + e);
    assert(x =~= (a + method + b + uri) + (c + st + d) + (du + e));
    lemma_occurs_between(a + method + b + uri, c + st + d, du + e);
    assert(x =~= (a + method + b + uri + c + st) + (d + du + e) + none);
    lemma_occurs_between(a + method + b + uri + c + st, d + du + e, none);
    law_decimal(status as nat);
    law_decimal(duration_ms as nat);
}

/// The audit record of an answered request: the action is `<method> <resource>`,
/// the address comes from `X-Forwarded-For` (`unknown` without one), the user
/// agent is empty when absent, and the user and resource identifier are
/// recorded when known.
pub fn request_audit(
    method: &str,
    uri: &str,
    status: u16,
    duration_ms: u128,
    forwarded_for: Option<&str>,
    user_agent: Option<&str>,
    user_id: Option<u128>,
) -> (b: AuditLogBuilder)
    ensures
        b.action@ == method@ + " "@ + resource_of(uri@),
        b.resource@ == resource_of(uri@),
        b.details matches Some(d) && d@ == request_details(method@, uri@, status, duration_ms),
        b.ip_address matches Some(ip) && ip@ == match forwarded_for {
            Some(h) => forwarded_address(h@),
            None => "unknown"@,
        },
        b.user_agent matches Some(ua) && ua@ == match user_agent {
            Some(u) => u@,
            None => Seq::<char>::empty(),
        },
        b.user_id == user_id,
        match b.resource_id {
            Some(r) => resource_id_of(uri@) == Some(r@),
            None => resource_id_of(uri@) is None,
        },
{
    let mut details = String::from_str("{\"method\":\"");
    details.append(method);
    details.append("\",\"uri\":\"");
    details.append(uri);
    details.append("\",\"status\":\"");
    let status_text = u128_text(status as u128);
    details.append(status_text.as_str());
    details.append("\",\"duration_ms\":");
    let ms = u128_text(duration_ms);
    details.append(ms.as_str());
    details.append("}");
    let resource = extract_resource(uri);
    let mut action = String::from_str(method);
    action.append(" ");
    action.append(resource.as_str());
    let ip = match forwarded_client(forwarded_for) {
        Some(a) => a,
        None => String::from_str("unknown"),
    };
    let ua = match user_agent {
        Some(u) => String::from_str(u),
        None => String::new(),
    };
    let mut builder = AuditLogBuilder::new(action, resource).ip_address(ip).user_agent(ua).details(
        details,
    );
    if let Some(uid) = user_id {
        builder = builder.user_id(uid);
    }
    if let Some(rid) = extract_resource_id(uri) {
        builder = builder.resource_id(rid);
    }
    builder
}

} // verus!
