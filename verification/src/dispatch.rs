//! The request-dispatch protocol: an inbound envelope is resolved to an
//! operation, rate limits are enforced, a topic may be joined, and — after
//! the external business layer has produced a response — the direct reply
//! and the broadcast fan-out are built.
//!
//! The business layer itself is outside the broker: the caller runs
//! `prepare`, performs the operation, then hands the outcome to `respond`.

use vstd::prelude::*;
use vstd::pervasive::unreached;
use serde_json::Value;
use crate::errors::DispatchError;
use crate::json::{
    dump_with_str_field, encode_with_field, envelope_data, envelope_fields, envelope_op,
    is_object, json_clone, json_remove_nested, nested_field_i64, nested_i64, payload_field_i64,
    payload_i64_of, set_u64_field, stripped, with_u64_field,
};
use crate::ops::{
    broadcast_policy, op_from_name, op_name, op_name_of, op_of, rate_class, request_key_field,
    spec_broadcast_policy, spec_joins_room, spec_needs_request_key, spec_rate_class,
    spec_request_key_field, BroadcastPolicy, UserOperation,
};
use crate::rate_limit::RateLimitClass;
use crate::server::{rl_admits, rl_transition, ChatServer};

verus! {

/// The two fields of a wire envelope: the operation name and the payload,
/// the latter kept as JSON text for the business layer.
#[derive(Debug)]
pub struct Envelope {
    pub op: String,
    pub data: String,
}

/// What `prepare` hands back on success: the resolved operation and, where
/// the dispatcher itself read one, the integer key from the request
/// payload (the topic to join, or the broadcast scope).
#[derive(Debug)]
pub struct Prepared {
    pub op: UserOperation,
    pub request_key: Option<i32>,
}

impl Prepared {
    /// Operations whose dispatch needs a request key carry one.
    pub open spec fn wf(self) -> bool {
        spec_needs_request_key(self.op) ==> self.request_key is Some
    }
}

/// The broadcast side effect of a dispatched operation.
#[derive(Debug)]
pub enum BroadcastAction {
    /// The response goes only to the requester.
    NoBroadcast,
    /// Push `message` to each of `recipients` (the members of `room` other
    /// than the requester); sends are fire-and-forget.
    Room { room: i32, message: String, recipients: Vec<usize> },
    /// Resolve the topics under `community` (an external query), then fan
    /// `message` out to each of them, excluding the requester.
    Community { community: i32, message: String },
}

/// The outcome of a successfully dispatched operation: the direct reply to
/// the requester and the broadcast still to perform.
#[derive(Debug)]
pub struct Reply {
    pub response: String,
    pub action: BroadcastAction,
}

/// Split a raw envelope into its `op` and `data` fields: it succeeds
/// exactly when the text is a JSON document with a string `op` field, and
/// then returns that field and the serialization of `data` (`null` text
/// when the field is absent). Anything else is a malformed envelope.
pub fn read_envelope(raw: &str) -> (r: Result<Envelope, DispatchError>)
    ensures
        r is Ok <==> envelope_op(raw@) is Some,
        r matches Ok(env) ==> Option::Some(env.op@) == envelope_op(raw@) && env.data@
            == envelope_data(raw@),
        r matches Err(e) ==> e matches DispatchError::MalformedEnvelope,
{
    match envelope_fields(raw) {
        Option::Some(p) => Result::Ok(Envelope { op: p.0, data: p.1 }),
        Option::None => Result::Err(DispatchError::MalformedEnvelope),
    }
}

/// The i32 key at field `key` of the payload text: the integer there, if
/// it is present and fits.
pub open spec fn key_in_payload(data: Seq<char>, key: Seq<char>) -> Option<i32> {
    match payload_i64_of(data, key) {
        Option::Some(n) => if -0x8000_0000i64 <= n && n <= 0x7fff_ffffi64 {
            Option::Some(n as i32)
        } else {
            Option::None
        },
        Option::None => Option::None,
    }
}

/// The key the dispatcher reads from the request payload for `op`.
pub open spec fn request_key_of(data: Seq<char>, op: UserOperation) -> Option<i32> {
    key_in_payload(data, spec_request_key_field(op))
}

/// Read an integer field out of a JSON payload, if it is there and fits.
fn payload_i32(data: &str, key: &str) -> (r: Option<i32>)
    ensures
        r == key_in_payload(data@, key@),
{
    match payload_field_i64(data, key) {
        Option::Some(n) => {
            if -2147483648i64 <= n && n <= 2147483647i64 {
                Option::Some(n as i32)
            } else {
                Option::None
            }
        },
        Option::None => Option::None,
    }
}

/// What `prepare` promises, given the pre and post broker states, the
/// requesting session, the envelope and the time: an unknown name is
/// rejected untouched; a malformed answer comes exactly when the payload
/// lacks the key the operation needs; a recognized operation is checked
/// against its rate-limit class (rejections short-circuit); and a joining
/// operation moves the session to the topic the payload names.
pub open spec fn prepare_post(
    pre: ChatServer,
    post: ChatServer,
    session_id: usize,
    env: Envelope,
    r: Result<Prepared, DispatchError>,
    now: u64,
) -> bool {
    match op_of(env.op@) {
        Option::None => {
            &&& (r matches Err(e) && e matches DispatchError::UnknownOperation)
            &&& post == pre
        },
        Option::Some(op) => {
            &&& !(r matches Err(e) && e matches DispatchError::UnknownOperation)
            &&& (r matches Err(e) ==> (e matches DispatchError::MalformedEnvelope || e matches
                DispatchError::RateLimited { .. }))
            &&& ((r matches Err(e) && e matches DispatchError::MalformedEnvelope) <==> (
            spec_needs_request_key(op) && request_key_of(env.data@, op) is None))
            &&& ((r matches Err(e) && e matches DispatchError::MalformedEnvelope) ==> post == pre)
            &&& (match spec_rate_class(op) {
                Option::Some(c) => {
                    let p = pre.rl_config().spec_params(c);
                    &&& (r matches Err(e) ==> (e matches DispatchError::RateLimited {
                        rate,
                        per,
                    } ==> {
                        &&& rate == p.rate && per == p.per
                        &&& !rl_admits(pre, session_id, c, p.rate, p.per, now)
                        &&& rl_transition(pre, post, session_id, c, p.rate, p.per, now)
                        &&& (forall|r2: i32, s: usize| #[trigger]
                            post.room_has(r2, s) == pre.room_has(r2, s))
                    }))
                    &&& (r is Ok ==> rl_admits(pre, session_id, c, p.rate, p.per, now)
                        && rl_transition(pre, post, session_id, c, p.rate, p.per, now))
                },
                Option::None => {
                    &&& !(r matches Err(e) && e matches DispatchError::RateLimited { .. })
                    &&& (forall|ip: Seq<char>, cc: RateLimitClass| #[trigger]
                        post.has_bucket(ip, cc) == pre.has_bucket(ip, cc))
                    &&& (forall|ip: Seq<char>, cc: RateLimitClass|
                        pre.has_bucket(ip, cc) ==> #[trigger] post.bucket_of(ip, cc)
                            == pre.bucket_of(ip, cc))
                },
            })
            &&& (r matches Ok(p) ==> {
                &&& p.op == op
                &&& p.wf()
                &&& (spec_needs_request_key(op) ==> p.request_key == request_key_of(
                    env.data@,
                    op,
                ))
                &&& (spec_joins_room(op) ==> (p.request_key matches Some(k) && (forall|
                    r2: i32,
                    s: usize,
                | #[trigger]
                    post.room_has(r2, s) <==> (if s == session_id {
                        r2 == k
                    } else {
                        pre.room_has(r2, s)
                    }))))
                &&& (!spec_joins_room(op) ==> (forall|r2: i32, s: usize| #[trigger]
                    post.room_has(r2, s) == pre.room_has(r2, s)))
            })
        },
    }
}

/// Steps 1-4 of dispatching one envelope: resolve the operation, read the
/// payload key the dispatcher needs, run the rate-limit check, and perform
/// the topic join. The business layer has not yet been invoked; a caller
/// performs the operation next and hands the outcome to `respond`.
pub fn prepare(server: &mut ChatServer, session_id: usize, env: &Envelope, now: u64) -> (r: Result<
    Prepared,
    DispatchError,
>)
    requires
        old(server).wf(),
    ensures
        final(server).wf(),
        final(server).rl_config() == old(server).rl_config(),
        forall|s: usize| final(server).has_session(s) == old(server).has_session(s),
        forall|s: usize|
            old(server).has_session(s) ==> final(server).session_ip(s) == old(server).session_ip(
                s,
            ),
        final(server).session_count() == old(server).session_count(),
        prepare_post(*old(server), *final(server), session_id, *env, r, now),
{
    let op = match op_from_name(env.op.as_str()) {
        Option::Some(op) => op,
        Option::None => {
            return Result::Err(DispatchError::UnknownOperation);
        },
    };
    let key: Option<i32> = match request_key_field(op) {
        Option::Some(f) => match payload_i32(env.data.as_str(), f) {
            Option::Some(k) => Option::Some(k),
            Option::None => {
                return Result::Err(DispatchError::MalformedEnvelope);
            },
        },
        Option::None => Option::None,
    };
    match rate_class(op) {
        Option::Some(RateLimitClass::Register) => {
            match server.check_rate_limit_register(session_id, now) {
                Result::Ok(()) => {},
                Result::Err(e) => {
                    return Result::Err(e);
                },
            }
        },
        Option::Some(RateLimitClass::Post) => {
            match server.check_rate_limit_post(session_id, now) {
                Result::Ok(()) => {},
                Result::Err(e) => {
                    return Result::Err(e);
                },
            }
        },
        Option::Some(RateLimitClass::Message) => {
            match server.check_rate_limit_message(session_id, now) {
                Result::Ok(()) => {},
                Result::Err(e) => {
                    return Result::Err(e);
                },
            }
        },
        Option::None => {},
    }
    if crate::ops::joins_room(op) {
        let k = match key {
            Option::Some(k) => k,
            Option::None => unreached(),
        };
        server.join_room(k, session_id);
    }
    Result::Ok(Prepared { op, request_key: key })
}

/// Inject the operation's wire name as the `op` field of the response
/// object and serialize it — every outbound envelope names the operation
/// that produced it. This succeeds exactly when the response is a JSON
/// object; anything else cannot carry the field and is reported as a
/// business-layer failure.
pub fn to_json_string(op: UserOperation, data: Value) -> (r: Result<String, DispatchError>)
    ensures
        r is Ok <==> is_object(data),
        r matches Ok(s) ==> s@ == dump_with_str_field(data, "op"@, op_name_of(op)),
        r matches Err(e) ==> e matches DispatchError::BusinessLayerFailure { .. },
{
    match encode_with_field(&data, "op", op_name(op)) {
        Option::Some(s) => Result::Ok(s),
        Option::None => Result::Err(
            DispatchError::BusinessLayerFailure {
                op,
                cause: "response is not an object".to_owned(),
            },
        ),
    }
}

/// The response with the requester-private fields of `op`'s broadcast
/// copy removed: the voter's own vote and the acting user's identity for
/// the post and comment operations, the subscription flag and user
/// identity for a community edit; other operations strip nothing.
pub open spec fn spec_sanitized(op: UserOperation, v: Value) -> Value {
    match op {
        UserOperation::EditPost => stripped(v, "post"@, "my_vote"@),
        UserOperation::CreateComment => stripped(
            stripped(v, "comment"@, "my_vote"@),
            "comment"@,
            "user_id"@,
        ),
        UserOperation::EditComment => stripped(
            stripped(v, "comment"@, "my_vote"@),
            "comment"@,
            "user_id"@,
        ),
        UserOperation::CreateCommentLike => stripped(
            stripped(v, "comment"@, "my_vote"@),
            "comment"@,
            "user_id"@,
        ),
        UserOperation::EditCommunity => stripped(
            stripped(v, "community"@, "user_id"@),
            "community"@,
            "subscribed"@,
        ),
        _ => v,
    }
}

/// Strip the requester-private fields an operation's broadcast copy must
/// not leak to other subscribers.
fn sanitize(op: UserOperation, v: &mut Value)
    ensures
        *final(v) == spec_sanitized(op, *old(v)),
        is_object(*final(v)) == is_object(*old(v)),
{
    match op {
        UserOperation::EditPost => {
            json_remove_nested(v, "post", "my_vote");
        },
        UserOperation::CreateComment
        | UserOperation::EditComment
        | UserOperation::CreateCommentLike => {
            json_remove_nested(v, "comment", "my_vote");
            json_remove_nested(v, "comment", "user_id");
        },
        UserOperation::EditCommunity => {
            json_remove_nested(v, "community", "user_id");
            json_remove_nested(v, "community", "subscribed");
        },
        _ => {},
    }
}

/// The sanitized broadcast copy of a response, serialized with the
/// injected `op` field; succeeds exactly when the response is an object.
fn sanitize_and_encode(op: UserOperation, res: &Value) -> (r: Result<String, DispatchError>)
    ensures
        r is Ok <==> is_object(*res),
        r matches Ok(s) ==> s@ == dump_with_str_field(
            spec_sanitized(op, *res),
            "op"@,
            op_name_of(op),
        ),
        r matches Err(e) ==> e matches DispatchError::BusinessLayerFailure { .. },
{
    let mut copy = json_clone(res);
    sanitize(op, &mut copy);
    to_json_string(op, copy)
}

/// The i32 at `v[outer][field]`: the integer there, if present and in
/// range.
pub open spec fn nested_key(v: Value, outer: Seq<char>, field: Seq<char>) -> Option<i32> {
    match nested_i64(v, outer, field) {
        Option::Some(n) => if -0x8000_0000i64 <= n && n <= 0x7fff_ffffi64 {
            Option::Some(n as i32)
        } else {
            Option::None
        },
        Option::None => Option::None,
    }
}

/// An integer read from `v[outer][field]`, if present and in range.
fn response_i32_at(v: &Value, outer: &str, field: &str) -> (r: Option<i32>)
    ensures
        r == nested_key(*v, outer@, field@),
{
    match nested_field_i64(v, outer, field) {
        Option::Some(n) => {
            if -2147483648i64 <= n && n <= 2147483647i64 {
                Option::Some(n as i32)
            } else {
                Option::None
            }
        },
        Option::None => Option::None,
    }
}

/// The response as the requester sees it: for a site fetch the live
/// session count is written over its `online` field (when the response is
/// an object); every other response is returned as the business layer
/// produced it.
pub open spec fn injected(server: ChatServer, op: UserOperation, res: Value) -> Value {
    if op == UserOperation::GetSite && is_object(res) {
        with_u64_field(res, "online"@, server.session_count() as u64)
    } else {
        res
    }
}

/// Whether the response carries the scope field the operation's broadcast
/// policy reads out of it.
pub open spec fn respond_scope_ok(p: Prepared, v: Value) -> bool {
    match spec_broadcast_policy(p.op) {
        BroadcastPolicy::RoomByResponsePost => nested_key(v, "post"@, "id"@) is Some,
        BroadcastPolicy::CommunityByResponse => nested_key(v, "community"@, "id"@) is Some,
        _ => true,
    }
}

/// What a successful reply's texts are, given the (session-count
/// injected) response `v`: the direct reply is `v` serialized with the
/// operation's wire name at `op`; a broadcast message is the sanitized
/// copy serialized the same way; and a response-keyed scope is exactly
/// the key the response carries.
pub open spec fn reply_matches_response(p: Prepared, v: Value, reply: Reply) -> bool {
    &&& reply.response@ == dump_with_str_field(v, "op"@, op_name_of(p.op))
    &&& (reply.action matches BroadcastAction::Room { room, message, .. } ==> {
        &&& message@ == dump_with_str_field(spec_sanitized(p.op, v), "op"@, op_name_of(p.op))
        &&& (spec_broadcast_policy(p.op) == BroadcastPolicy::RoomByResponsePost ==> Option::Some(
            room,
        ) == nested_key(v, "post"@, "id"@))
    })
    &&& (reply.action matches BroadcastAction::Community { community, message } ==> {
        &&& message@ == dump_with_str_field(spec_sanitized(p.op, v), "op"@, op_name_of(p.op))
        &&& (spec_broadcast_policy(p.op) == BroadcastPolicy::CommunityByResponse ==> Option::Some(
            community,
        ) == nested_key(v, "community"@, "id"@))
    })
}

/// What a successful `respond` promises of the broadcast action: it
/// follows the operation's policy, a request-keyed scope is exactly the
/// key read during `prepare`, and a room broadcast's recipients are
/// exactly the room's live members minus the requester.
pub open spec fn action_follows_policy(
    server: ChatServer,
    session_id: usize,
    p: Prepared,
    action: BroadcastAction,
) -> bool {
    match spec_broadcast_policy(p.op) {
        BroadcastPolicy::NoBroadcast => action matches BroadcastAction::NoBroadcast,
        BroadcastPolicy::RoomByRequest => {
            &&& action matches BroadcastAction::Room { room, recipients, .. }
            &&& (action matches BroadcastAction::Room { room, recipients, .. } ==> {
                &&& (p.request_key matches Some(k) && room == k)
                &&& (forall|s: usize| #[trigger]
                    recipients@.contains(s) <==> server.is_recipient(room, s, session_id))
            })
        },
        BroadcastPolicy::RoomByResponsePost => {
            &&& action matches BroadcastAction::Room { room, recipients, .. }
            &&& (action matches BroadcastAction::Room { room, recipients, .. } ==> (forall|s: usize|
                #[trigger] recipients@.contains(s) <==> server.is_recipient(room, s, session_id)))
        },
        BroadcastPolicy::CommunityByRequest => {
            &&& action matches BroadcastAction::Community { community, .. }
            &&& (action matches BroadcastAction::Community { community, .. } ==> (
            p.request_key matches Some(k) && community == k))
        },
        BroadcastPolicy::CommunityByResponse => action matches BroadcastAction::Community { .. },
    }
}

/// Steps 5-7 of dispatching one envelope, after the business layer ran:
/// a failure is wrapped with the operation name and returned to the
/// requester only; a success is owed exactly when the response is a JSON
/// object carrying the scope field the policy needs, and then yields the
/// direct reply (the full response with `op` injected) and the broadcast
/// action, whose message is the sanitized copy. Broadcast delivery itself
/// is fire-and-forget and cannot fail this call; resolving a community
/// scope is the caller's query.
pub fn respond(
    server: &ChatServer,
    session_id: usize,
    p: &Prepared,
    outcome: Result<Value, String>,
) -> (r: Result<Reply, DispatchError>)
    requires
        server.wf(),
        p.wf(),
    ensures
        outcome is Err ==> (r matches Err(e) && e matches DispatchError::BusinessLayerFailure {
            op,
            ..
        } && op == p.op),
        r matches Err(e) ==> e matches DispatchError::BusinessLayerFailure { .. },
        outcome matches Ok(res) ==> ({
            let v = injected(*server, p.op, res);
            &&& (r is Ok <==> (is_object(res) && respond_scope_ok(*p, v)))
            &&& (r matches Ok(reply) ==> action_follows_policy(*server, session_id, *p, reply.action)
                && reply_matches_response(*p, v, reply))
        }),
{
    let mut res = match outcome {
        Result::Ok(v) => v,
        Result::Err(cause) => {
            return Result::Err(DispatchError::BusinessLayerFailure { op: p.op, cause });
        },
    };
    let ghost res0 = res;
    if p.op == UserOperation::GetSite {
        let n = server.online();
        let _was_object = set_u64_field(&mut res, "online", n as u64);
        proof {
            assert(n as u64 == server.session_count() as u64);
        }
    }
    let ghost v = injected(*server, p.op, res0);
    proof {
        assert(res == v);
    }
    let action = match broadcast_policy(p.op) {
        BroadcastPolicy::NoBroadcast => BroadcastAction::NoBroadcast,
        BroadcastPolicy::RoomByRequest => {
            let room = match p.request_key {
                Option::Some(k) => k,
                Option::None => unreached(),
            };
            let message = match sanitize_and_encode(p.op, &res) {
                Result::Ok(s) => s,
                Result::Err(e) => {
                    return Result::Err(e);
                },
            };
            let recipients = server.room_recipients(room, session_id);
            BroadcastAction::Room { room, message, recipients }
        },
        BroadcastPolicy::RoomByResponsePost => {
            let room = match response_i32_at(&res, "post", "id") {
                Option::Some(k) => k,
                Option::None => {
                    return Result::Err(
                        DispatchError::BusinessLayerFailure {
                            op: p.op,
                            cause: "response names no post".to_owned(),
                        },
                    );
                },
            };
            let message = match sanitize_and_encode(p.op, &res) {
                Result::Ok(s) => s,
                Result::Err(e) => {
                    return Result::Err(e);
                },
            };
            let recipients = server.room_recipients(room, session_id);
            BroadcastAction::Room { room, message, recipients }
        },
        BroadcastPolicy::CommunityByRequest => {
            let community = match p.request_key {
                Option::Some(k) => k,
                Option::None => unreached(),
            };
            let message = match sanitize_and_encode(p.op, &res) {
                Result::Ok(s) => s,
                Result::Err(e) => {
                    return Result::Err(e);
                },
            };
            BroadcastAction::Community { community, message }
        },
        BroadcastPolicy::CommunityByResponse => {
            let community = match response_i32_at(&res, "community", "id") {
                Option::Some(k) => k,
                Option::None => {
                    return Result::Err(
                        DispatchError::BusinessLayerFailure {
                            op: p.op,
                            cause: "response names no community".to_owned(),
                        },
                    );
                },
            };
            let message = match sanitize_and_encode(p.op, &res) {
                Result::Ok(s) => s,
                Result::Err(e) => {
                    return Result::Err(e);
                },
            };
            BroadcastAction::Community { community, message }
        },
    };
    let response = match to_json_string(p.op, res) {
        Result::Ok(s) => s,
        Result::Err(e) => {
            return Result::Err(e);
        },
    };
    Result::Ok(Reply { response, action })
}

} // verus!
