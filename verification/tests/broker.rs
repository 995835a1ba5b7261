use chat_server::dispatch::{prepare, read_envelope, respond, to_json_string, BroadcastAction};
use chat_server::ops::UserOperation;
use chat_server::errors::{error_message, DispatchError};
use chat_server::ops::op_from_name;
use chat_server::rate_limit::{RateLimitConfig, RateLimitParams};
use chat_server::server::{ChatServer, Connect, Disconnect};

fn config(rate: u32, per: u32) -> RateLimitConfig {
    RateLimitConfig {
        register: RateLimitParams { rate, per },
        post: RateLimitParams { rate, per },
        message: RateLimitParams { rate, per },
    }
}

fn generous() -> RateLimitConfig {
    config(1000, 1)
}

#[test]
fn join_keeps_session_in_one_room() {
    let mut s = ChatServer::startup(generous());
    s.register_session(1, "10.0.0.1".to_owned(), 0);
    s.register_session(2, "10.0.0.2".to_owned(), 0);
    s.join_room(42, 1);
    s.join_room(42, 2);
    let mut r = s.room_recipients(42, 999);
    r.sort();
    assert_eq!(r, vec![1, 2]);
    // joining a new room leaves the old one
    s.join_room(43, 1);
    assert_eq!(s.room_recipients(42, 999), vec![2]);
    assert_eq!(s.room_recipients(43, 999), vec![1]);
    // rejoining the same room is harmless
    s.join_room(43, 1);
    assert_eq!(s.room_recipients(43, 999), vec![1]);
}

#[test]
fn disconnect_then_publish_delivers_nothing_to_it() {
    let mut s = ChatServer::startup(generous());
    s.register_session(1, "10.0.0.1".to_owned(), 0);
    s.register_session(2, "10.0.0.2".to_owned(), 0);
    s.join_room(7, 1);
    s.join_room(7, 2);
    s.handle_disconnect(Disconnect { id: 1, ip: "10.0.0.1".to_owned() });
    assert!(s.lookup(1).is_none());
    // publish to the room: session 1 is never a recipient, and nothing errors
    assert_eq!(s.room_recipients(7, 999), vec![2]);
    // unknown topics and repeated disconnects are no-ops
    assert_eq!(s.room_recipients(1234, 999), Vec::<usize>::new());
    s.handle_disconnect(Disconnect { id: 1, ip: "10.0.0.1".to_owned() });
    assert_eq!(s.room_recipients(7, 999), vec![2]);
}

#[test]
fn rate_limit_five_per_ten_seconds() {
    let mut s = ChatServer::startup(config(5, 10));
    s.register_session(1, "10.0.0.1".to_owned(), 0);
    // five consecutive checks within one second admit
    for _ in 0..5 {
        assert!(s.check_rate_limit_message(1, 0).is_ok());
    }
    // the sixth rejects
    let e = s.check_rate_limit_message(1, 1).unwrap_err();
    assert_eq!(error_message(&e), "Too many requests. 5 per 10 seconds");
    // two seconds later about one token has refilled: exactly one admits
    assert!(s.check_rate_limit_message(1, 3).is_ok());
    assert!(s.check_rate_limit_message(1, 3).is_err());
}

#[test]
fn rate_limit_classes_are_independent() {
    let mut s = ChatServer::startup(config(1, 10));
    s.register_session(1, "10.0.0.1".to_owned(), 0);
    // exhaust the post bucket for this address
    assert!(s.check_rate_limit_post(1, 0).is_ok());
    assert!(s.check_rate_limit_post(1, 0).is_err());
    // the message bucket for the same address is untouched
    assert!(s.check_rate_limit_message(1, 0).is_ok());
    // and the register bucket as well
    assert!(s.check_rate_limit_register(1, 0).is_ok());
}

#[test]
fn rate_limit_missing_session_or_bucket_admits() {
    let mut s = ChatServer::startup(config(1, 10));
    // a session id that was never registered is always admitted
    assert!(s.check_rate_limit_post(999, 0).is_ok());
    assert!(s.check_rate_limit_post(999, 0).is_ok());
}

#[test]
fn connect_registers_session_and_bucket() {
    let mut s = ChatServer::startup(config(1, 1));
    let id = s.handle_connect(Connect { ip: "10.0.0.9".to_owned() }, 5);
    let info = s.lookup(id).expect("connected session is live");
    assert_eq!(info.ip, "10.0.0.9");
    assert_eq!(s.online(), 1);
    // the lazily created bucket starts at full capacity (one token here)
    assert!(s.check_rate_limit_post(id, 5).is_ok());
    assert!(s.check_rate_limit_post(id, 5).is_err());
}

#[test]
fn publish_excludes_sender_and_empty_room_is_silent() {
    let mut s = ChatServer::startup(generous());
    s.register_session(1, "a".to_owned(), 0);
    s.register_session(2, "b".to_owned(), 0);
    s.register_session(3, "c".to_owned(), 0);
    s.join_room(5, 1);
    s.join_room(5, 2);
    s.join_room(5, 3);
    let mut r = s.room_recipients(5, 2);
    r.sort();
    assert_eq!(r, vec![1, 3]);
    assert_eq!(s.room_recipients(6, 2), Vec::<usize>::new());
}

#[test]
fn community_recipients_cover_every_topic() {
    let mut s = ChatServer::startup(generous());
    s.register_session(1, "a".to_owned(), 0);
    s.register_session(2, "b".to_owned(), 0);
    s.register_session(3, "c".to_owned(), 0);
    s.join_room(10, 1);
    s.join_room(11, 2);
    s.join_room(12, 3);
    let topics = vec![10, 11];
    let mut r = s.community_recipients(&topics, 999);
    r.sort();
    assert_eq!(r, vec![1, 2]);
    // the sender is excluded from its own room's fan-out
    assert_eq!(s.community_recipients(&topics, 1), vec![2]);
}

#[test]
fn dispatch_round_trip_get_post_then_create_comment() {
    let mut s = ChatServer::startup(generous());
    s.register_session(1, "a".to_owned(), 0);
    s.register_session(2, "b".to_owned(), 0);

    // session 1 fetches post 42 and is thereby subscribed to topic 42
    let env = read_envelope("{\"op\":\"GetPost\",\"data\":{\"id\":42}}").unwrap();
    assert_eq!(env.op, "GetPost");
    let p = prepare(&mut s, 1, &env, 0).unwrap();
    assert_eq!(p.request_key, Some(42));
    assert_eq!(s.room_recipients(42, 999), vec![1]);
    let res: serde_json::Value = serde_json::from_str("{\"post\":{\"id\":42}}").unwrap();
    let reply = respond(&s, 1, &p, Ok(res)).unwrap();
    assert!(reply.response.contains("\"op\":\"GetPost\""));
    assert!(matches!(reply.action, BroadcastAction::NoBroadcast));

    // session 2 comments on post 42: broadcast to topic 42 reaches session 1,
    // with the requester-private fields stripped from the broadcast copy only
    let env2 = read_envelope(
        "{\"op\":\"CreateComment\",\"data\":{\"post_id\":42,\"content\":\"hi\"}}",
    )
    .unwrap();
    let p2 = prepare(&mut s, 2, &env2, 0).unwrap();
    let res2: serde_json::Value = serde_json::from_str(
        "{\"comment\":{\"id\":7,\"post_id\":42,\"content\":\"hi\",\"my_vote\":1,\"user_id\":99}}",
    )
    .unwrap();
    let reply2 = respond(&s, 2, &p2, Ok(res2)).unwrap();
    assert!(reply2.response.contains("\"op\":\"CreateComment\""));
    assert!(reply2.response.contains("user_id"));
    assert!(reply2.response.contains("my_vote"));
    match reply2.action {
        BroadcastAction::Room { room, message, recipients } => {
            assert_eq!(room, 42);
            assert_eq!(recipients, vec![1]);
            assert!(message.contains("\"op\":\"CreateComment\""));
            assert!(!message.contains("user_id"));
            assert!(!message.contains("my_vote"));
        },
        _ => panic!("CreateComment must broadcast to its post's room"),
    }
}

#[test]
fn unknown_operation_rejected_without_state_change() {
    let mut s = ChatServer::startup(generous());
    s.register_session(1, "a".to_owned(), 0);
    s.join_room(3, 1);
    let env = read_envelope("{\"op\":\"Frobnicate\",\"data\":{}}").unwrap();
    let e = prepare(&mut s, 1, &env, 0).unwrap_err();
    assert!(matches!(e, DispatchError::UnknownOperation));
    assert_eq!(error_message(&e), "Unknown op type");
    // nothing moved: membership and session registry are as before
    assert_eq!(s.room_recipients(3, 999), vec![1]);
    assert_eq!(s.online(), 1);
}

#[test]
fn malformed_envelopes_are_rejected() {
    let e = read_envelope("this is not json").unwrap_err();
    assert!(matches!(e, DispatchError::MalformedEnvelope));
    assert_eq!(error_message(&e), "Malformed message envelope");
    // an op field that is not a string is malformed too
    assert!(read_envelope("{\"op\":3,\"data\":{}}").is_err());
    // a missing data field stands for the null payload
    let env = read_envelope("{\"op\":\"ListCategories\"}").unwrap();
    assert_eq!(env.data, "null");
    // a joining operation whose payload lacks the key is malformed
    let mut s = ChatServer::startup(generous());
    s.register_session(1, "a".to_owned(), 0);
    let env2 = read_envelope("{\"op\":\"GetPost\",\"data\":{}}").unwrap();
    let e2 = prepare(&mut s, 1, &env2, 0).unwrap_err();
    assert!(matches!(e2, DispatchError::MalformedEnvelope));
}

#[test]
fn rate_limited_dispatch_short_circuits() {
    let mut s = ChatServer::startup(config(1, 10));
    s.register_session(1, "a".to_owned(), 0);
    let env = read_envelope("{\"op\":\"CreatePost\",\"data\":{\"name\":\"x\"}}").unwrap();
    assert!(prepare(&mut s, 1, &env, 0).is_ok());
    let e = prepare(&mut s, 1, &env, 0).unwrap_err();
    assert_eq!(error_message(&e), "Too many requests. 1 per 10 seconds");
}

#[test]
fn business_layer_failures_carry_the_operation_name() {
    let s = ChatServer::startup(generous());
    let env = read_envelope("{\"op\":\"GetPosts\",\"data\":{}}").unwrap();
    let mut s2 = s;
    s2.register_session(1, "a".to_owned(), 0);
    let p = prepare(&mut s2, 1, &env, 0).unwrap();
    let e = respond(&s2, 1, &p, Err("db down".to_owned())).unwrap_err();
    assert_eq!(error_message(&e), "GetPosts: db down");
    // a response that is no object cannot carry the op field
    let arr: serde_json::Value = serde_json::from_str("[1,2]").unwrap();
    let e2 = respond(&s2, 1, &p, Ok(arr)).unwrap_err();
    assert_eq!(error_message(&e2), "GetPosts: response is not an object");
}

#[test]
fn edit_post_broadcasts_to_the_responses_post_room() {
    let mut s = ChatServer::startup(generous());
    s.register_session(1, "a".to_owned(), 0);
    s.register_session(2, "b".to_owned(), 0);
    s.join_room(42, 1);
    let env = read_envelope("{\"op\":\"EditPost\",\"data\":{\"edit_id\":42}}").unwrap();
    let p = prepare(&mut s, 2, &env, 0).unwrap();
    let res: serde_json::Value =
        serde_json::from_str("{\"post\":{\"id\":42,\"my_vote\":1}}").unwrap();
    let reply = respond(&s, 2, &p, Ok(res)).unwrap();
    assert!(reply.response.contains("my_vote"));
    match reply.action {
        BroadcastAction::Room { room, message, recipients } => {
            assert_eq!(room, 42);
            assert_eq!(recipients, vec![1]);
            assert!(!message.contains("my_vote"));
        },
        _ => panic!("EditPost must broadcast to its post's room"),
    }
}

#[test]
fn community_operations_broadcast_to_a_derived_scope() {
    let mut s = ChatServer::startup(generous());
    s.register_session(1, "a".to_owned(), 0);
    let env =
        read_envelope("{\"op\":\"BanFromCommunity\",\"data\":{\"community_id\":9}}").unwrap();
    let p = prepare(&mut s, 1, &env, 0).unwrap();
    let res: serde_json::Value = serde_json::from_str("{\"banned\":true}").unwrap();
    let reply = respond(&s, 1, &p, Ok(res)).unwrap();
    match reply.action {
        BroadcastAction::Community { community, message } => {
            assert_eq!(community, 9);
            assert!(message.contains("\"op\":\"BanFromCommunity\""));
        },
        _ => panic!("BanFromCommunity must broadcast to its community"),
    }

    // EditCommunity takes the community from the response and sanitizes it
    let env2 = read_envelope("{\"op\":\"EditCommunity\",\"data\":{\"edit_id\":9}}").unwrap();
    let p2 = prepare(&mut s, 1, &env2, 0).unwrap();
    let res2: serde_json::Value = serde_json::from_str(
        "{\"community\":{\"id\":9,\"user_id\":4,\"subscribed\":true}}",
    )
    .unwrap();
    let reply2 = respond(&s, 1, &p2, Ok(res2)).unwrap();
    assert!(reply2.response.contains("user_id"));
    match reply2.action {
        BroadcastAction::Community { community, message } => {
            assert_eq!(community, 9);
            assert!(!message.contains("user_id"));
            assert!(!message.contains("subscribed"));
        },
        _ => panic!("EditCommunity must broadcast to its community"),
    }
}

#[test]
fn get_site_reports_the_online_count() {
    let mut s = ChatServer::startup(generous());
    s.register_session(1, "a".to_owned(), 0);
    s.register_session(2, "b".to_owned(), 0);
    let env = read_envelope("{\"op\":\"GetSite\",\"data\":{}}").unwrap();
    let p = prepare(&mut s, 1, &env, 0).unwrap();
    let res: serde_json::Value = serde_json::from_str("{\"site\":{}}").unwrap();
    let reply = respond(&s, 1, &p, Ok(res)).unwrap();
    assert!(reply.response.contains("\"online\":2"));
}

#[test]
fn operation_names_resolve_and_round_trip() {
    for name in [
        "Login",
        "Register",
        "CreateComment",
        "GetPost",
        "TransferSite",
        "PasswordChange",
        "ListCategories",
    ] {
        let op = op_from_name(name).expect("known operation");
        assert_eq!(chat_server::ops::op_name(op), name);
    }
    assert!(op_from_name("").is_none());
    assert!(op_from_name("login").is_none());
    assert!(op_from_name("GetPostX").is_none());
}

#[test]
fn decimal_rendering_in_rate_limit_messages() {
    let e = DispatchError::RateLimited { rate: 305, per: 1 };
    assert_eq!(error_message(&e), "Too many requests. 305 per 1 seconds");
    let e2 = DispatchError::RateLimited { rate: 0, per: 4294967295 };
    assert_eq!(error_message(&e2), "Too many requests. 0 per 4294967295 seconds");
}

#[test]
fn register_replaces_an_existing_session_id() {
    let mut s = ChatServer::startup(generous());
    s.register_session(1, "a".to_owned(), 0);
    s.register_session(1, "b".to_owned(), 0);
    assert_eq!(s.online(), 1);
    assert_eq!(s.lookup(1).unwrap().ip, "b");
}

#[test]
fn buckets_belong_to_the_address_not_the_session() {
    let mut s = ChatServer::startup(config(1, 10));
    s.register_session(1, "10.0.0.1".to_owned(), 0);
    assert!(s.check_rate_limit_post(1, 0).is_ok());
    assert!(s.check_rate_limit_post(1, 0).is_err());
    // a second session from the same address shares the exhausted bucket,
    // and reconnecting does not refresh it
    s.register_session(2, "10.0.0.1".to_owned(), 0);
    assert!(s.check_rate_limit_post(2, 0).is_err());
    // a session from another address has its own bucket
    s.register_session(3, "10.0.0.2".to_owned(), 0);
    assert!(s.check_rate_limit_post(3, 0).is_ok());
}

#[test]
fn outbound_envelopes_carry_the_operation_name() {
    let v: serde_json::Value = serde_json::from_str("{\"a\":1}").unwrap();
    let s = to_json_string(UserOperation::Login, v).unwrap();
    let parsed: serde_json::Value = serde_json::from_str(&s).unwrap();
    assert_eq!(parsed["op"], "Login");
    assert_eq!(parsed["a"], 1);
    // a non-object response cannot carry the field
    let arr: serde_json::Value = serde_json::from_str("[]").unwrap();
    assert!(to_json_string(UserOperation::Login, arr).is_err());
}
