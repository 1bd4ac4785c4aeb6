use photoapp::config::{parse_allowed_origins, AllowedOrigins, AppConfig, EnvValues};
use photoapp::error::ApiError;
use photoapp::hub::WsHub;
use photoapp::ws::{error_frame_text, subscribed_frame_text, ClientMessage, WsAction, WsEvent, WsSession};

const ROOM: u128 = 0xa1a2a3a4b1b2c1c2d1d2d3d4d5d6d7d8;
const SUBSCRIBED: &str = "{\"type\":\"subscribed\",\"room_id\":\"a1a2a3a4-b1b2-c1c2-d1d2-d3d4d5d6d7d8\"}";

fn s(v: &str) -> Option<String> {
    Some(v.to_string())
}

fn full_env() -> EnvValues {
    EnvValues {
        port: None,
        database_url: s("postgres://db"),
        jwt_secret: s("secret"),
        ws_allowed_origins: None,
        storage_endpoint: None,
        storage_region: None,
        storage_access_key: s("ak"),
        storage_secret_key: s("sk"),
        storage_bucket: s("bucket"),
        storage_path_style: None,
    }
}

#[test]
fn config_defaults() {
    let c = AppConfig::from_env_values(full_env()).unwrap();
    assert_eq!(c.port, 8080);
    assert_eq!(c.database_url, "postgres://db");
    assert_eq!(c.jwt_secret, "secret");
    assert_eq!(c.ws_allowed_origins, "http://localhost:3000,http://127.0.0.1:3000");
    assert_eq!(c.storage_endpoint, "");
    assert_eq!(c.storage_region, "us-east-1");
    assert!(c.storage_path_style);
    let st = c.storage_config();
    assert_eq!((st.bucket.as_str(), st.access_key.as_str(), st.secret_key.as_str()), ("bucket", "ak", "sk"));
    assert_eq!(st.endpoint_override(), None);
}

#[test]
fn config_values() {
    let mut env = full_env();
    env.port = s("+9090");
    env.storage_path_style = s("false");
    env.storage_endpoint = s(" http://minio:9000 ");
    let c = AppConfig::from_env_values(env).unwrap();
    assert_eq!(c.port, 9090);
    assert!(!c.storage_path_style);
    assert_eq!(c.storage_config().endpoint_override(), Some(" http://minio:9000 ".to_string()));
    for (p, want) in [("80", 80u16), ("abc", 8080), ("70000", 8080), ("", 8080), (" 80", 8080), ("-1", 8080),
        ("65535", 65535), ("65536", 8080), ("+", 8080), ("0080", 80), ("\u{663}", 8080), ("8 0", 8080)] {
        let mut env = full_env();
        env.port = s(p);
        assert_eq!(AppConfig::from_env_values(env).unwrap().port, want);
    }
    for (v, want) in [("true", true), ("1", true), ("TRUE", false), ("yes", false)] {
        let mut env = full_env();
        env.storage_path_style = s(v);
        assert_eq!(AppConfig::from_env_values(env).unwrap().storage_path_style, want);
    }
}

#[test]
fn missing_required_variables() {
    let mut env = full_env();
    env.database_url = None;
    env.storage_bucket = None;
    assert_eq!(AppConfig::from_env_values(env).err().unwrap().message, "DATABASE_URL is required");
    let mut env = full_env();
    env.jwt_secret = None;
    assert_eq!(AppConfig::from_env_values(env).err().unwrap().message, "JWT_SECRET is required");
    let mut env = full_env();
    env.storage_access_key = None;
    assert_eq!(AppConfig::from_env_values(env).err().unwrap().message, "STORAGE_ACCESS_KEY is required");
    let mut env = full_env();
    env.storage_secret_key = None;
    assert_eq!(AppConfig::from_env_values(env).err().unwrap().message, "STORAGE_SECRET_KEY is required");
    let mut env = full_env();
    env.storage_bucket = None;
    assert_eq!(AppConfig::from_env_values(env).err().unwrap().message, "STORAGE_BUCKET is required");
}

#[test]
fn allowed_origins() {
    assert_eq!(parse_allowed_origins("*"), AllowedOrigins::Any);
    assert_eq!(parse_allowed_origins("  * "), AllowedOrigins::Any);
    assert_eq!(
        parse_allowed_origins("http://localhost:3000, http://127.0.0.1:3000"),
        AllowedOrigins::List(vec!["http://localhost:3000".to_string(), "http://127.0.0.1:3000".to_string()])
    );
    assert_eq!(
        parse_allowed_origins("http://a\u{1},http://b"),
        AllowedOrigins::List(vec!["http://b".to_string()])
    );
    assert_eq!(parse_allowed_origins("\u{1},\u{7f}"), AllowedOrigins::Any);
    assert_eq!(parse_allowed_origins(""), AllowedOrigins::List(vec![String::new()]));
    assert_eq!(
        parse_allowed_origins("a,,b"),
        AllowedOrigins::List(vec!["a".to_string(), String::new(), "b".to_string()])
    );
}

#[test]
fn hub_delivers_room_events_to_room_subscribers() {
    let mut hub = WsHub::new();
    let mut a = hub.subscribe(1);
    let mut b = hub.subscribe(1);
    let mut other = hub.subscribe(2);
    hub.broadcast(1, "hello".to_string());
    assert_eq!(a.try_recv().unwrap(), "hello");
    assert_eq!(b.try_recv().unwrap(), "hello");
    assert!(other.try_recv().is_err());
    hub.broadcast(3, "nobody listens".to_string());
    let mut late = hub.subscribe(3);
    assert!(late.try_recv().is_err());
    hub.broadcast(3, "now".to_string());
    assert_eq!(late.try_recv().unwrap(), "now");
}

#[test]
fn ws_frames() {
    assert_eq!(subscribed_frame_text(ROOM), SUBSCRIBED);
    assert_eq!(error_frame_text("not a room member"), "{\"type\":\"error\",\"message\":\"not a room member\"}");
}

#[test]
fn ws_query_room_subscription() {
    let (session, actions) = WsSession::start(Some(ROOM));
    assert_eq!(actions, vec![WsAction::CheckMembership(ROOM)]);
    let (session, actions) = session.step(WsEvent::Membership(Ok(())));
    assert_eq!(actions, vec![WsAction::Subscribe(ROOM)]);
    assert_eq!(session.room, Some(ROOM));
    let (session, actions) = session.step(WsEvent::RoomEvent(Some("evt".to_string())));
    assert_eq!(actions, vec![WsAction::Forward("evt".to_string())]);
    let (_, actions) = session.step(WsEvent::ForwardFailed);
    assert_eq!(actions, vec![WsAction::Close]);
}

#[test]
fn ws_query_room_refused() {
    let (session, _) = WsSession::start(Some(ROOM));
    let refusal = ApiError { status: 403, message: "not a room member".to_string() };
    let (session, actions) = session.step(WsEvent::Membership(Err(refusal)));
    assert_eq!(actions, vec![WsAction::Reply("{\"type\":\"error\",\"message\":\"not a room member\"}".to_string())]);
    assert_eq!(session.room, None);
    let (session2, _) = WsSession::start(Some(ROOM));
    let failure = ApiError { status: 500, message: "internal server error".to_string() };
    let (_, actions) = session2.step(WsEvent::Membership(Err(failure)));
    assert_eq!(actions, vec![WsAction::Reply("{\"type\":\"error\",\"message\":\"internal server error\"}".to_string())]);
    assert!(session.pending.is_none());
}

#[test]
fn ws_subscribe_message() {
    let (session, actions) = WsSession::start(None);
    assert!(actions.is_empty());
    let (session, actions) = session.step(WsEvent::InboundText(ClientMessage::Subscribe { room_id: ROOM }));
    assert_eq!(actions, vec![WsAction::CheckMembership(ROOM)]);
    let (session, actions) = session.step(WsEvent::Membership(Ok(())));
    assert_eq!(actions, vec![WsAction::Subscribe(ROOM), WsAction::Reply(SUBSCRIBED.to_string())]);
    let (session, actions) = session.step(WsEvent::InboundText(ClientMessage::Subscribe { room_id: 7 }));
    assert_eq!(actions, vec![WsAction::CheckMembership(7)]);
    let failure = ApiError { status: 500, message: "internal server error".to_string() };
    let (session, actions) = session.step(WsEvent::Membership(Err(failure)));
    assert_eq!(actions, vec![WsAction::Reply("{\"type\":\"error\",\"message\":\"not a room member\"}".to_string())]);
    assert_eq!(session.room, Some(ROOM));
}

#[test]
fn ws_other_events() {
    let (session, _) = WsSession::start(None);
    let (session, actions) = session.step(WsEvent::InboundText(ClientMessage::Invalid));
    assert_eq!(actions, vec![WsAction::Reply("{\"type\":\"error\",\"message\":\"invalid message\"}".to_string())]);
    let (session, actions) = session.step(WsEvent::InboundOther);
    assert!(actions.is_empty());
    let (session, actions) = session.step(WsEvent::Membership(Ok(())));
    assert!(actions.is_empty());
    assert_eq!(session.room, None);
    let (session, actions) = session.step(WsEvent::RoomEvent(None));
    assert_eq!(actions, vec![WsAction::Close]);
    let (session, actions) = session.step(WsEvent::InboundClose);
    assert_eq!(actions, vec![WsAction::Close]);
    let (_, actions) = session.step(WsEvent::InboundEnded);
    assert_eq!(actions, vec![WsAction::Close]);
}
