use polygon_client::websocket::{
    auth_message, endpoint_for, subscribe_message, unsubscribe_message, SessionError, State,
    WebSocketClient, CRYPTO_CLUSTER, DEFAULT_WS_HOST, FOREX_CLUSTER, STOCKS_CLUSTER,
};
use tokio_tungstenite::tungstenite;
use tokio_tungstenite::tungstenite::Message;
use url::ParseError;

/// A session for `cluster` that was driven to `Active`, with the frames that
/// it handed out on the way.
fn active(cluster: &str, key: &str) -> (WebSocketClient, Vec<String>) {
    let mut session = WebSocketClient::new(cluster, Some(key), None).unwrap();
    let mut frames = Vec::new();
    frames.push(session.connected(Ok(())).unwrap());
    session.sent(Ok(())).unwrap();
    (session, frames)
}

fn status_frame() -> Message {
    Message::Text(String::from(
        "[{\"ev\":\"status\",\"status\":\"connected\",\"message\":\"Connected Successfully\"}]",
    ))
}

#[test]
fn test_subscribe() {
    let (mut socket, _) = active(STOCKS_CLUSTER, "key");
    let params = vec!["T.MSFT"];
    let frame = socket.subscribe(&params).unwrap();
    assert_eq!(frame, "{\"action\":\"subscribe\",\"params\":\"T.MSFT\"}");
    assert_eq!(socket.sent(Ok(())).unwrap(), ());
}

#[test]
fn test_receive() {
    let (mut socket, _) = active(STOCKS_CLUSTER, "key");
    let msg = socket.receive(Some(Ok(status_frame()))).unwrap();
    let msg_str = msg.into_text().unwrap();
    let messages: serde_json::Value = serde_json::from_str(&msg_str).unwrap();
    let connected = messages.as_array().unwrap().first().unwrap();
    assert_eq!(connected["ev"], "status");
    assert_eq!(connected["status"], "connected");
}

#[test]
fn cluster_names() {
    assert_eq!(STOCKS_CLUSTER, "stocks");
    assert_eq!(FOREX_CLUSTER, "forex");
    assert_eq!(CRYPTO_CLUSTER, "crypto");
    assert_eq!(DEFAULT_WS_HOST, "wss://socket.polygon.io");
}

#[test]
fn endpoint_text_of_each_cluster() {
    assert_eq!(endpoint_for("stocks"), "wss://socket.polygon.io/stocks");
    assert_eq!(endpoint_for("forex"), "wss://socket.polygon.io/forex");
    assert_eq!(endpoint_for("crypto"), "wss://socket.polygon.io/crypto");
    assert_eq!(endpoint_for(""), "wss://socket.polygon.io/");
}

#[test]
fn connect_dials_the_cluster_and_authenticates_first() {
    for cluster in [STOCKS_CLUSTER, FOREX_CLUSTER, CRYPTO_CLUSTER] {
        let mut session = WebSocketClient::new(cluster, Some("secret"), None).unwrap();
        assert_eq!(session.state(), State::Connecting);
        assert_eq!(session.endpoint(), format!("wss://socket.polygon.io/{}", cluster));
        assert_eq!(session.cluster(), cluster);
        assert_eq!(session.auth_key(), "secret");
        let first = session.connected(Ok(())).unwrap();
        assert_eq!(first, "{\"action\":\"auth\",\"params\":\"secret\"}");
        assert_eq!(session.state(), State::Authenticating);
        session.sent(Ok(())).unwrap();
        assert_eq!(session.state(), State::Active);
    }
}

#[test]
fn scenario_stocks_k1() {
    let (mut session, frames) = active("stocks", "k1");
    assert_eq!(session.endpoint(), "wss://socket.polygon.io/stocks");
    assert_eq!(frames, vec![String::from("{\"action\":\"auth\",\"params\":\"k1\"}")]);
    let second = session.subscribe(&["T.MSFT", "Q.AAPL"]).unwrap();
    assert_eq!(second, "{\"action\":\"subscribe\",\"params\":\"T.MSFT,Q.AAPL\"}");
}

#[test]
fn credential_from_the_environment_is_used_verbatim() {
    let mut session = WebSocketClient::new("forex", None, Some("from env")).unwrap();
    assert_eq!(session.auth_key(), "from env");
    assert_eq!(session.authenticate(), "{\"action\":\"auth\",\"params\":\"from env\"}");
    assert_eq!(session.connected(Ok(())).unwrap(), session.authenticate());
}

#[test]
fn explicit_credential_wins_over_the_environment() {
    let session = WebSocketClient::new("forex", Some("explicit"), Some("from env")).unwrap();
    assert_eq!(session.auth_key(), "explicit");
}

#[test]
fn missing_credential_is_a_configuration_error() {
    let outcome = WebSocketClient::new(STOCKS_CLUSTER, None, None);
    assert!(matches!(outcome, Err(SessionError::Env)));
    let outcome = WebSocketClient::new("no such cluster", None, None);
    assert!(matches!(outcome, Err(SessionError::Env)));
}

#[test]
fn the_address_is_what_the_parser_makes_of_it() {
    let session = WebSocketClient::new("a b", Some("k"), None).unwrap();
    assert_eq!(endpoint_for("a b"), "wss://socket.polygon.io/a b");
    assert_eq!(session.endpoint(), "wss://socket.polygon.io/a%20b");
    assert_eq!(session.cluster(), "a b");
    let session = WebSocketClient::new("../x/./stocks", Some("k"), None).unwrap();
    assert_eq!(session.endpoint(), "wss://socket.polygon.io/x/stocks");
}

#[test]
fn an_address_that_does_not_parse_is_a_url_error() {
    let outcome = WebSocketClient::from_parsed("stocks", String::from("k"), Err(ParseError::EmptyHost));
    assert!(matches!(outcome, Err(SessionError::Url(ParseError::EmptyHost))));
    let session = WebSocketClient::from_parsed(
        "stocks",
        String::from("k"),
        Ok(String::from("wss://socket.polygon.io/stocks")),
    )
    .unwrap();
    assert_eq!(session.state(), State::Connecting);
    assert_eq!(session.endpoint(), "wss://socket.polygon.io/stocks");
    assert_eq!(session.auth_key(), "k");
}

#[test]
fn failed_handshake_closes_the_session() {
    let mut session = WebSocketClient::new(STOCKS_CLUSTER, Some("k"), None).unwrap();
    let reply = session.connected(Err(tungstenite::Error::AttackAttempt));
    assert!(matches!(reply, Err(SessionError::Ws(tungstenite::Error::AttackAttempt))));
    assert_eq!(session.state(), State::Closed);
    assert!(matches!(session.connected(Ok(())), Err(SessionError::Closed)));
    assert_eq!(session.state(), State::Closed);
}

#[test]
fn failed_authentication_write_closes_the_session() {
    let mut session = WebSocketClient::new(STOCKS_CLUSTER, Some("k"), None).unwrap();
    session.connected(Ok(())).unwrap();
    let reply = session.sent(Err(tungstenite::Error::Utf8));
    assert!(matches!(reply, Err(SessionError::Ws(tungstenite::Error::Utf8))));
    assert_eq!(session.state(), State::Closed);
}

#[test]
fn handshake_is_reported_once() {
    let (mut session, _) = active(STOCKS_CLUSTER, "k");
    assert!(matches!(session.connected(Ok(())), Err(SessionError::Closed)));
    assert_eq!(session.state(), State::Active);
}

#[test]
fn nothing_is_framed_before_the_session_is_active() {
    let mut session = WebSocketClient::new(STOCKS_CLUSTER, Some("k"), None).unwrap();
    assert!(matches!(session.subscribe(&["T.MSFT"]), Err(SessionError::Closed)));
    assert!(matches!(session.unsubscribe(&["T.MSFT"]), Err(SessionError::Closed)));
    assert!(matches!(session.receive(Some(Ok(status_frame()))), Err(SessionError::Closed)));
    assert!(matches!(session.sent(Ok(())), Err(SessionError::Closed)));
    assert_eq!(session.state(), State::Connecting);
    session.connected(Ok(())).unwrap();
    assert!(matches!(session.subscribe(&["T.MSFT"]), Err(SessionError::Closed)));
    assert!(matches!(session.receive(None), Err(SessionError::Closed)));
    assert_eq!(session.state(), State::Authenticating);
}

#[test]
fn subscribe_joins_patterns_in_order() {
    let (mut session, _) = active(CRYPTO_CLUSTER, "k");
    assert_eq!(
        session.subscribe(&["XT.BTC-USD", "XQ.*", "XA.ETH-USD"]).unwrap(),
        "{\"action\":\"subscribe\",\"params\":\"XT.BTC-USD,XQ.*,XA.ETH-USD\"}"
    );
    assert_eq!(
        session.subscribe(&["XQ.*", "XT.BTC-USD"]).unwrap(),
        "{\"action\":\"subscribe\",\"params\":\"XQ.*,XT.BTC-USD\"}"
    );
    assert_eq!(session.state(), State::Active);
}

#[test]
fn unsubscribe_differs_in_the_action_only() {
    let (mut session, _) = active(STOCKS_CLUSTER, "k");
    assert_eq!(
        session.unsubscribe(&["T.MSFT", "Q.AAPL"]).unwrap(),
        "{\"action\":\"unsubscribe\",\"params\":\"T.MSFT,Q.AAPL\"}"
    );
    assert_eq!(
        session.unsubscribe(&["T.MSFT"]).unwrap(),
        "{\"action\":\"unsubscribe\",\"params\":\"T.MSFT\"}"
    );
}

#[test]
fn empty_pattern_list_gives_empty_params() {
    let (mut session, _) = active(STOCKS_CLUSTER, "k");
    let none: [&str; 0] = [];
    assert_eq!(session.subscribe(&none).unwrap(), "{\"action\":\"subscribe\",\"params\":\"\"}");
    assert_eq!(
        session.unsubscribe(&none).unwrap(),
        "{\"action\":\"unsubscribe\",\"params\":\"\"}"
    );
}

#[test]
fn frames_without_a_session() {
    assert_eq!(auth_message("k1"), "{\"action\":\"auth\",\"params\":\"k1\"}");
    assert_eq!(auth_message(""), "{\"action\":\"auth\",\"params\":\"\"}");
    assert_eq!(
        subscribe_message(&["T.MSFT", "Q.AAPL"]),
        "{\"action\":\"subscribe\",\"params\":\"T.MSFT,Q.AAPL\"}"
    );
    assert_eq!(
        unsubscribe_message(&["Q.*"]),
        "{\"action\":\"unsubscribe\",\"params\":\"Q.*\"}"
    );
}

#[test]
fn patterns_are_not_escaped() {
    assert_eq!(
        subscribe_message(&["a\"b", "c,d"]),
        "{\"action\":\"subscribe\",\"params\":\"a\"b,c,d\"}"
    );
}

#[test]
fn failed_write_leaves_an_active_session_active() {
    let (mut session, _) = active(STOCKS_CLUSTER, "k");
    session.subscribe(&["T.MSFT"]).unwrap();
    let reply = session.sent(Err(tungstenite::Error::AlreadyClosed));
    assert!(matches!(reply, Err(SessionError::Ws(tungstenite::Error::AlreadyClosed))));
    assert_eq!(session.state(), State::Active);
    assert!(session.subscribe(&["T.MSFT"]).is_ok());
}

#[test]
fn messages_are_passed_on_as_they_came_and_in_order() {
    let (mut session, _) = active(STOCKS_CLUSTER, "k");
    let arriving = vec![
        status_frame(),
        Message::Text(String::from("[{\"ev\":\"T\",\"sym\":\"MSFT\"}]")),
        Message::Binary(vec![1, 2, 3]),
        Message::Ping(vec![]),
        Message::Text(String::from("not json at all")),
    ];
    for message in arriving {
        let got = session.receive(Some(Ok(message.clone()))).unwrap();
        assert_eq!(got, message);
        assert_eq!(session.state(), State::Active);
    }
}

#[test]
fn failed_read_is_a_transport_error() {
    let (mut session, _) = active(STOCKS_CLUSTER, "k");
    let reply = session.receive(Some(Err(tungstenite::Error::Utf8)));
    assert!(matches!(reply, Err(SessionError::Ws(tungstenite::Error::Utf8))));
    assert_eq!(session.state(), State::Active);
}

#[test]
fn remote_close_is_connection_closed_and_final() {
    let (mut session, _) = active(STOCKS_CLUSTER, "k");
    assert_eq!(session.receive(Some(Ok(status_frame()))).unwrap(), status_frame());
    let reply = session.receive(None);
    assert!(matches!(reply, Err(SessionError::Closed)));
    assert!(!matches!(reply, Err(SessionError::Ws(_))));
    assert_eq!(session.state(), State::Closed);
    assert!(matches!(session.receive(Some(Ok(status_frame()))), Err(SessionError::Closed)));
    assert!(matches!(
        session.receive(Some(Err(tungstenite::Error::Utf8))),
        Err(SessionError::Closed)
    ));
    assert!(matches!(session.receive(None), Err(SessionError::Closed)));
    assert!(matches!(session.subscribe(&["T.MSFT"]), Err(SessionError::Closed)));
    assert!(matches!(session.unsubscribe(&["T.MSFT"]), Err(SessionError::Closed)));
    assert!(matches!(session.sent(Ok(())), Err(SessionError::Closed)));
    assert_eq!(session.state(), State::Closed);
}

#[test]
fn explicit_close_is_final() {
    let (mut session, _) = active(STOCKS_CLUSTER, "k");
    session.close();
    assert_eq!(session.state(), State::Closed);
    assert!(matches!(session.receive(Some(Ok(status_frame()))), Err(SessionError::Closed)));
    session.close();
    assert_eq!(session.state(), State::Closed);
    let mut fresh = WebSocketClient::new(STOCKS_CLUSTER, Some("k"), None).unwrap();
    fresh.close();
    assert_eq!(fresh.state(), State::Closed);
    assert_eq!(fresh.auth_key(), "k");
    assert_eq!(fresh.endpoint(), "wss://socket.polygon.io/stocks");
}

#[test]
fn decoding_a_frame_twice_gives_the_same_data() {
    let (mut session, _) = active(STOCKS_CLUSTER, "k");
    let raw = "[{\"ev\":\"status\",\"status\":\"connected\",\"message\":\"ok\"},{\"ev\":\"T\",\"p\":1.5}]";
    let text = session
        .receive(Some(Ok(Message::Text(String::from(raw)))))
        .unwrap()
        .into_text()
        .unwrap();
    assert_eq!(text, raw);
    let once: serde_json::Value = serde_json::from_str(&text).unwrap();
    let twice: serde_json::Value = serde_json::from_str(&text).unwrap();
    assert_eq!(once, twice);
    let outbound: serde_json::Value = serde_json::from_str(&auth_message("k")).unwrap();
    assert_ne!(once, outbound);
    assert_eq!(outbound["action"], "auth");
    assert_eq!(outbound["params"], "k");
}
