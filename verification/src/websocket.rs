//! The streaming session: where it connects, what it sends, how it lives.
//!
//! A session is driven from outside. The driver opens the transport, writes
//! the frames that the session hands out and reads the frames that arrive;
//! after each step it tells the session what happened, and the session says
//! what follows. Nothing here touches a socket.

use crate::text::{first_present, join, join_with, pick_first, texts};
use tokio_tungstenite::tungstenite;
use tokio_tungstenite::tungstenite::Message;
use url::ParseError;
use url::Url;
use vstd::prelude::*;
use vstd::string::*;

verus! {

/// The cluster that streams stocks.
pub const STOCKS_CLUSTER: &'static str = "stocks";

/// The cluster that streams currency pairs.
pub const FOREX_CLUSTER: &'static str = "forex";

/// The cluster that streams cryptocurrencies.
pub const CRYPTO_CLUSTER: &'static str = "crypto";

/// The host of the streaming feed; a cluster's address is a path below it.
pub const DEFAULT_WS_HOST: &'static str = "wss://socket.polygon.io";

/// `url::ParseError`, the reason for which the url crate rejects a text.
/// Nothing is claimed of its values.
#[verifier::external_type_specification]
#[verifier::external_body]
pub struct ExParseError(ParseError);

/// `tungstenite::Message`, one WebSocket message as the transport delivers
/// it. Nothing is claimed of its values: a session passes them on unread.
#[verifier::external_type_specification]
#[verifier::external_body]
pub struct ExMessage(Message);

/// `tungstenite::Error`, a failure of the transport. Nothing is claimed of
/// its values: a session passes them on unread.
#[verifier::external_type_specification]
#[verifier::external_body]
pub struct ExTransportError(tungstenite::Error);

/// What `Url::parse` of the url crate makes of `input`: the serialization of
/// the URL that it parsed, or the reason for which it rejected the text.
pub uninterp spec fn url_parse(input: Seq<char>) -> Result<Seq<char>, ParseError>;

/// The view of a parse outcome.
pub open spec fn parsed_text(parsed: Result<String, ParseError>) -> Result<Seq<char>, ParseError> {
    match parsed {
        Ok(url) => Ok(url@),
        Err(e) => Err(e),
    }
}

/// Calls `Url::parse` on `input` and turns the parsed URL into its
/// serialization (`String::from`, which moves the text out of the `Url`).
/// The contract claims only that the outcome is a function of the input
/// text, the one that `url_parse` names.
#[verifier::external_body]
fn parse_url(input: &str) -> (parsed: Result<String, ParseError>)
    ensures
        parsed_text(parsed) == url_parse(input@),
{
    Url::parse(input).map(String::from)
}

/// The text that is parsed into the address of a cluster's feed.
pub open spec fn endpoint_text(cluster: Seq<char>) -> Seq<char> {
    DEFAULT_WS_HOST@ + "/"@ + cluster
}

/// A control frame: a JSON object with the action and its parameter text.
/// The parameter text is placed between the quotes as it is.
pub open spec fn control_frame(action: Seq<char>, params: Seq<char>) -> Seq<char> {
    "{\"action\":\""@ + action + "\",\"params\":\""@ + params + "\"}"@
}

/// The frame that authenticates a session with `auth_key`.
pub open spec fn auth_frame(auth_key: Seq<char>) -> Seq<char> {
    control_frame("auth"@, auth_key)
}

/// The frame that asks for the streams matching `patterns`.
pub open spec fn subscribe_frame(patterns: Seq<Seq<char>>) -> Seq<char> {
    control_frame("subscribe"@, join(patterns, ","@))
}

/// The frame that ends the streams matching `patterns`.
pub open spec fn unsubscribe_frame(patterns: Seq<Seq<char>>) -> Seq<char> {
    control_frame("unsubscribe"@, join(patterns, ","@))
}

fn frame(action: &str, params: &str) -> (text: String)
    ensures
        text@ == control_frame(action@, params@),
{
    let mut text = String::from_str("{\"action\":\"");
    text.append(action);
    text.append("\",\"params\":\"");
    text.append(params);
    text.append("\"}");
    text
}

/// The text that is parsed into the address of `cluster`'s feed.
pub fn endpoint_for(cluster: &str) -> (text: String)
    ensures
        text@ == endpoint_text(cluster@),
{
    let mut text = String::from_str(DEFAULT_WS_HOST);
    text.append("/");
    text.append(cluster);
    text
}

/// The authentication frame for `auth_key`.
pub fn auth_message(auth_key: &str) -> (text: String)
    ensures
        text@ == auth_frame(auth_key@),
{
    frame("auth", auth_key)
}

/// The one frame that subscribes to `params`, in the order given.
pub fn subscribe_message(params: &[&str]) -> (text: String)
    ensures
        text@ == subscribe_frame(texts(params@)),
{
    let joined = join_with(params, ",");
    frame("subscribe", joined.as_str())
}

/// The one frame that unsubscribes from `params`, in the order given.
pub fn unsubscribe_message(params: &[&str]) -> (text: String)
    ensures
        text@ == unsubscribe_frame(texts(params@)),
{
    let joined = join_with(params, ",");
    frame("unsubscribe", joined.as_str())
}

/// Where a session stands in its life.
#[derive(Clone, Copy, Debug, PartialEq, Eq, Structural)]
pub enum State {
    /// No session yet: the state before construction.
    Disconnected,
    /// Constructed; the transport is being opened.
    Connecting,
    /// The transport is open; the authentication frame is being written.
    Authenticating,
    /// The authentication frame was written: frames may go out and come in.
    Active,
    /// The transport is gone. Nothing leads out of this state.
    Closed,
}

/// Why an operation of a session failed.
#[derive(Debug)]
pub enum SessionError {
    /// No credential: none was given and the environment holds none.
    Env,
    /// The address of the feed did not parse.
    Url(ParseError),
    /// The transport failed while opening, writing or reading.
    Ws(tungstenite::Error),
    /// The connection is closed.
    Closed,
}

/// What a session is, as plain values.
pub struct Session {
    pub auth_key: Seq<char>,
    pub cluster: Seq<char>,
    pub endpoint: Seq<char>,
    pub state: State,
}

impl Session {
    /// The same session in another state.
    pub open spec fn at(self, state: State) -> Session {
        Session { state, ..self }
    }
}

/// The outcome of constructing a session, from the credential that was
/// resolved and from what the URL parser made of the address text. A missing
/// credential is reported before the address is looked at.
pub open spec fn construction(
    cluster: Seq<char>,
    auth_key: Option<Seq<char>>,
    parsed: Result<Seq<char>, ParseError>,
) -> Result<Session, SessionError> {
    match auth_key {
        None => Err(SessionError::Env),
        Some(key) => match parsed {
            Err(e) => Err(SessionError::Url(e)),
            Ok(endpoint) => Ok(
                Session { auth_key: key, cluster, endpoint, state: State::Connecting },
            ),
        },
    }
}

/// The state after the driver reported how opening the transport went.
pub open spec fn state_after_handshake(state: State, went_well: bool) -> State {
    if state == State::Connecting {
        if went_well {
            State::Authenticating
        } else {
            State::Closed
        }
    } else {
        state
    }
}

/// What the driver is told after opening the transport: the frame to write
/// first, or the failure.
pub open spec fn handshake_reply(
    session: Session,
    handshake: Result<(), tungstenite::Error>,
) -> Result<Seq<char>, SessionError> {
    if session.state == State::Connecting {
        match handshake {
            Ok(_) => Ok(auth_frame(session.auth_key)),
            Err(e) => Err(SessionError::Ws(e)),
        }
    } else {
        Err(SessionError::Closed)
    }
}

/// The state after the driver reported how writing a frame went. A failed
/// write ends a session that was still authenticating; an active session
/// stays active.
pub open spec fn state_after_write(state: State, went_well: bool) -> State {
    if state == State::Authenticating {
        if went_well {
            State::Active
        } else {
            State::Closed
        }
    } else {
        state
    }
}

/// What the caller is told after a frame was handed to the transport.
pub open spec fn write_reply(state: State, outcome: Result<(), tungstenite::Error>) -> Result<
    (),
    SessionError,
> {
    if state == State::Authenticating || state == State::Active {
        match outcome {
            Ok(_) => Ok(()),
            Err(e) => Err(SessionError::Ws(e)),
        }
    } else {
        Err(SessionError::Closed)
    }
}

/// The state after the transport was asked for the next message. The end of
/// the stream closes an active session; nothing else changes the state.
pub open spec fn state_after_read(
    state: State,
    incoming: Option<Result<Message, tungstenite::Error>>,
) -> State {
    if state == State::Active && incoming is None {
        State::Closed
    } else {
        state
    }
}

/// What the caller gets after the transport was asked for the next message:
/// in an active session the message as it came, the failure of the
/// transport, or `Closed` at the end of the stream; `Closed` in every other
/// state, whatever the transport gave.
pub open spec fn read_reply(
    state: State,
    incoming: Option<Result<Message, tungstenite::Error>>,
) -> Result<Message, SessionError> {
    if state == State::Active {
        match incoming {
            Some(Ok(message)) => Ok(message),
            Some(Err(e)) => Err(SessionError::Ws(e)),
            None => Err(SessionError::Closed),
        }
    } else {
        Err(SessionError::Closed)
    }
}

/// What asking for a control frame gives: the frame in an active session,
/// `Closed` in every other state.
pub open spec fn frame_reply(state: State, frame: Seq<char>) -> Result<Seq<char>, SessionError> {
    if state == State::Active {
        Ok(frame)
    } else {
        Err(SessionError::Closed)
    }
}

/// The view of a reply that carries a frame.
pub open spec fn reply_text(reply: Result<String, SessionError>) -> Result<
    Seq<char>,
    SessionError,
> {
    match reply {
        Ok(frame) => Ok(frame@),
        Err(e) => Err(e),
    }
}

/// One streaming session: its credential, its cluster, the address of the
/// feed and the state it is in.
pub struct WebSocketClient {
    auth_key: String,
    cluster: String,
    endpoint: String,
    state: State,
}

/// The view of the outcome of a construction.
pub open spec fn construction_view(outcome: Result<WebSocketClient, SessionError>) -> Result<
    Session,
    SessionError,
> {
    match outcome {
        Ok(client) => Ok(client@),
        Err(e) => Err(e),
    }
}

impl View for WebSocketClient {
    type V = Session;

    closed spec fn view(&self) -> Session {
        Session {
            auth_key: self.auth_key@,
            cluster: self.cluster@,
            endpoint: self.endpoint@,
            state: self.state,
        }
    }
}

impl WebSocketClient {
    /// Constructs the session for `cluster`: resolves the credential, the
    /// explicit `auth_key` before `env_auth_key` (the value of the
    /// `POLYGON_AUTH_KEY` environment variable, if it is set), then has the
    /// address `wss://socket.polygon.io/<cluster>` parsed. The session is
    /// left in `Connecting`: the driver opens the transport to `endpoint()`
    /// and reports with `connected`.
    pub fn new(cluster: &str, auth_key: Option<&str>, env_auth_key: Option<&str>) -> (outcome:
        Result<WebSocketClient, SessionError>)
        ensures
            construction_view(outcome) == construction(
                cluster@,
                first_present(auth_key, env_auth_key),
                url_parse(endpoint_text(cluster@)),
            ),
    {
        match pick_first(auth_key, env_auth_key) {
            None => Err(SessionError::Env),
            Some(key) => {
                let address = endpoint_for(cluster);
                let parsed = parse_url(address.as_str());
                WebSocketClient::from_parsed(cluster, key, parsed)
            },
        }
    }

    /// Constructs the session for `cluster` from a credential and from the
    /// outcome of parsing the address.
    pub fn from_parsed(
        cluster: &str,
        auth_key: String,
        parsed: Result<String, ParseError>,
    ) -> (outcome: Result<WebSocketClient, SessionError>)
        ensures
            construction_view(outcome) == construction(
                cluster@,
                Some(auth_key@),
                parsed_text(parsed),
            ),
    {
        match parsed {
            Err(e) => Err(SessionError::Url(e)),
            Ok(endpoint) => Ok(
                WebSocketClient {
                    auth_key,
                    cluster: String::from_str(cluster),
                    endpoint,
                    state: State::Connecting,
                },
            ),
        }
    }

    /// The credential of the session.
    pub fn auth_key(&self) -> (key: &str)
        ensures
            key@ == self@.auth_key,
    {
        self.auth_key.as_str()
    }

    /// The cluster that the session was constructed for.
    pub fn cluster(&self) -> (cluster: &str)
        ensures
            cluster@ == self@.cluster,
    {
        self.cluster.as_str()
    }

    /// The address that the transport is opened to.
    pub fn endpoint(&self) -> (endpoint: &str)
        ensures
            endpoint@ == self@.endpoint,
    {
        self.endpoint.as_str()
    }

    /// The state of the session.
    pub fn state(&self) -> (state: State)
        ensures
            state == self@.state,
    {
        self.state
    }

    /// The authentication frame of the session.
    pub fn authenticate(&self) -> (text: String)
        ensures
            text@ == auth_frame(self@.auth_key),
    {
        auth_message(self.auth_key.as_str())
    }

    /// Takes the outcome of opening the transport. In `Connecting`, success
    /// leads to `Authenticating` and gives the authentication frame, which
    /// the driver writes next; failure closes the session.
    pub fn connected(&mut self, handshake: Result<(), tungstenite::Error>) -> (reply: Result<
        String,
        SessionError,
    >)
        ensures
            final(self)@ == old(self)@.at(state_after_handshake(old(self)@.state, handshake is Ok)),
            reply_text(reply) == handshake_reply(old(self)@, handshake),
    {
        match self.state {
            State::Connecting => match handshake {
                Ok(_) => {
                    self.state = State::Authenticating;
                    Ok(self.authenticate())
                },
                Err(e) => {
                    self.state = State::Closed;
                    Err(SessionError::Ws(e))
                },
            },
            _ => Err(SessionError::Closed),
        }
    }

    /// Takes the outcome of writing a frame. The first frame written is the
    /// authentication frame: once it is out the session is `Active`, without
    /// waiting for the server's answer.
    pub fn sent(&mut self, outcome: Result<(), tungstenite::Error>) -> (reply: Result<
        (),
        SessionError,
    >)
        ensures
            final(self)@ == old(self)@.at(state_after_write(old(self)@.state, outcome is Ok)),
            reply == write_reply(old(self)@.state, outcome),
    {
        match self.state {
            State::Authenticating => match outcome {
                Ok(_) => {
                    self.state = State::Active;
                    Ok(())
                },
                Err(e) => {
                    self.state = State::Closed;
                    Err(SessionError::Ws(e))
                },
            },
            State::Active => match outcome {
                Ok(_) => Ok(()),
                Err(e) => Err(SessionError::Ws(e)),
            },
            _ => Err(SessionError::Closed),
        }
    }

    /// The frame that subscribes to one or more tickers, for the driver to
    /// write. The session keeps no list of subscriptions.
    pub fn subscribe(&mut self, params: &[&str]) -> (reply: Result<String, SessionError>)
        ensures
            final(self)@ == old(self)@,
            reply_text(reply) == frame_reply(old(self)@.state, subscribe_frame(texts(params@))),
    {
        match self.state {
            State::Active => Ok(subscribe_message(params)),
            _ => Err(SessionError::Closed),
        }
    }

    /// The frame that unsubscribes from one or more tickers, for the driver
    /// to write.
    pub fn unsubscribe(&mut self, params: &[&str]) -> (reply: Result<String, SessionError>)
        ensures
            final(self)@ == old(self)@,
            reply_text(reply) == frame_reply(old(self)@.state, unsubscribe_frame(texts(params@))),
    {
        match self.state {
            State::Active => Ok(unsubscribe_message(params)),
            _ => Err(SessionError::Closed),
        }
    }

    /// Takes what the transport gave when asked for the next message, and
    /// hands the message on as it came. The end of the stream closes the
    /// session.
    pub fn receive(&mut self, incoming: Option<Result<Message, tungstenite::Error>>) -> (reply:
        Result<Message, SessionError>)
        ensures
            final(self)@ == old(self)@.at(state_after_read(old(self)@.state, incoming)),
            reply == read_reply(old(self)@.state, incoming),
    {
        match self.state {
            State::Active => match incoming {
                Some(Ok(message)) => Ok(message),
                Some(Err(e)) => Err(SessionError::Ws(e)),
                None => {
                    self.state = State::Closed;
                    Err(SessionError::Closed)
                },
            },
            _ => Err(SessionError::Closed),
        }
    }

    /// Closes the session, from whatever state.
    pub fn close(&mut self)
        ensures
            final(self)@ == old(self)@.at(State::Closed),
    {
        self.state = State::Closed;
    }
}

/// The address text of a cluster is `wss://socket.polygon.io/` followed by
/// the cluster, for every cluster; for the three named clusters it is the
/// address written out.
pub proof fn lemma_endpoint_text(cluster: Seq<char>)
    ensures
        endpoint_text(cluster) == "wss://socket.polygon.io/"@ + cluster,
        endpoint_text(STOCKS_CLUSTER@) == "wss://socket.polygon.io/stocks"@,
        endpoint_text(FOREX_CLUSTER@) == "wss://socket.polygon.io/forex"@,
        endpoint_text(CRYPTO_CLUSTER@) == "wss://socket.polygon.io/crypto"@,
{
    reveal_strlit("wss://socket.polygon.io");
    reveal_strlit("/");
    reveal_strlit("wss://socket.polygon.io/");
    reveal_strlit("stocks");
    reveal_strlit("forex");
    reveal_strlit("crypto");
    reveal_strlit("wss://socket.polygon.io/stocks");
    reveal_strlit("wss://socket.polygon.io/forex");
    reveal_strlit("wss://socket.polygon.io/crypto");
    assert(endpoint_text(cluster) =~= "wss://socket.polygon.io/"@ + cluster);
    assert(endpoint_text(STOCKS_CLUSTER@) =~= "wss://socket.polygon.io/stocks"@);
    assert(endpoint_text(FOREX_CLUSTER@) =~= "wss://socket.polygon.io/forex"@);
    assert(endpoint_text(CRYPTO_CLUSTER@) =~= "wss://socket.polygon.io/crypto"@);
}

/// The authentication frame is `{"action":"auth","params":"<key>"}` with
/// the credential exactly as it was given.
pub proof fn lemma_auth_frame(auth_key: Seq<char>)
    ensures
        auth_frame(auth_key) == "{\"action\":\"auth\",\"params\":\""@ + auth_key + "\"}"@,
{
    reveal_strlit("{\"action\":\"");
    reveal_strlit("auth");
    reveal_strlit("\",\"params\":\"");
    reveal_strlit("\"}");
    reveal_strlit("{\"action\":\"auth\",\"params\":\"");
    assert(auth_frame(auth_key) =~= "{\"action\":\"auth\",\"params\":\""@ + auth_key
        + "\"}"@);
}

/// Connecting, whatever the cluster and the credential: the session is
/// constructed in `Connecting` with the address that the parser made of
/// `wss://socket.polygon.io/<cluster>`; a successful handshake leads to
/// `Authenticating` and the frame handed out for writing is the
/// authentication frame with the session's credential; once that frame is
/// written the session is `Active`.
pub proof fn lemma_connect_then_authenticate(
    cluster: Seq<char>,
    auth_key: Seq<char>,
    endpoint: Seq<char>,
)
    ensures
        url_parse("wss://socket.polygon.io/"@ + cluster) == Ok::<Seq<char>, ParseError>(endpoint)
            ==> construction(cluster, Some(auth_key), url_parse(endpoint_text(cluster))) == Ok::<
            Session,
            SessionError,
        >(Session { auth_key, cluster, endpoint, state: State::Connecting }),
        state_after_handshake(State::Connecting, true) == State::Authenticating,
        handshake_reply(
            Session { auth_key, cluster, endpoint, state: State::Connecting },
            Ok(()),
        ) == Ok::<Seq<char>, SessionError>(
            "{\"action\":\"auth\",\"params\":\""@ + auth_key + "\"}"@,
        ),
        state_after_write(State::Authenticating, true) == State::Active,
{
    lemma_endpoint_text(cluster);
    lemma_auth_frame(auth_key);
}

/// Without a credential, neither given nor in the environment, construction
/// fails with `Env`, whatever the cluster and whatever the address would
/// parse to: there is no session, so nothing to open a transport for.
pub proof fn lemma_missing_credential(cluster: Seq<char>, parsed: Result<Seq<char>, ParseError>)
    ensures
        first_present(None, None) is None,
        construction(cluster, first_present(None, None), parsed) == Err::<Session, SessionError>(
            SessionError::Env,
        ),
{
}

/// The subscribe frame of a list of patterns is
/// `{"action":"subscribe","params":"<patterns>"}` with the patterns joined
/// by commas in the order given; the unsubscribe frame is the same with
/// `unsubscribe` for the action.
pub proof fn lemma_subscription_frames(patterns: Seq<Seq<char>>)
    ensures
        subscribe_frame(patterns) == "{\"action\":\"subscribe\",\"params\":\""@ + join(
            patterns,
            ","@,
        ) + "\"}"@,
        unsubscribe_frame(patterns) == "{\"action\":\"unsubscribe\",\"params\":\""@ + join(
            patterns,
            ","@,
        ) + "\"}"@,
{
    reveal_strlit("{\"action\":\"");
    reveal_strlit("subscribe");
    reveal_strlit("unsubscribe");
    reveal_strlit("\",\"params\":\"");
    reveal_strlit("\"}");
    reveal_strlit("{\"action\":\"subscribe\",\"params\":\"");
    reveal_strlit("{\"action\":\"unsubscribe\",\"params\":\"");
    assert(subscribe_frame(patterns) =~= "{\"action\":\"subscribe\",\"params\":\""@ + join(
        patterns,
        ","@,
    ) + "\"}"@);
    assert(unsubscribe_frame(patterns) =~= "{\"action\":\"unsubscribe\",\"params\":\""@
        + join(patterns, ","@) + "\"}"@);
}

/// When the stream ends under an active session, the caller is told
/// `Closed`, not a failure of the transport, and the session is closed;
/// from then on every read is answered with `Closed` and the session stays
/// closed, whatever the transport gives.
pub proof fn lemma_remote_close_is_final(later: Option<Result<Message, tungstenite::Error>>)
    ensures
        read_reply(State::Active, None) == Err::<Message, SessionError>(SessionError::Closed),
        state_after_read(State::Active, None) == State::Closed,
        read_reply(State::Closed, later) == Err::<Message, SessionError>(SessionError::Closed),
        state_after_read(State::Closed, later) == State::Closed,
{
}

/// Nothing leads out of `Closed`: no report of the driver changes the
/// state, and every request is answered with `Closed`.
pub proof fn lemma_closed_is_terminal(
    went_well: bool,
    outcome: Result<(), tungstenite::Error>,
    incoming: Option<Result<Message, tungstenite::Error>>,
    frame: Seq<char>,
    session: Session,
)
    requires
        session.state == State::Closed,
    ensures
        state_after_handshake(State::Closed, went_well) == State::Closed,
        state_after_write(State::Closed, went_well) == State::Closed,
        state_after_read(State::Closed, incoming) == State::Closed,
        handshake_reply(session, outcome) == Err::<Seq<char>, SessionError>(SessionError::Closed),
        write_reply(State::Closed, outcome) == Err::<(), SessionError>(SessionError::Closed),
        frame_reply(State::Closed, frame) == Err::<Seq<char>, SessionError>(SessionError::Closed),
{
}

/// An active session stays active through every write, failed or not, and
/// through every read that gives a message or a failure; in it every
/// control frame is handed out and every message that arrives is passed on
/// as it came.
pub proof fn lemma_active_session(
    went_well: bool,
    arrived: Result<Message, tungstenite::Error>,
    message: Message,
    frame: Seq<char>,
)
    ensures
        state_after_handshake(State::Active, went_well) == State::Active,
        state_after_write(State::Active, went_well) == State::Active,
        state_after_read(State::Active, Some(arrived)) == State::Active,
        frame_reply(State::Active, frame) == Ok::<Seq<char>, SessionError>(frame),
        read_reply(State::Active, Some(Ok(message))) == Ok::<Message, SessionError>(message),
{
}

} // verus!
