//! The client: its session, and the requests it has the program make.

use crate::address::{located, parsed_url, Broker, BrokerModel};
use crate::device::{pairs_view, AsDeviceMac, Device};
use crate::error::Error;
use crate::event::{ConnectReturnCode, EventHandler, Incoming, IncomingModel};
use crate::json::{json_text, parsed_json, read_json, write_json, Json, JsonModel};
use crate::text::join;
use crate::topic::{status_topic, status_topic_of, update_topic, update_topic_of};
use crate::wire::{
    bulk_update, bulk_update_document, decode_device_list, device_list_of, devices_view,
    empty_body, empty_document, inception_addr_of, login_body, login_document, session_of,
    update_document, update_record,
};
use vstd::prelude::*;

verus! {

/// Where a session is asked for.
pub const LOGIN_ROUTE: &'static str =
    "https://ucenter.cloud.sengled.com/user/app/customer/v2/AuthenCross.json";

/// Where the broker's address is asked for.
pub const SERVER_INFO_ROUTE: &'static str =
    "https://life2.cloud.sengled.com/life2/server/getServerInfo.json";

/// Where the devices of the account are asked for.
pub const DEVICE_LIST_ROUTE: &'static str = "https://life2.cloud.sengled.com/life2/device/list.json";

/// The broker that is used where discovery is skipped.
pub const DEFAULT_SERVER_URL: &'static str = "wss://us-mqtt.cloud.sengled.com:443/mqtt";

/// The seconds after which an idle connection is pinged.
pub const KEEP_ALIVE_SECS: u64 = 30;

/// The seconds for which closing waits for the standing listener to return.
/// A listener that has not returned by then is left behind.
pub const CLOSE_WAIT_SECS: u64 = 30;

/// The quality of service of a subscription or a publication.
#[derive(Clone, Copy, Debug, PartialEq, Eq, Structural)]
pub enum QoS {
    AtMostOnce,
    AtLeastOnce,
    ExactlyOnce,
}

/// The characters of a text that may be absent.
pub open spec fn text_view(text: Option<&str>) -> Option<Seq<char>> {
    match text {
        Some(t) => Some(t@),
        None => None,
    }
}

/// An HTTP POST for the program to send.
#[derive(Clone, Debug, PartialEq, Eq)]
pub struct Request {
    pub url: String,
    pub headers: Vec<(String, String)>,
    pub body: String,
}

/// What a [`Request`] stands for.
pub struct RequestModel {
    pub url: Seq<char>,
    pub headers: Seq<(Seq<char>, Seq<char>)>,
    pub body: Seq<char>,
}

impl View for Request {
    type V = RequestModel;

    open spec fn view(&self) -> RequestModel {
        RequestModel { url: self.url@, headers: pairs_view(self.headers@), body: self.body@ }
    }
}

/// The value of the header that carries a session.
pub open spec fn cookie_of(session: Seq<char>) -> Seq<char> {
    "JSESSIONID="@ + session
}

/// The headers of a request: three fixed ones, and the session where there
/// is one.
pub open spec fn headers_of(session: Option<Seq<char>>) -> Seq<(Seq<char>, Seq<char>)> {
    let fixed = seq![
        ("Content-Type"@, "application/json"@),
        ("Host"@, "element.cloud.sengled.com:443"@),
        ("Connection"@, "keep-alive"@),
    ];
    match session {
        Some(s) => fixed.push(("Cookie"@, cookie_of(s))),
        None => fixed,
    }
}

/// The request that posts a document, or `None` where the document cannot
/// be written as text.
pub open spec fn post_of(url: Seq<char>, session: Option<Seq<char>>, body: JsonModel) -> Option<
    RequestModel,
> {
    match json_text(body) {
        Some(text) => Some(RequestModel { url, headers: headers_of(session), body: text }),
        None => None,
    }
}

/// Builds the request that posts a document.
pub fn post(url: &str, session: Option<&str>, body: &Json) -> (outcome: Result<Request, Error>)
    ensures
        match outcome {
            Ok(request) => post_of(url@, text_view(session), body@) == Some(request@),
            Err(Error::Serialization(_)) => post_of(url@, text_view(session), body@) is None,
            Err(_) => false,
        },
{
    let text = match write_json(body) {
        Ok(text) => text,
        Err(detail) => {
            return Err(Error::Serialization(detail));
        },
    };
    let mut headers: Vec<(String, String)> = Vec::new();
    headers.push(("Content-Type".to_owned(), "application/json".to_owned()));
    headers.push(("Host".to_owned(), "element.cloud.sengled.com:443".to_owned()));
    headers.push(("Connection".to_owned(), "keep-alive".to_owned()));
    match session {
        Some(s) => {
            headers.push(("Cookie".to_owned(), join("JSESSIONID=", s)));
        },
        None => {},
    }
    assert(pairs_view(headers@) =~= headers_of(text_view(session)));
    Ok(Request { url: url.to_owned(), headers, body: text })
}

/// What the MQTT connection is opened with. The transport is always a
/// secure WebSocket; the headers go on its upgrade request, by which the
/// broker knows the session.
#[derive(Clone, Debug, PartialEq, Eq)]
pub struct MqttOptions {
    pub client_id: String,
    pub broker_addr: String,
    pub port: u16,
    pub keep_alive_secs: u64,
    pub headers: Vec<(String, String)>,
}

/// What an [`MqttOptions`] stands for.
pub struct MqttOptionsModel {
    pub client_id: Seq<char>,
    pub broker_addr: Seq<char>,
    pub port: u16,
    pub keep_alive_secs: u64,
    pub headers: Seq<(Seq<char>, Seq<char>)>,
}

impl View for MqttOptions {
    type V = MqttOptionsModel;

    open spec fn view(&self) -> MqttOptionsModel {
        MqttOptionsModel {
            client_id: self.client_id@,
            broker_addr: self.broker_addr@,
            port: self.port,
            keep_alive_secs: self.keep_alive_secs,
            headers: pairs_view(self.headers@),
        }
    }
}

impl MqttOptions {
    /// The options with which a session connects to a broker.
    pub fn new(session: &str, broker: &Broker) -> (options: MqttOptions)
        ensures
            options@ == options_of(session@, broker@),
    {
        let mut headers: Vec<(String, String)> = Vec::new();
        headers.push(("Cookie".to_owned(), join("JSESSIONID=", session)));
        headers.push(("X-Requested-With".to_owned(), "com.sengled.life2".to_owned()));
        assert(pairs_view(headers@) =~= options_of(session@, broker@).headers);
        MqttOptions {
            client_id: join(session, "@lifeApp"),
            broker_addr: broker.address.clone(),
            port: broker.port,
            keep_alive_secs: KEEP_ALIVE_SECS,
            headers,
        }
    }
}

/// The options with which a session connects to a broker.
pub open spec fn options_of(session: Seq<char>, broker: BrokerModel) -> MqttOptionsModel {
    MqttOptionsModel {
        client_id: session + "@lifeApp"@,
        broker_addr: broker.address,
        port: broker.port,
        keep_alive_secs: KEEP_ALIVE_SECS,
        headers: seq![
            ("Cookie"@, cookie_of(session)),
            ("X-Requested-With"@, "com.sengled.life2"@),
        ],
    }
}

/// A subscription for the program to make.
#[derive(Clone, Debug, PartialEq, Eq)]
pub struct SubscribeFilter {
    pub path: String,
    pub qos: QoS,
}

/// What a [`SubscribeFilter`] stands for.
pub struct SubscribeFilterModel {
    pub path: Seq<char>,
    pub qos: QoS,
}

impl View for SubscribeFilter {
    type V = SubscribeFilterModel;

    open spec fn view(&self) -> SubscribeFilterModel {
        SubscribeFilterModel { path: self.path@, qos: self.qos }
    }
}

/// The subscription to the status topic of a device.
pub open spec fn subscription_of(mac: Seq<char>, qos: QoS) -> SubscribeFilterModel {
    SubscribeFilterModel { path: status_topic_of(mac), qos }
}

/// The subscriptions to the status topics of the devices, in order: what
/// one bulk call asks for.
pub open spec fn bulk_subscription(macs: Seq<Seq<char>>, qos: QoS) -> Seq<SubscribeFilterModel> {
    Seq::new(macs.len(), |i: int| subscription_of(macs[i], qos))
}

/// The identifiers that the items name, in order.
pub open spec fn macs_of<D: AsDeviceMac>(devices: Seq<D>) -> Seq<Seq<char>> {
    Seq::new(devices.len(), |i: int| devices[i].device_mac())
}

/// What each of the filters stands for, in order.
pub open spec fn filters_view(filters: Seq<SubscribeFilter>) -> Seq<SubscribeFilterModel> {
    Seq::new(filters.len(), |i: int| filters[i]@)
}

/// The subscriptions that are held once the filters of one call were
/// granted, on top of those held before.
pub open spec fn subscribed(held: Set<SubscribeFilterModel>, filters: Seq<SubscribeFilterModel>) -> Set<
    SubscribeFilterModel,
>
    decreases filters.len(),
{
    if filters.len() == 0 {
        held
    } else {
        subscribed(held, filters.drop_last()).insert(filters.last())
    }
}

/// The subscriptions that are held once each of the devices was subscribed
/// to in a call of its own, one after the other.
pub open spec fn subscribed_one_by_one(
    held: Set<SubscribeFilterModel>,
    macs: Seq<Seq<char>>,
    qos: QoS,
) -> Set<SubscribeFilterModel>
    decreases macs.len(),
{
    if macs.len() == 0 {
        held
    } else {
        subscribed(
            subscribed_one_by_one(held, macs.drop_last(), qos),
            seq![subscription_of(macs.last(), qos)],
        )
    }
}

/// Subscribing to devices in one bulk call leaves the same subscriptions as
/// subscribing to them one by one.
pub proof fn lemma_bulk_subscription_is_one_by_one(
    held: Set<SubscribeFilterModel>,
    macs: Seq<Seq<char>>,
    qos: QoS,
)
    ensures
        subscribed(held, bulk_subscription(macs, qos)) == subscribed_one_by_one(held, macs, qos),
    decreases macs.len(),
{
    if macs.len() > 0 {
        lemma_bulk_subscription_is_one_by_one(held, macs.drop_last(), qos);
        let single = seq![subscription_of(macs.last(), qos)];
        assert(single.drop_last() =~= Seq::empty());
        assert(subscribed(subscribed_one_by_one(held, macs.drop_last(), qos), single)
            == subscribed_one_by_one(held, macs.drop_last(), qos).insert(
            subscription_of(macs.last(), qos),
        )) by {
            reveal_with_fuel(subscribed, 2);
        }
        assert(bulk_subscription(macs, qos).drop_last() =~= bulk_subscription(
            macs.drop_last(),
            qos,
        ));
    }
}

/// A message for the program to publish.
#[derive(Clone, Debug, PartialEq, Eq)]
pub struct Publish {
    pub topic: String,
    pub qos: QoS,
    pub retain: bool,
    pub payload: String,
}

/// What a [`Publish`] stands for.
pub struct PublishModel {
    pub topic: Seq<char>,
    pub qos: QoS,
    pub retain: bool,
    pub payload: Seq<char>,
}

impl View for Publish {
    type V = PublishModel;

    open spec fn view(&self) -> PublishModel {
        PublishModel {
            topic: self.topic@,
            qos: self.qos,
            retain: self.retain,
            payload: self.payload@,
        }
    }
}

/// The message that writes a document to the update topic of a device, or
/// `None` where the document cannot be written as text.
pub open spec fn publish_of(mac: Seq<char>, qos: QoS, body: JsonModel) -> Option<PublishModel> {
    match json_text(body) {
        Some(text) => Some(
            PublishModel { topic: update_topic_of(mac), qos, retain: false, payload: text },
        ),
        None => None,
    }
}

/// Whether the outcome of a write is the one that the document `body` for
/// the device `mac` gives.
pub open spec fn writes(
    outcome: Result<Publish, Error>,
    mac: Seq<char>,
    qos: QoS,
    body: JsonModel,
) -> bool {
    match outcome {
        Ok(publish) => publish_of(mac, qos, body) == Some(publish@),
        Err(Error::Serialization(_)) => publish_of(mac, qos, body) is None,
        Err(_) => false,
    }
}

/// A step of closing, for the program to take.
#[derive(Clone, Copy, Debug, PartialEq, Eq, Structural)]
pub enum Shutdown {
    /// Ask the transport to disconnect, after all that was published.
    Disconnect,
    /// Wait until the standing listener has returned, for
    /// [`CLOSE_WAIT_SECS`] at most.
    AwaitListener,
}

/// Where a client is in its life.
#[derive(Clone, Copy, Debug, PartialEq, Eq, Structural)]
pub enum Phase {
    /// No session is held.
    Unauthenticated,
    /// A session is held; there is no connection.
    Authenticated,
    /// A session is held and the connection was acknowledged.
    Connected,
}

/// What the address of the broker is taken from.
pub enum Discovery {
    /// The response is no JSON.
    NotJson,
    /// The response is JSON that names no address.
    Malformed,
    /// The text of the address.
    Address(Seq<char>),
}

/// What a [`Client`] stands for.
pub struct ClientModel {
    pub username: Seq<char>,
    pub password: Seq<char>,
    pub preferred_qos: QoS,
    pub skip_server_check: bool,
    pub session: Option<Seq<char>>,
    pub connected: bool,
    pub listening: bool,
}

impl ClientModel {
    /// A connection is never without a session, and a listener never
    /// without a connection.
    pub open spec fn well_formed(self) -> bool {
        &&& self.connected ==> self.session is Some
        &&& self.listening ==> self.connected
    }

    /// A client as it is created.
    pub open spec fn fresh(username: Seq<char>, password: Seq<char>) -> ClientModel {
        ClientModel {
            username,
            password,
            preferred_qos: QoS::AtMostOnce,
            skip_server_check: false,
            session: None,
            connected: false,
            listening: false,
        }
    }

    /// Whether a session is held.
    pub open spec fn authenticated(self) -> bool {
        self.session is Some
    }

    /// Where the client is in its life.
    pub open spec fn phase(self) -> Phase {
        if self.connected {
            Phase::Connected
        } else if self.session is Some {
            Phase::Authenticated
        } else {
            Phase::Unauthenticated
        }
    }

    /// The client with a session.
    pub open spec fn signed_in(self, token: Seq<char>) -> ClientModel {
        ClientModel { session: Some(token), ..self }
    }

    /// The client with a fresh connection, on which nobody listens yet.
    pub open spec fn started(self) -> ClientModel {
        ClientModel { connected: true, listening: false, ..self }
    }

    /// The client after a listener was asked for: one runs where there is
    /// a connection.
    pub open spec fn listened(self) -> ClientModel {
        ClientModel { listening: self.connected, ..self }
    }

    /// What the address of the broker is taken from, given the response to
    /// the discovery request: the fixed address where discovery is skipped,
    /// else what the response names.
    pub open spec fn discovered(self, response: Seq<u8>) -> Discovery {
        if self.skip_server_check {
            Discovery::Address(DEFAULT_SERVER_URL@)
        } else {
            match parsed_json(response) {
                Some(doc) => match inception_addr_of(doc) {
                    Some(address) => Discovery::Address(address),
                    None => Discovery::Malformed,
                },
                None => Discovery::NotJson,
            }
        }
    }

    /// The steps of closing, in order.
    pub open spec fn shutdown(self) -> Seq<Shutdown> {
        if !self.connected {
            Seq::empty()
        } else if self.listening {
            seq![Shutdown::Disconnect, Shutdown::AwaitListener]
        } else {
            seq![Shutdown::Disconnect]
        }
    }
}

/// A session, once held, is held through every step the client takes: a
/// client that was given a session is authenticated, and stays so when a
/// session is set again, when the connection starts and when a listener is
/// asked for; and each of these steps leaves a well-formed client
/// well-formed. As [`Client::login`] and [`Client::accept_session`] refuse
/// exactly the authenticated clients, a second authentication is refused.
pub proof fn lemma_session_is_held(client: ClientModel, token: Seq<char>)
    ensures
        client.signed_in(token).authenticated(),
        client.authenticated() ==> client.started().authenticated(),
        client.authenticated() ==> client.listened().authenticated(),
        client.well_formed() ==> client.signed_in(token).well_formed(),
        client.well_formed() && client.authenticated() ==> client.started().well_formed(),
        client.well_formed() ==> client.listened().well_formed(),
{
}

/// `std::time::SystemTime::now`, turned into a `chrono::DateTime<Utc>` by
/// `chrono`'s conversion from a system time, then `timestamp_millis` of it:
/// the milliseconds between the Unix epoch and the system clock. The
/// conversion also takes a clock that stands before the epoch; the reading
/// is then negative. Nothing is claimed of the reading.
#[verifier::external_body]
pub(crate) fn clock_millis() -> i64 {
    chrono::DateTime::<chrono::Utc>::from(std::time::SystemTime::now()).timestamp_millis()
}

/// A client of the device cloud.
///
/// The client holds the session and decides; it does not talk to the
/// network. Where a call returns a [`Request`], a [`SubscribeFilter`] or a
/// [`Publish`], the program performs it; where a call takes a response, the
/// program hands in what came back.
#[derive(Debug)]
pub struct Client {
    username: String,
    password: String,
    preferred_qos: QoS,
    skip_server_check: bool,
    session: Option<String>,
    connected: bool,
    listening: bool,
}

impl View for Client {
    type V = ClientModel;

    closed spec fn view(&self) -> ClientModel {
        ClientModel {
            username: self.username@,
            password: self.password@,
            preferred_qos: self.preferred_qos,
            skip_server_check: self.skip_server_check,
            session: match self.session {
                Some(s) => Some(s@),
                None => None,
            },
            connected: self.connected,
            listening: self.listening,
        }
    }
}

impl Client {
    #[verifier::type_invariant]
    spec fn holds_together(self) -> bool {
        self@.well_formed()
    }

    /// Create a new client with a given username and password.
    pub fn new(username: &str, password: &str) -> (client: Client)
        ensures
            client@ == ClientModel::fresh(username@, password@),
    {
        Client {
            username: username.to_owned(),
            password: password.to_owned(),
            preferred_qos: QoS::AtMostOnce,
            skip_server_check: false,
            session: None,
            connected: false,
            listening: false,
        }
    }

    /// Set the preferred MQTT quality of service. Default is at-most-once.
    pub fn with_preferred_qos(self, qos: QoS) -> (client: Client)
        ensures
            client@ == (ClientModel { preferred_qos: qos, ..self@ }),
    {
        proof {
            use_type_invariant(&self);
        }
        let mut client = self;
        client.preferred_qos = qos;
        client
    }

    /// Skip the server check. Uses the default MQTT server instead of one
    /// dynamically fetched.
    pub fn with_skip_server_check(self) -> (client: Client)
        ensures
            client@ == (ClientModel { skip_server_check: true, ..self@ }),
    {
        proof {
            use_type_invariant(&self);
        }
        let mut client = self;
        client.skip_server_check = true;
        client
    }

    /// The session held.
    pub fn session(&self) -> (session: Option<&str>)
        ensures
            text_view(session) == self@.session,
    {
        match &self.session {
            Some(s) => Some(s.as_str()),
            None => None,
        }
    }

    /// Whether the connection was acknowledged.
    pub fn is_connected(&self) -> (connected: bool)
        ensures
            connected == self@.connected,
            connected ==> self@.authenticated(),
    {
        proof {
            use_type_invariant(self);
        }
        self.connected
    }

    /// Where the client is in its life.
    pub fn phase(&self) -> (phase: Phase)
        ensures
            phase == self@.phase(),
            self@.well_formed(),
    {
        proof {
            use_type_invariant(self);
        }
        if self.connected {
            Phase::Connected
        } else if self.session.is_some() {
            Phase::Authenticated
        } else {
            Phase::Unauthenticated
        }
    }

    /// Takes a session that was obtained earlier.
    pub fn set_session(&mut self, value: String)
        ensures
            final(self)@ == old(self)@.signed_in(value@),
    {
        proof {
            use_type_invariant(&*self);
        }
        self.session = Some(value);
    }

    /// The request that asks for a session. A client that holds a session
    /// is refused, and no request is made.
    pub fn login(&self) -> (outcome: Result<Request, Error>)
        ensures
            match outcome {
                Ok(request) => !self@.authenticated() && post_of(
                    LOGIN_ROUTE@,
                    None,
                    login_body(self@.username, self@.password),
                ) == Some(request@),
                Err(Error::LoggedIn) => self@.authenticated(),
                Err(Error::Serialization(_)) => !self@.authenticated() && post_of(
                    LOGIN_ROUTE@,
                    None,
                    login_body(self@.username, self@.password),
                ) is None,
                Err(_) => false,
            },
    {
        if self.session.is_some() {
            return Err(Error::LoggedIn);
        }
        let body = login_document(self.username.as_str(), self.password.as_str());
        post(LOGIN_ROUTE, None, &body)
    }

    /// Takes the document of the response to the login request, and with it
    /// the session. A client that holds a session is refused and keeps it.
    pub fn accept_session(&mut self, response: &Json) -> (outcome: Result<(), Error>)
        ensures
            match outcome {
                Ok(_) => !old(self)@.authenticated() && session_of(response@) is Some && final(self)@ == old(self)@.signed_in(session_of(response@)->0),
                Err(Error::LoggedIn) => old(self)@.authenticated() && final(self)@ == old(self)@,
                Err(Error::Malformed) => !old(self)@.authenticated() && session_of(response@) is None
                    && final(self)@ == old(self)@,
                Err(_) => false,
            },
    {
        proof {
            use_type_invariant(&*self);
        }
        if self.session.is_some() {
            return Err(Error::LoggedIn);
        }
        match response.text_member("jsessionId") {
            Some(token) => {
                self.session = Some(token.to_owned());
                Ok(())
            },
            None => Err(Error::Malformed),
        }
    }

    /// Takes the response to the login request, and with it the session.
    pub fn finish_login(&mut self, response: &[u8]) -> (outcome: Result<(), Error>)
        ensures
            match outcome {
                Ok(_) => !old(self)@.authenticated() && parsed_json(response@) is Some
                    && session_of(parsed_json(response@)->0) is Some && final(self)@ == old(self)@.signed_in(session_of(parsed_json(response@)->0)->0),
                Err(Error::LoggedIn) => old(self)@.authenticated() && final(self)@ == old(self)@,
                Err(Error::Serialization(_)) => !old(self)@.authenticated() && parsed_json(
                    response@,
                ) is None && final(self)@ == old(self)@,
                Err(Error::Malformed) => !old(self)@.authenticated() && parsed_json(
                    response@,
                ) is Some && session_of(parsed_json(response@)->0) is None && final(self)@ == old(self)@,
                Err(_) => false,
            },
    {
        if self.session.is_some() {
            return Err(Error::LoggedIn);
        }
        match read_json(response) {
            Ok(doc) => self.accept_session(&doc),
            Err(detail) => Err(Error::Serialization(detail)),
        }
    }

    /// The request that asks where the broker is: none where discovery is
    /// skipped. A client that has a connection is refused: it may not open
    /// another.
    pub fn discovery(&self) -> (outcome: Result<Option<Request>, Error>)
        requires
            self@.authenticated(),
        ensures
            match outcome {
                Ok(None) => !self@.connected && self@.skip_server_check,
                Ok(Some(request)) => !self@.connected && !self@.skip_server_check && post_of(
                    SERVER_INFO_ROUTE@,
                    self@.session,
                    empty_body(),
                ) == Some(request@),
                Err(Error::LoggedIn) => self@.connected,
                Err(Error::Serialization(_)) => !self@.connected && !self@.skip_server_check
                    && post_of(SERVER_INFO_ROUTE@, self@.session, empty_body()) is None,
                Err(_) => false,
            },
    {
        if self.connected {
            return Err(Error::LoggedIn);
        }
        if self.skip_server_check {
            return Ok(None);
        }
        let body = empty_document();
        match post(SERVER_INFO_ROUTE, self.session(), &body) {
            Ok(request) => Ok(Some(request)),
            Err(error) => Err(error),
        }
    }

    /// What the connection is opened with, given the response to the
    /// discovery request. Where discovery is skipped the response is not
    /// read. A client that has a connection is refused: it may not open
    /// another.
    pub fn create_client_state(&self, discovery: &[u8]) -> (outcome: Result<MqttOptions, Error>)
        requires
            self@.authenticated(),
        ensures
            match outcome {
                Ok(options) => !self@.connected && self@.discovered(discovery@) is Address
                    && located(self@.discovered(discovery@)->Address_0) is Some && options@
                    == options_of(
                    self@.session->0,
                    located(self@.discovered(discovery@)->Address_0)->0,
                ),
                Err(Error::LoggedIn) => self@.connected,
                Err(Error::Serialization(_)) => !self@.connected && self@.discovered(
                    discovery@,
                ) is NotJson,
                Err(Error::Malformed) => !self@.connected && self@.discovered(
                    discovery@,
                ) is Malformed,
                Err(Error::Parse(_)) => !self@.connected && self@.discovered(discovery@) is Address
                    && parsed_url(self@.discovered(discovery@)->Address_0) is None,
                Err(Error::ConnectionFailure) => !self@.connected && self@.discovered(
                    discovery@,
                ) is Address && parsed_url(self@.discovered(discovery@)->Address_0) is Some
                    && located(self@.discovered(discovery@)->Address_0) is None,
                Err(_) => false,
            },
    {
        if self.connected {
            return Err(Error::LoggedIn);
        }
        let session = match self.session() {
            Some(session) => session,
            None => "",
        };
        let broker = if self.skip_server_check {
            Broker::locate(DEFAULT_SERVER_URL)
        } else {
            let doc = match read_json(discovery) {
                Ok(doc) => doc,
                Err(detail) => {
                    return Err(Error::Serialization(detail));
                },
            };
            match doc.text_member("inceptionAddr") {
                Some(address) => Broker::locate(address),
                None => {
                    return Err(Error::Malformed);
                },
            }
        };
        match broker {
            Ok(broker) => Ok(MqttOptions::new(session, &broker)),
            Err(error) => Err(error),
        }
    }

    /// Takes what the first poll of the new connection brought. Only an
    /// acknowledgment with the code of success starts the client; anything
    /// else is a failed connection and leaves the client as it was. A
    /// client that has a connection is refused and keeps it: a client has
    /// one connection at most, until it is closed.
    pub fn start(&mut self, first: &Incoming) -> (outcome: Result<EventHandler, Error>)
        requires
            old(self)@.authenticated(),
        ensures
            match outcome {
                Ok(handler) => !old(self)@.connected && first@ == IncomingModel::ConnAck(
                    ConnectReturnCode::Success,
                ) && final(self)@ == old(self)@.started() && !handler.ended(),
                Err(Error::LoggedIn) => old(self)@.connected && final(self)@ == old(self)@,
                Err(Error::ConnectionFailure) => !old(self)@.connected && first@
                    != IncomingModel::ConnAck(ConnectReturnCode::Success) && final(self)@ == old(self)@,
                Err(_) => false,
            },
    {
        proof {
            use_type_invariant(&*self);
        }
        if self.connected {
            return Err(Error::LoggedIn);
        }
        match first {
            Incoming::ConnAck(ConnectReturnCode::Success) => {
                self.connected = true;
                self.listening = false;
                Ok(EventHandler::open())
            },
            _ => Err(Error::ConnectionFailure),
        }
    }

    /// Notes that a listener was asked for, and says whether one runs.
    pub(crate) fn note_listener(&mut self) -> (runs: bool)
        ensures
            runs == old(self)@.connected,
            final(self)@ == old(self)@.listened(),
    {
        proof {
            use_type_invariant(&*self);
        }
        self.listening = self.connected;
        self.connected
    }

    /// The request that asks for the devices registered to the account.
    pub fn wifi_devices(&self) -> (outcome: Result<Request, Error>)
        requires
            self@.connected,
        ensures
            match outcome {
                Ok(request) => post_of(DEVICE_LIST_ROUTE@, self@.session, empty_body()) == Some(
                    request@,
                ),
                Err(Error::Serialization(_)) => post_of(
                    DEVICE_LIST_ROUTE@,
                    self@.session,
                    empty_body(),
                ) is None,
                Err(_) => false,
            },
    {
        let body = empty_document();
        post(DEVICE_LIST_ROUTE, self.session(), &body)
    }

    /// Reads the devices out of the response to the device-list request.
    pub fn read_wifi_devices(response: &[u8]) -> (outcome: Result<Vec<Device>, Error>)
        ensures
            match outcome {
                Ok(devices) => parsed_json(response@) is Some && device_list_of(
                    parsed_json(response@)->0,
                ) == Some(devices_view(devices@)),
                Err(Error::Serialization(_)) => parsed_json(response@) is None,
                Err(Error::Malformed) => parsed_json(response@) is Some && device_list_of(
                    parsed_json(response@)->0,
                ) is None,
                Err(_) => false,
            },
    {
        match read_json(response) {
            Ok(doc) => match decode_device_list(&doc) {
                Some(devices) => Ok(devices),
                None => Err(Error::Malformed),
            },
            Err(detail) => Err(Error::Serialization(detail)),
        }
    }

    /// Reads the devices out of the response to the device-list request,
    /// and subscribes to all of them in one call.
    pub fn get_wifi_devices_and_subscribe(&self, response: &[u8]) -> (outcome: Result<
        (Vec<Device>, Vec<SubscribeFilter>),
        Error,
    >)
        requires
            self@.connected,
        ensures
            match outcome {
                Ok((devices, filters)) => {
                    &&& parsed_json(response@) is Some
                    &&& device_list_of(parsed_json(response@)->0) == Some(devices_view(devices@))
                    &&& filters_view(filters@) == bulk_subscription(
                        macs_of(devices@),
                        self@.preferred_qos,
                    )
                },
                Err(Error::Serialization(_)) => parsed_json(response@) is None,
                Err(Error::Malformed) => parsed_json(response@) is Some && device_list_of(
                    parsed_json(response@)->0,
                ) is None,
                Err(_) => false,
            },
    {
        match Client::read_wifi_devices(response) {
            Ok(devices) => {
                let filters = self.subscribe_devices(devices.as_slice());
                Ok((devices, filters))
            },
            Err(error) => Err(error),
        }
    }

    /// The subscription to the events of a single device.
    pub fn subscribe_device<D: AsDeviceMac>(&self, device: D) -> (filter: SubscribeFilter)
        requires
            self@.connected,
        ensures
            filter@ == subscription_of(device.device_mac(), self@.preferred_qos),
    {
        SubscribeFilter { path: status_topic(device.as_device_mac()), qos: self.preferred_qos }
    }

    /// The subscriptions to the events of many devices, for one call.
    pub fn subscribe_devices<D: AsDeviceMac>(&self, devices: &[D]) -> (filters: Vec<
        SubscribeFilter,
    >)
        requires
            self@.connected,
        ensures
            filters_view(filters@) == bulk_subscription(macs_of(devices@), self@.preferred_qos),
    {
        let mut filters: Vec<SubscribeFilter> = Vec::new();
        let mut i: usize = 0;
        while i < devices.len()
            invariant
                i <= devices@.len(),
                filters@.len() == i,
                forall|j: int|
                    0 <= j < i ==> (#[trigger] filters@[j])@ == subscription_of(
                        devices@[j].device_mac(),
                        self@.preferred_qos,
                    ),
            decreases devices@.len() - i,
        {
            filters.push(
                SubscribeFilter {
                    path: status_topic(devices[i].as_device_mac()),
                    qos: self.preferred_qos,
                },
            );
            i = i + 1;
        }
        assert(filters_view(filters@) =~= bulk_subscription(
            macs_of(devices@),
            self@.preferred_qos,
        ));
        filters
    }

    /// The message that sets an attribute on a device, stamped with `time`.
    pub fn set_device_attribute_at<D: AsDeviceMac>(
        &self,
        device: D,
        attribute: &str,
        value: &str,
        time: i64,
    ) -> (outcome: Result<Publish, Error>)
        requires
            self@.connected,
        ensures
            writes(
                outcome,
                device.device_mac(),
                self@.preferred_qos,
                update_record(device.device_mac(), attribute@, value@, time as int),
            ),
    {
        let mac = device.as_device_mac();
        let body = update_document(mac, attribute, value, time);
        match write_json(&body) {
            Ok(payload) => Ok(
                Publish { topic: update_topic(mac), qos: self.preferred_qos, retain: false, payload },
            ),
            Err(detail) => Err(Error::Serialization(detail)),
        }
    }

    /// The message that sets an attribute on a device, stamped with the
    /// time of the call by the system clock.
    pub fn set_device_attribute<D: AsDeviceMac>(&self, device: D, attribute: &str, value: &str) -> (outcome:
        Result<Publish, Error>)
        requires
            self@.connected,
        ensures
            exists|time: i64|
                writes(
                    outcome,
                    device.device_mac(),
                    self@.preferred_qos,
                    #[trigger] update_record(device.device_mac(), attribute@, value@, time as int),
                ),
    {
        let time = clock_millis();
        self.set_device_attribute_at(device, attribute, value, time)
    }

    /// The message that sets attributes on a device, all in one message
    /// stamped with `time`.
    pub fn set_device_attributes_at<D: AsDeviceMac>(
        &self,
        device: D,
        attributes: &Vec<(String, String)>,
        time: i64,
    ) -> (outcome: Result<Publish, Error>)
        requires
            self@.connected,
        ensures
            writes(
                outcome,
                device.device_mac(),
                self@.preferred_qos,
                bulk_update(device.device_mac(), pairs_view(attributes@), time as int),
            ),
    {
        let mac = device.as_device_mac();
        let body = bulk_update_document(mac, attributes, time);
        match write_json(&body) {
            Ok(payload) => Ok(
                Publish { topic: update_topic(mac), qos: self.preferred_qos, retain: false, payload },
            ),
            Err(detail) => Err(Error::Serialization(detail)),
        }
    }

    /// The message that sets attributes on a device, all in one message
    /// stamped with the time of the call by the system clock.
    pub fn set_device_attributes<D: AsDeviceMac>(
        &self,
        device: D,
        attributes: &Vec<(String, String)>,
    ) -> (outcome: Result<Publish, Error>)
        requires
            self@.connected,
        ensures
            exists|time: i64|
                writes(
                    outcome,
                    device.device_mac(),
                    self@.preferred_qos,
                    #[trigger] bulk_update(
                        device.device_mac(),
                        pairs_view(attributes@),
                        time as int,
                    ),
                ),
    {
        let time = clock_millis();
        self.set_device_attributes_at(device, attributes, time)
    }

    /// Closes the client: the steps for the program to take, in order. The
    /// transport is asked to disconnect behind all that was published, and
    /// the listener, where one runs, is waited for.
    pub fn close(self) -> (steps: Vec<Shutdown>)
        ensures
            steps@ == self@.shutdown(),
    {
        proof {
            use_type_invariant(&self);
        }
        let mut steps: Vec<Shutdown> = Vec::new();
        if self.connected {
            steps.push(Shutdown::Disconnect);
            if self.listening {
                steps.push(Shutdown::AwaitListener);
            }
        }
        assert(steps@ =~= self@.shutdown());
        steps
    }
}

} // verus!
