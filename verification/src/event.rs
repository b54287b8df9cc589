//! From what the connection delivers to attribute-change events.

use crate::client::Client;
use crate::device::pairs_view;
use crate::error::Error;
use crate::json::{parsed_json, read_json, Json, JsonModel};
use crate::topic::{parse_status_topic, status_topic_id};
use crate::wire::{changes_of, decode_changes};
use vstd::prelude::*;

verus! {

/// How the broker answered a connection request.
#[derive(Clone, Copy, Debug, PartialEq, Eq, Structural)]
pub enum ConnectReturnCode {
    Success,
    RefusedProtocolVersion,
    BadClientId,
    ServiceUnavailable,
    BadUserNamePassword,
    NotAuthorized,
}

/// What one poll of the connection brought.
#[derive(Clone, Debug, PartialEq, Eq)]
pub enum Incoming {
    /// The broker answered the connection request.
    ConnAck(ConnectReturnCode),
    /// The broker delivered a message.
    Publish { topic: String, payload: Vec<u8> },
    /// The broker closed the connection.
    Disconnect,
    /// Any other protocol traffic, inbound or outbound.
    Other,
    /// The transport reported an error.
    Failed,
}

/// What an [`Incoming`] stands for.
pub enum IncomingModel {
    ConnAck(ConnectReturnCode),
    Publish { topic: Seq<char>, payload: Seq<u8> },
    Disconnect,
    Other,
    Failed,
}

impl View for Incoming {
    type V = IncomingModel;

    open spec fn view(&self) -> IncomingModel {
        match self {
            Incoming::ConnAck(code) => IncomingModel::ConnAck(*code),
            Incoming::Publish { topic, payload } => IncomingModel::Publish {
                topic: topic@,
                payload: payload@,
            },
            Incoming::Disconnect => IncomingModel::Disconnect,
            Incoming::Other => IncomingModel::Other,
            Incoming::Failed => IncomingModel::Failed,
        }
    }
}

/// A decoded notification from the cloud.
#[derive(Clone, Debug, PartialEq, Eq)]
pub enum Event {
    /// Attributes of one device changed; the changes are in the order in
    /// which the message lists them.
    DeviceAttributesChanged { device: String, attributes: Vec<(String, String)> },
}

/// What an [`Event`] stands for.
pub enum EventModel {
    DeviceAttributesChanged { device: Seq<char>, attributes: Seq<(Seq<char>, Seq<char>)> },
}

impl View for Event {
    type V = EventModel;

    open spec fn view(&self) -> EventModel {
        match self {
            Event::DeviceAttributesChanged { device, attributes } => {
                EventModel::DeviceAttributesChanged {
                    device: device@,
                    attributes: pairs_view(attributes@),
                }
            },
        }
    }
}

/// What a poll amounts to.
pub enum Decoded {
    /// Nothing for the caller: the poll goes on.
    Absorbed,
    /// A status message with a payload that reads as attribute changes.
    Event(EventModel),
    /// A status message whose payload is no JSON.
    NotJson,
    /// A status message whose payload is JSON of another shape.
    Malformed,
    /// The end of the stream.
    Disconnected,
}

/// What a status message for the device `mac` amounts to, given the
/// document its payload reads as.
pub open spec fn status_of(mac: Seq<char>, doc: JsonModel) -> Decoded {
    match changes_of(doc) {
        Some(attributes) => Decoded::Event(
            EventModel::DeviceAttributesChanged { device: mac, attributes },
        ),
        None => Decoded::Malformed,
    }
}

/// What an incoming item amounts to on a live stream. Only messages on a
/// status topic are decoded; a disconnect frame and a transport error end
/// the stream; everything else is absorbed.
pub open spec fn decoded(incoming: IncomingModel) -> Decoded {
    match incoming {
        IncomingModel::Publish { topic, payload } => match status_topic_id(topic) {
            Some(mac) => match parsed_json(payload) {
                Some(doc) => status_of(mac, doc),
                None => Decoded::NotJson,
            },
            None => Decoded::Absorbed,
        },
        IncomingModel::Disconnect => Decoded::Disconnected,
        IncomingModel::Failed => Decoded::Disconnected,
        _ => Decoded::Absorbed,
    }
}

/// Whether what a poll returned says what the poll amounts to. `None` is
/// returned for what was absorbed.
pub open spec fn tells(polled: Option<Result<Event, Error>>, meaning: Decoded) -> bool {
    match meaning {
        Decoded::Absorbed => polled is None,
        Decoded::Event(event) => polled matches Some(Ok(e)) && e@ == event,
        Decoded::NotJson => polled matches Some(Err(Error::Serialization(_))),
        Decoded::Malformed => polled matches Some(Err(Error::Malformed)),
        Decoded::Disconnected => polled matches Some(Err(Error::Disconnected)),
    }
}

/// Decodes the document of a status payload for the device `mac`.
pub fn decode_status(mac: String, doc: &Json) -> (outcome: Result<Event, Error>)
    ensures
        tells(Some(outcome), status_of(mac@, doc@)),
{
    match decode_changes(doc) {
        Some(attributes) => Ok(Event::DeviceAttributesChanged { device: mac, attributes }),
        None => Err(Error::Malformed),
    }
}

/// The decoder of the inbound stream of one connection.
///
/// The stream has to be polled for the session to stay alive, whether or
/// not the events are of interest: see [`EventHandler::spawn_listener`].
#[must_use]
#[derive(Debug)]
pub struct EventHandler {
    ended: bool,
}

impl EventHandler {
    /// Whether the stream has ended.
    pub closed spec fn ended(&self) -> bool {
        self.ended
    }

    /// Whether the stream has ended.
    pub fn is_ended(&self) -> (ended: bool)
        ensures
            ended == self.ended(),
    {
        self.ended
    }

    /// The decoder of a stream that has just been opened.
    pub(crate) fn open() -> (handler: EventHandler)
        ensures
            !handler.ended(),
    {
        EventHandler { ended: false }
    }

    /// Takes what one poll of the connection brought. `None` asks for the
    /// next poll; `Some` is what the caller's poll returns.
    ///
    /// Once the stream has ended it stays ended: every further call returns
    /// [`Error::Disconnected`], whatever it is given.
    pub fn poll(&mut self, incoming: &Incoming) -> (polled: Option<Result<Event, Error>>)
        ensures
            tells(
                polled,
                if old(self).ended() {
                    Decoded::Disconnected
                } else {
                    decoded(incoming@)
                },
            ),
            final(self).ended() == (old(self).ended() || decoded(incoming@) is Disconnected),
    {
        if self.ended {
            return Some(Err(Error::Disconnected));
        }
        match incoming {
            Incoming::Publish { topic, payload } => {
                let mac = match parse_status_topic(topic.as_str()) {
                    Some(mac) => mac,
                    None => {
                        return None;
                    },
                };
                match read_json(payload.as_slice()) {
                    Ok(doc) => Some(decode_status(mac, &doc)),
                    Err(detail) => Some(Err(Error::Serialization(detail))),
                }
            },
            Incoming::Disconnect => {
                self.ended = true;
                Some(Err(Error::Disconnected))
            },
            Incoming::Failed => {
                self.ended = true;
                Some(Err(Error::Disconnected))
            },
            _ => None,
        }
    }

    /// Gives the stream to a listener that keeps the session alive and
    /// drops what it reads. Use this when the events are not needed.
    ///
    /// The client notes that a listener runs, so that closing waits for it.
    /// A client without a connection gets no listener.
    pub fn spawn_listener(self, client: &mut Client) -> (listener: Option<Listener>)
        ensures
            listener is Some <==> old(client)@.connected,
            final(client)@ == old(client)@.listened(),
    {
        if client.note_listener() {
            Some(Listener {  })
        } else {
            None
        }
    }
}

/// The standing reader of a stream whose events nobody wants.
#[derive(Debug)]
pub struct Listener {}

impl Listener {
    /// Takes what one poll of the connection brought, and says whether to
    /// poll again: until the transport reports an error.
    pub fn absorb(&mut self, incoming: &Incoming) -> (again: bool)
        ensures
            again == !(incoming@ is Failed),
    {
        match incoming {
            Incoming::Failed => false,
            _ => true,
        }
    }
}

} // verus!
