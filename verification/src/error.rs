//! What can go wrong.

use crate::address::url_error_text;
use crate::text::join;
use vstd::prelude::*;

verus! {

/// The failures of the client.
///
/// `Reqwest` and `MqttClient` are raised by the program that performs the
/// network round trips; they carry what the transport said. The others are
/// raised by this library.
#[derive(Debug)]
pub enum Error {
    /// An HTTP round trip failed.
    Reqwest(String),
    /// A text is not JSON, or a document could not be written as text; with
    /// what `serde_json` said of it.
    Serialization(String),
    /// A broker address is no absolute URL.
    Parse(url::ParseError),
    /// The MQTT client refused a request.
    MqttClient(String),
    /// Authentication was asked of a client that holds a session, or a
    /// connection of a client that has one.
    LoggedIn,
    /// The broker closed the connection, or the transport failed.
    Disconnected,
    /// The connection was not acknowledged, or there is nothing to connect
    /// to.
    ConnectionFailure,
    /// A JSON document does not have the shape the protocol gives it.
    Malformed,
}

impl Error {
    /// How every message for this kind of failure begins.
    pub open spec fn message_start(self) -> Seq<char> {
        match self {
            Error::Reqwest(_) => "request error: "@,
            Error::Serialization(_) => "serialization error: "@,
            Error::Parse(_) => "parse error: "@,
            Error::MqttClient(_) => "mqtt client error: "@,
            Error::LoggedIn => "already logged in"@,
            Error::Disconnected => "disconnected"@,
            Error::ConnectionFailure => "failed to connect to the MQTT server"@,
            Error::Malformed => "malformed document"@,
        }
    }

    /// What follows the start of the message, where this library knows it:
    /// the words carried, or nothing. What `url` says of its error is its
    /// own.
    pub open spec fn message_rest(self) -> Option<Seq<char>> {
        match self {
            Error::Reqwest(detail) => Some(detail@),
            Error::MqttClient(detail) => Some(detail@),
            Error::Serialization(detail) => Some(detail@),
            Error::Parse(_) => None,
            _ => Some(Seq::empty()),
        }
    }

    /// The message for a person.
    pub fn message(&self) -> (text: String)
        ensures
            text@.len() >= self.message_start().len(),
            text@.subrange(0, self.message_start().len() as int) == self.message_start(),
            self.message_rest() matches Some(rest) ==> text@ == self.message_start() + rest,
    {
        let text = match self {
            Error::Reqwest(detail) => join("request error: ", detail.as_str()),
            Error::Serialization(detail) => join("serialization error: ", detail.as_str()),
            Error::Parse(error) => join("parse error: ", url_error_text(error).as_str()),
            Error::MqttClient(detail) => join("mqtt client error: ", detail.as_str()),
            Error::LoggedIn => join("already logged in", ""),
            Error::Disconnected => join("disconnected", ""),
            Error::ConnectionFailure => join("failed to connect to the MQTT server", ""),
            Error::Malformed => join("malformed document", ""),
        };
        proof {
            reveal_strlit("");
            assert(text@.subrange(0, self.message_start().len() as int) =~= self.message_start());
            if self.message_rest() is Some {
                assert(text@ =~= self.message_start() + self.message_rest()->0);
            }
        }
        text
    }
}

} // verus!
