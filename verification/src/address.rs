//! Where the broker is: the address that discovery returns, taken apart by
//! the `url` crate, and what the connection is opened with.

use crate::error::Error;
use crate::text::join;
use vstd::prelude::*;

verus! {

/// `url::ParseError`: why a text is no absolute URL, carried through
/// unopened.
#[verifier::external_type_specification]
#[verifier::external_body]
pub struct ExUrlParseError(url::ParseError);

/// The parts of an absolute URL that the client reads.
#[derive(Clone, Debug, PartialEq, Eq)]
pub struct UrlParts {
    /// The host, as written in the normalised URL; `None` where the URL has
    /// none.
    pub host: Option<String>,
    /// The path, starting with `/` where the URL has a host.
    pub path: String,
    /// The port, unless it is absent or the default of the scheme.
    pub port: Option<u16>,
}

/// What a [`UrlParts`] stands for.
pub struct UrlPartsModel {
    pub host: Option<Seq<char>>,
    pub path: Seq<char>,
    pub port: Option<u16>,
}

impl View for UrlParts {
    type V = UrlPartsModel;

    open spec fn view(&self) -> UrlPartsModel {
        UrlPartsModel {
            host: match self.host {
                Some(h) => Some(h@),
                None => None,
            },
            path: self.path@,
            port: self.port,
        }
    }
}

/// The parts of the URL that the `url` crate reads from a text, or `None`
/// where it reports an error.
pub uninterp spec fn parsed_url(text: Seq<char>) -> Option<UrlPartsModel>;

/// `url::Url::parse`, then `host_str`, `path` and `port` of the URL it
/// returns. The contract claims only that the outcome is a function of the
/// text: it is what [`parsed_url`] names.
#[verifier::external_body]
pub(crate) fn read_url(text: &str) -> (outcome: Result<UrlParts, url::ParseError>)
    ensures
        match outcome {
            Ok(parts) => parsed_url(text@) == Some(parts@),
            Err(_) => parsed_url(text@) is None,
        },
{
    let url = url::Url::parse(text)?;
    Ok(UrlParts { host: url.host_str().map(String::from), path: String::from(url.path()), port: url.port() })
}

/// The text that `url::ParseError` displays. Nothing is claimed of it.
#[verifier::external_body]
pub(crate) fn url_error_text(error: &url::ParseError) -> String {
    format!("{}", error)
}

/// The port the broker is reached on where its address names none.
pub const DEFAULT_PORT: u16 = 443;

/// Where the MQTT connection goes.
#[derive(Clone, Debug, PartialEq, Eq)]
pub struct Broker {
    /// `wss://`, the host and the path.
    pub address: String,
    pub port: u16,
}

/// What a [`Broker`] stands for.
pub struct BrokerModel {
    pub address: Seq<char>,
    pub port: u16,
}

impl View for Broker {
    type V = BrokerModel;

    open spec fn view(&self) -> BrokerModel {
        BrokerModel { address: self.address@, port: self.port }
    }
}

/// The broker that a URL points to: none where the URL has no host.
pub open spec fn broker_of(parts: UrlPartsModel) -> Option<BrokerModel> {
    match parts.host {
        Some(host) => Some(
            BrokerModel {
                address: "wss://"@ + host + parts.path,
                port: match parts.port {
                    Some(port) => port,
                    None => DEFAULT_PORT,
                },
            },
        ),
        None => None,
    }
}

/// The broker that the text of an address points to.
pub open spec fn located(address: Seq<char>) -> Option<BrokerModel> {
    match parsed_url(address) {
        Some(parts) => broker_of(parts),
        None => None,
    }
}

impl Broker {
    /// The broker that the parts of a URL point to. The scheme is always
    /// `wss`; the port is [`DEFAULT_PORT`] unless the URL names another.
    pub fn from_parts(parts: &UrlParts) -> (broker: Option<Broker>)
        ensures
            match broker {
                Some(b) => broker_of(parts@) == Some(b@),
                None => broker_of(parts@) is None,
            },
    {
        match &parts.host {
            Some(host) => {
                let mut address = join("wss://", host.as_str());
                address.append(parts.path.as_str());
                let port = match parts.port {
                    Some(port) => port,
                    None => DEFAULT_PORT,
                };
                assert(address@ =~= "wss://"@ + host@ + parts.path@);
                Some(Broker { address, port })
            },
            None => None,
        }
    }

    /// Reads a broker address. A text that is no absolute URL gives
    /// [`Error::Parse`]; a URL without a host gives
    /// [`Error::ConnectionFailure`], as nothing could be connected to.
    pub fn locate(address: &str) -> (outcome: Result<Broker, Error>)
        ensures
            match outcome {
                Ok(b) => located(address@) == Some(b@),
                Err(Error::Parse(_)) => parsed_url(address@) is None,
                Err(Error::ConnectionFailure) => parsed_url(address@) is Some && located(address@) is None,
                Err(_) => false,
            },
    {
        match read_url(address) {
            Ok(parts) => match Broker::from_parts(&parts) {
                Some(broker) => Ok(broker),
                None => Err(Error::ConnectionFailure),
            },
            Err(error) => Err(Error::Parse(error)),
        }
    }
}

} // verus!
