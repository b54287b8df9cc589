//! What the surrounding service decides: who may ask, what a toggle
//! publishes, what a bulk write publishes, and how the cache follows the
//! stream.

use crate::cache::{followed, lemma_event_touches_one_device, DeviceCache};
use crate::client::{clock_millis, publish_of, text_view, writes, Client, Publish, QoS};
use crate::device::{pairs_view, DeviceModel};
use crate::error::Error;
use crate::event::{decoded, Decoded, EventHandler, Incoming, IncomingModel};
use crate::json::JsonModel;
use crate::text::same_text;
use crate::topic::status_topic_id;
use crate::wire::{bulk_update, lemma_times_of, times_of, update_record, Write};
use vstd::prelude::*;

verus! {

/// The settings of the service.
#[derive(Debug)]
pub struct Config {
    pub username: String,
    pub password: String,
    pub port: u16,
    pub require_auth: bool,
    pub auth_key: Option<String>,
}

/// What a [`Config`] stands for.
pub struct ConfigModel {
    pub username: Seq<char>,
    pub password: Seq<char>,
    pub port: u16,
    pub require_auth: bool,
    pub auth_key: Option<Seq<char>>,
}

impl View for Config {
    type V = ConfigModel;

    open spec fn view(&self) -> ConfigModel {
        ConfigModel {
            username: self.username@,
            password: self.password@,
            port: self.port,
            require_auth: self.require_auth,
            auth_key: match self.auth_key {
                Some(key) => Some(key@),
                None => None,
            },
        }
    }
}

/// The settings that are written out where none are found.
pub open spec fn default_config() -> ConfigModel {
    ConfigModel {
        username: Seq::empty(),
        password: Seq::empty(),
        port: 5005,
        require_auth: true,
        auth_key: Some("key"@),
    }
}

impl Default for Config {
    fn default() -> (config: Config)
        ensures
            config@ == default_config(),
    {
        proof {
            reveal_strlit("");
        }
        let config = Config {
            username: "".to_owned(),
            password: "".to_owned(),
            port: 5005,
            require_auth: true,
            auth_key: Some("key".to_owned()),
        };
        assert(config.username@ =~= Seq::empty());
        assert(config.password@ =~= Seq::empty());
        config
    }
}

/// What becomes of a request to the service.
#[derive(Clone, Copy, Debug, PartialEq, Eq, Structural)]
pub enum Authorization {
    /// The request goes on.
    Granted,
    /// The request carries no authorization.
    Unauthorized,
    /// The request carries another authorization than the one asked for.
    Forbidden,
}

/// The key that a request has to carry: the configured one, or the empty
/// text where none is configured.
pub open spec fn expected_key(config: ConfigModel) -> Seq<char> {
    match config.auth_key {
        Some(key) => key,
        None => Seq::empty(),
    }
}

/// What becomes of a request that carries the authorization `header`.
pub open spec fn authorization_of(config: ConfigModel, header: Option<Seq<char>>) -> Authorization {
    if !config.require_auth {
        Authorization::Granted
    } else {
        match header {
            None => Authorization::Unauthorized,
            Some(given) => if given == expected_key(config) {
                Authorization::Granted
            } else {
                Authorization::Forbidden
            },
        }
    }
}

/// Decides on a request by its authorization header. A header that is not
/// text counts as the empty text.
pub fn authorize(config: &Config, header: Option<&str>) -> (decision: Authorization)
    ensures
        decision == authorization_of(config@, text_view(header)),
{
    if !config.require_auth {
        return Authorization::Granted;
    }
    let given = match header {
        Some(given) => given,
        None => {
            return Authorization::Unauthorized;
        },
    };
    proof {
        reveal_strlit("");
    }
    let expected = match &config.auth_key {
        Some(key) => key.as_str(),
        None => "",
    };
    assert(expected@ =~= expected_key(config@));
    if same_text(given, expected) {
        Authorization::Granted
    } else {
        Authorization::Forbidden
    }
}

/// The value that a toggle writes to a switch: on where it is off, off
/// where it holds anything else.
pub open spec fn toggled(switch: Seq<char>) -> Seq<char> {
    if switch == "0"@ {
        "1"@
    } else {
        "0"@
    }
}

/// What a toggle comes to.
#[derive(Debug)]
pub enum Toggle {
    /// The cache holds no such device. Nothing is published.
    NotFound,
    /// The device has no switch. Nothing is published, and the request is
    /// rejected.
    Rejected,
    /// The message could not be built. Nothing is published.
    Failed(Error),
    /// The message to publish, and the value it writes to the switch.
    Switched { value: String, publish: Publish },
}

/// Whether a toggle of the device `id` comes to `outcome`, for a message
/// stamped with `time`.
pub open spec fn toggles(
    outcome: Toggle,
    qos: QoS,
    cache: Map<Seq<char>, DeviceModel>,
    id: Seq<char>,
    time: int,
) -> bool {
    if !cache.contains_key(id) {
        outcome is NotFound
    } else if !cache[id].attributes.contains_key("switch"@) {
        outcome is Rejected
    } else {
        let value = toggled(cache[id].attributes["switch"@]);
        let message = publish_of(
            cache[id].mac,
            qos,
            update_record(cache[id].mac, "switch"@, value, time),
        );
        match outcome {
            Toggle::Switched { value: written, publish } => written@ == value && message == Some(
                publish@,
            ),
            Toggle::Failed(Error::Serialization(_)) => message is None,
            _ => false,
        }
    }
}

/// Toggles the switch of a cached device, with a message stamped with
/// `time`. The cache is not written: it follows when the cloud reports the
/// change.
pub fn toggle_device_at(client: &Client, cache: &DeviceCache, id: &str, time: i64) -> (outcome:
    Toggle)
    requires
        client@.connected,
    ensures
        toggles(outcome, client@.preferred_qos, cache@, id@, time as int),
{
    let device = match cache.get(id) {
        Some(device) => device,
        None => {
            return Toggle::NotFound;
        },
    };
    let switch = match device.get_attribute("switch") {
        Some(switch) => switch,
        None => {
            return Toggle::Rejected;
        },
    };
    let value = if same_text(switch, "0") {
        "1"
    } else {
        "0"
    };
    match client.set_device_attribute_at(&device, "switch", value, time) {
        Ok(publish) => Toggle::Switched { value: value.to_owned(), publish },
        Err(error) => Toggle::Failed(error),
    }
}

/// Toggles the switch of a cached device, with a message stamped with the
/// time of the call by the system clock.
pub fn toggle_device(client: &Client, cache: &DeviceCache, id: &str) -> (outcome: Toggle)
    requires
        client@.connected,
    ensures
        exists|time: i64|
            #[trigger] toggles(outcome, client@.preferred_qos, cache@, id@, time as int),
{
    let device = match cache.get(id) {
        Some(device) => device,
        None => {
            assert(toggles(Toggle::NotFound, client@.preferred_qos, cache@, id@, 0i64 as int));
            return Toggle::NotFound;
        },
    };
    let switch = match device.get_attribute("switch") {
        Some(switch) => switch,
        None => {
            assert(toggles(Toggle::Rejected, client@.preferred_qos, cache@, id@, 0i64 as int));
            return Toggle::Rejected;
        },
    };
    let value = if same_text(switch, "0") {
        "1"
    } else {
        "0"
    };
    let ghost qos = client@.preferred_qos;
    match client.set_device_attribute(&device, "switch", value) {
        Ok(publish) => {
            let outcome = Toggle::Switched { value: value.to_owned(), publish };
            proof {
                let time = choose|time: i64|
                    writes(
                        Ok(publish),
                        device@.mac,
                        qos,
                        #[trigger] update_record(device@.mac, "switch"@, value@, time as int),
                    );
                assert(toggles(outcome, qos, cache@, id@, time as int));
            }
            outcome
        },
        Err(error) => {
            let outcome = Toggle::Failed(error);
            proof {
                let time = choose|time: i64|
                    writes(
                        Err(error),
                        device@.mac,
                        qos,
                        #[trigger] update_record(device@.mac, "switch"@, value@, time as int),
                    );
                assert(toggles(outcome, qos, cache@, id@, time as int));
            }
            outcome
        },
    }
}

/// A toggle turns a switch that is off on, and a switch that is on off.
pub proof fn lemma_toggle_flips()
    ensures
        toggled("0"@) == "1"@,
        toggled("1"@) == "0"@,
        toggled(toggled("0"@)) == "0"@,
{
    reveal_strlit("0");
    reveal_strlit("1");
    assert("1"@[0] != "0"@[0]);
}

/// Has the cache follow the stream by one poll, and says whether to poll
/// again. A message that cannot be decoded is passed over: the cache stays
/// as it is and the stream goes on. The end of the stream ends the
/// following.
pub fn follow(handler: &mut EventHandler, cache: &mut DeviceCache, incoming: &Incoming) -> (again:
    bool)
    ensures
        final(cache)@ == followed(old(cache)@, meaning_of(old(handler).ended(), incoming@)),
        again == !(meaning_of(old(handler).ended(), incoming@) is Disconnected),
        final(handler).ended() == !again,
{
    match handler.poll(incoming) {
        Some(Ok(event)) => {
            cache.apply(&event);
            true
        },
        Some(Err(Error::Disconnected)) => false,
        Some(Err(_)) => true,
        None => true,
    }
}

/// What a poll amounts to on a stream that has or has not ended.
pub open spec fn meaning_of(ended: bool, incoming: IncomingModel) -> Decoded {
    if ended {
        Decoded::Disconnected
    } else {
        decoded(incoming)
    }
}

/// A message that cannot be decoded leaves the whole cache as it is, and a
/// message on the status topic of one device, whatever it carries, leaves
/// every other device as it is.
pub proof fn lemma_message_touches_one_device(
    cache: Map<Seq<char>, DeviceModel>,
    topic: Seq<char>,
    payload: Seq<u8>,
    other: Seq<char>,
)
    ensures
        ({
            let meaning = decoded(IncomingModel::Publish { topic, payload });
            &&& meaning is NotJson || meaning is Malformed ==> followed(cache, meaning) == cache
            &&& followed(cache, meaning).dom() == cache.dom()
            &&& status_topic_id(topic) != Some(other) ==> followed(cache, meaning)[other]
                == cache[other]
        }),
{
    let meaning = decoded(IncomingModel::Publish { topic, payload });
    match meaning {
        Decoded::Event(event) => {
            lemma_event_touches_one_device(cache, event, other);
        },
        _ => {},
    }
}

/// One entry of a bulk write: the same attributes, in the order given, for
/// several devices.
#[derive(Clone, Debug, PartialEq, Eq)]
pub struct SetDeviceAttributes {
    pub devices: Vec<String>,
    pub attributes: Vec<(String, String)>,
}

/// What a [`SetDeviceAttributes`] stands for.
pub struct SetDeviceAttributesModel {
    pub devices: Seq<Seq<char>>,
    pub attributes: Seq<(Seq<char>, Seq<char>)>,
}

impl View for SetDeviceAttributes {
    type V = SetDeviceAttributesModel;

    open spec fn view(&self) -> SetDeviceAttributesModel {
        SetDeviceAttributesModel {
            devices: Seq::new(self.devices@.len(), |i: int| self.devices@[i]@),
            attributes: pairs_view(self.attributes@),
        }
    }
}

/// The messages of one entry: for each device, in order, one message with
/// all the attributes, as the device and the document it carries.
pub open spec fn entry_writes(entry: SetDeviceAttributesModel, time: int) -> Seq<
    (Seq<char>, JsonModel),
> {
    Seq::new(
        entry.devices.len(),
        |i: int| (entry.devices[i], bulk_update(entry.devices[i], entry.attributes, time)),
    )
}

/// The messages of a bulk write: those of its entries, entry after entry.
pub open spec fn bulk_writes(entries: Seq<SetDeviceAttributesModel>, time: int) -> Seq<
    (Seq<char>, JsonModel),
>
    decreases entries.len(),
{
    if entries.len() == 0 {
        Seq::empty()
    } else {
        bulk_writes(entries.drop_last(), time) + entry_writes(entries.last(), time)
    }
}

/// What each of the entries stands for, in order.
pub open spec fn entries_view(entries: Seq<SetDeviceAttributes>) -> Seq<SetDeviceAttributesModel> {
    Seq::new(entries.len(), |i: int| entries[i]@)
}

/// The messages of a bulk write as far as they could be built, and the
/// failure that stopped the building, if one did.
#[derive(Debug)]
pub struct BulkWrite {
    pub publishes: Vec<Publish>,
    pub failure: Option<Error>,
}

/// Whether `built` holds the first messages of `writes`, in order, and
/// stops only at the end or at a message that cannot be written as text,
/// which it then reports.
pub open spec fn builds(built: BulkWrite, qos: QoS, writes: Seq<(Seq<char>, JsonModel)>) -> bool {
    &&& built.publishes@.len() <= writes.len()
    &&& forall|k: int|
        0 <= k < built.publishes@.len() ==> publish_of(writes[k].0, qos, writes[k].1) == Some(
            (#[trigger] built.publishes@[k])@,
        )
    &&& if built.publishes@.len() == writes.len() {
        built.failure is None
    } else {
        &&& built.failure matches Some(Error::Serialization(_))
        &&& publish_of(
            writes[built.publishes@.len() as int].0,
            qos,
            writes[built.publishes@.len() as int].1,
        ) is None
    }
}

/// Builds the messages of a bulk write, all stamped with `time`: for each
/// entry and each of its devices one message, as far as they can be built.
pub fn set_device_attributes_at(client: &Client, entries: &Vec<SetDeviceAttributes>, time: i64) -> (built:
    BulkWrite)
    requires
        client@.connected,
    ensures
        builds(built, client@.preferred_qos, bulk_writes(entries_view(entries@), time as int)),
{
    let ghost all = entries_view(entries@);
    let ghost qos = client@.preferred_qos;
    let mut publishes: Vec<Publish> = Vec::new();
    let mut i: usize = 0;
    while i < entries.len()
        invariant
            client@.connected,
            qos == client@.preferred_qos,
            i <= entries@.len(),
            all == entries_view(entries@),
            publishes@.len() == bulk_writes(all.take(i as int), time as int).len(),
            forall|k: int|
                0 <= k < publishes@.len() ==> publish_of(
                    bulk_writes(all.take(i as int), time as int)[k].0,
                    qos,
                    bulk_writes(all.take(i as int), time as int)[k].1,
                ) == Some((#[trigger] publishes@[k])@),
        decreases entries@.len() - i,
    {
        let entry = &entries[i];
        let ghost done = bulk_writes(all.take(i as int), time as int);
        let ghost these = entry_writes(all[i as int], time as int);
        proof {
            assert(all.take(i + 1).drop_last() =~= all.take(i as int));
            assert(bulk_writes(all.take(i + 1), time as int) == done + these);
            lemma_bulk_writes_start(all, i + 1, time as int);
        }
        let mut j: usize = 0;
        while j < entry.devices.len()
            invariant
                client@.connected,
                qos == client@.preferred_qos,
                i < entries@.len(),
                all == entries_view(entries@),
                entry == entries@[i as int],
                done == bulk_writes(all.take(i as int), time as int),
                these == entry_writes(all[i as int], time as int),
                these.len() == entry.devices@.len(),
                j <= entry.devices@.len(),
                publishes@.len() == done.len() + j,
                (done + these).len() <= bulk_writes(all, time as int).len(),
                forall|k: int|
                    0 <= k < (done + these).len() ==> (done + these)[k] == bulk_writes(
                        all,
                        time as int,
                    )[k],
                forall|k: int|
                    0 <= k < publishes@.len() ==> publish_of(
                        (done + these)[k].0,
                        qos,
                        (done + these)[k].1,
                    ) == Some((#[trigger] publishes@[k])@),
            decreases entry.devices@.len() - j,
        {
            let ghost at = publishes@.len() as int;
            assert((done + these)[at] == these[j as int]);
            match client.set_device_attributes_at(&entry.devices[j], &entry.attributes, time) {
                Ok(publish) => {
                    publishes.push(publish);
                },
                Err(error) => {
                    return BulkWrite { publishes, failure: Some(error) };
                },
            }
            j = j + 1;
        }
        i = i + 1;
    }
    assert(all.take(i as int) =~= all);
    BulkWrite { publishes, failure: None }
}

/// The messages of the first entries of a bulk write are the first
/// messages of the whole.
proof fn lemma_bulk_writes_start(entries: Seq<SetDeviceAttributesModel>, n: int, time: int)
    requires
        0 <= n <= entries.len(),
    ensures
        bulk_writes(entries.take(n), time).len() <= bulk_writes(entries, time).len(),
        forall|k: int|
            0 <= k < bulk_writes(entries.take(n), time).len() ==> bulk_writes(
                entries.take(n),
                time,
            )[k] == bulk_writes(entries, time)[k],
    decreases entries.len() - n,
{
    if n == entries.len() {
        assert(entries.take(n) =~= entries);
    } else {
        lemma_bulk_writes_start(entries, n + 1, time);
        assert(entries.take(n + 1).drop_last() =~= entries.take(n));
    }
}

/// All messages of one bulk write carry, in every record, the one clock
/// reading that the bulk write was built with: within one bulk write the
/// times on the wire do not go back from message to message.
pub proof fn lemma_bulk_write_times(entries: Seq<SetDeviceAttributesModel>, time: int)
    ensures
        forall|k: int, i: int|
            0 <= k < bulk_writes(entries, time).len() && 0 <= i < times_of(
                bulk_writes(entries, time)[k].1,
            ).len() ==> (#[trigger] times_of(bulk_writes(entries, time)[k].1)[i]) == Some(time),
    decreases entries.len(),
{
    if entries.len() > 0 {
        let front = bulk_writes(entries.drop_last(), time);
        let these = entry_writes(entries.last(), time);
        lemma_bulk_write_times(entries.drop_last(), time);
        assert forall|k: int, i: int|
            0 <= k < bulk_writes(entries, time).len() && 0 <= i < times_of(
                bulk_writes(entries, time)[k].1,
            ).len() implies (#[trigger] times_of(bulk_writes(entries, time)[k].1)[i]) == Some(
            time,
        ) by {
            if k < front.len() {
                assert(bulk_writes(entries, time)[k] == front[k]);
            } else {
                let device = entries.last().devices[k - front.len()];
                assert(bulk_writes(entries, time)[k] == these[k - front.len()]);
                lemma_times_of(
                    Write::Many { mac: device, changes: entries.last().attributes },
                    time,
                );
            }
        }
    }
}

/// Builds the messages of a bulk write, all stamped with the time of the
/// call by the system clock.
pub fn set_device_attributes(client: &Client, entries: &Vec<SetDeviceAttributes>) -> (built:
    BulkWrite)
    requires
        client@.connected,
    ensures
        exists|time: i64|
            builds(
                built,
                client@.preferred_qos,
                #[trigger] bulk_writes(entries_view(entries@), time as int),
            ),
{
    let time = clock_millis();
    set_device_attributes_at(client, entries, time)
}

} // verus!
