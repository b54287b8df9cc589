//! The documents of the protocol: what the cloud sends and what it is sent.

use crate::device::{merged, pairs_view, Attributes, Device, DeviceModel};
use crate::json::{items_view, members_view, Json, JsonModel};
use vstd::prelude::*;

verus! {

/// The pair that a record holds under two member names: the record is an
/// object in which both members are strings. Other members are passed over.
pub open spec fn record_of(item: JsonModel, first: Seq<char>, second: Seq<char>) -> Option<
    (Seq<char>, Seq<char>),
> {
    match (item.text_member(first), item.text_member(second)) {
        (Some(a), Some(b)) => Some((a, b)),
        _ => None,
    }
}

/// The pairs that an array of records holds, in order. A document that is no
/// array, or has an item that is no such record, holds none.
pub open spec fn records_of(doc: JsonModel, first: Seq<char>, second: Seq<char>) -> Option<
    Seq<(Seq<char>, Seq<char>)>,
> {
    match doc.items() {
        Some(items) => if forall|i: int|
            0 <= i < items.len() ==> (#[trigger] record_of(items[i], first, second)) is Some {
            Some(Seq::new(items.len(), |i: int| record_of(items[i], first, second)->0))
        } else {
            None
        },
        None => None,
    }
}

/// Reads an array of records.
pub fn decode_records(doc: &Json, first: &str, second: &str) -> (pairs: Option<
    Vec<(String, String)>,
>)
    ensures
        match pairs {
            Some(p) => records_of(doc@, first@, second@) == Some(pairs_view(p@)),
            None => records_of(doc@, first@, second@) is None,
        },
{
    let items = match doc.as_array() {
        Some(items) => items,
        None => {
            return None;
        },
    };
    let ghost models = doc@.items()->0;
    assert(models == items_view(items@));
    let mut pairs: Vec<(String, String)> = Vec::new();
    let mut i: usize = 0;
    while i < items.len()
        invariant
            i <= items@.len(),
            doc@.items() == Some(models),
            models.len() == items@.len(),
            forall|j: int| 0 <= j < items@.len() ==> models[j] == (#[trigger] items@[j])@,
            pairs@.len() == i,
            forall|j: int|
                0 <= j < i ==> record_of(models[j], first@, second@) == Some(
                    #[trigger] pairs_view(pairs@)[j],
                ),
        decreases items@.len() - i,
    {
        let item = &items[i];
        let ghost before = pairs@;
        match (item.text_member(first), item.text_member(second)) {
            (Some(a), Some(b)) => {
                pairs.push((a.to_owned(), b.to_owned()));
            },
            _ => {
                assert(record_of(models[i as int], first@, second@) is None);
                return None;
            },
        }
        assert forall|j: int| 0 <= j < i + 1 implies record_of(models[j], first@, second@) == Some(
            #[trigger] pairs_view(pairs@)[j],
        ) by {
            if j < i {
                assert(pairs_view(pairs@)[j] == pairs_view(before)[j]);
            }
        }
        i = i + 1;
    }
    proof {
        assert forall|j: int| 0 <= j < models.len() implies (#[trigger] record_of(
            models[j],
            first@,
            second@,
        )) is Some by {
            assert(record_of(models[j], first@, second@) == Some(pairs_view(pairs@)[j]));
        }
        assert(Seq::new(models.len(), |j: int| record_of(models[j], first@, second@)->0)
            =~= pairs_view(pairs@));
    }
    Some(pairs)
}

/// The attribute changes that a status payload reports: an array of records
/// with the members `type` and `value`.
pub open spec fn changes_of(doc: JsonModel) -> Option<Seq<(Seq<char>, Seq<char>)>> {
    records_of(doc, "type"@, "value"@)
}

/// Reads the attribute changes of a status payload.
pub fn decode_changes(doc: &Json) -> (changes: Option<Vec<(String, String)>>)
    ensures
        match changes {
            Some(c) => changes_of(doc@) == Some(pairs_view(c@)),
            None => changes_of(doc@) is None,
        },
{
    decode_records(doc, "type", "value")
}

/// The attributes that an attribute list holds: an array of records with
/// the members `name` and `value`; where a name comes twice, the later
/// record counts.
pub open spec fn attribute_list_of(doc: JsonModel) -> Option<Map<Seq<char>, Seq<char>>> {
    match records_of(doc, "name"@, "value"@) {
        Some(pairs) => Some(merged(Map::empty(), pairs)),
        None => None,
    }
}

/// Reads an attribute list.
pub fn deserialize_attribute_list(doc: &Json) -> (attributes: Option<Attributes>)
    ensures
        match attributes {
            Some(a) => attribute_list_of(doc@) == Some(a@),
            None => attribute_list_of(doc@) is None,
        },
{
    match decode_records(doc, "name", "value") {
        Some(pairs) => {
            let mut attributes = Attributes::new();
            attributes.merge(&pairs);
            Some(attributes)
        },
        None => None,
    }
}

/// The device that a device record describes: an object with the string
/// members `category`, `deviceUuid` and `typeCode` and the attribute list
/// `attributeList`.
pub open spec fn device_of(doc: JsonModel) -> Option<DeviceModel> {
    match (
        doc.text_member("category"@),
        doc.text_member("deviceUuid"@),
        doc.text_member("typeCode"@),
        doc.member("attributeList"@),
    ) {
        (Some(category), Some(mac), Some(type_code), Some(list)) => match attribute_list_of(list) {
            Some(attributes) => Some(DeviceModel { category, mac, type_code, attributes }),
            None => None,
        },
        _ => None,
    }
}

/// Reads a device record.
pub fn decode_device(doc: &Json) -> (device: Option<Device>)
    ensures
        match device {
            Some(d) => device_of(doc@) == Some(d@),
            None => device_of(doc@) is None,
        },
{
    match (
        doc.text_member("category"),
        doc.text_member("deviceUuid"),
        doc.text_member("typeCode"),
        doc.get("attributeList"),
    ) {
        (Some(category), Some(mac), Some(type_code), Some(list)) => match deserialize_attribute_list(
            list,
        ) {
            Some(attributes) => Some(
                Device {
                    category: category.to_owned(),
                    mac: mac.to_owned(),
                    type_code: type_code.to_owned(),
                    attributes,
                },
            ),
            None => None,
        },
        _ => None,
    }
}

/// What each of the devices stands for, in order.
pub open spec fn devices_view(devices: Seq<Device>) -> Seq<DeviceModel> {
    Seq::new(devices.len(), |i: int| devices[i]@)
}

/// The devices that a device list names: an object whose member
/// `deviceList` is an array of device records.
pub open spec fn device_list_of(doc: JsonModel) -> Option<Seq<DeviceModel>> {
    match doc.member("deviceList"@) {
        Some(list) => match list.items() {
            Some(items) => if forall|i: int|
                0 <= i < items.len() ==> (#[trigger] device_of(items[i])) is Some {
                Some(Seq::new(items.len(), |i: int| device_of(items[i])->0))
            } else {
                None
            },
            None => None,
        },
        None => None,
    }
}

/// Reads a device list.
pub fn decode_device_list(doc: &Json) -> (devices: Option<Vec<Device>>)
    ensures
        match devices {
            Some(d) => device_list_of(doc@) == Some(devices_view(d@)),
            None => device_list_of(doc@) is None,
        },
{
    let list = match doc.get("deviceList") {
        Some(list) => list,
        None => {
            return None;
        },
    };
    let items = match list.as_array() {
        Some(items) => items,
        None => {
            return None;
        },
    };
    let ghost models = list@.items()->0;
    assert(models == items_view(items@));
    let mut devices: Vec<Device> = Vec::new();
    let mut i: usize = 0;
    while i < items.len()
        invariant
            i <= items@.len(),
            doc@.member("deviceList"@) == Some(list@),
            list@.items() == Some(models),
            models.len() == items@.len(),
            forall|j: int| 0 <= j < items@.len() ==> models[j] == (#[trigger] items@[j])@,
            devices@.len() == i,
            forall|j: int| 0 <= j < i ==> device_of(models[j]) == Some((#[trigger] devices@[j])@),
        decreases items@.len() - i,
    {
        match decode_device(&items[i]) {
            Some(device) => {
                devices.push(device);
            },
            None => {
                assert(device_of(models[i as int]) is None);
                return None;
            },
        }
        i = i + 1;
    }
    proof {
        assert forall|j: int| 0 <= j < models.len() implies (#[trigger] device_of(
            models[j],
        )) is Some by {
            assert(device_of(models[j]) == Some(devices@[j]@));
        }
        assert(Seq::new(models.len(), |j: int| device_of(models[j])->0) =~= devices_view(
            devices@,
        ));
    }
    Some(devices)
}

/// The session token that a login response carries: the string member
/// `jsessionId` of an object.
pub open spec fn session_of(doc: JsonModel) -> Option<Seq<char>> {
    doc.text_member("jsessionId"@)
}

/// The broker address that a discovery response carries: the string member
/// `inceptionAddr` of an object.
pub open spec fn inception_addr_of(doc: JsonModel) -> Option<Seq<char>> {
    doc.text_member("inceptionAddr"@)
}

/// The body of a login request.
pub open spec fn login_body(user: Seq<char>, password: Seq<char>) -> JsonModel {
    JsonModel::Object(
        seq![
            ("uuid"@, JsonModel::String("xxxxxx"@)),
            ("user"@, JsonModel::String(user)),
            ("pwd"@, JsonModel::String(password)),
            ("osType"@, JsonModel::String("android"@)),
            ("productCode"@, JsonModel::String("life"@)),
            ("appCode"@, JsonModel::String("life"@)),
        ],
    )
}

/// Builds the body of a login request.
pub fn login_document(user: &str, password: &str) -> (doc: Json)
    ensures
        doc@ == login_body(user@, password@),
{
    let mut members: Vec<(String, Json)> = Vec::new();
    members.push(Json::text_entry("uuid", "xxxxxx"));
    members.push(Json::text_entry("user", user));
    members.push(Json::text_entry("pwd", password));
    members.push(Json::text_entry("osType", "android"));
    members.push(Json::text_entry("productCode", "life"));
    members.push(Json::text_entry("appCode", "life"));
    assert(members_view(members@) =~= login_body(user@, password@)->Object_0);
    Json::object(members)
}

/// The body of a request that asks without saying anything: an object
/// without members.
pub open spec fn empty_body() -> JsonModel {
    JsonModel::Object(Seq::empty())
}

/// Builds the empty body.
pub fn empty_document() -> (doc: Json)
    ensures
        doc@ == empty_body(),
{
    let members: Vec<(String, Json)> = Vec::new();
    assert(members_view(members@) =~= Seq::empty());
    Json::object(members)
}

/// One attribute write, as it goes on the wire: the device, the attribute's
/// name, its new value and the time of the call in milliseconds.
pub open spec fn update_record(
    mac: Seq<char>,
    attribute: Seq<char>,
    value: Seq<char>,
    time: int,
) -> JsonModel {
    JsonModel::Object(
        seq![
            ("dn"@, JsonModel::String(mac)),
            ("type"@, JsonModel::String(attribute)),
            ("value"@, JsonModel::String(value)),
            ("time"@, JsonModel::Integer(time)),
        ],
    )
}

/// Builds one attribute write.
pub fn update_document(mac: &str, attribute: &str, value: &str, time: i64) -> (doc: Json)
    ensures
        doc@ == update_record(mac@, attribute@, value@, time as int),
{
    let mut members: Vec<(String, Json)> = Vec::new();
    members.push(Json::text_entry("dn", mac));
    members.push(Json::text_entry("type", attribute));
    members.push(Json::text_entry("value", value));
    members.push(("time".to_owned(), Json::Integer(time)));
    assert(members_view(members@) =~= update_record(
        mac@,
        attribute@,
        value@,
        time as int,
    )->Object_0);
    Json::object(members)
}

/// Several attribute writes for one device in one message: an array with
/// one record for each, in order, all with the time of the call.
pub open spec fn bulk_update(
    mac: Seq<char>,
    changes: Seq<(Seq<char>, Seq<char>)>,
    time: int,
) -> JsonModel {
    JsonModel::Array(
        Seq::new(changes.len(), |i: int| update_record(mac, changes[i].0, changes[i].1, time)),
    )
}

/// Builds the writes of several attributes of one device.
pub fn bulk_update_document(mac: &str, changes: &Vec<(String, String)>, time: i64) -> (doc: Json)
    ensures
        doc@ == bulk_update(mac@, pairs_view(changes@), time as int),
{
    let mut items: Vec<Json> = Vec::new();
    let mut i: usize = 0;
    while i < changes.len()
        invariant
            i <= changes@.len(),
            items@.len() == i,
            forall|j: int|
                0 <= j < i ==> (#[trigger] items@[j])@ == update_record(
                    mac@,
                    changes@[j].0@,
                    changes@[j].1@,
                    time as int,
                ),
        decreases changes@.len() - i,
    {
        items.push(update_document(mac, changes[i].0.as_str(), changes[i].1.as_str(), time));
        i = i + 1;
    }
    assert(items_view(items@) =~= bulk_update(
        mac@,
        pairs_view(changes@),
        time as int,
    )->Array_0);
    Json::array(items)
}

/// The time that an attribute write carries.
pub open spec fn record_time(record: JsonModel) -> Option<int> {
    match record.member("time"@) {
        Some(JsonModel::Integer(time)) => Some(time),
        _ => None,
    }
}

/// An attribute write carries the time it was built with.
pub proof fn lemma_record_time(mac: Seq<char>, attribute: Seq<char>, value: Seq<char>, time: int)
    ensures
        record_time(update_record(mac, attribute, value, time)) == Some(time),
{
}

/// The times that a message carries, record by record: one for a single
/// write, one for each record of a bulk write; `None` for a record that
/// carries no time.
pub open spec fn times_of(message: JsonModel) -> Seq<Option<int>> {
    match message {
        JsonModel::Array(records) => Seq::new(records.len(), |i: int| record_time(records[i])),
        _ => seq![record_time(message)],
    }
}

/// A message that a call builds: a single write or a bulk write.
pub enum Write {
    One { mac: Seq<char>, attribute: Seq<char>, value: Seq<char> },
    Many { mac: Seq<char>, changes: Seq<(Seq<char>, Seq<char>)> },
}

/// The document of a message that is built with the clock reading `time`.
pub open spec fn written(write: Write, time: int) -> JsonModel {
    match write {
        Write::One { mac, attribute, value } => update_record(mac, attribute, value, time),
        Write::Many { mac, changes } => bulk_update(mac, changes, time),
    }
}

/// Every record of a message carries the clock reading that the message was
/// built with. So the times on the wire are those of the clock: within one
/// message they are all the same, and where the reading of an earlier call
/// is not after the reading of a later call, no time of the earlier message
/// is after a time of the later one. Nothing orders the readings
/// themselves: a system clock that is set back between two calls gives the
/// later message the earlier time.
pub proof fn lemma_times_follow_the_clock(earlier: Write, read_earlier: int, later: Write, read_later: int)
    ensures
        forall|i: int|
            0 <= i < times_of(written(earlier, read_earlier)).len() ==> #[trigger] times_of(
                written(earlier, read_earlier),
            )[i] == Some(read_earlier),
        forall|j: int|
            0 <= j < times_of(written(later, read_later)).len() ==> #[trigger] times_of(
                written(later, read_later),
            )[j] == Some(read_later),
        read_earlier <= read_later ==> forall|i: int, j: int|
            0 <= i < times_of(written(earlier, read_earlier)).len() && 0 <= j < times_of(
                written(later, read_later),
            ).len() ==> (#[trigger] times_of(written(earlier, read_earlier))[i])->0 <= (
            #[trigger] times_of(written(later, read_later))[j])->0,
{
    lemma_times_of(earlier, read_earlier);
    lemma_times_of(later, read_later);
}

/// Every record of a message carries the clock reading that the message was
/// built with.
pub proof fn lemma_times_of(write: Write, time: int)
    ensures
        forall|i: int|
            0 <= i < times_of(written(write, time)).len() ==> #[trigger] times_of(
                written(write, time),
            )[i] == Some(time),
        write matches Write::One { .. } ==> times_of(written(write, time)).len() == 1,
        write matches Write::Many { changes, .. } ==> times_of(written(write, time)).len()
            == changes.len(),
{
    match write {
        Write::One { mac, attribute, value } => {
            lemma_record_time(mac, attribute, value, time);
        },
        Write::Many { mac, changes } => {
            lemma_bulk_times(mac, changes, time);
        },
    }
}

/// Every record of a bulk write carries the time the message was built
/// with.
pub proof fn lemma_bulk_times(mac: Seq<char>, changes: Seq<(Seq<char>, Seq<char>)>, time: int)
    ensures
        bulk_update(mac, changes, time).items() is Some,
        bulk_update(mac, changes, time).items()->0.len() == changes.len(),
        forall|i: int|
            0 <= i < changes.len() ==> record_time(
                #[trigger] bulk_update(mac, changes, time).items()->0[i],
            ) == Some(time),
{
    assert forall|i: int| 0 <= i < changes.len() implies record_time(
        #[trigger] bulk_update(mac, changes, time).items()->0[i],
    ) == Some(time) by {
        lemma_record_time(mac, changes[i].0, changes[i].1, time);
    }
}

} // verus!
