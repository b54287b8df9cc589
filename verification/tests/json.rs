use sengled::address::Broker;
use sengled::json::Json;
use sengled::text::{join, same_text};
use sengled::wire::{
    bulk_update_document, decode_changes, decode_device, decode_device_list, decode_records,
    deserialize_attribute_list, empty_document, login_document, update_document,
};
use sengled::Error;

fn pair(a: &str, b: &str) -> (String, String) {
    (String::from(a), String::from(b))
}

fn parsed(text: &str) -> Json {
    Json::parse(text.as_bytes()).unwrap()
}

#[test]
fn text_is_read_into_a_tree() {
    let doc = parsed("{\"b\":[1,\"two\",null,true,{\"c\":2.5}],\"a\":\"x\"}");
    assert_eq!(doc.text_member("a"), Some("x"));
    assert_eq!(doc.text_member("b"), None);
    assert_eq!(doc.text_member("z"), None);
    let items = doc.get("b").unwrap().as_array().unwrap();
    assert_eq!(items.len(), 5);
    assert!(matches!(&items[0], Json::Number(n) if n.as_i64() == Some(1)));
    assert_eq!(items[1].as_str(), Some("two"));
    assert!(matches!(items[2], Json::Null));
    assert!(matches!(items[3], Json::Bool(true)));
    assert!(matches!(items[4].get("c"), Some(Json::Number(_))));
    assert!(doc.as_array().is_none());
    assert!(doc.as_str().is_none());
    assert!(items[1].get("a").is_none());
}

#[test]
fn text_that_is_no_json_is_refused() {
    for text in ["", "{", "[1,]", "{\"a\":1} x", "nul", "{'a':1}"] {
        assert!(matches!(Json::parse(text.as_bytes()), Err(Error::Serialization(_))), "{}", text);
    }
}

#[test]
fn tree_is_written_as_compact_text() {
    let doc = Json::Object(vec![
        (String::from("z"), Json::Integer(i64::MIN)),
        (String::from("a"), Json::Array(vec![Json::Null, Json::Bool(false), Json::text("q\"\\")])),
        (String::from("m"), Json::Object(vec![])),
    ]);
    assert_eq!(
        doc.to_text().unwrap(),
        "{\"a\":[null,false,\"q\\\"\\\\\"],\"m\":{},\"z\":-9223372036854775808}"
    );
    assert_eq!(parsed("[1.50, 2e3 ,\"\\u00e9\"]").to_text().unwrap(), "[1.5,2000.0,\"é\"]");
}

#[test]
fn later_member_counts() {
    let doc = Json::Object(vec![
        (String::from("a"), Json::text("first")),
        (String::from("b"), Json::text("other")),
        (String::from("a"), Json::text("second")),
    ]);
    assert_eq!(doc.text_member("a"), Some("second"));
    assert_eq!(doc.to_text().unwrap(), "{\"a\":\"second\",\"b\":\"other\"}");
    assert_eq!(parsed("{\"a\":\"first\",\"a\":\"second\"}").text_member("a"), Some("second"));
}

#[test]
fn records_are_read_in_order() {
    let doc = parsed("[{\"k\":\"a\",\"v\":\"1\"},{\"v\":\"2\",\"k\":\"b\",\"w\":[]}]");
    assert_eq!(decode_records(&doc, "k", "v"), Some(vec![pair("a", "1"), pair("b", "2")]));
    assert_eq!(decode_records(&doc, "v", "k"), Some(vec![pair("1", "a"), pair("2", "b")]));
    assert_eq!(decode_records(&doc, "k", "w"), None);
    assert_eq!(decode_records(&parsed("{}"), "k", "v"), None);
    assert_eq!(decode_records(&parsed("[]"), "k", "v"), Some(vec![]));
    assert_eq!(
        decode_changes(&parsed("[{\"type\":\"switch\",\"value\":\"1\"}]")),
        Some(vec![pair("switch", "1")])
    );
    assert_eq!(decode_changes(&parsed("[{\"name\":\"switch\",\"value\":\"1\"}]")), None);
}

#[test]
fn attribute_list_keeps_the_later_value() {
    let doc = parsed(
        "[{\"name\":\"switch\",\"value\":\"0\"},{\"name\":\"rssi\",\"value\":\"-40\"},{\"name\":\"switch\",\"value\":\"1\"}]",
    );
    let attributes = deserialize_attribute_list(&doc).unwrap();
    assert_eq!(attributes.get("switch"), Some("1"));
    assert_eq!(attributes.get("rssi"), Some("-40"));
    assert_eq!(attributes.pairs().len(), 2);
    assert!(deserialize_attribute_list(&parsed("{\"switch\":\"1\"}")).is_none());
    assert!(deserialize_attribute_list(&parsed("[{\"name\":\"switch\",\"value\":1}]")).is_none());
    assert_eq!(deserialize_attribute_list(&parsed("[]")).unwrap().pairs().len(), 0);
}

#[test]
fn device_record_is_read() {
    let doc = parsed(
        "{\"typeCode\":\"T\",\"deviceUuid\":\"AA:BB\",\"category\":\"C\",\"attributeList\":[{\"name\":\"n\",\"value\":\"v\"}]}",
    );
    let device = decode_device(&doc).unwrap();
    assert_eq!(device.category, "C");
    assert_eq!(device.mac, "AA:BB");
    assert_eq!(device.type_code, "T");
    assert_eq!(device.get_attribute("n"), Some("v"));
    assert!(decode_device(&parsed("{\"typeCode\":\"T\",\"deviceUuid\":\"AA\",\"category\":\"C\"}")).is_none());
    assert!(decode_device(&parsed("{\"typeCode\":\"T\",\"deviceUuid\":\"AA\",\"category\":\"C\",\"attributeList\":{}}")).is_none());
    assert!(decode_device(&parsed("{\"typeCode\":\"T\",\"deviceUuid\":1,\"category\":\"C\",\"attributeList\":[]}")).is_none());
    assert!(decode_device_list(&parsed("{\"deviceList\":[{}]}")).is_none());
    assert_eq!(decode_device_list(&parsed("{\"deviceList\":[]}")).unwrap().len(), 0);
}

#[test]
fn outbound_documents_have_their_members() {
    assert_eq!(empty_document().to_text().unwrap(), "{}");
    let login = login_document("u", "p");
    assert_eq!(login.text_member("uuid"), Some("xxxxxx"));
    assert_eq!(login.text_member("user"), Some("u"));
    assert_eq!(login.text_member("pwd"), Some("p"));
    assert_eq!(login.text_member("osType"), Some("android"));
    assert_eq!(login.text_member("productCode"), Some("life"));
    assert_eq!(login.text_member("appCode"), Some("life"));
    let update = update_document("AA", "switch", "1", 7);
    assert_eq!(update.text_member("dn"), Some("AA"));
    assert_eq!(update.text_member("type"), Some("switch"));
    assert_eq!(update.text_member("value"), Some("1"));
    assert!(matches!(update.get("time"), Some(Json::Integer(7))));
    let bulk = bulk_update_document("AA", &vec![pair("a", "1"), pair("b", "2")], 7);
    let items = bulk.as_array().unwrap();
    assert_eq!(items.len(), 2);
    assert_eq!(items[1].text_member("type"), Some("b"));
    assert!(matches!(items[1].get("time"), Some(Json::Integer(7))));
}

#[test]
fn broker_address_is_taken_apart() {
    let broker = Broker::locate("wss://us-mqtt.cloud.sengled.com:443/mqtt").unwrap();
    assert_eq!(broker.address, "wss://us-mqtt.cloud.sengled.com/mqtt");
    assert_eq!(broker.port, 443);
    let broker = Broker::locate("ws://10.0.0.7:1883/a/b?x=1#f").unwrap();
    assert_eq!(broker.address, "wss://10.0.0.7/a/b");
    assert_eq!(broker.port, 1883);
    assert!(matches!(Broker::locate("wss://host:99999/"), Err(Error::Parse(_))));
    assert!(matches!(Broker::locate(""), Err(Error::Parse(_))));
    assert!(matches!(Broker::locate("data:text/plain,x"), Err(Error::ConnectionFailure)));
}

#[test]
fn texts_are_compared_and_joined() {
    assert!(same_text("", ""));
    assert!(same_text("switch", "switch"));
    assert!(!same_text("switch", "switcH"));
    assert!(!same_text("switch", "switch "));
    assert!(same_text("é😀", "é😀"));
    assert!(!same_text("é", "e"));
    assert_eq!(join("JSESSIONID=", "abc"), "JSESSIONID=abc");
    assert_eq!(join("", ""), "");
}
