use sengled::address::Broker;
use sengled::client::{
    post, CLOSE_WAIT_SECS, DEFAULT_SERVER_URL, DEVICE_LIST_ROUTE, KEEP_ALIVE_SECS, LOGIN_ROUTE,
    SERVER_INFO_ROUTE,
};
use sengled::json::Json;
use sengled::{
    Client, ConnectReturnCode, Device, Error, Incoming, MqttOptions, Phase, QoS, Shutdown,
    SubscribeFilter,
};

fn pair(a: &str, b: &str) -> (String, String) {
    (String::from(a), String::from(b))
}

fn connected(session: &str) -> Client {
    let mut client = Client::new("user", "secret");
    client.set_session(String::from(session));
    let handler = client.start(&Incoming::ConnAck(ConnectReturnCode::Success));
    assert!(handler.is_ok());
    client
}

#[test]
fn new_client_holds_no_session() {
    let client = Client::new("user", "secret");
    assert_eq!(client.session(), None);
    assert!(!client.is_connected());
    assert_eq!(client.phase(), Phase::Unauthenticated);
}

#[test]
fn login_request_posts_the_credentials() {
    let client = Client::new("jo@example.com", "p\"w");
    let request = client.login().unwrap();
    assert_eq!(request.url, LOGIN_ROUTE);
    assert_eq!(
        request.url,
        "https://ucenter.cloud.sengled.com/user/app/customer/v2/AuthenCross.json"
    );
    assert_eq!(
        request.headers,
        vec![
            pair("Content-Type", "application/json"),
            pair("Host", "element.cloud.sengled.com:443"),
            pair("Connection", "keep-alive"),
        ]
    );
    assert_eq!(
        request.body,
        "{\"appCode\":\"life\",\"osType\":\"android\",\"productCode\":\"life\",\"pwd\":\"p\\\"w\",\"user\":\"jo@example.com\",\"uuid\":\"xxxxxx\"}"
    );
}

#[test]
fn login_response_gives_the_session() {
    let mut client = Client::new("user", "secret");
    let outcome = client.finish_login(b"{\"jsessionId\":\"TOKEN-1\",\"more\":3}");
    assert!(outcome.is_ok());
    assert_eq!(client.session(), Some("TOKEN-1"));
    assert_eq!(client.phase(), Phase::Authenticated);
}

#[test]
fn second_login_is_refused_and_asks_for_nothing() {
    let mut client = Client::new("user", "secret");
    assert!(client.login().is_ok());
    client.finish_login(b"{\"jsessionId\":\"TOKEN-1\"}").unwrap();
    let again = client.login();
    assert!(matches!(again, Err(Error::LoggedIn)));
    assert_eq!(again.unwrap_err().message(), "already logged in");
    let late = client.finish_login(b"{\"jsessionId\":\"TOKEN-2\"}");
    assert!(matches!(late, Err(Error::LoggedIn)));
    assert_eq!(client.session(), Some("TOKEN-1"));
}

#[test]
fn login_is_refused_after_set_session() {
    let mut client = Client::new("user", "secret");
    client.set_session(String::from("kept"));
    assert!(matches!(client.login(), Err(Error::LoggedIn)));
    assert_eq!(client.session(), Some("kept"));
}

#[test]
fn login_response_that_is_no_json_is_a_serialization_error() {
    let mut client = Client::new("user", "secret");
    let outcome = client.finish_login(b"<html>");
    assert!(matches!(outcome, Err(Error::Serialization(_))));
    assert!(outcome.unwrap_err().message().starts_with("serialization error: "));
    assert_eq!(client.session(), None);
}

#[test]
fn login_response_without_session_is_malformed() {
    let mut client = Client::new("user", "secret");
    assert!(matches!(client.finish_login(b"{\"jsessionId\":7}"), Err(Error::Malformed)));
    assert!(matches!(client.finish_login(b"{}"), Err(Error::Malformed)));
    assert!(matches!(client.finish_login(b"[\"TOKEN\"]"), Err(Error::Malformed)));
    assert_eq!(client.session(), None);
}

#[test]
fn accept_session_reads_the_document() {
    let mut client = Client::new("user", "secret");
    let doc = Json::Object(vec![(String::from("jsessionId"), Json::String(String::from("T")))]);
    assert!(client.accept_session(&doc).is_ok());
    assert_eq!(client.session(), Some("T"));
}

#[test]
fn builders_set_their_field() {
    let client = Client::new("user", "secret")
        .with_preferred_qos(QoS::AtLeastOnce)
        .with_skip_server_check();
    let mut client = client;
    client.set_session(String::from("S"));
    assert_eq!(client.discovery().unwrap(), None);
    client.start(&Incoming::ConnAck(ConnectReturnCode::Success)).unwrap();
    assert_eq!(client.subscribe_device("AA").qos, QoS::AtLeastOnce);
}

#[test]
fn discovery_request_carries_the_session() {
    let mut client = Client::new("user", "secret");
    client.set_session(String::from("TOKEN"));
    let request = client.discovery().unwrap().unwrap();
    assert_eq!(request.url, SERVER_INFO_ROUTE);
    assert_eq!(request.url, "https://life2.cloud.sengled.com/life2/server/getServerInfo.json");
    assert_eq!(
        request.headers,
        vec![
            pair("Content-Type", "application/json"),
            pair("Host", "element.cloud.sengled.com:443"),
            pair("Connection", "keep-alive"),
            pair("Cookie", "JSESSIONID=TOKEN"),
        ]
    );
    assert_eq!(request.body, "{}");
}

#[test]
fn skipped_discovery_connects_to_the_default_broker() {
    let mut client = Client::new("user", "secret").with_skip_server_check();
    client.set_session(String::from("TOKEN"));
    assert_eq!(DEFAULT_SERVER_URL, "wss://us-mqtt.cloud.sengled.com:443/mqtt");
    let options = client.create_client_state(b"not read").unwrap();
    assert_eq!(options.client_id, "TOKEN@lifeApp");
    assert_eq!(options.broker_addr, "wss://us-mqtt.cloud.sengled.com/mqtt");
    assert_eq!(options.port, 443);
    assert_eq!(options.keep_alive_secs, 30);
    assert_eq!(KEEP_ALIVE_SECS, 30);
    assert_eq!(
        options.headers,
        vec![pair("Cookie", "JSESSIONID=TOKEN"), pair("X-Requested-With", "com.sengled.life2")]
    );
}

#[test]
fn discovered_address_gives_host_path_and_port() {
    let mut client = Client::new("user", "secret");
    client.set_session(String::from("S1"));
    let options = client
        .create_client_state(b"{\"inceptionAddr\":\"wss://eu-mqtt.example.com:8883/mqtt/v2\"}")
        .unwrap();
    assert_eq!(options.client_id, "S1@lifeApp");
    assert_eq!(options.broker_addr, "wss://eu-mqtt.example.com/mqtt/v2");
    assert_eq!(options.port, 8883);
    let options = client
        .create_client_state(b"{\"inceptionAddr\":\"https://Broker.Example.com\"}")
        .unwrap();
    assert_eq!(options.broker_addr, "wss://broker.example.com/");
    assert_eq!(options.port, 443);
}

#[test]
fn discovery_failures_are_told_apart() {
    let mut client = Client::new("user", "secret");
    client.set_session(String::from("S1"));
    assert!(matches!(client.create_client_state(b"{"), Err(Error::Serialization(_))));
    assert!(matches!(client.create_client_state(b"{\"addr\":\"x\"}"), Err(Error::Malformed)));
    let relative = client.create_client_state(b"{\"inceptionAddr\":\"/mqtt\"}");
    assert!(matches!(relative, Err(Error::Parse(_))));
    assert_eq!(relative.unwrap_err().message(), "parse error: relative URL without a base");
    let hostless = client.create_client_state(b"{\"inceptionAddr\":\"mailto:a@example.com\"}");
    assert!(matches!(hostless, Err(Error::ConnectionFailure)));
    assert_eq!(hostless.unwrap_err().message(), "failed to connect to the MQTT server");
}

#[test]
fn only_a_successful_acknowledgment_starts_the_client() {
    let refusals = vec![
        Incoming::ConnAck(ConnectReturnCode::NotAuthorized),
        Incoming::ConnAck(ConnectReturnCode::BadUserNamePassword),
        Incoming::ConnAck(ConnectReturnCode::ServiceUnavailable),
        Incoming::ConnAck(ConnectReturnCode::BadClientId),
        Incoming::ConnAck(ConnectReturnCode::RefusedProtocolVersion),
        Incoming::Publish { topic: String::from("wifielement/AA/status"), payload: vec![] },
        Incoming::Disconnect,
        Incoming::Other,
        Incoming::Failed,
    ];
    for refusal in refusals.iter() {
        let mut client = Client::new("user", "secret");
        client.set_session(String::from("S"));
        assert!(matches!(client.start(refusal), Err(Error::ConnectionFailure)));
        assert!(!client.is_connected());
        assert_eq!(client.phase(), Phase::Authenticated);
    }
    let mut client = Client::new("user", "secret");
    client.set_session(String::from("S"));
    let handler = client.start(&Incoming::ConnAck(ConnectReturnCode::Success)).unwrap();
    assert!(!handler.is_ended());
    assert!(client.is_connected());
    assert_eq!(client.phase(), Phase::Connected);
}

#[test]
fn connected_client_opens_no_second_connection() {
    let mut client = Client::new("user", "secret");
    client.set_session(String::from("S"));
    let handler = client.start(&Incoming::ConnAck(ConnectReturnCode::Success)).unwrap();
    assert!(handler.spawn_listener(&mut client).is_some());

    assert!(matches!(client.discovery(), Err(Error::LoggedIn)));
    assert!(matches!(
        client.create_client_state(b"{\"inceptionAddr\":\"wss://eu.example.com/mqtt\"}"),
        Err(Error::LoggedIn)
    ));
    let again = client.start(&Incoming::ConnAck(ConnectReturnCode::Success));
    assert!(matches!(again, Err(Error::LoggedIn)));
    assert_eq!(again.unwrap_err().message(), "already logged in");
    assert!(matches!(client.start(&Incoming::Failed), Err(Error::LoggedIn)));

    assert!(client.is_connected());
    assert_eq!(client.session(), Some("S"));
    assert_eq!(client.close(), vec![Shutdown::Disconnect, Shutdown::AwaitListener]);
}

#[test]
fn skipping_client_with_connection_is_refused_too() {
    let mut client = Client::new("user", "secret").with_skip_server_check();
    client.set_session(String::from("S"));
    assert!(client.create_client_state(b"").is_ok());
    client.start(&Incoming::ConnAck(ConnectReturnCode::Success)).unwrap();
    assert!(matches!(client.discovery(), Err(Error::LoggedIn)));
    assert!(matches!(client.create_client_state(b""), Err(Error::LoggedIn)));
}

#[test]
fn options_are_built_from_session_and_broker() {
    let broker = Broker { address: String::from("wss://host/p"), port: 8443 };
    let options = MqttOptions::new("S9", &broker);
    assert_eq!(options.client_id, "S9@lifeApp");
    assert_eq!(options.broker_addr, "wss://host/p");
    assert_eq!(options.port, 8443);
    assert_eq!(options.keep_alive_secs, 30);
    assert_eq!(
        options.headers,
        vec![pair("Cookie", "JSESSIONID=S9"), pair("X-Requested-With", "com.sengled.life2")]
    );
}

#[test]
fn closing_waits_for_the_listener_for_a_bounded_time() {
    assert_eq!(CLOSE_WAIT_SECS, 30);
}

#[test]
fn device_list_request_carries_the_session() {
    let client = connected("TOKEN");
    let request = client.wifi_devices().unwrap();
    assert_eq!(request.url, DEVICE_LIST_ROUTE);
    assert_eq!(request.url, "https://life2.cloud.sengled.com/life2/device/list.json");
    assert_eq!(request.headers[3], pair("Cookie", "JSESSIONID=TOKEN"));
    assert_eq!(request.headers.len(), 4);
    assert_eq!(request.body, "{}");
}

const DEVICE_LIST: &[u8] = b"{\"deviceList\":[
    {\"category\":\"wifielement\",\"deviceUuid\":\"AA:BB:CC\",\"typeCode\":\"W21-N13\",
     \"attributeList\":[{\"name\":\"switch\",\"value\":\"0\"},{\"name\":\"brightness\",\"value\":\"80\"},
                        {\"name\":\"switch\",\"value\":\"1\"}],\"extra\":null},
    {\"category\":\"wifielement\",\"deviceUuid\":\"DD:EE:FF\",\"typeCode\":\"W21-N11\",\"attributeList\":[]}
]}";

#[test]
fn device_list_is_read() {
    let devices: Vec<Device> = Client::read_wifi_devices(DEVICE_LIST).unwrap();
    assert_eq!(devices.len(), 2);
    assert_eq!(devices[0].category, "wifielement");
    assert_eq!(devices[0].mac, "AA:BB:CC");
    assert_eq!(devices[0].type_code, "W21-N13");
    assert_eq!(devices[0].get_attribute("switch"), Some("1"));
    assert_eq!(devices[0].get_attribute("brightness"), Some("80"));
    assert_eq!(devices[0].get_attribute("colorTemperature"), None);
    assert_eq!(devices[0].attributes.pairs().len(), 2);
    assert_eq!(devices[1].mac, "DD:EE:FF");
    assert_eq!(devices[1].attributes.pairs().len(), 0);
}

#[test]
fn device_list_of_another_shape_is_refused() {
    assert!(matches!(Client::read_wifi_devices(b"nope"), Err(Error::Serialization(_))));
    assert!(matches!(Client::read_wifi_devices(b"{}"), Err(Error::Malformed)));
    assert!(matches!(Client::read_wifi_devices(b"{\"deviceList\":{}}"), Err(Error::Malformed)));
    assert!(matches!(
        Client::read_wifi_devices(b"{\"deviceList\":[{\"category\":\"c\",\"deviceUuid\":\"AA\",\"typeCode\":\"t\"}]}"),
        Err(Error::Malformed)
    ));
    assert!(matches!(
        Client::read_wifi_devices(
            b"{\"deviceList\":[{\"category\":\"c\",\"deviceUuid\":\"AA\",\"typeCode\":\"t\",\"attributeList\":[{\"name\":\"a\"}]}]}"
        ),
        Err(Error::Malformed)
    ));
    assert_eq!(Client::read_wifi_devices(b"{\"deviceList\":[]}").unwrap().len(), 0);
}

#[test]
fn devices_are_read_and_subscribed_in_one_call() {
    let client = connected("TOKEN");
    let (devices, filters) = client.get_wifi_devices_and_subscribe(DEVICE_LIST).unwrap();
    assert_eq!(devices.len(), 2);
    assert_eq!(
        filters,
        vec![
            SubscribeFilter { path: String::from("wifielement/AA:BB:CC/status"), qos: QoS::AtMostOnce },
            SubscribeFilter { path: String::from("wifielement/DD:EE:FF/status"), qos: QoS::AtMostOnce },
        ]
    );
    assert!(matches!(client.get_wifi_devices_and_subscribe(b"{}"), Err(Error::Malformed)));
}

#[test]
fn bulk_subscription_equals_single_subscriptions() {
    let client = connected("TOKEN").with_preferred_qos(QoS::ExactlyOnce);
    let macs = vec![String::from("AA:01"), String::from("AA:02"), String::from("AA:03")];
    let bulk = client.subscribe_devices(macs.as_slice());
    let mut singles = Vec::new();
    for mac in macs.iter() {
        singles.push(client.subscribe_device(mac));
    }
    assert_eq!(bulk, singles);
    assert_eq!(bulk[1].path, "wifielement/AA:02/status");
    assert_eq!(bulk[1].qos, QoS::ExactlyOnce);
    let none: Vec<String> = Vec::new();
    assert_eq!(client.subscribe_devices(none.as_slice()).len(), 0);
}

#[test]
fn every_kind_of_name_subscribes_to_the_same_topic() {
    let client = connected("TOKEN");
    let devices = Client::read_wifi_devices(DEVICE_LIST).unwrap();
    let by_record = client.subscribe_device(&devices[0]);
    let by_text = client.subscribe_device("AA:BB:CC");
    let by_string = client.subscribe_device(String::from("AA:BB:CC"));
    let by_clone = client.subscribe_device(devices[0].clone());
    let mut owned = devices[0].clone();
    let by_exclusive = client.subscribe_device(&mut owned);
    let by_string_ref = client.subscribe_device(&String::from("AA:BB:CC"));
    assert_eq!(by_record, by_exclusive);
    assert_eq!(by_record, by_string_ref);
    assert_eq!(by_record, by_text);
    assert_eq!(by_record, by_string);
    assert_eq!(by_record, by_clone);
}

#[test]
fn attribute_write_is_one_record() {
    let client = connected("TOKEN").with_preferred_qos(QoS::AtLeastOnce);
    let publish = client.set_device_attribute_at("AA:BB:CC", "switch", "1", 1700000000123).unwrap();
    assert_eq!(publish.topic, "wifielement/AA:BB:CC/update");
    assert_eq!(publish.qos, QoS::AtLeastOnce);
    assert!(!publish.retain);
    assert_eq!(
        publish.payload,
        "{\"dn\":\"AA:BB:CC\",\"time\":1700000000123,\"type\":\"switch\",\"value\":\"1\"}"
    );
    let negative = client.set_device_attribute_at("AA", "a", "b", -5).unwrap();
    assert_eq!(negative.payload, "{\"dn\":\"AA\",\"time\":-5,\"type\":\"a\",\"value\":\"b\"}");
}

#[test]
fn bulk_write_is_one_array() {
    let client = connected("TOKEN");
    let attributes = vec![pair("switch", "1"), pair("brightness", "40")];
    let publish = client.set_device_attributes_at("AA:BB:CC", &attributes, 99).unwrap();
    assert_eq!(publish.topic, "wifielement/AA:BB:CC/update");
    assert_eq!(publish.qos, QoS::AtMostOnce);
    assert!(!publish.retain);
    assert_eq!(
        publish.payload,
        "[{\"dn\":\"AA:BB:CC\",\"time\":99,\"type\":\"switch\",\"value\":\"1\"},{\"dn\":\"AA:BB:CC\",\"time\":99,\"type\":\"brightness\",\"value\":\"40\"}]"
    );
    let empty = client.set_device_attributes_at("AA:BB:CC", &Vec::new(), 99).unwrap();
    assert_eq!(empty.payload, "[]");
}

fn time_of(payload: &str) -> i64 {
    match Json::parse(payload.as_bytes()).unwrap().get("time") {
        Some(Json::Number(n)) => n.as_i64().unwrap(),
        _ => panic!("no time in {}", payload),
    }
}

#[test]
fn writes_are_stamped_by_the_clock() {
    let client = connected("TOKEN");
    let first = client.set_device_attribute("AA", "switch", "1").unwrap();
    let second = client.set_device_attribute("AA", "switch", "0").unwrap();
    assert!(time_of(&first.payload) > 1_600_000_000_000);
    assert!(time_of(&first.payload) <= time_of(&second.payload));
    let bulk = client.set_device_attributes("AA", &vec![pair("a", "1"), pair("b", "2")]).unwrap();
    let records = Json::parse(bulk.payload.as_bytes()).unwrap();
    let items = records.as_array().unwrap();
    assert_eq!(items.len(), 2);
    assert_eq!(items[0].text_member("type"), Some("a"));
    assert_eq!(items[1].text_member("value"), Some("2"));
}

#[test]
fn times_on_the_wire_follow_the_readings() {
    let client = connected("TOKEN");
    let readings: Vec<i64> = vec![-3, 0, 0, 7, 1_700_000_000_000];
    let mut last = i64::MIN;
    for reading in readings {
        let publish = client.set_device_attribute_at("AA", "switch", "1", reading).unwrap();
        assert_eq!(time_of(&publish.payload), reading);
        assert!(last <= time_of(&publish.payload));
        last = reading;
    }
}

#[test]
fn closing_disconnects_and_waits_for_the_listener() {
    assert_eq!(Client::new("user", "secret").close(), Vec::<Shutdown>::new());
    let mut idle = Client::new("user", "secret");
    idle.set_session(String::from("S"));
    assert_eq!(idle.close(), Vec::<Shutdown>::new());
    assert_eq!(connected("S").close(), vec![Shutdown::Disconnect]);
    let mut client = Client::new("user", "secret");
    client.set_session(String::from("S"));
    let handler = client.start(&Incoming::ConnAck(ConnectReturnCode::Success)).unwrap();
    assert!(handler.spawn_listener(&mut client).is_some());
    assert_eq!(client.close(), vec![Shutdown::Disconnect, Shutdown::AwaitListener]);
}

#[test]
fn post_writes_the_document() {
    let doc = Json::Array(vec![Json::Null, Json::Bool(true), Json::Integer(-1), Json::text("a\nb")]);
    let request = post("https://example.com/x", Some("S"), &doc).unwrap();
    assert_eq!(request.url, "https://example.com/x");
    assert_eq!(request.body, "[null,true,-1,\"a\\nb\"]");
    assert_eq!(request.headers[3], pair("Cookie", "JSESSIONID=S"));
}
