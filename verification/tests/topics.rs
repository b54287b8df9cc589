use sengled::topic::{parse_status_topic, status_topic, update_topic};

#[test]
fn status_topic_names_the_device() {
    assert_eq!(status_topic("AA:BB:CC"), "wifielement/AA:BB:CC/status");
}

#[test]
fn update_topic_names_the_device() {
    assert_eq!(update_topic("AA:BB:CC"), "wifielement/AA:BB:CC/update");
}

#[test]
fn status_topic_is_read_back() {
    assert_eq!(
        parse_status_topic("wifielement/AA:BB:CC/status"),
        Some(String::from("AA:BB:CC"))
    );
    assert_eq!(
        parse_status_topic(&status_topic("00:11:22:33:44:55")),
        Some(String::from("00:11:22:33:44:55"))
    );
}

#[test]
fn other_topics_are_not_status_topics() {
    assert_eq!(parse_status_topic("wifielement/AA:BB:CC/update"), None);
    assert_eq!(parse_status_topic("wifielement//status"), None);
    assert_eq!(parse_status_topic("wifielement/aa:bb/status"), None);
    assert_eq!(parse_status_topic("wifielement/AA:BG/status"), None);
    assert_eq!(parse_status_topic("xwifielement/AA/status"), None);
    assert_eq!(parse_status_topic("wifielement/AA/status "), None);
    assert_eq!(parse_status_topic("wifielement/AA/status\n"), None);
    assert_eq!(parse_status_topic("wifielement/A\u{e9}/status"), None);
    assert_eq!(parse_status_topic(""), None);
    assert_eq!(parse_status_topic("wifielement/A/status"), Some(String::from("A")));
}
