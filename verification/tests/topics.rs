use bambu_print_rs::topics::{report_topic, request_topic};

#[test]
fn test_request_topic_format() {
    let serial = "ABC123";
    let topic = request_topic(serial);
    assert_eq!(topic, "device/ABC123/request");
}

#[test]
fn test_report_topic_format() {
    let serial = "TEST123";
    let topic = report_topic(serial);
    assert_eq!(topic, "device/TEST123/report");
}

#[test]
fn test_topics_of_default_serial_differ() {
    assert_eq!(report_topic("00M00A000000001"), "device/00M00A000000001/report");
    assert_ne!(report_topic("X"), request_topic("X"));
}
