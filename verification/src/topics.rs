//! MQTT topics of a printer, which its serial number names.

use vstd::prelude::*;

verus! {

/// The topic on which the printer publishes its reports: `device/{serial}/report`.
pub open spec fn report_topic_of(serial: Seq<char>) -> Seq<char> {
    "device/"@ + serial + "/report"@
}

/// The topic on which the printer takes requests: `device/{serial}/request`.
pub open spec fn request_topic_of(serial: Seq<char>) -> Seq<char> {
    "device/"@ + serial + "/request"@
}

/// The report topic of the printer with the given serial number.
pub fn report_topic(serial: &str) -> (topic: String)
    ensures
        topic@ == report_topic_of(serial@),
{
    let mut topic = String::from_str("device/");
    topic.append(serial);
    topic.append("/report");
    topic
}

/// The request topic of the printer with the given serial number.
pub fn request_topic(serial: &str) -> (topic: String)
    ensures
        topic@ == request_topic_of(serial@),
{
    let mut topic = String::from_str("device/");
    topic.append(serial);
    topic.append("/request");
    topic
}

} // verus!
