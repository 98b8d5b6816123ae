use vstd::prelude::*;
use crate::classify::{classify, expired_of, expiring_of, Classification};
use crate::device::Device;
use crate::message::{message_spec, select_message};
use crate::timestamp::Instant;

verus! {

/// What one run decides: the moment it judged by, the buckets at that
/// moment, and the message to send.
#[derive(Debug)]
pub struct Notice {
    pub now: Instant,
    pub classification: Classification,
    pub message: String,
}

/// Classifies the devices at `now` and words the message for them.
pub fn notice_at(devices: &Vec<Device>, now: Instant) -> (r: Notice)
    ensures
        r.now == now,
        r.classification.expiring@ == expiring_of(devices@, now),
        r.classification.expired@ == expired_of(devices@, now),
        r.message@ == message_spec(
            r.classification.expiring@,
            r.classification.expired@,
            now,
        ),
{
    let classification = classify(devices, now);
    let message = select_message(&classification, now);
    Notice { now, classification, message }
}

} // verus!
