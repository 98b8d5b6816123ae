use vstd::prelude::*;
use crate::date_format::{deserialize, rfc3339_instant, TimestampError};
use crate::timestamp::Instant;

verus! {

/// One member of the fleet: its name and the moment its key stops being valid.
#[derive(Debug)]
pub struct Device {
    pub hostname: String,
    pub expires: Instant,
}

impl Clone for Device {
    fn clone(&self) -> (r: Device)
        ensures
            r == *self,
    {
        Device { hostname: self.hostname.clone(), expires: self.expires }
    }
}

/// A device as the inventory lists it, its expiry still as RFC 3339 text.
#[derive(Debug)]
pub struct DeviceRecord {
    pub hostname: String,
    pub expires: String,
}

/// The device that a record describes, where its expiry text parses.
pub open spec fn device_of(rec: DeviceRecord) -> Option<Device> {
    match rfc3339_instant(rec.expires@) {
        Some(t) => Some(Device { hostname: rec.hostname, expires: t }),
        None => None,
    }
}

impl Device {
    pub fn new(hostname: String, expires: Instant) -> (r: Device)
        ensures
            r.hostname == hostname,
            r.expires == expires,
    {
        Device { hostname, expires }
    }

    /// Reads a device from its inventory record; fails where the expiry text
    /// is not an RFC 3339 timestamp.
    pub fn from_record(rec: &DeviceRecord) -> (r: Result<Device, TimestampError>)
        ensures
            match device_of(*rec) {
                Some(d) => r == Ok::<Device, TimestampError>(d),
                None => r is Err,
            },
            r matches Ok(d) ==> d.expires.wf(),
    {
        match deserialize(rec.expires.as_str()) {
            Ok(t) => Ok(Device { hostname: rec.hostname.clone(), expires: t }),
            Err(e) => Err(e),
        }
    }
}

/// Every record of the list parses.
pub open spec fn all_parse(recs: Seq<DeviceRecord>) -> bool {
    forall|i: int| 0 <= i < recs.len() ==> (#[trigger] device_of(recs[i])) is Some
}

/// Reads the whole inventory, in its order. A single record whose expiry
/// does not parse fails the whole list.
pub fn devices_from_records(recs: &Vec<DeviceRecord>) -> (r: Result<Vec<Device>, TimestampError>)
    ensures
        r is Ok <==> all_parse(recs@),
        r matches Ok(v) ==> v@.len() == recs@.len() && forall|i: int|
            0 <= i < recs@.len() ==> device_of(#[trigger] recs@[i]) == Some(v@[i])
                && v@[i].expires.wf(),
{
    let mut out: Vec<Device> = Vec::new();
    let mut i: usize = 0;
    while i < recs.len()
        invariant
            i <= recs@.len(),
            out@.len() == i,
            forall|j: int|
                0 <= j < i ==> device_of(#[trigger] recs@[j]) == Some(out@[j])
                    && out@[j].expires.wf(),
        decreases recs@.len() - i,
    {
        match Device::from_record(&recs[i]) {
            Ok(d) => {
                out.push(d);
            },
            Err(e) => {
                assert(device_of(recs@[i as int]) is None);
                return Err(e);
            },
        }
        i = i + 1;
    }
    assert(all_parse(recs@)) by {
        assert forall|j: int| 0 <= j < recs@.len() implies (#[trigger] device_of(recs@[j])) is Some by {
            assert(device_of(recs@[j]) == Some(out@[j]));
        }
    }
    Ok(out)
}

} // verus!
