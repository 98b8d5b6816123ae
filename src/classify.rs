use vstd::prelude::*;
use crate::device::Device;
use crate::timestamp::{days_until, days_until_spec, Instant};

verus! {

/// How many days ahead an expiry counts as coming soon.
pub const LOOKAHEAD_DAYS: i64 = 15;

/// The key is still valid, or lapses today, and lapses within the lookahead.
pub open spec fn is_expiring(d: Device, now: Instant) -> bool {
    0 <= days_until_spec(d.expires, now) < LOOKAHEAD_DAYS
}

/// The key lapsed a whole day or more before `now`.
pub open spec fn is_expired(d: Device, now: Instant) -> bool {
    days_until_spec(d.expires, now) < 0
}

/// The devices that expire soon, in the order given.
pub open spec fn expiring_of(devices: Seq<Device>, now: Instant) -> Seq<Device> {
    devices.filter(|d: Device| is_expiring(d, now))
}

/// The devices that have expired, in the order given.
pub open spec fn expired_of(devices: Seq<Device>, now: Instant) -> Seq<Device> {
    devices.filter(|d: Device| is_expired(d, now))
}

/// The two buckets of a fleet at one moment. Devices that expire later than
/// the lookahead are in neither.
#[derive(Debug)]
pub struct Classification {
    pub expiring: Vec<Device>,
    pub expired: Vec<Device>,
}

/// `c` holds exactly the buckets of `devices` at `now`.
pub open spec fn classifies(c: Classification, devices: Seq<Device>, now: Instant) -> bool {
    c.expiring@ == expiring_of(devices, now) && c.expired@ == expired_of(devices, now)
}

/// Sorts the devices into those expiring soon and those already expired,
/// keeping the input order within each bucket.
pub fn classify(devices: &Vec<Device>, now: Instant) -> (r: Classification)
    ensures
        r.expiring@ == expiring_of(devices@, now),
        r.expired@ == expired_of(devices@, now),
{
    let mut expiring: Vec<Device> = Vec::new();
    let mut expired: Vec<Device> = Vec::new();
    let mut i: usize = 0;
    while i < devices.len()
        invariant
            i <= devices@.len(),
            expiring@ == expiring_of(devices@.subrange(0, i as int), now),
            expired@ == expired_of(devices@.subrange(0, i as int), now),
        decreases devices@.len() - i,
    {
        let d = &devices[i];
        let days = days_until(d.expires, now);
        let ghost before = devices@.subrange(0, i as int);
        let ghost after = devices@.subrange(0, i + 1);
        assert(after.drop_last() =~= before);
        assert(after.last() == devices@[i as int]);
        reveal_with_fuel(Seq::filter, 1);
        if days < LOOKAHEAD_DAYS {
            if days >= 0 {
                expiring.push(d.clone());
            } else {
                expired.push(d.clone());
            }
        }
        i = i + 1;
    }
    assert(devices@.subrange(0, devices@.len() as int) =~= devices@);
    Classification { expiring, expired }
}

/// A device whose key lapses the lookahead or more days ahead is in neither
/// bucket.
pub proof fn lemma_distant_devices_unreported(devices: Seq<Device>, now: Instant, d: Device)
    requires
        devices.contains(d),
        days_until_spec(d.expires, now) >= LOOKAHEAD_DAYS,
    ensures
        !expiring_of(devices, now).contains(d),
        !expired_of(devices, now).contains(d),
{
    broadcast use vstd::seq_lib::group_filter_ensures;
}

/// A device whose key lapses today or within the lookahead is in the
/// expiring bucket and not in the expired one.
pub proof fn lemma_soon_devices_expiring(devices: Seq<Device>, now: Instant, d: Device)
    requires
        devices.contains(d),
        0 <= days_until_spec(d.expires, now) < LOOKAHEAD_DAYS,
    ensures
        expiring_of(devices, now).contains(d),
        !expired_of(devices, now).contains(d),
{
    broadcast use vstd::seq_lib::group_filter_ensures;
}

/// A device whose key lapsed a whole day or more ago is in the expired
/// bucket and not in the expiring one.
pub proof fn lemma_past_devices_expired(devices: Seq<Device>, now: Instant, d: Device)
    requires
        devices.contains(d),
        days_until_spec(d.expires, now) < 0,
    ensures
        expired_of(devices, now).contains(d),
        !expiring_of(devices, now).contains(d),
{
    broadcast use vstd::seq_lib::group_filter_ensures;
}

/// The buckets keep the input order: classifying one list after another
/// gives the first list's buckets followed by the second's.
pub proof fn lemma_buckets_keep_order(first: Seq<Device>, second: Seq<Device>, now: Instant)
    ensures
        expiring_of(first + second, now) == expiring_of(first, now) + expiring_of(second, now),
        expired_of(first + second, now) == expired_of(first, now) + expired_of(second, now),
{
    Seq::filter_distributes_over_add(first, second, |x: Device| is_expiring(x, now));
    Seq::filter_distributes_over_add(first, second, |x: Device| is_expired(x, now));
}

/// Classifying the same devices at the same moment twice gives the same
/// buckets.
pub proof fn lemma_classification_repeatable(
    devices: Seq<Device>,
    now: Instant,
    first: Classification,
    second: Classification,
)
    requires
        classifies(first, devices, now),
        classifies(second, devices, now),
    ensures
        first.expiring@ == second.expiring@,
        first.expired@ == second.expired@,
{
}

} // verus!
