use vstd::prelude::*;
use crate::classify::{Classification, LOOKAHEAD_DAYS};
use crate::device::Device;
use crate::timestamp::{days_until, days_until_spec, Instant};

verus! {

/// The character of one decimal digit.
pub open spec fn digit_char(d: int) -> char {
    seq!['0', '1', '2', '3', '4', '5', '6', '7', '8', '9'][d]
}

/// The decimal digits of `n`, most significant first, with no leading zero.
pub open spec fn digits(n: nat) -> Seq<char>
    decreases n,
{
    if n < 10 {
        seq![digit_char(n as int)]
    } else {
        digits(n / 10).push(digit_char((n % 10) as int))
    }
}

/// `n` written in decimal, with a leading `-` when negative.
pub open spec fn decimal(n: int) -> Seq<char> {
    if n < 0 {
        seq!['-'] + digits((-n) as nat)
    } else {
        digits(n as nat)
    }
}

/// The one-character text of a decimal digit.
fn digit_str(d: u128) -> (r: &'static str)
    requires
        d < 10,
    ensures
        r@ == seq![digit_char(d as int)],
{
    proof {
        reveal_strlit("0");
        reveal_strlit("1");
        reveal_strlit("2");
        reveal_strlit("3");
        reveal_strlit("4");
        reveal_strlit("5");
        reveal_strlit("6");
        reveal_strlit("7");
        reveal_strlit("8");
        reveal_strlit("9");
    }
    if d == 0 {
        "0"
    } else if d == 1 {
        "1"
    } else if d == 2 {
        "2"
    } else if d == 3 {
        "3"
    } else if d == 4 {
        "4"
    } else if d == 5 {
        "5"
    } else if d == 6 {
        "6"
    } else if d == 7 {
        "7"
    } else if d == 8 {
        "8"
    } else {
        "9"
    }
}

/// The decimal digits of `n`.
fn digits_text(n: u128) -> (r: String)
    ensures
        r@ == digits(n as nat),
    decreases n,
{
    if n < 10 {
        String::from_str(digit_str(n))
    } else {
        let mut s = digits_text(n / 10);
        s.append(digit_str(n % 10));
        s
    }
}

/// `n` in decimal, with a leading `-` when negative.
fn decimal_text(n: i128) -> (r: String)
    ensures
        r@ == decimal(n as int),
{
    if n < 0 {
        let magnitude: u128 = ((-(n + 1)) as u128) + 1;
        let mut s = String::from_str("-");
        let d = digits_text(magnitude);
        s.append(d.as_str());
        proof {
            reveal_strlit("-");
        }
        s
    } else {
        digits_text(n as u128)
    }
}

/// The message for a lone device that expires soon.
pub open spec fn single_expiring_text(d: Device, now: Instant) -> Seq<char> {
    let days = days_until_spec(d.expires, now);
    if days == 0 {
        d.hostname@ + " is expiring today!"@
    } else {
        d.hostname@ + " is expiring in "@ + decimal(days) + " days!"@
    }
}

/// The one notification text for the given buckets. Expired devices come
/// first; a lone device is named, several are counted.
pub open spec fn message_spec(expiring: Seq<Device>, expired: Seq<Device>, now: Instant) -> Seq<
    char,
> {
    if expired.len() == 1 {
        expired[0].hostname@ + " has expired!"@
    } else if expired.len() > 1 {
        decimal(expired.len() as int) + " devices are expired!"@
    } else if expiring.len() == 1 {
        single_expiring_text(expiring[0], now)
    } else {
        decimal(expiring.len() as int) + " devices are expiring soon!"@
    }
}

/// Words the notification for a classification made at `now`. The lone
/// expiring device's message and the final count both read the expiring
/// bucket: the device is named with its own days left, recomputed at `now`,
/// and the count is that of the expiring devices, zero included.
pub fn select_message(c: &Classification, now: Instant) -> (r: String)
    ensures
        r@ == message_spec(c.expiring@, c.expired@, now),
{
    if c.expired.len() == 1 {
        let mut s = c.expired[0].hostname.clone();
        s.append(" has expired!");
        s
    } else if c.expired.len() > 1 {
        let mut s = decimal_text(c.expired.len() as i128);
        s.append(" devices are expired!");
        s
    } else if c.expiring.len() == 1 {
        let d = &c.expiring[0];
        let days = days_until(d.expires, now);
        let mut s = d.hostname.clone();
        if days == 0 {
            s.append(" is expiring today!");
        } else {
            s.append(" is expiring in ");
            let n = decimal_text(days as i128);
            s.append(n.as_str());
            s.append(" days!");
        }
        s
    } else {
        let mut s = decimal_text(c.expiring.len() as i128);
        s.append(" devices are expiring soon!");
        s
    }
}

/// Messages rank strictly: one expired device, then several expired, then
/// one expiring, then the count of expiring ones. While any device has
/// expired, the expiring bucket plays no part.
pub proof fn lemma_message_priority(
    expiring: Seq<Device>,
    other_expiring: Seq<Device>,
    expired: Seq<Device>,
    now: Instant,
)
    ensures
        expired.len() == 1 ==> message_spec(expiring, expired, now) == expired[0].hostname@
            + " has expired!"@,
        expired.len() > 1 ==> message_spec(expiring, expired, now) == decimal(expired.len() as int)
            + " devices are expired!"@,
        expired.len() == 0 && expiring.len() == 1 ==> message_spec(expiring, expired, now)
            == single_expiring_text(expiring[0], now),
        expired.len() == 0 && expiring.len() != 1 ==> message_spec(expiring, expired, now)
            == decimal(expiring.len() as int) + " devices are expiring soon!"@,
        expired.len() > 0 ==> message_spec(expiring, expired, now) == message_spec(
            other_expiring,
            expired,
            now,
        ),
{
}

/// The diagnostic line for one device, where it falls in a bucket.
pub open spec fn status_spec(d: Device, now: Instant) -> Option<Seq<char>> {
    let days = days_until_spec(d.expires, now);
    if days >= LOOKAHEAD_DAYS {
        None
    } else if days > 0 {
        Some(d.hostname@ + " expires in "@ + decimal(days) + " days"@)
    } else if days < 0 {
        Some(d.hostname@ + " expired "@ + decimal(-days) + " days ago"@)
    } else {
        Some(d.hostname@ + " expires today"@)
    }
}

/// Describes how a device stands at `now`; `None` for a device that lapses
/// beyond the lookahead.
pub fn status_line(d: &Device, now: Instant) -> (r: Option<String>)
    ensures
        match status_spec(*d, now) {
            Some(t) => r matches Some(s) && s@ == t,
            None => r is None,
        },
{
    let days = days_until(d.expires, now);
    if days >= LOOKAHEAD_DAYS {
        return None;
    }
    let mut s = d.hostname.clone();
    if days > 0 {
        s.append(" expires in ");
        let n = decimal_text(days as i128);
        s.append(n.as_str());
        s.append(" days");
    } else if days < 0 {
        s.append(" expired ");
        let n = decimal_text(-(days as i128));
        s.append(n.as_str());
        s.append(" days ago");
    } else {
        s.append(" expires today");
    }
    Some(s)
}

} // verus!
