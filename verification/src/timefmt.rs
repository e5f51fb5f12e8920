//! How the client labels the age of a message.

use vstd::prelude::*;
use crate::clock::clock_seconds;

verus! {

pub open spec fn digit_char(d: nat) -> char {
    ((48 + d) as u32) as char
}

/// The decimal digits of `n`, most significant first.
pub open spec fn decimal(n: nat) -> Seq<char>
    decreases n,
{
    if n < 10 {
        seq![digit_char(n)]
    } else {
        decimal(n / 10).push(digit_char(n % 10))
    }
}

fn digit_str(d: u64) -> (r: &'static str)
    requires
        d < 10,
    ensures
        r@ == seq![digit_char(d as nat)],
{
    if d == 0 {
        proof { reveal_strlit("0"); }
        "0"
    } else if d == 1 {
        proof { reveal_strlit("1"); }
        "1"
    } else if d == 2 {
        proof { reveal_strlit("2"); }
        "2"
    } else if d == 3 {
        proof { reveal_strlit("3"); }
        "3"
    } else if d == 4 {
        proof { reveal_strlit("4"); }
        "4"
    } else if d == 5 {
        proof { reveal_strlit("5"); }
        "5"
    } else if d == 6 {
        proof { reveal_strlit("6"); }
        "6"
    } else if d == 7 {
        proof { reveal_strlit("7"); }
        "7"
    } else if d == 8 {
        proof { reveal_strlit("8"); }
        "8"
    } else {
        proof { reveal_strlit("9"); }
        "9"
    }
}

/// `n` written in decimal, as `format!("{}", n)` writes it.
pub fn decimal_string(n: u64) -> (r: String)
    ensures
        r@ == decimal(n as nat),
    decreases n,
{
    if n < 10 {
        String::from_str(digit_str(n))
    } else {
        let mut s = decimal_string(n / 10);
        s.append(digit_str(n % 10));
        s
    }
}

/// The label for a message sent at `sent_at` when the clock reads `now`
/// whole seconds since the epoch (`None`: before the epoch): minutes or
/// hours ago within a day, and a fixed phrase otherwise or when the message
/// lies in the future.
pub open spec fn age_text(sent_at: int, now: Option<u64>) -> Seq<char> {
    match now {
        Some(n) if n >= sent_at => {
            let secs = (n - sent_at) as nat;
            if secs < 60 {
                "ora"@
            } else if secs < 3600 {
                decimal(secs / 60) + " min fa"@
            } else if secs < 86400 {
                decimal(secs / 3600) + " ore fa"@
            } else {
                "pochi secondi fa"@
            }
        },
        _ => "pochi secondi fa"@,
    }
}

pub fn describe_age(sent_at: i64, now: Option<u64>) -> (r: String)
    requires
        sent_at >= 0,
    ensures
        r@ == age_text(sent_at as int, now),
{
    match now {
        Some(n) => {
            if n >= sent_at as u64 {
                let secs = n - sent_at as u64;
                if secs < 60 {
                    return String::from_str("ora");
                } else if secs < 3600 {
                    return decimal_string(secs / 60).concat(" min fa");
                } else if secs < 86400 {
                    return decimal_string(secs / 3600).concat(" ore fa");
                }
            }
            String::from_str("pochi secondi fa")
        },
        None => String::from_str("pochi secondi fa"),
    }
}

/// The label for a message sent at `unix_time`, against the current time.
/// Times before the epoch are not accepted.
pub fn format_timestamp(unix_time: i64) -> (r: String)
    requires
        unix_time >= 0,
    ensures
        exists|now: Option<u64>| r@ == age_text(unix_time as int, now),
{
    let now = clock_seconds();
    describe_age(unix_time, now)
}

} // verus!
