//! Decimal rendering of numbers and the timestamp display format.

use vstd::prelude::*;
use vstd::string::StrSliceExecFns;
use vstd::string::StringExecFns;

verus! {

pub open spec fn spec_digit_char(d: nat) -> char {
    if d == 0 {
        '0'
    } else if d == 1 {
        '1'
    } else if d == 2 {
        '2'
    } else if d == 3 {
        '3'
    } else if d == 4 {
        '4'
    } else if d == 5 {
        '5'
    } else if d == 6 {
        '6'
    } else if d == 7 {
        '7'
    } else if d == 8 {
        '8'
    } else {
        '9'
    }
}

/// The decimal digits of `n`, most significant first.
pub open spec fn spec_dec_str(n: nat) -> Seq<char>
    decreases n,
{
    if n < 10 {
        seq![spec_digit_char(n)]
    } else {
        spec_dec_str(n / 10).push(spec_digit_char(n % 10))
    }
}

pub open spec fn spec_zeros(k: nat) -> Seq<char>
    decreases k,
{
    if k == 0 {
        Seq::empty()
    } else {
        spec_zeros((k - 1) as nat).push('0')
    }
}

/// The decimal digits of `n`, left-padded with zeros to at least `width`
/// characters.
pub open spec fn spec_padded_dec(n: nat, width: nat) -> Seq<char> {
    if spec_dec_str(n).len() >= width {
        spec_dec_str(n)
    } else {
        spec_zeros((width - spec_dec_str(n).len()) as nat) + spec_dec_str(n)
    }
}

/// As `spec_padded_dec`, but for a possibly negative value: the sign takes
/// up one character of the width, as the standard formatter pads it.
pub open spec fn spec_padded_dec_signed(v: int, width: nat) -> Seq<char>
    recommends
        width >= 1,
{
    if v >= 0 {
        spec_padded_dec(v as nat, width)
    } else {
        seq!['-'] + spec_padded_dec((-v) as nat, (width - 1) as nat)
    }
}

fn digit_str(d: u64) -> (r: &'static str)
    requires
        d < 10,
    ensures
        r@ == seq![spec_digit_char(d as nat)],
{
    proof {
        reveal_strlit("0");
        reveal_strlit("1");
        reveal_strlit("2");
        reveal_strlit("3");
        reveal_strlit("4");
        reveal_strlit("5");
        reveal_strlit("6");
        reveal_strlit("7");
        reveal_strlit("8");
        reveal_strlit("9");
    }
    if d == 0 {
        proof {
            assert("0"@ =~= seq![spec_digit_char(0)]);
        }
        "0"
    } else if d == 1 {
        proof {
            assert("1"@ =~= seq![spec_digit_char(1)]);
        }
        "1"
    } else if d == 2 {
        proof {
            assert("2"@ =~= seq![spec_digit_char(2)]);
        }
        "2"
    } else if d == 3 {
        proof {
            assert("3"@ =~= seq![spec_digit_char(3)]);
        }
        "3"
    } else if d == 4 {
        proof {
            assert("4"@ =~= seq![spec_digit_char(4)]);
        }
        "4"
    } else if d == 5 {
        proof {
            assert("5"@ =~= seq![spec_digit_char(5)]);
        }
        "5"
    } else if d == 6 {
        proof {
            assert("6"@ =~= seq![spec_digit_char(6)]);
        }
        "6"
    } else if d == 7 {
        proof {
            assert("7"@ =~= seq![spec_digit_char(7)]);
        }
        "7"
    } else if d == 8 {
        proof {
            assert("8"@ =~= seq![spec_digit_char(8)]);
        }
        "8"
    } else {
        proof {
            assert("9"@ =~= seq![spec_digit_char(9)]);
        }
        "9"
    }
}

/// Renders a number in decimal.
pub fn u64_to_dec(n: u64) -> (r: String)
    ensures
        r@ == spec_dec_str(n as nat),
    decreases n,
{
    if n < 10 {
        digit_str(n).to_owned()
    } else {
        let mut s = u64_to_dec(n / 10);
        let d = digit_str(n % 10);
        s.append(d);
        proof {
            assert(s@ =~= spec_dec_str((n / 10) as nat).push(spec_digit_char((n % 10) as nat)));
        }
        s
    }
}

/// Renders a number in decimal, left-padded with zeros to `width`.
pub fn u64_to_dec_padded(n: u64, width: usize) -> (r: String)
    ensures
        r@ == spec_padded_dec(n as nat, width as nat),
{
    let digits = u64_to_dec(n);
    let len = digits.as_str().unicode_len();
    if len >= width {
        return digits;
    }
    let pad: usize = width - len;
    let mut r = String::new();
    let mut added: usize = 0;
    proof {
        reveal_strlit("0");
    }
    while added < pad
        invariant
            added <= pad,
            r@ == spec_zeros(added as nat),
            "0"@ =~= seq!['0'],
        decreases pad - added,
    {
        r.append("0");
        added = added + 1;
        proof {
            assert(r@ =~= spec_zeros(added as nat));
        }
    }
    r.append(digits.as_str());
    r
}

/// Renders a possibly negative number in decimal, padded to `width`
/// characters with the sign counted in, as the standard formatter does.
pub fn i64_to_dec_padded(v: i64, width: usize) -> (r: String)
    requires
        width >= 1,
        v > i64::MIN,
    ensures
        r@ == spec_padded_dec_signed(v as int, width as nat),
{
    if v >= 0 {
        u64_to_dec_padded(v as u64, width)
    } else {
        let magnitude = u64_to_dec_padded((-v) as u64, width - 1);
        let mut r = String::new();
        r.append("-");
        r.append(magnitude.as_str());
        proof {
            reveal_strlit("-");
            assert(r@ =~= seq!['-'] + spec_padded_dec((-v) as nat, (width - 1) as nat));
        }
        r
    }
}

/// Narrows a session id to the log table's column range; an id that does
/// not fit is dropped rather than truncated.
pub fn narrow_session_id(id: i64) -> (r: Option<i32>)
    ensures
        r == (if id > i32::MAX as i64 || id < i32::MIN as i64 {
            None::<i32>
        } else {
            Some(id as i32)
        }),
{
    if id > (i32::MAX as i64) {
        None
    } else if id < (i32::MIN as i64) {
        None
    } else {
        Some(id as i32)
    }
}

/// A calendar instant broken into the fields the display format reads:
/// year, month, day, hour, minute, second and millisecond, all as plain
/// numbers.
pub struct CivilTime {
    pub year: i32,
    pub month: u8,
    pub day: u8,
    pub hour: u8,
    pub minute: u8,
    pub second: u8,
    pub millisecond: u16,
}

/// The display format of a timestamp: month, zero-padded day, zero-padded
/// year, then hour, minute, second and millisecond.
pub open spec fn spec_iso_string(t: CivilTime) -> Seq<char> {
    spec_dec_str(t.month as nat) + "/"@ + spec_padded_dec(t.day as nat, 2) + "/"@
        + spec_padded_dec_signed(t.year as int, 4) + " at "@ + spec_padded_dec(t.hour as nat, 2)
        + ":"@ + spec_padded_dec(t.minute as nat, 2) + ":"@ + spec_padded_dec(t.second as nat, 2)
        + "."@ + spec_padded_dec(t.millisecond as nat, 3)
}

/// Renders a timestamp for display.
pub fn get_iso_string(time_stamp: &CivilTime) -> (r: String)
    ensures
        r@ == spec_iso_string(*time_stamp),
{
    let mut r = u64_to_dec(time_stamp.month as u64);
    r.append("/");
    let day = u64_to_dec_padded(time_stamp.day as u64, 2);
    r.append(day.as_str());
    r.append("/");
    let year = i64_to_dec_padded(time_stamp.year as i64, 4);
    r.append(year.as_str());
    r.append(" at ");
    let hour = u64_to_dec_padded(time_stamp.hour as u64, 2);
    r.append(hour.as_str());
    r.append(":");
    let minute = u64_to_dec_padded(time_stamp.minute as u64, 2);
    r.append(minute.as_str());
    r.append(":");
    let second = u64_to_dec_padded(time_stamp.second as u64, 2);
    r.append(second.as_str());
    r.append(".");
    let milli = u64_to_dec_padded(time_stamp.millisecond as u64, 3);
    r.append(milli.as_str());
    r
}

} // verus!
