//! Minutes of the day: the host's clock and the inverter's.
use crate::model::InverterSnapshot;
use crate::wall_clock::local_now;
use vstd::prelude::*;
use vstd::string::*;

verus! {

/// The minute of the day on the host's local clock now. Which minute that is
/// depends on the time and the host's time zone; of it nothing is claimed but
/// that it is one of the day's.
pub fn local_minute_now() -> (r: u16)
    ensures
        r < 1440,
{
    let (hour, minute) = local_now();
    minute_of_day(hour, minute)
}

/// The minute of the day at a clock time.
pub fn minute_of_day(hour: u32, minute: u32) -> (r: u16)
    requires
        hour < 24,
        minute < 60,
    ensures
        r == hour * 60 + minute,
{
    hour as u16 * 60 + minute as u16
}

/// Where `sep` first occurs in `text` at or after `from`; the length of `text`
/// where it does not.
pub open spec fn find(text: Seq<char>, sep: char, from: int) -> int
    decreases text.len() - from,
{
    if from >= text.len() {
        text.len() as int
    } else if text[from] == sep {
        from
    } else {
        find(text, sep, from + 1)
    }
}

/// The pieces of `text` between occurrences of `sep`, counted from 0.
pub open spec fn piece(text: Seq<char>, sep: char, n: nat) -> Option<Seq<char>>
    decreases n,
{
    let end = find(text, sep, 0);
    if n == 0 {
        Some(text.take(end))
    } else if end < text.len() {
        piece(text.skip(end + 1), sep, (n - 1) as nat)
    } else {
        None
    }
}

/// Whether a character is a decimal digit.
pub open spec fn is_digit(c: char) -> bool {
    '0' <= c && c <= '9'
}

/// The value of a run of digits.
pub open spec fn digits_value(text: Seq<char>) -> int
    decreases text.len(),
{
    if text.len() == 0 {
        0
    } else {
        digits_value(text.drop_last()) * 10 + (text.last() as int - '0' as int)
    }
}

/// `text` without a plus sign at its front.
pub open spec fn unsigned(text: Seq<char>) -> Seq<char> {
    if text.len() > 0 && text[0] == '+' {
        text.skip(1)
    } else {
        text
    }
}

/// Whether `text` is made of digits only.
pub open spec fn all_digits(text: Seq<char>) -> bool {
    forall|i: int| 0 <= i < text.len() ==> is_digit(#[trigger] text[i])
}

/// A 16-bit number in decimal: digits, with at most a plus sign before them.
pub open spec fn number(text: Seq<char>) -> Option<u16> {
    let digits = unsigned(text);
    if digits.len() > 0 && all_digits(digits) && digits_value(digits) <= u16::MAX {
        Some(digits_value(digits) as u16)
    } else {
        None
    }
}

/// The minute of the day that a clock text names: the second word holds hour
/// and minute in front of a colon each, or of the end.
pub open spec fn clock_minute(text: Seq<char>) -> Option<u16> {
    match piece(text, ' ', 1) {
        None => None,
        Some(time) => match (piece(time, ':', 0), piece(time, ':', 1)) {
            (Some(h), Some(m)) => match (number(h), number(m)) {
                (Some(hour), Some(minute)) => if hour < 24 && minute < 60 {
                    Some((hour * 60 + minute) as u16)
                } else {
                    None
                },
                _ => None,
            },
            _ => None,
        },
    }
}

/// The characters of a text.
pub fn characters(text: &str) -> (r: Vec<char>)
    ensures
        r@ == text@,
{
    let len: usize = text.unicode_len();
    let mut out: Vec<char> = Vec::new();
    let mut i: usize = 0;
    while i < len
        invariant
            i <= len,
            len == text@.len(),
            out@ == text@.take(i as int),
        decreases len - i,
    {
        out.push(text.get_char(i));
        i += 1;
        assert(out@ =~= text@.take(i as int));
    }
    assert(out@ =~= text@);
    out
}

/// The characters from `from` up to `to`.
fn between(text: &Vec<char>, from: usize, to: usize) -> (r: Vec<char>)
    requires
        from <= to <= text.len(),
    ensures
        r@ == text@.subrange(from as int, to as int),
{
    let mut out: Vec<char> = Vec::new();
    let mut i: usize = from;
    while i < to
        invariant
            from <= i <= to <= text.len(),
            out@ == text@.subrange(from as int, i as int),
        decreases to - i,
    {
        out.push(text[i]);
        i += 1;
        assert(out@ =~= text@.subrange(from as int, i as int));
    }
    out
}

/// Where `sep` first occurs.
fn find_char(text: &Vec<char>, sep: char) -> (r: usize)
    ensures
        r == find(text@, sep, 0),
        r <= text.len(),
{
    let mut i: usize = 0;
    while i < text.len()
        invariant
            i <= text.len(),
            find(text@, sep, 0) == find(text@, sep, i as int),
        decreases text.len() - i,
    {
        if text[i] == sep {
            return i;
        }
        i += 1;
    }
    i
}

/// The text before the first `sep`, and the text after it if there is one.
fn split_once(text: &Vec<char>, sep: char) -> (r: (Vec<char>, Option<Vec<char>>))
    ensures
        piece(text@, sep, 0) == Some(r.0@),
        match r.1 {
            Some(rest) => piece(text@, sep, 1) == piece(rest@, sep, 0),
            None => piece(text@, sep, 1) is None,
        },
{
    let end: usize = find_char(text, sep);
    let head: Vec<char> = between(text, 0, end);
    assert(head@ =~= text@.take(end as int));
    reveal_with_fuel(piece, 2);
    if end < text.len() {
        let rest: Vec<char> = between(text, end + 1, text.len());
        assert(rest@ =~= text@.skip(end + 1));
        (head, Some(rest))
    } else {
        (head, None)
    }
}

/// Reads a 16-bit number in decimal.
pub fn parse_number(text: &Vec<char>) -> (r: Option<u16>)
    ensures
        r == number(text@),
{
    let from: usize = if text.len() > 0 && text[0] == '+' { 1 } else { 0 };
    if from == text.len() {
        return None;
    }
    let ghost digits = unsigned(text@);
    assert(digits =~= text@.skip(from as int));
    let mut value: u32 = 0;
    let mut i: usize = from;
    assert(digits.take(0) =~= Seq::<char>::empty());
    let mut fits: bool = true;
    while i < text.len()
        invariant
            from <= i <= text.len(),
            digits == text@.skip(from as int),
            digits == unsigned(text@),
            forall|j: int| 0 <= j < i - from ==> is_digit(#[trigger] digits[j]),
            fits ==> value == digits_value(digits.take(i - from)) && value <= 0xffff,
            !fits ==> digits_value(digits.take(i - from)) > 0xffff,
        decreases text.len() - i,
    {
        let c: char = text[i];
        assert(digits[i - from] == c);
        if c < '0' || c > '9' {
            assert(!is_digit(digits[i - from]));
            assert(!all_digits(digits));
            return None;
        }
        proof {
            let longer = digits.take(i - from + 1);
            assert(longer.drop_last() =~= digits.take(i - from));
            assert(longer.last() == c);
        }
        if fits {
            value = value * 10 + (c as u32 - '0' as u32);
            if value > 0xffff {
                fits = false;
            }
        }
        i += 1;
    }
    assert(digits.take(i - from) =~= digits);
    if fits {
        Some(value as u16)
    } else {
        None
    }
}

/// The minute of the day on the inverter's clock; `None` where its registers
/// are absent or malformed.
///
/// Schedules run on the inverter's clock, so they are evaluated on it too.
pub fn inverter_minute_of_day(snapshot: &InverterSnapshot) -> (r: Option<u16>)
    ensures
        r == clock_minute(snapshot.inverter_time@),
{
    let text: Vec<char> = characters(snapshot.inverter_time.as_str());
    let rest: Vec<char> = match split_once(&text, ' ').1 {
        Some(rest) => rest,
        None => {
            return None;
        },
    };
    let time: Vec<char> = split_once(&rest, ' ').0;
    let (hour_text, after_hour) = split_once(&time, ':');
    let minute_text: Vec<char> = match after_hour {
        Some(after) => split_once(&after, ':').0,
        None => {
            return None;
        },
    };
    match (parse_number(&hour_text), parse_number(&minute_text)) {
        (Some(hour), Some(minute)) => {
            if hour < 24 && minute < 60 {
                Some(hour * 60 + minute)
            } else {
                None
            }
        },
        _ => None,
    }
}

/// The minute of the day by which all schedules are evaluated: the inverter's,
/// or else the host's.
pub fn authoritative_minute_of_day(snapshot: &InverterSnapshot, host_minute: u16) -> (r: u16)
    ensures
        r == match clock_minute(snapshot.inverter_time@) {
            Some(minute) => minute,
            None => host_minute,
        },
{
    match inverter_minute_of_day(snapshot) {
        Some(minute) => minute,
        None => host_minute,
    }
}

} // verus!
