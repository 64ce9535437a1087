//! Local wall-clock readings and their `YYYY-MM-DD HH:MM:SS` text.
use vstd::prelude::*;
use chrono::{Datelike, Timelike};

verus! {

/// A local date and time, to the second.
pub struct LocalDateTime {
    pub year: i32,
    pub month: u32,
    pub day: u32,
    pub hour: u32,
    pub minute: u32,
    pub second: u32,
}

impl LocalDateTime {
    /// Each field lies in its calendar range.
    pub open spec fn wf(&self) -> bool {
        &&& 1 <= self.month <= 12
        &&& 1 <= self.day <= 31
        &&& self.hour < 24
        &&& self.minute < 60
        &&& self.second < 60
    }
}

/// Relies on `chrono::Local::now` and its date and time accessors, whose
/// ranges chrono documents (month 1 to 12, day 1 to 31, hour 0 to 23,
/// minute and second 0 to 59).
#[verifier::external_body]
pub(crate) fn local_now() -> (r: LocalDateTime)
    ensures
        r.wf(),
{
    let t = chrono::Local::now();
    LocalDateTime {
        year: t.year(),
        month: t.month(),
        day: t.day(),
        hour: t.hour(),
        minute: t.minute(),
        second: t.second(),
    }
}

pub open spec fn digit_char(d: nat) -> char {
    ((d % 10) + ('0' as nat)) as char
}

pub open spec fn is_digit(c: char) -> bool {
    '0' <= c <= '9'
}

/// `n` in decimal, padded with zeros to at least `width` digits.
pub open spec fn decimal(n: nat, width: nat) -> Seq<char>
    decreases n, width,
{
    if n >= 10 || width > 1 {
        decimal(n / 10, if width > 0 {
            (width - 1) as nat
        } else {
            0
        }) + seq![digit_char(n % 10)]
    } else {
        seq![digit_char(n)]
    }
}

/// The year as four digits; a year outside 0 to 9999 carries its sign.
pub open spec fn year_text(y: int) -> Seq<char> {
    if 0 <= y <= 9999 {
        decimal(y as nat, 4)
    } else if y > 9999 {
        seq!['+'] + decimal(y as nat, 4)
    } else {
        seq!['-'] + decimal((-y) as nat, 4)
    }
}

/// The reading written `YYYY-MM-DD HH:MM:SS`.
pub open spec fn timestamp_text(t: LocalDateTime) -> Seq<char> {
    year_text(t.year as int) + seq!['-'] + decimal(t.month as nat, 2) + seq!['-'] + decimal(
        t.day as nat,
        2,
    ) + seq![' '] + decimal(t.hour as nat, 2) + seq![':'] + decimal(t.minute as nat, 2) + seq![
        ':',
    ] + decimal(t.second as nat, 2)
}

/// The text has the shape `YYYY-MM-DD HH:MM:SS`.
pub open spec fn is_timestamp_shape(s: Seq<char>) -> bool {
    &&& s.len() == 19
    &&& s[4] == '-' && s[7] == '-' && s[10] == ' ' && s[13] == ':' && s[16] == ':'
    &&& forall|i: int|
        0 <= i < 19 && i != 4 && i != 7 && i != 10 && i != 13 && i != 16 ==> is_digit(
            #[trigger] s[i],
        )
}

pub open spec fn pow10(w: nat) -> nat
    decreases w,
{
    if w == 0 {
        1
    } else {
        10 * pow10((w - 1) as nat)
    }
}

/// A number below `10^width` takes exactly `width` digits.
pub proof fn lemma_decimal_fixed(n: nat, width: nat)
    requires
        width >= 1,
        n < pow10(width),
    ensures
        decimal(n, width).len() == width,
        forall|i: int| 0 <= i < width ==> is_digit(#[trigger] decimal(n, width)[i]),
    decreases width,
{
    if width > 1 {
        assert(n / 10 < pow10((width - 1) as nat)) by (nonlinear_arith)
            requires
                n < pow10(width),
                pow10(width) == 10 * pow10((width - 1) as nat),
        ;
        lemma_decimal_fixed(n / 10, (width - 1) as nat);
    } else {
        assert(pow10(1) == 10) by {
            assert(pow10(0) == 1);
        }
    }
    let s = decimal(n, width);
    assert forall|i: int| 0 <= i < width implies is_digit(#[trigger] s[i]) by {
        if i < width - 1 {
            assert(s[i] == decimal(n / 10, (width - 1) as nat)[i]);
        }
    }
}

/// A reading of a year from 0 to 9999 is written in the shape
/// `YYYY-MM-DD HH:MM:SS`.
pub proof fn lemma_timestamp_shape(t: LocalDateTime)
    requires
        t.wf(),
        0 <= t.year <= 9999,
    ensures
        is_timestamp_shape(timestamp_text(t)),
{
    reveal_with_fuel(pow10, 5);
    lemma_decimal_fixed(t.year as nat, 4);
    lemma_decimal_fixed(t.month as nat, 2);
    lemma_decimal_fixed(t.day as nat, 2);
    lemma_decimal_fixed(t.hour as nat, 2);
    lemma_decimal_fixed(t.minute as nat, 2);
    lemma_decimal_fixed(t.second as nat, 2);
    let s = timestamp_text(t);
    assert(s.len() == 19);
    assert forall|i: int|
        0 <= i < 19 && i != 4 && i != 7 && i != 10 && i != 13 && i != 16 implies is_digit(
        #[trigger] s[i],
    ) by {
        if i < 4 {
            assert(s[i] == decimal(t.year as nat, 4)[i]);
        } else if i < 7 {
            assert(s[i] == decimal(t.month as nat, 2)[i - 5]);
        } else if i < 10 {
            assert(s[i] == decimal(t.day as nat, 2)[i - 8]);
        } else if i < 13 {
            assert(s[i] == decimal(t.hour as nat, 2)[i - 11]);
        } else if i < 16 {
            assert(s[i] == decimal(t.minute as nat, 2)[i - 14]);
        } else {
            assert(s[i] == decimal(t.second as nat, 2)[i - 17]);
        }
    }
}

fn digit_str(d: u64) -> (r: &'static str)
    requires
        d < 10,
    ensures
        r@ == seq![digit_char(d as nat)],
{
    proof {
        reveal_strlit("0");
        reveal_strlit("1");
        reveal_strlit("2");
        reveal_strlit("3");
        reveal_strlit("4");
        reveal_strlit("5");
        reveal_strlit("6");
        reveal_strlit("7");
        reveal_strlit("8");
        reveal_strlit("9");
    }
    match d {
        0 => "0",
        1 => "1",
        2 => "2",
        3 => "3",
        4 => "4",
        5 => "5",
        6 => "6",
        7 => "7",
        8 => "8",
        _ => "9",
    }
}

/// Appends `n` in decimal, padded with zeros to at least `width` digits.
fn push_decimal(out: &mut String, n: u64, width: u64)
    ensures
        final(out)@ == old(out)@ + decimal(n as nat, width as nat),
    decreases n, width,
{
    if n >= 10 || width > 1 {
        let rest: u64 = if width > 0 {
            width - 1
        } else {
            0
        };
        push_decimal(out, n / 10, rest);
        out.append(digit_str(n % 10));
        assert(final(out)@ =~= old(out)@ + decimal(n as nat, width as nat));
    } else {
        out.append(digit_str(n));
    }
}

/// Writes the reading as `YYYY-MM-DD HH:MM:SS`.
pub fn format_timestamp(t: &LocalDateTime) -> (r: String)
    ensures
        r@ == timestamp_text(*t),
{
    let mut out = String::new();
    if t.year >= 0 {
        if t.year > 9999 {
            out.append("+");
        }
        push_decimal(&mut out, t.year as u64, 4);
    } else {
        out.append("-");
        let magnitude: i64 = -(t.year as i64);
        push_decimal(&mut out, magnitude as u64, 4);
    }
    out.append("-");
    push_decimal(&mut out, t.month as u64, 2);
    out.append("-");
    push_decimal(&mut out, t.day as u64, 2);
    out.append(" ");
    push_decimal(&mut out, t.hour as u64, 2);
    out.append(":");
    push_decimal(&mut out, t.minute as u64, 2);
    out.append(":");
    push_decimal(&mut out, t.second as u64, 2);
    proof {
        reveal_strlit("+");
        reveal_strlit("-");
        reveal_strlit(" ");
        reveal_strlit(":");
    }
    assert(out@ =~= timestamp_text(*t));
    out
}

} // verus!
