//! Numbers as decimal text: whole numbers, and durations in seconds with
//! three decimals.

use crate::text::chars_of;
use vstd::prelude::*;
use vstd::string::*;

verus! {


/// The character that writes the digit `d`.
pub open spec fn digit_char(d: int) -> char {
    ((d + 48) as u8) as char
}

/// Whether `c` is one of the ten decimal digits.
pub open spec fn is_digit(c: char) -> bool {
    '0' <= c <= '9'
}

/// The digit that `c` writes.
pub open spec fn digit_value(c: char) -> int {
    (c as u8) - 48
}

/// The decimal notation of `n`, without leading zeros.
pub open spec fn decimal_text(n: nat) -> Seq<char>
    decreases n,
{
    if n < 10 {
        seq![digit_char(n as int)]
    } else {
        decimal_text(n / 10).push(digit_char((n % 10) as int))
    }
}

/// Whether `s` consists of decimal digits only.
pub open spec fn all_digits(s: Seq<char>) -> bool {
    forall|i: int| 0 <= i < s.len() ==> is_digit(#[trigger] s[i])
}

/// The number that the digits of `s` write; leading zeros are allowed.
pub open spec fn decimal_value(s: Seq<char>) -> int
    decreases s.len(),
{
    if s.len() == 0 {
        0
    } else {
        decimal_value(s.drop_last()) * 10 + digit_value(s.last())
    }
}

/// The one-character text of a digit.
pub fn digit_str(d: u8) -> (s: &'static str)
    requires
        d < 10,
    ensures
        s@ == seq![digit_char(d as int)],
{
    proof {
        reveal_strlit("0");
        reveal_strlit("1");
        reveal_strlit("2");
        reveal_strlit("3");
        reveal_strlit("4");
        reveal_strlit("5");
        reveal_strlit("6");
        reveal_strlit("7");
        reveal_strlit("8");
        reveal_strlit("9");
    }
    let s = match d {
        0 => "0",
        1 => "1",
        2 => "2",
        3 => "3",
        4 => "4",
        5 => "5",
        6 => "6",
        7 => "7",
        8 => "8",
        _ => "9",
    };
    assert(s@ =~= seq![digit_char(d as int)]);
    s
}

/// Appends the decimal notation of `n` to `out`.
pub fn push_decimal(out: &mut String, n: u64)
    ensures
        final(out)@ == old(out)@ + decimal_text(n as nat),
    decreases n,
{
    if n >= 10 {
        push_decimal(out, n / 10);
    }
    let d: u8 = (n % 10) as u8;
    out.append(digit_str(d));
    proof {
        if n >= 10 {
            assert(final(out)@ =~= old(out)@ + decimal_text(n as nat));
        } else {
            assert(final(out)@ =~= old(out)@ + decimal_text(n as nat));
        }
    }
}

/// The decimal notation of `n`.
pub fn decimal_string(n: u64) -> (s: String)
    ensures
        s@ == decimal_text(n as nat),
{
    let mut s = String::new();
    push_decimal(&mut s, n);
    assert(s@ =~= decimal_text(n as nat));
    s
}

/// Thousandths nearest to `us` millionths; a value halfway between two
/// thousandths goes to the even one, and the sign is kept.
pub open spec fn rounded_millis(us: int) -> int {
    let magnitude = if us < 0 {
        -us
    } else {
        us
    };
    let whole = magnitude / 1000;
    let rest = magnitude % 1000;
    let nearest = if rest > 500 || (rest == 500 && whole % 2 == 1) {
        whole + 1
    } else {
        whole
    };
    if us < 0 {
        -nearest
    } else {
        nearest
    }
}

/// The three digits of a number below one thousand, zeros included.
pub open spec fn three_digits(n: int) -> Seq<char> {
    seq![digit_char(n / 100), digit_char((n / 10) % 10), digit_char(n % 10)]
}

/// A duration of `us` microseconds written in seconds with exactly three
/// decimals, such as `-0.055`. A negative duration keeps its sign even
/// where it rounds to zero.
pub open spec fn seconds_text(us: int) -> Seq<char> {
    let millis = rounded_millis(us);
    let magnitude = if millis < 0 {
        -millis
    } else {
        millis
    };
    let unsigned = decimal_text((magnitude / 1000) as nat) + seq!['.'] + three_digits(
        magnitude % 1000,
    );
    if us < 0 {
        seq!['-'] + unsigned
    } else {
        unsigned
    }
}

/// The thousandths of a second that `s` writes, where `s` is an optional
/// minus sign, one or more digits, a point and exactly three digits.
pub open spec fn parsed_seconds(s: Seq<char>) -> Option<int> {
    let negative = s.len() > 0 && s[0] == '-';
    let unsigned = if negative {
        s.drop_first()
    } else {
        s
    };
    let point = unsigned.len() - 4;
    if unsigned.len() >= 5 && unsigned[point] == '.' && all_digits(unsigned.take(point))
        && all_digits(unsigned.skip(point + 1)) {
        let value: int = decimal_value(unsigned.take(point)) * 1000 + decimal_value(
            unsigned.skip(point + 1),
        );
        Some(
            if negative {
                -value
            } else {
                value
            },
        )
    } else {
        None
    }
}

/// Decimal notation is made of digits and writes the number it was made from.
pub proof fn lemma_decimal_text_value(n: nat)
    ensures
        decimal_text(n).len() >= 1,
        all_digits(decimal_text(n)),
        decimal_value(decimal_text(n)) == n,
    decreases n,
{
    if n < 10 {
        let t = decimal_text(n);
        assert(t.drop_last() =~= Seq::<char>::empty());
        assert(decimal_value(t.drop_last()) == 0);
    } else {
        lemma_decimal_text_value(n / 10);
        let t = decimal_text(n);
        assert(t.drop_last() =~= decimal_text(n / 10));
        assert(t.last() == digit_char((n % 10) as int));
    }
}

/// Three digits write the number below one thousand that they were made from.
pub proof fn lemma_three_digits_value(n: int)
    requires
        0 <= n < 1000,
    ensures
        three_digits(n).len() == 3,
        all_digits(three_digits(n)),
        decimal_value(three_digits(n)) == n,
{
    let t = three_digits(n);
    let t2 = t.drop_last();
    let t1 = t2.drop_last();
    assert(t1.drop_last() =~= Seq::<char>::empty());
    assert(decimal_value(t1.drop_last()) == 0);
    assert(decimal_value(t1) == n / 100);
    assert(decimal_value(t2) == (n / 100) * 10 + (n / 10) % 10);
}

/// Reading back a rendered duration gives its thousandths, which lie
/// within half a thousandth of the duration.
pub proof fn lemma_seconds_text_round_trip(us: int)
    ensures
        parsed_seconds(seconds_text(us)) == Some(rounded_millis(us)),
        -500 <= rounded_millis(us) * 1000 - us <= 500,
{
    let millis = rounded_millis(us);
    let magnitude = if millis < 0 {
        -millis
    } else {
        millis
    };
    let whole = decimal_text((magnitude / 1000) as nat);
    let frac = three_digits(magnitude % 1000);
    let unsigned = whole + seq!['.'] + frac;
    lemma_decimal_text_value((magnitude / 1000) as nat);
    lemma_three_digits_value(magnitude % 1000);
    let text = seconds_text(us);
    assert(is_digit(whole[0]));
    assert(unsigned[0] == whole[0]);
    if us < 0 {
        assert(text[0] == '-');
        assert(text.drop_first() =~= unsigned);
    } else {
        assert(text =~= unsigned);
        assert(text[0] != '-');
    }
    let point = unsigned.len() - 4;
    assert(point == whole.len());
    assert(unsigned[point] == '.');
    assert(unsigned.take(point) =~= whole);
    assert(unsigned.skip(point + 1) =~= frac);
}

/// A longer run of digits never writes a smaller number than its beginning.
pub proof fn lemma_decimal_value_prefix(s: Seq<char>, k: int)
    requires
        all_digits(s),
        0 <= k <= s.len(),
    ensures
        0 <= decimal_value(s.take(k)) <= decimal_value(s),
    decreases s.len(),
{
    if s.len() == 0 {
        assert(s.take(k) =~= s);
    } else if k == s.len() {
        assert(s.take(k) =~= s);
        lemma_decimal_value_prefix(s.drop_last(), 0);
        assert(is_digit(s.last()));
    } else {
        lemma_decimal_value_prefix(s.drop_last(), k);
        assert(s.drop_last().take(k) =~= s.take(k));
        assert(is_digit(s.last()));
    }
}

/// Whether `c` is a decimal digit.
pub fn is_digit_char(c: char) -> (b: bool)
    ensures
        b == is_digit(c),
{
    '0' <= c && c <= '9'
}

/// The number written by the characters of `chars` from `from` up to `to`,
/// where they are all digits and the number does not exceed `cap`.
pub fn digits_value(chars: &Vec<char>, from: usize, to: usize, cap: u64) -> (value: Option<u64>)
    requires
        from <= to <= chars.len(),
    ensures
        ({
            let run = chars@.subrange(from as int, to as int);
            match value {
                Some(v) => all_digits(run) && v == decimal_value(run),
                None => !all_digits(run) || decimal_value(run) > cap,
            }
        }),
        value matches Some(v) ==> v <= cap,
{
    let ghost run = chars@.subrange(from as int, to as int);
    let mut acc: u64 = 0;
    let mut i: usize = from;
    while i < to
        invariant
            from <= i <= to <= chars.len(),
            run == chars@.subrange(from as int, to as int),
            all_digits(run.take(i - from)),
            acc == decimal_value(run.take(i - from)),
            acc <= cap,
        decreases to - i,
    {
        let c = chars[i];
        if !is_digit_char(c) {
            assert(run[i - from] == c);
            return None;
        }
        let d: u64 = ((c as u8) - 48) as u64;
        proof {
            let next = run.take(i - from + 1);
            assert(next.drop_last() =~= run.take(i - from));
            assert(next.last() == c);
            assert(all_digits(next)) by {
                assert forall|j: int| 0 <= j < next.len() implies is_digit(#[trigger] next[j]) by {
                    if j < i - from {
                        assert(run.take(i - from)[j] == next[j]);
                    }
                }
            }
        }
        let grown: u128 = (acc as u128) * 10 + (d as u128);
        if grown > cap as u128 {
            proof {
                if all_digits(run) {
                    lemma_decimal_value_prefix(run, i - from + 1);
                }
            }
            return None;
        }
        acc = grown as u64;
        i += 1;
    }
    assert(run.take(to - from) =~= run);
    Some(acc)
}

/// Writes a duration of `us` microseconds in seconds with three decimals.
pub fn render_seconds(us: i64) -> (text: String)
    ensures
        text@ == seconds_text(us as int),
{
    let magnitude: u64 = if us == i64::MIN {
        9_223_372_036_854_775_808u64
    } else if us < 0 {
        (-us) as u64
    } else {
        us as u64
    };
    let whole: u64 = magnitude / 1000;
    let rest: u64 = magnitude % 1000;
    let millis: u64 = if rest > 500 || (rest == 500 && whole % 2 == 1) {
        whole + 1
    } else {
        whole
    };
    let frac: u64 = millis % 1000;
    let mut text = String::new();
    if us < 0 {
        proof {
            reveal_strlit("-");
        }
        text.append("-");
    }
    let ghost sign = text@;
    push_decimal(&mut text, millis / 1000);
    proof {
        reveal_strlit(".");
    }
    text.append(".");
    text.append(digit_str((frac / 100) as u8));
    text.append(digit_str(((frac / 10) % 10) as u8));
    text.append(digit_str((frac % 10) as u8));
    proof {
        assert(millis as int == if us < 0 {
            -rounded_millis(us as int)
        } else {
            rounded_millis(us as int)
        });
        assert(sign =~= if us < 0 {
            seq!['-']
        } else {
            Seq::<char>::empty()
        });
        assert(text@ =~= seconds_text(us as int));
    }
    text
}

/// Reads a duration written in seconds with three decimals and gives its
/// thousandths of a second, or nothing where `text` is not of that form or
/// the value does not fit.
pub fn parse_seconds(text: &str) -> (millis: Option<i64>)
    ensures
        millis == match parsed_seconds(text@) {
            Some(v) => if i64::MIN <= v <= i64::MAX {
                Some(v as i64)
            } else {
                None
            },
            None => None,
        },
{
    let chars = chars_of(text);
    let n = chars.len();
    let negative = n > 0 && chars[0] == '-';
    let start: usize = if negative {
        1
    } else {
        0
    };
    if n - start < 5 {
        return None;
    }
    let point = n - 4;
    let ghost unsigned = if negative {
        text@.drop_first()
    } else {
        text@
    };
    proof {
        assert(unsigned.len() == n - start);
        assert(unsigned[unsigned.len() - 4] == chars@[point as int]);
        assert(unsigned.take(unsigned.len() - 4) =~= chars@.subrange(start as int, point as int));
        assert(unsigned.skip(unsigned.len() - 3) =~= chars@.subrange(point + 1, n as int));
    }
    if chars[point] != '.' {
        return None;
    }
    let whole = match digits_value(&chars, start, point, 9_223_372_036_854_775u64) {
        Some(v) => v,
        None => {
            proof {
                let run = chars@.subrange(start as int, point as int);
                if all_digits(run) && all_digits(chars@.subrange(point + 1, n as int)) {
                    lemma_decimal_value_prefix(chars@.subrange(point + 1, n as int), 0);
                }
            }
            return None;
        },
    };
    let frac = match digits_value(&chars, point + 1, n, 999u64) {
        Some(v) => v,
        None => {
            proof {
                let run = chars@.subrange(point + 1, n as int);
                if all_digits(run) {
                    lemma_three_digit_bound(run);
                }
            }
            return None;
        },
    };
    let magnitude: u64 = whole * 1000 + frac;
    if negative {
        if magnitude > 9_223_372_036_854_775_808u64 {
            None
        } else if magnitude == 9_223_372_036_854_775_808u64 {
            Some(i64::MIN)
        } else {
            Some(-(magnitude as i64))
        }
    } else {
        if magnitude > 9_223_372_036_854_775_807u64 {
            None
        } else {
            Some(magnitude as i64)
        }
    }
}

/// Three digits write a number below one thousand.
pub proof fn lemma_three_digit_bound(s: Seq<char>)
    requires
        s.len() == 3,
        all_digits(s),
    ensures
        0 <= decimal_value(s) <= 999,
{
    let s2 = s.drop_last();
    let s1 = s2.drop_last();
    assert(s1.drop_last() =~= Seq::<char>::empty());
    assert(decimal_value(s1.drop_last()) == 0);
    assert(is_digit(s[0]) && is_digit(s[1]) && is_digit(s[2]));
    assert(s1.last() == s[0]);
    assert(s2.last() == s[1]);
    assert(s.last() == s[2]);
    assert(decimal_value(s1) == digit_value(s[0]));
    assert(decimal_value(s2) == decimal_value(s1) * 10 + digit_value(s[1]));
    assert(decimal_value(s) == decimal_value(s2) * 10 + digit_value(s[2]));
}

/// The number that `text` writes: an optional plus sign and one or more
/// digits, where the number fits. Nothing else writes a number.
pub open spec fn parsed_usize(text: Seq<char>) -> Option<usize> {
    let digits = if text.len() > 0 && text[0] == '+' {
        text.drop_first()
    } else {
        text
    };
    if digits.len() > 0 && all_digits(digits) && decimal_value(digits) <= usize::MAX {
        Some(decimal_value(digits) as usize)
    } else {
        None
    }
}

/// Reads the number that the piece of `text` from `from` up to `to` writes.
pub fn parse_usize(text: &Vec<char>, from: usize, to: usize) -> (number: Option<usize>)
    requires
        from <= to <= text.len(),
    ensures
        number == parsed_usize(text@.subrange(from as int, to as int)),
{
    let ghost piece = text@.subrange(from as int, to as int);
    let start: usize = if from < to && text[from] == '+' {
        from + 1
    } else {
        from
    };
    proof {
        if from < to {
            assert(piece[0] == text@[from as int]);
        }
        let digits = if piece.len() > 0 && piece[0] == '+' {
            piece.drop_first()
        } else {
            piece
        };
        assert(digits =~= text@.subrange(start as int, to as int));
    }
    if start == to {
        return None;
    }
    match digits_value(text, start, to, usize::MAX as u64) {
        Some(value) => Some(value as usize),
        None => None,
    }
}

/// A rendered duration is made of digits, a point and at most a minus
/// sign.
pub proof fn lemma_seconds_text_chars(us: int)
    ensures
        seconds_text(us).len() >= 5,
        forall|j: int|
            0 <= j < seconds_text(us).len() ==> {
                let c = #[trigger] seconds_text(us)[j];
                is_digit(c) || c == '-' || c == '.'
            },
{
    let millis = rounded_millis(us);
    let magnitude = if millis < 0 {
        -millis
    } else {
        millis
    };
    let whole = decimal_text((magnitude / 1000) as nat);
    let frac = three_digits(magnitude % 1000);
    lemma_decimal_text_value((magnitude / 1000) as nat);
    lemma_three_digits_value(magnitude % 1000);
    let unsigned = whole + seq!['.'] + frac;
    assert forall|j: int| 0 <= j < unsigned.len() implies is_digit(#[trigger] unsigned[j])
        || unsigned[j] == '.' by {
        if j < whole.len() {
            assert(unsigned[j] == whole[j]);
        } else if j > whole.len() {
            assert(unsigned[j] == frac[j - whole.len() - 1]);
        }
    }
    let text = seconds_text(us);
    assert forall|j: int| 0 <= j < text.len() implies {
        let c = #[trigger] text[j];
        is_digit(c) || c == '-' || c == '.'
    } by {
        if us < 0 {
            if j > 0 {
                assert(text[j] == unsigned[j - 1]);
            }
        } else {
            assert(text[j] == unsigned[j]);
        }
    }
}

} // verus!
