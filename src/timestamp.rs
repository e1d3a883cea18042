//! Fixed-width `HH:MM:SS.mmm` rendering of a time offset.

use vstd::prelude::*;
use vstd::string::*;

verus! {

/// The character of a decimal digit `d < 10`.
pub open spec fn digit_char(d: nat) -> char {
    seq!['0', '1', '2', '3', '4', '5', '6', '7', '8', '9'][d as int]
}

pub open spec fn is_digit(c: char) -> bool {
    '0' <= c && c <= '9'
}

/// Decimal representation of `n`, without leading zeros.
pub open spec fn decimal(n: nat) -> Seq<char>
    decreases n,
{
    if n < 10 {
        seq![digit_char(n)]
    } else {
        decimal(n / 10).push(digit_char(n % 10))
    }
}

/// Decimal representation of `n`, left-padded with zeros to at least `width` characters.
pub open spec fn zero_padded(n: nat, width: nat) -> Seq<char> {
    let d = decimal(n);
    if d.len() < width {
        Seq::new((width - d.len()) as nat, |_i: int| '0') + d
    } else {
        d
    }
}

/// A non-negative time offset: whole seconds and milliseconds.
///
/// `millis` is kept as given; the formatter does not carry it into the seconds.
#[derive(Clone, Copy, Debug, PartialEq, Eq, Structural)]
pub struct Timestamp {
    pub seconds: u32,
    pub millis: u32,
}

/// `HH:MM:SS.mmm` of an offset: hours, minutes and seconds padded to two
/// digits and milliseconds to three, none truncated.
pub open spec fn timestamp_text(t: Timestamp) -> Seq<char> {
    let s = t.seconds as nat;
    zero_padded(s / 3600, 2) + seq![':'] + zero_padded((s % 3600) / 60, 2) + seq![':']
        + zero_padded(s % 60, 2) + seq!['.'] + zero_padded(t.millis as nat, 3)
}

/// Whether `s` has the shape `DD:DD:DD.DDD`.
pub open spec fn has_timestamp_shape(s: Seq<char>) -> bool {
    &&& s.len() == 12
    &&& s[2] == ':' && s[5] == ':' && s[8] == '.'
    &&& forall|i: int|
        0 <= i < 12 && i != 2 && i != 5 && i != 8 ==> #[trigger] is_digit(s[i])
}

fn digit_str(d: u32) -> (r: &'static str)
    requires
        d < 10,
    ensures
        r@ == seq![digit_char(d as nat)],
{
    proof {
        reveal_strlit("0");
        reveal_strlit("1");
        reveal_strlit("2");
        reveal_strlit("3");
        reveal_strlit("4");
        reveal_strlit("5");
        reveal_strlit("6");
        reveal_strlit("7");
        reveal_strlit("8");
        reveal_strlit("9");
    }
    let r = match d {
        0 => "0",
        1 => "1",
        2 => "2",
        3 => "3",
        4 => "4",
        5 => "5",
        6 => "6",
        7 => "7",
        8 => "8",
        _ => "9",
    };
    assert(r@ =~= seq![digit_char(d as nat)]);
    r
}

fn digit_count(n: u32) -> (r: usize)
    ensures
        r == decimal(n as nat).len(),
        r <= n as nat + 1,
    decreases n,
{
    if n < 10 {
        1
    } else {
        let k = digit_count(n / 10);
        k + 1
    }
}

fn push_decimal(out: &mut String, n: u32)
    ensures
        final(out)@ == old(out)@ + decimal(n as nat),
    decreases n,
{
    if n >= 10 {
        push_decimal(out, n / 10);
    }
    out.append(digit_str(n % 10));
    proof {
        if n >= 10 {
            assert(final(out)@ =~= old(out)@ + decimal(n as nat));
        } else {
            assert(final(out)@ =~= old(out)@ + decimal(n as nat));
        }
    }
}

/// Appends `n` in decimal, left-padded with zeros to `width` characters.
pub fn push_padded(out: &mut String, n: u32, width: usize)
    ensures
        final(out)@ == old(out)@ + zero_padded(n as nat, width as nat),
{
    let count = digit_count(n);
    let mut k: usize = count;
    while k < width
        invariant
            count == decimal(n as nat).len(),
            count <= k,
            k <= width || k == count,
            out@ == old(out)@ + Seq::new((k - count) as nat, |_i: int| '0'),
        decreases width - k,
    {
        out.append("0");
        proof {
            reveal_strlit("0");
        }
        assert(out@ =~= old(out)@ + Seq::new((k + 1 - count) as nat, |_i: int| '0'));
        k = k + 1;
    }
    push_decimal(out, n);
    assert(out@ =~= old(out)@ + zero_padded(n as nat, width as nat));
}

/// Renders an offset as `HH:MM:SS.mmm`.
pub fn format_seconds(t: Timestamp) -> (r: String)
    ensures
        r@ == timestamp_text(t),
{
    let hours = t.seconds / 3600;
    let minutes = (t.seconds % 3600) / 60;
    let seconds = t.seconds % 60;
    let mut s = String::new();
    push_padded(&mut s, hours, 2);
    s.append(":");
    push_padded(&mut s, minutes, 2);
    s.append(":");
    push_padded(&mut s, seconds, 2);
    s.append(".");
    push_padded(&mut s, t.millis, 3);
    proof {
        reveal_strlit(":");
        reveal_strlit(".");
    }
    assert(s@ =~= timestamp_text(t));
    s
}

proof fn lemma_decimal_digits(n: nat)
    ensures
        forall|i: int| 0 <= i < decimal(n).len() ==> #[trigger] is_digit(decimal(n)[i]),
        decimal(n).len() >= 1,
    decreases n,
{
    if n >= 10 {
        lemma_decimal_digits(n / 10);
    }
}

proof fn lemma_padded_shape(n: nat, width: nat)
    requires
        (width == 2 && n < 100) || (width == 3 && n < 1000),
    ensures
        zero_padded(n, width).len() == width,
        forall|i: int| 0 <= i < width ==> #[trigger] is_digit(zero_padded(n, width)[i]),
{
    reveal_with_fuel(decimal, 4);
    lemma_decimal_digits(n);
    let d = decimal(n);
    assert(d.len() <= width);
    let p = zero_padded(n, width);
    assert forall|i: int| 0 <= i < width implies #[trigger] is_digit(p[i]) by {
        if d.len() < width {
            let z = Seq::new((width - d.len()) as nat, |_i: int| '0');
            if i >= z.len() {
                assert(p[i] == d[i - z.len()]);
            }
        }
    }
}

/// For offsets under one hundred hours with milliseconds under a thousand,
/// the rendering has exactly the shape `DD:DD:DD.DDD`.
pub proof fn lemma_timestamp_shape(t: Timestamp)
    requires
        t.seconds < 360000,
        t.millis < 1000,
    ensures
        has_timestamp_shape(timestamp_text(t)),
{
    let s = t.seconds as nat;
    lemma_padded_shape(s / 3600, 2);
    lemma_padded_shape((s % 3600) / 60, 2);
    lemma_padded_shape(s % 60, 2);
    lemma_padded_shape(t.millis as nat, 3);
    let r = timestamp_text(t);
    let h = zero_padded(s / 3600, 2);
    let m = zero_padded((s % 3600) / 60, 2);
    let c = zero_padded(s % 60, 2);
    let ms = zero_padded(t.millis as nat, 3);
    assert(r =~= h + seq![':'] + m + seq![':'] + c + seq!['.'] + ms);
    assert forall|i: int| 0 <= i < 12 && i != 2 && i != 5 && i != 8 implies #[trigger] is_digit(
        r[i],
    ) by {
        if i < 2 {
            assert(r[i] == h[i]);
        } else if i < 5 {
            assert(r[i] == m[i - 3]);
        } else if i < 8 {
            assert(r[i] == c[i - 6]);
        } else {
            assert(r[i] == ms[i - 9]);
        }
    }
}

} // verus!
