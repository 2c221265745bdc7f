//! The countdown text shown on the overlay: the time left, as minutes and
//! seconds, with the hours in front once an hour or more is left.  Each field
//! has at least two digits.
use vstd::prelude::*;
use vstd::string::*;

use crate::clock::Duration;

verus! {

/// The decimal digit for `d`, for `d` below ten.
pub open spec fn digit_char(d: nat) -> char {
    (d + 48) as char
}

/// `n` in decimal, without leading zeros.
pub open spec fn decimal(n: nat) -> Seq<char>
    decreases n,
{
    if n < 10 {
        seq![digit_char(n)]
    } else {
        decimal(n / 10).push(digit_char(n % 10))
    }
}

/// `n` in decimal, with a leading zero where it has a single digit.
pub open spec fn two_digits(n: nat) -> Seq<char> {
    if n < 10 {
        seq!['0', digit_char(n)]
    } else {
        decimal(n)
    }
}

/// The countdown for `secs` seconds: `HH:MM:SS` once an hour or more is
/// left, else `MM:SS`.
pub open spec fn countdown_spec(secs: nat) -> Seq<char> {
    let hours: nat = secs / 3600;
    let minutes: nat = secs % 3600 / 60;
    let seconds: nat = secs % 60;
    if hours > 0 {
        two_digits(hours) + seq![':'] + two_digits(minutes) + seq![':'] + two_digits(seconds)
    } else {
        two_digits(minutes) + seq![':'] + two_digits(seconds)
    }
}

/// The time left as `MM:SS`, the minutes counting all whole minutes.
pub open spec fn minutes_seconds_spec(secs: nat) -> Seq<char> {
    two_digits(secs / 60) + seq![':'] + two_digits(secs % 60)
}

/// The one-character text of the digit `d`.
fn digit_text(d: u64) -> (s: &'static str)
    requires
        d < 10,
    ensures
        s@ == seq![digit_char(d as nat)],
{
    let digits = "0123456789";
    proof {
        reveal_strlit("0123456789");
        assert(digits@[d as int] == digit_char(d as nat));
    }
    digits.substring_char(d as usize, d as usize + 1)
}

/// Appends `n` in decimal.
fn push_decimal(out: &mut String, n: u64)
    ensures
        final(out)@ == old(out)@ + decimal(n as nat),
    decreases n,
{
    if n >= 10 {
        push_decimal(out, n / 10);
    }
    out.append(digit_text(n % 10));
    proof {
        assert(out@ =~= old(out)@ + decimal(n as nat));
    }
}

/// Appends `n` in decimal, with a leading zero where it has a single digit.
fn push_two_digits(out: &mut String, n: u64)
    ensures
        final(out)@ == old(out)@ + two_digits(n as nat),
{
    if n < 10 {
        let zero = "0";
        proof {
            reveal_strlit("0");
        }
        out.append(zero);
    }
    push_decimal(out, n);
    proof {
        if n < 10 {
            assert(decimal(n as nat) == seq![digit_char(n as nat)]);
        }
        assert(out@ =~= old(out)@ + two_digits(n as nat));
    }
}

/// Appends a colon.
fn push_colon(out: &mut String)
    ensures
        final(out)@ == old(out)@ + seq![':'],
{
    let colon = ":";
    proof {
        reveal_strlit(":");
    }
    out.append(colon);
}

/// The countdown text for the time `remaining`, counted in whole seconds:
/// `HH:MM:SS` once an hour or more is left, else `MM:SS`.
pub fn countdown_text(remaining: Duration) -> (text: String)
    ensures
        text@ == countdown_spec(remaining@ / 1_000_000_000),
{
    let total: u64 = remaining.as_secs();
    let hours: u64 = total / 3600;
    let minutes: u64 = total % 3600 / 60;
    let seconds: u64 = total % 60;
    let mut text = String::new();
    if hours > 0 {
        push_two_digits(&mut text, hours);
        push_colon(&mut text);
    }
    push_two_digits(&mut text, minutes);
    push_colon(&mut text);
    push_two_digits(&mut text, seconds);
    proof {
        assert(text@ =~= countdown_spec(total as nat));
    }
    text
}

/// The time `remaining` as `MM:SS`, counted in whole seconds, the minutes
/// counting every whole minute left.
pub fn minutes_seconds_text(remaining: Duration) -> (text: String)
    ensures
        text@ == minutes_seconds_spec(remaining@ / 1_000_000_000),
{
    let total: u64 = remaining.as_secs();
    let mut text = String::new();
    push_two_digits(&mut text, total / 60);
    push_colon(&mut text);
    push_two_digits(&mut text, total % 60);
    proof {
        assert(text@ =~= minutes_seconds_spec(total as nat));
    }
    text
}

/// The number a string of decimal digits stands for.
pub open spec fn decimal_value(s: Seq<char>) -> nat
    decreases s.len(),
{
    if s.len() == 0 {
        0
    } else {
        decimal_value(s.drop_last()) * 10 + (s.last() as nat - 48) as nat
    }
}

proof fn lemma_digit_value(d: nat)
    requires
        d < 10,
    ensures
        digit_char(d) as nat == d + 48,
{
    assert(((d + 48) as char) as nat == d + 48);
}

proof fn lemma_decimal_reads_back(n: nat)
    ensures
        decimal_value(decimal(n)) == n,
        decimal(n).len() >= 1,
        n < 100 ==> decimal(n).len() <= 2,
    decreases n,
{
    lemma_digit_value(n % 10);
    if n >= 10 {
        lemma_decimal_reads_back(n / 10);
        let d = decimal(n);
        assert(d.drop_last() =~= decimal(n / 10));
        assert(d.last() == digit_char(n % 10));
        assert(n == (n / 10) * 10 + n % 10);
        assert(decimal_value(d) == decimal_value(decimal(n / 10)) * 10 + (d.last() as nat - 48) as nat);
        assert(decimal_value(d) == (n / 10) * 10 + n % 10);
    } else {
        assert(seq![digit_char(n)].drop_last() =~= Seq::<char>::empty());
        assert(decimal_value(decimal(n)) == decimal_value(Seq::<char>::empty()) * 10 + (digit_char(n) as nat - 48) as nat);
    }
}

proof fn lemma_two_digits_read_back(n: nat)
    ensures
        decimal_value(two_digits(n)) == n,
        two_digits(n).len() >= 2,
        n < 100 ==> two_digits(n).len() == 2,
{
    lemma_decimal_reads_back(n);
    if n < 10 {
        lemma_digit_value(n);
        let t = seq!['0', digit_char(n)];
        assert(t.drop_last() =~= seq!['0']);
        assert(seq!['0'].drop_last() =~= Seq::<char>::empty());
        assert('0' as nat == 48);
        assert(decimal_value(seq!['0']) == decimal_value(Seq::<char>::empty()) * 10 + ('0' as nat - 48) as nat);
        assert(decimal_value(t) == n);
    } else {
        assert(n / 10 >= 1);
        assert(decimal(n).len() == decimal(n / 10).len() + 1);
    }
}

/// The countdown shows exactly the whole seconds left: its fields, read as
/// numbers, give back the hours, minutes and seconds, and the time they add
/// up to.  Under an hour it has the five characters `MM:SS`; from one hour
/// to a hundred, the eight of `HH:MM:SS`.
pub proof fn lemma_countdown_reads_back(secs: nat)
    ensures
        ({
            let t = countdown_spec(secs);
            let k: int = t.len() as int;
            &&& k >= 5
            &&& t[k - 3] == ':'
            &&& decimal_value(t.subrange(k - 2, k)) == secs % 60
            &&& decimal_value(t.subrange(k - 5, k - 3)) == secs % 3600 / 60
            &&& secs < 3600 ==> k == 5
            &&& 3600 <= secs < 360000 ==> k == 8
            &&& secs >= 3600 ==> {
                &&& k >= 8
                &&& t[k - 6] == ':'
                &&& decimal_value(t.subrange(0, k - 6)) == secs / 3600
                &&& decimal_value(t.subrange(0, k - 6)) * 3600 + decimal_value(
                    t.subrange(k - 5, k - 3),
                ) * 60 + decimal_value(t.subrange(k - 2, k)) == secs
            }
        }),
{
    let hours: nat = secs / 3600;
    let minutes: nat = secs % 3600 / 60;
    let seconds: nat = secs % 60;
    lemma_two_digits_read_back(hours);
    lemma_two_digits_read_back(minutes);
    lemma_two_digits_read_back(seconds);
    let t = countdown_spec(secs);
    let k: int = t.len() as int;
    assert(t.subrange(k - 2, k) =~= two_digits(seconds));
    assert(t.subrange(k - 5, k - 3) =~= two_digits(minutes));
    if hours > 0 {
        assert(t.subrange(0, k - 6) =~= two_digits(hours));
    }
}

/// The `MM:SS` text shows exactly the whole seconds left: its minutes and
/// seconds, read as numbers, add up to them, and the seconds field has two
/// digits below sixty.
pub proof fn lemma_minutes_seconds_reads_back(secs: nat)
    ensures
        ({
            let t = minutes_seconds_spec(secs);
            let k: int = t.len() as int;
            &&& k >= 5
            &&& t[k - 3] == ':'
            &&& decimal_value(t.subrange(k - 2, k)) == secs % 60
            &&& decimal_value(t.subrange(0, k - 3)) == secs / 60
            &&& decimal_value(t.subrange(0, k - 3)) * 60 + decimal_value(t.subrange(k - 2, k))
                == secs
        }),
{
    lemma_two_digits_read_back(secs / 60);
    lemma_two_digits_read_back(secs % 60);
    let t = minutes_seconds_spec(secs);
    let k: int = t.len() as int;
    assert(t.subrange(k - 2, k) =~= two_digits(secs % 60));
    assert(t.subrange(0, k - 3) =~= two_digits(secs / 60));
}

} // verus!
