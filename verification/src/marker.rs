//! The environment marker of the re-execution strategy.
//!
//! On platforms without native process duplication the parent re-launches its
//! own executable once per core and hands each child its core identifier in a
//! single environment variable.  The child reads the variable back: a missing
//! variable means "I am the parent", a well-formed decimal value names the
//! bound core, and anything else is a fatal configuration error — it never
//! silently defaults to some core.

use vstd::prelude::*;
use vstd::string::StrSliceExecFns;
use vstd::string::StringExecFns;

use crate::error::LaunchError;

verus! {

/// The well-known name of the marker variable.
pub const CORE_MARKER_VAR: &'static str = "AFL_LAUNCHER_CLIENT";

/// Whether `c` is a decimal digit.
pub open spec fn is_dec_digit(c: char) -> bool {
    48 <= c as int <= 57
}

/// The numeric value of the decimal digit `c`.
pub open spec fn digit_val(c: char) -> nat
    recommends
        is_dec_digit(c),
{
    (c as int - 48) as nat
}

/// The decimal digit with value `d`.
pub open spec fn digit_char(d: nat) -> char
    recommends
        d < 10,
{
    if d == 0 {
        '0'
    } else if d == 1 {
        '1'
    } else if d == 2 {
        '2'
    } else if d == 3 {
        '3'
    } else if d == 4 {
        '4'
    } else if d == 5 {
        '5'
    } else if d == 6 {
        '6'
    } else if d == 7 {
        '7'
    } else if d == 8 {
        '8'
    } else {
        '9'
    }
}

/// Whether every character of `s` is a decimal digit.
pub open spec fn all_dec_digits(s: Seq<char>) -> bool {
    forall|i: int| 0 <= i < s.len() ==> is_dec_digit(s[i])
}

/// The number a string of decimal digits denotes.
pub open spec fn dec_value(s: Seq<char>) -> nat
    decreases s.len(),
{
    if s.len() == 0 {
        0
    } else {
        dec_value(s.drop_last()) * 10 + digit_val(s.last())
    }
}

/// The canonical decimal spelling of `n`: no sign, no leading zero.
pub open spec fn dec_rep(n: nat) -> Seq<char>
    decreases n,
{
    if n < 10 {
        seq![digit_char(n)]
    } else {
        dec_rep(n / 10).push(digit_char(n % 10))
    }
}

/// Whether `s` is a well-formed marker value: at least one character, all
/// digits, and a value a core index can hold.
pub open spec fn is_core_marker(s: Seq<char>) -> bool {
    &&& s.len() > 0
    &&& all_dec_digits(s)
    &&& dec_value(s) <= usize::MAX
}

/// Parses a marker value back into the core index it names.
///
/// A missing variable is the caller's case; a present value parses if and
/// only if it is a non-empty string of decimal digits whose value fits a core
/// index.  Everything else is the fatal `MalformedEnvMarker` error.
pub fn parse_core_marker(s: &str) -> (r: Result<usize, LaunchError>)
    ensures
        match r {
            Ok(v) => is_core_marker(s@) && v == dec_value(s@),
            Err(e) => !is_core_marker(s@) && e == LaunchError::MalformedEnvMarker,
        },
{
    let n = s.unicode_len();
    if n == 0 {
        return Err(LaunchError::MalformedEnvMarker);
    }
    let mut acc: usize = 0;
    let mut i: usize = 0;
    while i < n
        invariant
            n == s@.len(),
            0 < n,
            i <= n,
            all_dec_digits(s@.take(i as int)),
            acc == dec_value(s@.take(i as int)),
            acc <= usize::MAX,
        decreases n - i,
    {
        let c = s.get_char(i);
        let code = c as u32;
        if code < 48 || code > 57 {
            assert(!is_dec_digit(s@[i as int]));
            return Err(LaunchError::MalformedEnvMarker);
        }
        let d = (code - 48) as usize;
        let wide: u128 = (acc as u128) * 10 + (d as u128);
        if wide > usize::MAX as u128 {
            proof {
                assert(s@.take(i + 1).drop_last() =~= s@.take(i as int));
                assert(dec_value(s@.take(i + 1)) > usize::MAX);
                lemma_dec_value_prefix_le(s@, i + 1);
                assert(s@.take(s@.len() as int) =~= s@);
            }
            return Err(LaunchError::MalformedEnvMarker);
        }
        proof {
            assert(s@.take(i + 1).drop_last() =~= s@.take(i as int));
        }
        acc = wide as usize;
        i += 1;
    }
    proof {
        assert(s@.take(n as int) =~= s@);
    }
    Ok(acc)
}

/// Appending characters to a digit string never shrinks its value: the value
/// of a prefix is at most the value of the whole string.
proof fn lemma_dec_value_prefix_le(s: Seq<char>, i: int)
    requires
        0 <= i <= s.len(),
    ensures
        dec_value(s.take(i)) <= dec_value(s.take(s.len() as int)),
    decreases s.len() - i,
{
    if i < s.len() {
        assert(s.take(i + 1).drop_last() =~= s.take(i));
        assert(dec_value(s.take(i + 1)) == dec_value(s.take(i)) * 10 + digit_val(s[i]));
        assert(dec_value(s.take(i)) * 10 >= dec_value(s.take(i))) by (nonlinear_arith);
        lemma_dec_value_prefix_le(s, i + 1);
    }
}

/// The decimal digit with value `d`, as a one-character string.
fn digit_str(d: u8) -> (s: &'static str)
    requires
        d < 10,
    ensures
        s@ =~= seq![digit_char(d as nat)],
{
    proof {
        reveal_strlit("0");
        reveal_strlit("1");
        reveal_strlit("2");
        reveal_strlit("3");
        reveal_strlit("4");
        reveal_strlit("5");
        reveal_strlit("6");
        reveal_strlit("7");
        reveal_strlit("8");
        reveal_strlit("9");
    }
    match d {
        0 => "0",
        1 => "1",
        2 => "2",
        3 => "3",
        4 => "4",
        5 => "5",
        6 => "6",
        7 => "7",
        8 => "8",
        _ => "9",
    }
}

/// Spells a core index as a marker value: the canonical decimal form.
pub fn core_marker_value(core: usize) -> (s: String)
    ensures
        s@ == dec_rep(core as nat),
{
    let mut digits: Vec<u8> = Vec::new();
    let mut n: usize = core;
    loop
        invariant_except_break
            dec_rep(core as nat) =~= dec_rep(n as nat) + digit_tail(digits@),
        invariant
            forall|k: int| 0 <= k < digits@.len() ==> digits@[k] < 10,
        ensures
            dec_rep(core as nat) =~= digit_tail(digits@),
            forall|k: int| 0 <= k < digits@.len() ==> digits@[k] < 10,
        decreases n,
    {
        let d = (n % 10) as u8;
        let next = n / 10;
        proof {
            lemma_digit_tail_push(digits@, d);
            if next > 0 {
                assert(dec_rep(n as nat) == dec_rep((n as nat) / 10).push(
                    digit_char((n as nat) % 10),
                ));
                assert(dec_rep((n as nat) / 10).push(digit_char((n as nat) % 10)) + digit_tail(
                    digits@,
                ) =~= dec_rep((n as nat) / 10) + (seq![digit_char(d as nat)] + digit_tail(
                    digits@,
                )));
            } else {
                assert(dec_rep(n as nat) =~= seq![digit_char(n as nat)]);
                assert(seq![digit_char(n as nat)] + digit_tail(digits@) =~= seq![
                    digit_char(d as nat),
                ] + digit_tail(digits@));
            }
        }
        digits.push(d);
        if next == 0 {
            break;
        }
        n = next;
    }
    let mut s = String::new();
    let mut k = digits.len();
    while k > 0
        invariant
            forall|j: int| 0 <= j < digits@.len() ==> digits@[j] < 10,
            k <= digits@.len(),
            s@ =~= digit_tail(digits@.skip(k as int)),
        decreases k,
    {
        k = k - 1;
        let ds = digit_str(digits[k]);
        s.append(ds);
        proof {
            assert(digits@.skip(k as int) =~= seq![digits@[k as int]] + digits@.skip(k + 1));
            lemma_digit_tail_cons(digits@[k as int], digits@.skip(k + 1));
        }
    }
    proof {
        assert(digits@.skip(0) =~= digits@);
        assert(dec_rep(core as nat) =~= digit_tail(digits@));
    }
    s
}

/// The characters a reversed list of digit values spells, most significant
/// digit last in `digits`.
spec fn digit_tail(digits: Seq<u8>) -> Seq<char>
    decreases digits.len(),
{
    if digits.len() == 0 {
        Seq::empty()
    } else {
        seq![digit_char(digits.last() as nat)] + digit_tail(digits.drop_last())
    }
}

/// Peeling the first digit off a reversed digit list moves its character to
/// the end of the spelled string.
proof fn lemma_digit_tail_cons(x: u8, v: Seq<u8>)
    ensures
        digit_tail(seq![x] + v) =~= digit_tail(v) + seq![digit_char(x as nat)],
    decreases v.len(),
{
    let u = seq![x] + v;
    if v.len() == 0 {
        assert(digit_tail(Seq::<u8>::empty()) =~= Seq::<char>::empty());
        assert(u.last() == x);
        assert(u.drop_last() =~= Seq::<u8>::empty());
        assert(digit_tail(u) =~= seq![digit_char(x as nat)] + digit_tail(Seq::<u8>::empty()));
    } else {
        assert(u.last() == v.last());
        assert(u.drop_last() =~= seq![x] + v.drop_last());
        lemma_digit_tail_cons(x, v.drop_last());
        assert(digit_tail(u) =~= seq![digit_char(v.last() as nat)] + digit_tail(
            seq![x] + v.drop_last(),
        ));
        assert(digit_tail(v) =~= seq![digit_char(v.last() as nat)] + digit_tail(v.drop_last()));
    }
}

/// Spelling a digit and reading it back gives the digit.
proof fn lemma_digit_char_val(d: nat)
    requires
        d < 10,
    ensures
        digit_val(digit_char(d)) == d,
        is_dec_digit(digit_char(d)),
{
}

/// Appending one digit value to a reversed digit list puts its character in
/// front of the spelled string.
proof fn lemma_digit_tail_push(digits: Seq<u8>, d: u8)
    ensures
        digit_tail(digits.push(d)) =~= seq![digit_char(d as nat)] + digit_tail(digits),
{
    assert(digits.push(d).last() == d);
    assert(digits.push(d).drop_last() =~= digits);
}

/// Round trip: spelling a core index and parsing the spelling gives the
/// index back.  The re-exec parent and its children therefore always agree
/// on which core a worker is bound to.
pub proof fn lemma_marker_round_trip(core: usize)
    ensures
        is_core_marker(dec_rep(core as nat)),
        dec_value(dec_rep(core as nat)) == core,
{
    lemma_dec_rep_digits(core as nat);
    lemma_dec_rep_value(core as nat);
}

/// Every character of the canonical decimal spelling is a digit, and the
/// spelling is never empty.
proof fn lemma_dec_rep_digits(n: nat)
    ensures
        dec_rep(n).len() > 0,
        all_dec_digits(dec_rep(n)),
    decreases n,
{
    if n >= 10 {
        lemma_dec_rep_digits(n / 10);
        assert forall|i: int| 0 <= i < dec_rep(n).len() implies is_dec_digit(
            dec_rep(n)[i],
        ) by {
            if i < dec_rep(n / 10).len() {
                assert(dec_rep(n)[i] == dec_rep(n / 10)[i]);
            } else {
                assert(dec_rep(n)[i] == digit_char(n % 10));
            }
        }
    }
}

/// The canonical decimal spelling denotes the number it was made from.
proof fn lemma_dec_rep_value(n: nat)
    ensures
        dec_value(dec_rep(n)) == n,
    decreases n,
{
    if n < 10 {
        lemma_digit_char_val(n);
        assert(dec_rep(n) =~= seq![digit_char(n)]);
        assert(dec_rep(n).drop_last() =~= Seq::<char>::empty());
        assert(dec_value(Seq::<char>::empty()) == 0);
        assert(dec_rep(n).last() == digit_char(n));
        assert(dec_value(dec_rep(n)) == 0 * 10 + digit_val(digit_char(n)));
    } else {
        lemma_dec_rep_value(n / 10);
        lemma_digit_char_val(n % 10);
        assert(dec_rep(n).drop_last() =~= dec_rep(n / 10));
        assert(dec_rep(n).last() == digit_char(n % 10));
        assert(n == (n / 10) * 10 + n % 10) by {
            vstd::arithmetic::div_mod::lemma_fundamental_div_mod(n as int, 10);
        }
    }
}

} // verus!
