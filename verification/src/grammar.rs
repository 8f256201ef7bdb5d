//! The attribute-value grammars: lengths, rect shorthands, colors, grid
//! placements and scalars.
//!
//! Every grammar is defined by a spec function over the character sequence,
//! and each parser is proved to return exactly what its grammar denotes.
//! Numbers are read as fixed-point values in thousandths; fraction digits
//! beyond the third are dropped, and the integer part is limited to fifteen
//! significant digits, so every accepted magnitude fits comfortably in an
//! `i64`.

use vstd::prelude::*;

use crate::color::{hex_channel, hex_channel_exec, ColorValue};
use crate::error::GuiseError;
use crate::layout::GridPlacement;
use crate::text::{
    all_digits, append_digit, append_u64, char_digit, chars_of, dec_digits, digit_char,
    is_digit_char, lemma_num_of_dec_digits, num_of_digits,
};
use crate::units::{UiRect, Val, MAX_MILLI};

verus! {

broadcast use vstd::string::group_string_axioms;

/// The largest number of significant integer digits a numeric token may
/// carry.
pub const MAX_SIG_DIGITS: usize = 15;

/// Ten to the `k`.
pub open spec fn pow10(k: nat) -> nat
    decreases k,
{
    if k == 0 {
        1
    } else {
        10 * pow10((k - 1) as nat)
    }
}

/// The values of the powers of ten the grammars reason with.
pub proof fn lemma_pow10_16()
    ensures
        pow10(13) == 10000000000000nat,
        pow10(15) == 1000000000000000nat,
        pow10(16) == 10000000000000000nat,
{
    assert(pow10(0) == 1);
    assert(pow10(1) == 10);
    assert(pow10(2) == 100);
    assert(pow10(3) == 1000);
    assert(pow10(4) == 10000);
    assert(pow10(5) == 100000);
    assert(pow10(6) == 1000000);
    assert(pow10(7) == 10000000);
    assert(pow10(8) == 100000000);
    assert(pow10(9) == 1000000000);
    assert(pow10(10) == 10000000000);
    assert(pow10(11) == 100000000000);
    assert(pow10(12) == 1000000000000);
    assert(pow10(13) == 10000000000000);
    assert(pow10(14) == 100000000000000);
    assert(pow10(15) == 1000000000000000);
    assert(pow10(16) == 10000000000000000);
}

/// Powers of ten do not decrease.
pub proof fn lemma_pow10_mono(a: nat, b: nat)
    requires
        a <= b,
    ensures
        pow10(a) <= pow10(b),
    decreases b,
{
    if a < b {
        lemma_pow10_mono(a, (b - 1) as nat);
    }
}

/// A digit string of length `k` denotes a value below ten to the `k`.
pub proof fn lemma_num_of_digits_bound(s: Seq<char>)
    requires
        all_digits(s),
    ensures
        num_of_digits(s) < pow10(s.len()),
    decreases s.len(),
{
    if s.len() == 0 {
    } else {
        assert(all_digits(s.drop_last()));
        lemma_num_of_digits_bound(s.drop_last());
        assert(is_digit_char(s.last()));
        assert(char_digit(s.last()) as nat <= 9);
    }
}

/// `s` with its leading zero characters removed.
pub open spec fn drop_leading_zeros(s: Seq<char>) -> Seq<char>
    decreases s.len(),
{
    if s.len() > 0 && s[0] == '0' {
        drop_leading_zeros(s.drop_first())
    } else {
        s
    }
}

/// A leading zero does not change the value a digit string denotes.
pub proof fn lemma_num_of_digits_cons_zero(s: Seq<char>)
    ensures
        num_of_digits(seq!['0'] + s) == num_of_digits(s),
    decreases s.len(),
{
    if s.len() == 0 {
        assert(seq!['0'] + s =~= seq!['0']);
        assert(num_of_digits(seq!['0']) == num_of_digits(Seq::<char>::empty()) * 10 + char_digit(
            '0',
        ) as nat) by {
            assert(seq!['0'].drop_last() =~= Seq::<char>::empty());
        }
    } else {
        lemma_num_of_digits_cons_zero(s.drop_last());
        assert((seq!['0'] + s).drop_last() =~= seq!['0'] + s.drop_last());
        assert((seq!['0'] + s).last() == s.last());
    }
}

/// Dropping leading zeros does not change the value a digit string denotes.
pub proof fn lemma_drop_leading_zeros(s: Seq<char>)
    ensures
        num_of_digits(drop_leading_zeros(s)) == num_of_digits(s),
        drop_leading_zeros(s).len() <= s.len(),
        all_digits(s) ==> all_digits(drop_leading_zeros(s)),
        drop_leading_zeros(s).len() > 0 ==> drop_leading_zeros(s)[0] != '0',
    decreases s.len(),
{
    if s.len() > 0 && s[0] == '0' {
        lemma_drop_leading_zeros(s.drop_first());
        assert(s =~= seq!['0'] + s.drop_first());
        lemma_num_of_digits_cons_zero(s.drop_first());
        assert(all_digits(s) ==> all_digits(s.drop_first()));
    }
}

/// The value, in thousandths, of a fraction-digit string; digits beyond the
/// third are dropped.
pub open spec fn frac_milli(s: Seq<char>) -> nat {
    let d0: nat = if s.len() > 0 {
        char_digit(s[0]) as nat
    } else {
        0
    };
    let d1: nat = if s.len() > 1 {
        char_digit(s[1]) as nat
    } else {
        0
    };
    let d2: nat = if s.len() > 2 {
        char_digit(s[2]) as nat
    } else {
        0
    };
    d0 * 100 + d1 * 10 + d2
}

/// The value, in thousandths, denoted by an unsigned numeric token:
/// digits with at most one decimal point and at least one digit, the
/// integer part limited to fifteen significant digits.
pub open spec fn unsigned_milli(s: Seq<char>) -> Option<nat> {
    let parts = match s.index_of_first('.') {
        Option::None => (s, Seq::<char>::empty()),
        Option::Some(i) => (s.take(i), s.skip(i + 1)),
    };
    let ip = parts.0;
    let fp = parts.1;
    if all_digits(ip) && all_digits(fp) && ip.len() + fp.len() >= 1 && drop_leading_zeros(
        ip,
    ).len() <= MAX_SIG_DIGITS {
        Option::Some(num_of_digits(ip) * 1000 + frac_milli(fp))
    } else {
        Option::None
    }
}

/// The value, in thousandths, denoted by a signed numeric token: an
/// optional leading minus sign, then an unsigned numeric token.
pub open spec fn signed_milli(s: Seq<char>) -> Option<int> {
    if s.len() >= 1 && s[0] == '-' {
        match unsigned_milli(s.skip(1)) {
            Option::Some(n) => Option::Some(-(n as int)),
            Option::None => Option::None,
        }
    } else {
        match unsigned_milli(s) {
            Option::Some(n) => Option::Some(n as int),
            Option::None => Option::None,
        }
    }
}

/// Whether `s` ends with the suffix `suf`.
pub open spec fn ends_with(s: Seq<char>, suf: Seq<char>) -> bool {
    s.len() >= suf.len() && s.skip(s.len() - suf.len()) == suf
}

/// The length of the unit suffix of a length token; zero when there is
/// none, in which case the unit defaults to pixels.
pub open spec fn unit_suffix_len(s: Seq<char>) -> int {
    if ends_with(s, "px"@) {
        2
    } else if ends_with(s, "vw"@) {
        2
    } else if ends_with(s, "vh"@) {
        2
    } else if ends_with(s, "vmin"@) {
        4
    } else if ends_with(s, "vmax"@) {
        4
    } else if ends_with(s, "%"@) {
        1
    } else {
        0
    }
}

/// The length value denoted by the unit suffix of `s` and a magnitude.
pub open spec fn val_of_unit(s: Seq<char>, m: int) -> Val {
    if ends_with(s, "px"@) {
        Val::Px(m as i64)
    } else if ends_with(s, "vw"@) {
        Val::Vw(m as i64)
    } else if ends_with(s, "vh"@) {
        Val::Vh(m as i64)
    } else if ends_with(s, "vmin"@) {
        Val::VMin(m as i64)
    } else if ends_with(s, "vmax"@) {
        Val::VMax(m as i64)
    } else if ends_with(s, "%"@) {
        Val::Percent(m as i64)
    } else {
        Val::Px(m as i64)
    }
}

/// The length grammar: the keyword `auto`, or a signed number followed by
/// an optional unit, defaulting to pixels.
pub open spec fn parse_val_spec(s: Seq<char>) -> Option<Val> {
    if s == "auto"@ {
        Option::Some(Val::Auto)
    } else {
        match signed_milli(s.take(s.len() - unit_suffix_len(s))) {
            Option::Some(m) => Option::Some(val_of_unit(s, m)),
            Option::None => Option::None,
        }
    }
}

/// The numeric value of one digit character.
fn digit_of_char(c: char) -> (r: u64)
    requires
        is_digit_char(c),
    ensures
        r == char_digit(c),
        r <= 9,
{
    (c as u32 - 48) as u64
}

/// The value of a digit range, read most significant digit first.
fn digits_value(v: &Vec<char>, lo: usize, hi: usize) -> (r: u64)
    requires
        lo <= hi <= v.len(),
        all_digits(v@.subrange(lo as int, hi as int)),
        hi - lo <= MAX_SIG_DIGITS,
    ensures
        r == num_of_digits(v@.subrange(lo as int, hi as int)),
        r <= 999999999999999,
    decreases hi - lo,
{
    let ghost s = v@.subrange(lo as int, hi as int);
    proof {
        lemma_num_of_digits_bound(s);
        lemma_pow10_mono(s.len(), 15);
        lemma_pow10_16();
    }
    if lo == hi {
        0
    } else {
        proof {
            assert(s.drop_last() =~= v@.subrange(lo as int, hi - 1));
            assert(s.last() == v@[hi - 1]);
            assert(is_digit_char(v@[hi - 1])) by {
                assert(s[hi - lo - 1] == v@[hi - 1]);
            }
        }
        let pre = digits_value(v, lo, hi - 1);
        pre * 10 + digit_of_char(v[hi - 1])
    }
}

/// Whether every character of the range is a decimal digit.
fn all_digits_range(v: &Vec<char>, lo: usize, hi: usize) -> (r: bool)
    requires
        lo <= hi <= v.len(),
    ensures
        r == all_digits(v@.subrange(lo as int, hi as int)),
{
    let ghost s = v@.subrange(lo as int, hi as int);
    let mut i: usize = lo;
    while i < hi
        invariant
            lo <= i <= hi <= v.len(),
            s == v@.subrange(lo as int, hi as int),
            forall|j: int| lo <= j < i ==> is_digit_char(#[trigger] v@[j]),
        decreases hi - i,
    {
        let c = v[i];
        if !('0' <= c && c <= '9') {
            proof {
                assert(s[i - lo] == v@[i as int]);
                assert(!is_digit_char(s[i - lo]));
            }
            return false;
        }
        i = i + 1;
    }
    proof {
        assert forall|k: int| 0 <= k < s.len() implies is_digit_char(#[trigger] s[k]) by {
            assert(s[k] == v@[lo + k]);
        }
    }
    true
}

/// The position of the first decimal point in the range, if any.
fn find_dot(v: &Vec<char>, lo: usize, hi: usize) -> (r: Option<usize>)
    requires
        lo <= hi <= v.len(),
    ensures
        match r {
            Option::Some(i) => {
                &&& lo <= i < hi
                &&& v@.subrange(lo as int, hi as int).index_of_first('.') == Option::Some(
                    i - lo,
                )
            },
            Option::None => v@.subrange(lo as int, hi as int).index_of_first('.')
                == Option::None::<int>,
        },
{
    let ghost s = v@.subrange(lo as int, hi as int);
    let mut i: usize = lo;
    while i < hi
        invariant
            lo <= i <= hi <= v.len(),
            s == v@.subrange(lo as int, hi as int),
            forall|j: int| lo <= j < i ==> v@[j] != '.',
        decreases hi - i,
    {
        if v[i] == '.' {
            proof {
                s.index_of_first_ensures('.');
                assert(s[i - lo] == v@[i as int]);
                assert(s.contains('.')) by {
                    assert(s[i - lo] == '.');
                }
                let k = s.index_of_first('.')->0;
                assert(s[k] == '.');
                assert forall|j: int| 0 <= j < i - lo implies s[j] != '.' by {
                    assert(s[j] == v@[lo + j]);
                }
                assert(k == i - lo);
            }
            return Option::Some(i);
        }
        i = i + 1;
    }
    proof {
        s.index_of_first_ensures('.');
        if s.contains('.') {
            let k = s.index_of_first('.')->0;
            assert(s[k] == v@[lo + k]);
        }
    }
    Option::None
}

/// The start of the range once leading zeros are skipped.
fn skip_zeros(v: &Vec<char>, lo: usize, hi: usize) -> (r: usize)
    requires
        lo <= hi <= v.len(),
    ensures
        lo <= r <= hi,
        v@.subrange(r as int, hi as int) == drop_leading_zeros(
            v@.subrange(lo as int, hi as int),
        ),
    decreases hi - lo,
{
    if lo < hi && v[lo] == '0' {
        proof {
            assert(v@.subrange(lo as int, hi as int).drop_first() =~= v@.subrange(
                lo + 1,
                hi as int,
            ));
        }
        skip_zeros(v, lo + 1, hi)
    } else {
        lo
    }
}

/// Parses an unsigned numeric token from the range, in thousandths.
fn parse_unsigned_range(v: &Vec<char>, lo: usize, hi: usize) -> (r: Option<i64>)
    requires
        lo <= hi <= v.len(),
    ensures
        match r {
            Option::Some(m) => {
                &&& unsigned_milli(v@.subrange(lo as int, hi as int)) == Option::Some(m as nat)
                &&& 0 <= m <= MAX_MILLI
            },
            Option::None => unsigned_milli(v@.subrange(lo as int, hi as int))
                == Option::None::<nat>,
        },
{
    let ghost s = v@.subrange(lo as int, hi as int);
    let (ip_lo, ip_hi, fp_lo, fp_hi): (usize, usize, usize, usize) = match find_dot(v, lo, hi) {
        Option::Some(d) => (lo, d, d + 1, hi),
        Option::None => (lo, hi, hi, hi),
    };
    let ghost ip = v@.subrange(ip_lo as int, ip_hi as int);
    let ghost fp = v@.subrange(fp_lo as int, fp_hi as int);
    proof {
        match s.index_of_first('.') {
            Option::Some(i) => {
                assert(s.take(i) =~= ip);
                assert(s.skip(i + 1) =~= fp);
            },
            Option::None => {
                assert(s =~= ip);
                assert(fp =~= Seq::<char>::empty());
            },
        }
    }
    if !all_digits_range(v, ip_lo, ip_hi) {
        return Option::None;
    }
    if !all_digits_range(v, fp_lo, fp_hi) {
        return Option::None;
    }
    if (ip_hi - ip_lo) + (fp_hi - fp_lo) < 1 {
        return Option::None;
    }
    let sig_lo = skip_zeros(v, ip_lo, ip_hi);
    if ip_hi - sig_lo > MAX_SIG_DIGITS {
        return Option::None;
    }
    proof {
        lemma_drop_leading_zeros(ip);
        assert(v@.subrange(sig_lo as int, ip_hi as int) == drop_leading_zeros(ip));
        assert(all_digits(v@.subrange(sig_lo as int, ip_hi as int)));
    }
    let int_part = digits_value(v, sig_lo, ip_hi);
    let d0: u64 = if fp_hi - fp_lo > 0 {
        proof {
            assert(fp[0] == v@[fp_lo as int]);
        }
        digit_of_char(v[fp_lo])
    } else {
        0
    };
    let d1: u64 = if fp_hi - fp_lo > 1 {
        proof {
            assert(fp[1] == v@[fp_lo + 1]);
        }
        digit_of_char(v[fp_lo + 1])
    } else {
        0
    };
    let d2: u64 = if fp_hi - fp_lo > 2 {
        proof {
            assert(fp[2] == v@[fp_lo + 2]);
        }
        digit_of_char(v[fp_lo + 2])
    } else {
        0
    };
    let frac = d0 * 100 + d1 * 10 + d2;
    proof {
        assert(frac == frac_milli(fp));
        assert(int_part == num_of_digits(ip));
    }
    let total = int_part * 1000 + frac;
    Option::Some(total as i64)
}

/// Whether `c` is attribute-value whitespace.
pub open spec fn is_space(c: char) -> bool {
    c == ' ' || c == '\t' || c == '\n' || c == '\r'
}

/// The end of the whitespace-free token starting at `i`.
pub open spec fn token_end(s: Seq<char>, i: int) -> int
    decreases s.len() - i
        when 0 <= i <= s.len()
{
    if i >= s.len() || is_space(s[i]) {
        i
    } else {
        token_end(s, i + 1)
    }
}

/// Token ends lie between the start and the end of the string.
pub proof fn lemma_token_end(s: Seq<char>, i: int)
    requires
        0 <= i <= s.len(),
    ensures
        i <= token_end(s, i) <= s.len(),
    decreases s.len() - i,
{
    if i < s.len() && !is_space(s[i]) {
        lemma_token_end(s, i + 1);
    }
}

/// The whitespace-separated tokens of `s` from position `i` on.
pub open spec fn split_ws_from(s: Seq<char>, i: int) -> Seq<Seq<char>>
    decreases s.len() - i
        when 0 <= i <= s.len()
        via lemma_split_ws_from_decreases
{
    if i >= s.len() {
        Seq::empty()
    } else if is_space(s[i]) {
        split_ws_from(s, i + 1)
    } else {
        seq![s.subrange(i, token_end(s, i))] + split_ws_from(s, token_end(s, i))
    }
}

#[via_fn]
proof fn lemma_split_ws_from_decreases(s: Seq<char>, i: int) {
    if 0 <= i < s.len() && !is_space(s[i]) {
        lemma_token_end(s, i + 1);
    }
}

/// The whitespace-separated tokens of `s`.
pub open spec fn split_ws(s: Seq<char>) -> Seq<Seq<char>> {
    split_ws_from(s, 0)
}

/// The end of the whitespace-free token starting at absolute position `i`.
fn token_end_range(v: &Vec<char>, lo: usize, hi: usize, i: usize) -> (r: usize)
    requires
        lo <= i,
        i <= hi <= v.len(),
    ensures
        i <= r <= hi,
        r - lo == token_end(v@.subrange(lo as int, hi as int), i - lo),
        i < hi && !is_space(v@[i as int]) ==> r > i,
    decreases hi - i,
{
    let ghost s = v@.subrange(lo as int, hi as int);
    if i < hi {
        proof {
            assert(s[i - lo] == v@[i as int]);
        }
        let c = v[i];
        if !(c == ' ' || c == '\t' || c == '\n' || c == '\r') {
            let r = token_end_range(v, lo, hi, i + 1);
            proof {
                lemma_token_end(s, i + 1 - lo);
            }
            return r;
        }
    }
    i
}

/// The whitespace-separated tokens of the range, as index pairs.
fn split_tokens_from(v: &Vec<char>, lo: usize, hi: usize, i: usize) -> (toks: Vec<(usize, usize)>)
    requires
        lo <= i,
        i <= hi <= v.len(),
    ensures
        ({
            let parts = split_ws_from(v@.subrange(lo as int, hi as int), i - lo);
            &&& toks@.len() == parts.len()
            &&& forall|k: int|
                0 <= k < parts.len() ==> {
                    &&& lo <= (#[trigger] toks@[k]).0 <= toks@[k].1 <= hi
                    &&& v@.subrange(toks@[k].0 as int, toks@[k].1 as int) == parts[k]
                }
        }),
    decreases hi - i,
{
    let ghost s = v@.subrange(lo as int, hi as int);
    if i >= hi {
        Vec::new()
    } else {
        proof {
            assert(s[i - lo] == v@[i as int]);
        }
        let c = v[i];
        if c == ' ' || c == '\t' || c == '\n' || c == '\r' {
            split_tokens_from(v, lo, hi, i + 1)
        } else {
            let e = token_end_range(v, lo, hi, i);
            let rest = split_tokens_from(v, lo, hi, e);
            let mut toks: Vec<(usize, usize)> = Vec::new();
            toks.push((i, e));
            let mut k: usize = 0;
            while k < rest.len()
                invariant
                    0 <= k <= rest.len(),
                    toks@.len() == k + 1,
                    toks@[0] == (i, e),
                    forall|j: int| 0 <= j < k ==> toks@[j + 1] == rest@[j],
                decreases rest.len() - k,
            {
                let t = rest[k];
                toks.push(t);
                k = k + 1;
            }
            proof {
                let parts = split_ws_from(s, i - lo);
                let rparts = split_ws_from(s, e - lo);
                assert(parts == seq![s.subrange(i - lo, e - lo)] + rparts);
                assert(s.subrange(i - lo, e - lo) =~= v@.subrange(i as int, e as int));
                assert(toks@.len() == parts.len());
                assert forall|k2: int| 0 <= k2 < parts.len() implies {
                    &&& lo <= (#[trigger] toks@[k2]).0 <= toks@[k2].1 <= hi
                    &&& v@.subrange(toks@[k2].0 as int, toks@[k2].1 as int) == parts[k2]
                } by {
                    if k2 == 0 {
                        assert(parts[0] == s.subrange(i - lo, e - lo));
                    } else {
                        assert(toks@[k2] == rest@[k2 - 1]);
                        assert(parts[k2] == rparts[k2 - 1]);
                    }
                }
            }
            toks
        }
    }
}

/// The rect-shorthand grammar: one to four length tokens in CSS order
/// (top, right, bottom, left), missing sides defaulting as in CSS.
pub open spec fn parse_uirect_spec(s: Seq<char>) -> Option<UiRect> {
    let toks = split_ws(s);
    if 1 <= toks.len() <= 4 {
        let top = parse_val_spec(toks[0]);
        let right = if toks.len() >= 2 {
            parse_val_spec(toks[1])
        } else {
            top
        };
        let bottom = if toks.len() >= 3 {
            parse_val_spec(toks[2])
        } else {
            top
        };
        let left = if toks.len() >= 4 {
            parse_val_spec(toks[3])
        } else {
            right
        };
        if top is Some && right is Some && bottom is Some && left is Some {
            Option::Some(
                UiRect { left: left->0, right: right->0, top: top->0, bottom: bottom->0 },
            )
        } else {
            Option::None
        }
    } else {
        Option::None
    }
}

/// The text a failed rect parse reports: the first offending token, or the
/// whole input when the token count is wrong.
pub open spec fn uirect_err_token(s: Seq<char>) -> Seq<char> {
    let toks = split_ws(s);
    if toks.len() < 1 || toks.len() > 4 {
        s
    } else if parse_val_spec(toks[0]) is None {
        toks[0]
    } else if toks.len() >= 2 && parse_val_spec(toks[1]) is None {
        toks[1]
    } else if toks.len() >= 3 && parse_val_spec(toks[2]) is None {
        toks[2]
    } else if toks.len() >= 4 && parse_val_spec(toks[3]) is None {
        toks[3]
    } else {
        s
    }
}

/// Which unit suffix closes a length token.
enum UnitTag {
    NoUnit,
    Px,
    Vw,
    Vh,
    VMin,
    VMax,
    Percent,
}

/// Classifies the unit suffix of the range, mirroring the chain of
/// [`unit_suffix_len`] and [`val_of_unit`].
fn unit_split_range(v: &Vec<char>, lo: usize, hi: usize) -> (r: (usize, UnitTag))
    requires
        lo <= hi <= v.len(),
    ensures
        ({
            let s = v@.subrange(lo as int, hi as int);
            &&& r.0 == unit_suffix_len(s)
            &&& r.0 <= hi - lo
            &&& match r.1 {
                UnitTag::Px => ends_with(s, "px"@),
                UnitTag::Vw => !ends_with(s, "px"@) && ends_with(s, "vw"@),
                UnitTag::Vh => !ends_with(s, "px"@) && !ends_with(s, "vw"@) && ends_with(
                    s,
                    "vh"@,
                ),
                UnitTag::VMin => !ends_with(s, "px"@) && !ends_with(s, "vw"@) && !ends_with(
                    s,
                    "vh"@,
                ) && ends_with(s, "vmin"@),
                UnitTag::VMax => !ends_with(s, "px"@) && !ends_with(s, "vw"@) && !ends_with(
                    s,
                    "vh"@,
                ) && !ends_with(s, "vmin"@) && ends_with(s, "vmax"@),
                UnitTag::Percent => !ends_with(s, "px"@) && !ends_with(s, "vw"@) && !ends_with(
                    s,
                    "vh"@,
                ) && !ends_with(s, "vmin"@) && !ends_with(s, "vmax"@) && ends_with(s, "%"@),
                UnitTag::NoUnit => !ends_with(s, "px"@) && !ends_with(s, "vw"@) && !ends_with(
                    s,
                    "vh"@,
                ) && !ends_with(s, "vmin"@) && !ends_with(s, "vmax"@) && !ends_with(s, "%"@),
            }
        }),
{
    let ghost s = v@.subrange(lo as int, hi as int);
    let n = hi - lo;
    proof {
        reveal_strlit("px");
        reveal_strlit("vw");
        reveal_strlit("vh");
        reveal_strlit("vmin");
        reveal_strlit("vmax");
        reveal_strlit("%");
        if n >= 1 {
            assert(s.skip(n - 1) =~= seq![v@[hi - 1]]);
        }
        if n >= 2 {
            assert(s.skip(n - 2) =~= seq![v@[hi - 2], v@[hi - 1]]);
        }
        if n >= 4 {
            assert(s.skip(n - 4) =~= seq![v@[hi - 4], v@[hi - 3], v@[hi - 2], v@[hi - 1]]);
        }
    }
    if n >= 2 && v[hi - 2] == 'p' && v[hi - 1] == 'x' {
        proof {
            assert(s.skip(n - 2) =~= "px"@);
            assert(unit_suffix_len(s) == 2);
        }
        (2, UnitTag::Px)
    } else if n >= 2 && v[hi - 2] == 'v' && v[hi - 1] == 'w' {
        proof {
            assert(s.skip(n - 2) =~= "vw"@);
            assert(unit_suffix_len(s) == 2);
        }
        (2, UnitTag::Vw)
    } else if n >= 2 && v[hi - 2] == 'v' && v[hi - 1] == 'h' {
        proof {
            assert(s.skip(n - 2) =~= "vh"@);
            assert(unit_suffix_len(s) == 2);
        }
        (2, UnitTag::Vh)
    } else if n >= 4 && v[hi - 4] == 'v' && v[hi - 3] == 'm' && v[hi - 2] == 'i' && v[hi - 1]
        == 'n' {
        proof {
            assert(s.skip(n - 4) =~= "vmin"@);
            assert(unit_suffix_len(s) == 4);
        }
        (4, UnitTag::VMin)
    } else if n >= 4 && v[hi - 4] == 'v' && v[hi - 3] == 'm' && v[hi - 2] == 'a' && v[hi - 1]
        == 'x' {
        proof {
            assert(s.skip(n - 4) =~= "vmax"@);
            assert(unit_suffix_len(s) == 4);
        }
        (4, UnitTag::VMax)
    } else if n >= 1 && v[hi - 1] == '%' {
        proof {
            assert(s.skip(n - 1) =~= "%"@);
            assert(unit_suffix_len(s) == 1);
        }
        (1, UnitTag::Percent)
    } else {
        proof {
            assert(!ends_with(s, "px"@));
            assert(!ends_with(s, "vw"@));
            assert(!ends_with(s, "vh"@));
            assert(!ends_with(s, "vmin"@));
            assert(!ends_with(s, "vmax"@));
            assert("%"@.len() == 1);
            assert("%"@[0] == '%');
            if n >= 1 {
                assert(s.skip(n - 1) == seq![v@[hi - 1]]);
                assert(v@[hi - 1] != '%');
            }
            assert(!ends_with(s, "%"@));
            assert(unit_suffix_len(s) == 0);
        }
        (0, UnitTag::NoUnit)
    }
}

/// Parses a length token from the range.
pub(crate) fn parse_val_range(v: &Vec<char>, lo: usize, hi: usize) -> (r: Option<Val>)
    requires
        lo <= hi <= v.len(),
    ensures
        r == parse_val_spec(v@.subrange(lo as int, hi as int)),
        r matches Option::Some(val) ==> val.wf(),
{
    let ghost s = v@.subrange(lo as int, hi as int);
    let n = hi - lo;
    if n == 4 && v[lo] == 'a' && v[lo + 1] == 'u' && v[lo + 2] == 't' && v[lo + 3] == 'o' {
        proof {
            reveal_strlit("auto");
            assert(s =~= "auto"@);
        }
        return Option::Some(Val::Auto);
    }
    proof {
        reveal_strlit("auto");
        if n == 4 {
            assert(s[0] == v@[lo as int]);
            assert(s[1] == v@[lo + 1]);
            assert(s[2] == v@[lo + 2]);
            assert(s[3] == v@[lo + 3]);
        }
        assert(s != "auto"@);
    }
    let (ulen, tag) = unit_split_range(v, lo, hi);
    let num_hi = hi - ulen;
    proof {
        assert(s.take(s.len() - unit_suffix_len(s)) =~= v@.subrange(lo as int, num_hi as int));
    }
    match parse_signed_range(v, lo, num_hi) {
        Option::Some(m) => {
            let val = match tag {
                UnitTag::Px => Val::Px(m),
                UnitTag::Vw => Val::Vw(m),
                UnitTag::Vh => Val::Vh(m),
                UnitTag::VMin => Val::VMin(m),
                UnitTag::VMax => Val::VMax(m),
                UnitTag::Percent => Val::Percent(m),
                UnitTag::NoUnit => Val::Px(m),
            };
            proof {
                assert(val == val_of_unit(s, m as int));
            }
            Option::Some(val)
        },
        Option::None => Option::None,
    }
}

/// Parses a signed numeric token from the range, in thousandths.
fn parse_signed_range(v: &Vec<char>, lo: usize, hi: usize) -> (r: Option<i64>)
    requires
        lo <= hi <= v.len(),
    ensures
        match r {
            Option::Some(m) => {
                &&& signed_milli(v@.subrange(lo as int, hi as int)) == Option::Some(m as int)
                &&& -MAX_MILLI <= m <= MAX_MILLI
            },
            Option::None => signed_milli(v@.subrange(lo as int, hi as int))
                == Option::None::<int>,
        },
{
    let ghost s = v@.subrange(lo as int, hi as int);
    if lo < hi && v[lo] == '-' {
        proof {
            assert(s[0] == v@[lo as int]);
            assert(s.skip(1) =~= v@.subrange(lo + 1, hi as int));
        }
        match parse_unsigned_range(v, lo + 1, hi) {
            Option::Some(m) => Option::Some(-m),
            Option::None => Option::None,
        }
    } else {
        proof {
            if s.len() >= 1 {
                assert(s[0] == v@[lo as int]);
            }
        }
        parse_unsigned_range(v, lo, hi)
    }
}

/// A digit string that does not start with a zero denotes at least ten to
/// the length less one.
pub proof fn lemma_num_of_digits_lower(s: Seq<char>)
    requires
        all_digits(s),
        s.len() >= 1,
        s[0] != '0',
    ensures
        num_of_digits(s) >= pow10((s.len() - 1) as nat),
    decreases s.len(),
{
    if s.len() == 1 {
        assert(char_digit(s[0]) >= 1);
    } else {
        assert(all_digits(s.drop_last()));
        assert(s.drop_last()[0] == s[0]);
        lemma_num_of_digits_lower(s.drop_last());
    }
}

/// The integer-token grammar: an optional sign, then decimal digits.
pub open spec fn int_token(s: Seq<char>) -> Option<int> {
    if s.len() >= 1 && (s[0] == '-' || s[0] == '+') {
        let d = s.skip(1);
        if all_digits(d) && d.len() >= 1 {
            if s[0] == '-' {
                Option::Some(-(num_of_digits(d) as int))
            } else {
                Option::Some(num_of_digits(d) as int)
            }
        } else {
            Option::None
        }
    } else {
        if all_digits(s) && s.len() >= 1 {
            Option::Some(num_of_digits(s) as int)
        } else {
            Option::None
        }
    }
}

/// Parses an integer token from the range, accepting only values between
/// `min` and `max`.
fn parse_int_range(v: &Vec<char>, lo: usize, hi: usize, min: i64, max: i64) -> (r: Option<i64>)
    requires
        lo <= hi <= v.len(),
        -1000000000000 <= min <= 0,
        0 <= max <= 1000000000000,
    ensures
        r == (match int_token(v@.subrange(lo as int, hi as int)) {
            Option::Some(n) => if min <= n <= max {
                Option::Some(n as i64)
            } else {
                Option::None::<i64>
            },
            Option::None => Option::None::<i64>,
        }),
{
    let ghost s = v@.subrange(lo as int, hi as int);
    let mut neg = false;
    let mut dlo = lo;
    if lo < hi && (v[lo] == '-' || v[lo] == '+') {
        neg = v[lo] == '-';
        dlo = lo + 1;
        proof {
            assert(s[0] == v@[lo as int]);
            assert(s.skip(1) =~= v@.subrange(lo + 1, hi as int));
        }
    } else {
        proof {
            if s.len() >= 1 {
                assert(s[0] == v@[lo as int]);
            }
        }
    }
    let ghost d = v@.subrange(dlo as int, hi as int);
    if !all_digits_range(v, dlo, hi) {
        return Option::None;
    }
    if hi - dlo < 1 {
        return Option::None;
    }
    let sig = skip_zeros(v, dlo, hi);
    proof {
        lemma_drop_leading_zeros(d);
        assert(v@.subrange(sig as int, hi as int) == drop_leading_zeros(d));
        lemma_pow10_16();
    }
    if hi - sig > 13 {
        proof {
            let dz = drop_leading_zeros(d);
            lemma_num_of_digits_lower(dz);
            lemma_pow10_mono(13, (dz.len() - 1) as nat);
            assert(num_of_digits(d) >= pow10(13));
        }
        return Option::None;
    }
    let mag = digits_value(v, sig, hi);
    let n: i64 = if neg {
        -(mag as i64)
    } else {
        mag as i64
    };
    if min <= n && n <= max {
        Option::Some(n)
    } else {
        Option::None
    }
}

/// The end of the whitespace run starting at `i`.
pub open spec fn space_end(s: Seq<char>, i: int) -> int
    decreases s.len() - i
        when 0 <= i <= s.len()
{
    if i >= s.len() || !is_space(s[i]) {
        i
    } else {
        space_end(s, i + 1)
    }
}

/// Whitespace runs end between the start and the end of the string.
pub proof fn lemma_space_end(s: Seq<char>, i: int)
    requires
        0 <= i <= s.len(),
    ensures
        i <= space_end(s, i) <= s.len(),
    decreases s.len() - i,
{
    if i < s.len() && is_space(s[i]) {
        lemma_space_end(s, i + 1);
    }
}

/// The end of the whitespace run starting at absolute position `i`.
fn space_end_range(v: &Vec<char>, lo: usize, hi: usize, i: usize) -> (r: usize)
    requires
        lo <= i,
        i <= hi <= v.len(),
    ensures
        i <= r <= hi,
        r - lo == space_end(v@.subrange(lo as int, hi as int), i - lo),
    decreases hi - i,
{
    let ghost s = v@.subrange(lo as int, hi as int);
    if i < hi {
        proof {
            assert(s[i - lo] == v@[i as int]);
        }
        let c = v[i];
        if c == ' ' || c == '\t' || c == '\n' || c == '\r' {
            let r = space_end_range(v, lo, hi, i + 1);
            proof {
                lemma_space_end(s, i + 1 - lo);
            }
            return r;
        }
    }
    i
}

/// Whether `c` is a hexadecimal digit.
pub open spec fn is_hex_digit(c: char) -> bool {
    ('0' <= c && c <= '9') || ('a' <= c && c <= 'f') || ('A' <= c && c <= 'F')
}

/// The numeric value of a hexadecimal digit character.
pub open spec fn hex_digit_val(c: char) -> int {
    if '0' <= c && c <= '9' {
        c as int - '0' as int
    } else if 'a' <= c && c <= 'f' {
        c as int - 'a' as int + 10
    } else {
        c as int - 'A' as int + 10
    }
}

/// Whether every character of `s` is a hexadecimal digit.
pub open spec fn all_hex(s: Seq<char>) -> bool {
    forall|i: int| 0 <= i < s.len() ==> is_hex_digit(#[trigger] s[i])
}

/// The numeric value of one hexadecimal digit character.
fn hex_val_of_char(c: char) -> (r: u8)
    requires
        is_hex_digit(c),
    ensures
        r == hex_digit_val(c),
        r <= 15,
{
    if '0' <= c && c <= '9' {
        (c as u32 - 48) as u8
    } else if 'a' <= c && c <= 'f' {
        (c as u32 - 97 + 10) as u8
    } else {
        (c as u32 - 65 + 10) as u8
    }
}

/// Whether every character of the range is a hexadecimal digit.
fn all_hex_range(v: &Vec<char>, lo: usize, hi: usize) -> (r: bool)
    requires
        lo <= hi <= v.len(),
    ensures
        r == all_hex(v@.subrange(lo as int, hi as int)),
{
    let ghost s = v@.subrange(lo as int, hi as int);
    let mut i: usize = lo;
    while i < hi
        invariant
            lo <= i <= hi <= v.len(),
            s == v@.subrange(lo as int, hi as int),
            forall|j: int| lo <= j < i ==> is_hex_digit(#[trigger] v@[j]),
        decreases hi - i,
    {
        let c = v[i];
        if !(('0' <= c && c <= '9') || ('a' <= c && c <= 'f') || ('A' <= c && c <= 'F')) {
            proof {
                assert(s[i - lo] == v@[i as int]);
            }
            return false;
        }
        i = i + 1;
    }
    proof {
        assert forall|k: int| 0 <= k < s.len() implies is_hex_digit(#[trigger] s[k]) by {
            assert(s[k] == v@[lo + k]);
        }
    }
    true
}

/// The canonical digits of a fraction in thousandths, trailing zeros
/// trimmed; meaningful for `1 <= f <= 999`.
pub open spec fn frac_digits_trimmed(f: nat) -> Seq<char> {
    let d0 = (f / 100) as int;
    let d1 = ((f / 10) % 10) as int;
    let d2 = (f % 10) as int;
    if d2 != 0 {
        seq![digit_char(d0), digit_char(d1), digit_char(d2)]
    } else if d1 != 0 {
        seq![digit_char(d0), digit_char(d1)]
    } else {
        seq![digit_char(d0)]
    }
}

/// The canonical rendering of an unsigned magnitude in thousandths:
/// integer digits, then a trimmed fraction when one is present.
pub open spec fn render_unsigned_milli(u: nat) -> Seq<char> {
    if u % 1000 == 0 {
        dec_digits(u / 1000)
    } else {
        dec_digits(u / 1000) + seq!['.'] + frac_digits_trimmed(u % 1000)
    }
}

/// The canonical rendering of a signed magnitude in thousandths.
pub open spec fn render_milli(m: int) -> Seq<char> {
    if m < 0 {
        seq!['-'] + render_unsigned_milli((-m) as nat)
    } else {
        render_unsigned_milli(m as nat)
    }
}

/// The canonical string form of a length value.
pub open spec fn render_val(v: Val) -> Seq<char> {
    match v {
        Val::Auto => "auto"@,
        Val::Px(m) => render_milli(m as int) + "px"@,
        Val::Percent(m) => render_milli(m as int) + "%"@,
        Val::Vw(m) => render_milli(m as int) + "vw"@,
        Val::Vh(m) => render_milli(m as int) + "vh"@,
        Val::VMin(m) => render_milli(m as int) + "vmin"@,
        Val::VMax(m) => render_milli(m as int) + "vmax"@,
    }
}

/// Appends the canonical rendering of an unsigned magnitude.
fn append_unsigned_milli(s: &mut String, u: u64)
    requires
        u <= MAX_MILLI,
    ensures
        final(s)@ == old(s)@ + render_unsigned_milli(u as nat),
{
    append_u64(s, u / 1000);
    let f = u % 1000;
    if f != 0 {
        s.append(".");
        proof {
            reveal_strlit(".");
        }
        let d0 = f / 100;
        let d1 = (f / 10) % 10;
        let d2 = f % 10;
        append_digit(s, d0);
        if d2 != 0 {
            append_digit(s, d1);
            append_digit(s, d2);
        } else if d1 != 0 {
            append_digit(s, d1);
        }
        proof {
            assert(final(s)@ =~= old(s)@ + render_unsigned_milli(u as nat));
        }
    } else {
        proof {
            assert(final(s)@ =~= old(s)@ + render_unsigned_milli(u as nat));
        }
    }
}

/// Appends the canonical rendering of a signed magnitude in thousandths.
pub fn append_milli(s: &mut String, m: i64)
    requires
        -MAX_MILLI <= m <= MAX_MILLI,
    ensures
        final(s)@ == old(s)@ + render_milli(m as int),
{
    if m < 0 {
        s.append("-");
        proof {
            reveal_strlit("-");
        }
        append_unsigned_milli(s, (-m) as u64);
        proof {
            assert(final(s)@ =~= old(s)@ + render_milli(m as int));
        }
    } else {
        append_unsigned_milli(s, m as u64);
    }
}

/// Renders a length value to its canonical string form.
pub fn render_val_str(v: Val) -> (r: String)
    requires
        v.wf(),
    ensures
        r@ == render_val(v),
{
    let mut s = String::new();
    match v {
        Val::Auto => {
            s.append("auto");
        },
        Val::Px(m) => {
            append_milli(&mut s, m);
            s.append("px");
        },
        Val::Percent(m) => {
            append_milli(&mut s, m);
            s.append("%");
        },
        Val::Vw(m) => {
            append_milli(&mut s, m);
            s.append("vw");
        },
        Val::Vh(m) => {
            append_milli(&mut s, m);
            s.append("vh");
        },
        Val::VMin(m) => {
            append_milli(&mut s, m);
            s.append("vmin");
        },
        Val::VMax(m) => {
            append_milli(&mut s, m);
            s.append("vmax");
        },
    }
    proof {
        assert(s@ =~= render_val(v));
    }
    s
}

/// A value below ten to the `k` has at most `k` decimal digits.
pub proof fn lemma_dec_digits_len(n: nat, k: nat)
    requires
        n < pow10(k),
        k >= 1,
    ensures
        dec_digits(n).len() <= k,
    decreases k,
{
    if n < 10 {
    } else {
        assert(pow10(k) == 10 * pow10((k - 1) as nat));
        lemma_dec_digits_len(n / 10, (k - 1) as nat);
    }
}

/// A digit string holds no decimal point.
pub proof fn lemma_all_digits_no_dot(s: Seq<char>)
    requires
        all_digits(s),
    ensures
        s.index_of_first('.') == Option::None::<int>,
{
    s.index_of_first_ensures('.');
    if let Option::Some(i) = s.index_of_first('.') {
        assert(is_digit_char(s[i]));
    }
}

/// Parsing the canonical rendering of an unsigned magnitude gives it
/// back.
pub proof fn lemma_unsigned_milli_render(u: nat)
    requires
        u <= MAX_MILLI,
    ensures
        unsigned_milli(render_unsigned_milli(u)) == Option::Some(u),
{
    let ii = u / 1000;
    let f = u % 1000;
    let ip = dec_digits(ii);
    lemma_num_of_dec_digits(ii);
    lemma_pow10_16();
    lemma_dec_digits_len(ii, 15);
    lemma_drop_leading_zeros(ip);
    vstd::arithmetic::div_mod::lemma_fundamental_div_mod(u as int, 1000);
    if f == 0 {
        let s = render_unsigned_milli(u);
        assert(s == ip);
        lemma_all_digits_no_dot(s);
        assert(unsigned_milli(s) == Option::Some(num_of_digits(s) * 1000 + frac_milli(
            Seq::<char>::empty(),
        )));
        assert(frac_milli(Seq::<char>::empty()) == 0);
    } else {
        let fd = frac_digits_trimmed(f);
        let s = ip + seq!['.'] + fd;
        assert(render_unsigned_milli(u) == s);
        let d0 = (f / 100) as int;
        let d1 = ((f / 10) % 10) as int;
        let d2 = (f % 10) as int;
        assert(0 <= d0 <= 9 && 0 <= d1 <= 9 && 0 <= d2 <= 9);
        assert(f == d0 * 100 + d1 * 10 + d2) by {
            vstd::arithmetic::div_mod::lemma_fundamental_div_mod(f as int, 100);
            vstd::arithmetic::div_mod::lemma_fundamental_div_mod(f as int, 10);
            vstd::arithmetic::div_mod::lemma_fundamental_div_mod((f / 10) as int, 10);
        }
        // The dot sits right after the integer digits.
        s.index_of_first_ensures('.');
        assert(s[ip.len() as int] == '.');
        assert forall|j: int| 0 <= j < ip.len() implies s[j] != '.' by {
            assert(s[j] == ip[j]);
            assert(is_digit_char(ip[j]));
        }
        let di = s.index_of_first('.')->0;
        assert(s.contains('.')) by {
            assert(s[ip.len() as int] == '.');
        }
        assert(di == ip.len()) by {
            assert(s[di] == '.');
            if di < ip.len() {
                assert(s[di] != '.');
            }
            if di > ip.len() {
                assert(s[ip.len() as int] != '.');
            }
        }
        assert(s.take(di) =~= ip);
        assert(s.skip(di + 1) =~= fd);
        assert(all_digits(fd));
        assert(frac_milli(fd) == f);
        assert(unsigned_milli(s) == Option::Some(num_of_digits(ip) * 1000 + frac_milli(fd)));
    }
}

/// Parsing the canonical rendering of a signed magnitude gives it back.
pub proof fn lemma_signed_milli_render(m: int)
    requires
        -MAX_MILLI <= m <= MAX_MILLI,
    ensures
        signed_milli(render_milli(m)) == Option::Some(m),
{
    if m < 0 {
        let s = seq!['-'] + render_unsigned_milli((-m) as nat);
        assert(render_milli(m) == s);
        assert(s[0] == '-');
        assert(s.skip(1) =~= render_unsigned_milli((-m) as nat));
        lemma_unsigned_milli_render((-m) as nat);
    } else {
        let s = render_unsigned_milli(m as nat);
        lemma_unsigned_milli_render(m as nat);
        lemma_num_of_dec_digits((m as nat) / 1000);
        assert(s.len() >= 1);
        assert(is_digit_char(s[0])) by {
            let ip = dec_digits((m as nat) / 1000);
            if (m as nat) % 1000 != 0 {
                assert(s[0] == ip[0]);
            }
            assert(is_digit_char(ip[0]));
        }
        assert(s[0] != '-');
    }
}

/// Parsing the canonical rendering of a well-formed length value gives the
/// value back: the length grammar round-trips.
/// One rendered magnitude-plus-unit token parses back to its value.
proof fn lemma_parse_val_render_piece(m: int, unit: Seq<char>)
    requires
        -MAX_MILLI <= m <= MAX_MILLI,
        unit == "px"@ || unit == "vw"@ || unit == "vh"@ || unit == "vmin"@ || unit == "vmax"@
            || unit == "%"@,
    ensures
        unit == "px"@ ==> parse_val_spec(render_milli(m) + unit) == Option::Some(
            Val::Px(m as i64),
        ),
        unit == "vw"@ ==> parse_val_spec(render_milli(m) + unit) == Option::Some(
            Val::Vw(m as i64),
        ),
        unit == "vh"@ ==> parse_val_spec(render_milli(m) + unit) == Option::Some(
            Val::Vh(m as i64),
        ),
        unit == "vmin"@ ==> parse_val_spec(render_milli(m) + unit) == Option::Some(
            Val::VMin(m as i64),
        ),
        unit == "vmax"@ ==> parse_val_spec(render_milli(m) + unit) == Option::Some(
            Val::VMax(m as i64),
        ),
        unit == "%"@ ==> parse_val_spec(render_milli(m) + unit) == Option::Some(
            Val::Percent(m as i64),
        ),
{
    reveal_strlit("auto");
    reveal_strlit("px");
    reveal_strlit("vw");
    reveal_strlit("vh");
    reveal_strlit("vmin");
    reveal_strlit("vmax");
    reveal_strlit("%");
    let num = render_milli(m);
    lemma_num_of_dec_digits(if m < 0 { (-m) as nat } else { m as nat } / 1000);
    assert(num.len() >= 1);
    lemma_parse_val_render_unit(num, unit);
    lemma_signed_milli_render(m);
    let s = num + unit;
    assert(s.take(s.len() - unit.len()) =~= num);
    assert(unit_suffix_len(s) == unit.len());
}

/// Parsing the canonical rendering of a well-formed length value gives the
/// value back: the length grammar round-trips.
pub proof fn lemma_parse_val_render(v: Val)
    requires
        v.wf(),
    ensures
        parse_val_spec(render_val(v)) == Option::Some(v),
{
    match v {
        Val::Auto => {
        },
        Val::Px(m) => {
            lemma_parse_val_render_piece(m as int, "px"@);
        },
        Val::Percent(m) => {
            lemma_parse_val_render_piece(m as int, "%"@);
        },
        Val::Vw(m) => {
            lemma_parse_val_render_piece(m as int, "vw"@);
        },
        Val::Vh(m) => {
            lemma_parse_val_render_piece(m as int, "vh"@);
        },
        Val::VMin(m) => {
            lemma_parse_val_render_piece(m as int, "vmin"@);
        },
        Val::VMax(m) => {
            lemma_parse_val_render_piece(m as int, "vmax"@);
        },
    }
}

/// A string that ends with a suffix agrees with it on its last characters.
proof fn lemma_ends_with_chars(s: Seq<char>, suf: Seq<char>)
    requires
        suf.len() >= 1,
    ensures
        ends_with(s, suf) ==> s.len() >= suf.len() && s[s.len() - 1] == suf[suf.len() - 1],
        ends_with(s, suf) && suf.len() >= 2 ==> s[s.len() - 2] == suf[suf.len() - 2],
{
    if ends_with(s, suf) {
        let k = s.len() - suf.len();
        assert(s.skip(k)[suf.len() - 1] == s[s.len() - 1]);
        if suf.len() >= 2 {
            assert(s.skip(k)[suf.len() - 2] == s[s.len() - 2]);
        }
    }
}

/// For a rendered number followed by a unit suffix, the token is not the
/// keyword `auto` and the suffix chain resolves to exactly that unit.
proof fn lemma_parse_val_render_unit(num: Seq<char>, unit: Seq<char>)
    requires
        num.len() >= 1,
        unit == "px"@ || unit == "vw"@ || unit == "vh"@ || unit == "vmin"@ || unit == "vmax"@
            || unit == "%"@,
    ensures
        num + unit != "auto"@,
        unit_suffix_len(num + unit) == unit.len(),
        ends_with(num + unit, unit),
        unit == "vw"@ ==> !ends_with(num + unit, "px"@),
        unit == "vh"@ ==> !ends_with(num + unit, "px"@) && !ends_with(num + unit, "vw"@),
        unit == "vmax"@ ==> !ends_with(num + unit, "vmin"@),
{
    reveal_strlit("auto");
    reveal_strlit("px");
    reveal_strlit("vw");
    reveal_strlit("vh");
    reveal_strlit("vmin");
    reveal_strlit("vmax");
    reveal_strlit("%");
    let s = num + unit;
    assert(s.skip(s.len() - unit.len()) =~= unit);
    assert(ends_with(s, unit));
    lemma_ends_with_chars(s, "px"@);
    lemma_ends_with_chars(s, "vw"@);
    lemma_ends_with_chars(s, "vh"@);
    lemma_ends_with_chars(s, "vmin"@);
    lemma_ends_with_chars(s, "vmax"@);
    lemma_ends_with_chars(s, "%"@);
    // The last characters decide every suffix test in the chain.
    if unit == "px"@ {
        assert(s.last() == 'x' && s[s.len() - 2] == 'p');
        assert(s != "auto"@);
        assert(unit_suffix_len(s) == 2);
    } else if unit == "vw"@ {
        assert(s.last() == 'w');
        assert(s != "auto"@);
        assert(!ends_with(s, "px"@));
        assert(unit_suffix_len(s) == 2);
    } else if unit == "vh"@ {
        assert(s.last() == 'h');
        assert(s != "auto"@);
        assert(!ends_with(s, "px"@) && !ends_with(s, "vw"@));
        assert(unit_suffix_len(s) == 2);
    } else if unit == "vmin"@ {
        assert(s.last() == 'n');
        assert(s != "auto"@);
        assert(!ends_with(s, "px"@) && !ends_with(s, "vw"@) && !ends_with(s, "vh"@));
        assert(unit_suffix_len(s) == 4);
    } else if unit == "vmax"@ {
        assert(s.last() == 'x');
        assert(s[s.len() - 2] == 'a');
        assert(s != "auto"@);
        assert(!ends_with(s, "px"@));
        assert(!ends_with(s, "vw"@) && !ends_with(s, "vh"@));
        assert(!ends_with(s, "vmin"@));
        assert(unit_suffix_len(s) == 4);
    } else {
        assert(s.last() == '%');
        assert(s != "auto"@);
        assert(!ends_with(s, "px"@) && !ends_with(s, "vw"@) && !ends_with(s, "vh"@));
        assert(!ends_with(s, "vmin"@) && !ends_with(s, "vmax"@));
        assert(unit_suffix_len(s) == 1);
    }
}

/// The end of the comma-free run starting at `i`.
pub open spec fn comma_end(s: Seq<char>, i: int) -> int
    decreases s.len() - i
        when 0 <= i <= s.len()
{
    if i >= s.len() || s[i] == ',' {
        i
    } else {
        comma_end(s, i + 1)
    }
}

/// Comma-free runs end between the start and the end of the string.
pub proof fn lemma_comma_end(s: Seq<char>, i: int)
    requires
        0 <= i <= s.len(),
    ensures
        i <= comma_end(s, i) <= s.len(),
    decreases s.len() - i,
{
    if i < s.len() && s[i] != ',' {
        lemma_comma_end(s, i + 1);
    }
}

/// The comma-separated pieces of `s` from position `i` on; separators are
/// consumed and empty pieces are kept.
pub open spec fn split_commas_from(s: Seq<char>, i: int) -> Seq<Seq<char>>
    decreases s.len() - i
        when 0 <= i <= s.len()
        via lemma_split_commas_from_decreases
{
    let e = comma_end(s, i);
    if e >= s.len() {
        seq![s.subrange(i, e)]
    } else {
        seq![s.subrange(i, e)] + split_commas_from(s, e + 1)
    }
}

#[via_fn]
proof fn lemma_split_commas_from_decreases(s: Seq<char>, i: int) {
    lemma_comma_end(s, i);
}

/// The end of the comma-free run starting at absolute position `i`.
fn comma_end_range(v: &Vec<char>, lo: usize, hi: usize, i: usize) -> (r: usize)
    requires
        lo <= i,
        i <= hi <= v.len(),
    ensures
        i <= r <= hi,
        r - lo == comma_end(v@.subrange(lo as int, hi as int), i - lo),
        r < hi ==> v@[r as int] == ',',
    decreases hi - i,
{
    let ghost s = v@.subrange(lo as int, hi as int);
    if i < hi {
        proof {
            assert(s[i - lo] == v@[i as int]);
        }
        if v[i] != ',' {
            let r = comma_end_range(v, lo, hi, i + 1);
            proof {
                lemma_comma_end(s, i + 1 - lo);
            }
            return r;
        }
    }
    proof {
        if (i as int) < hi as int {
            assert(s[i - lo] == v@[i as int]);
        }
    }
    i
}

/// The comma-separated pieces of the range, as index pairs.
fn split_commas_range(v: &Vec<char>, lo: usize, hi: usize, i: usize) -> (ps: Vec<(usize, usize)>)
    requires
        lo <= i,
        i <= hi <= v.len(),
    ensures
        ({
            let pieces = split_commas_from(v@.subrange(lo as int, hi as int), i - lo);
            &&& ps@.len() == pieces.len()
            &&& forall|k: int|
                0 <= k < pieces.len() ==> {
                    &&& lo <= (#[trigger] ps@[k]).0 <= ps@[k].1 <= hi
                    &&& v@.subrange(ps@[k].0 as int, ps@[k].1 as int) == pieces[k]
                }
        }),
    decreases hi - i,
{
    let ghost s = v@.subrange(lo as int, hi as int);
    let e = comma_end_range(v, lo, hi, i);
    proof {
        assert(s.subrange(i - lo, e - lo) =~= v@.subrange(i as int, e as int));
    }
    if e >= hi {
        let mut ps: Vec<(usize, usize)> = Vec::new();
        ps.push((i, e));
        ps
    } else {
        let rest = split_commas_range(v, lo, hi, e + 1);
        let mut ps: Vec<(usize, usize)> = Vec::new();
        ps.push((i, e));
        let mut k: usize = 0;
        while k < rest.len()
            invariant
                0 <= k <= rest.len(),
                ps@.len() == k + 1,
                ps@[0] == (i, e),
                forall|j: int| 0 <= j < k ==> ps@[j + 1] == rest@[j],
            decreases rest.len() - k,
        {
            let t = rest[k];
            ps.push(t);
            k = k + 1;
        }
        proof {
            let pieces = split_commas_from(s, i - lo);
            let rpieces = split_commas_from(s, e + 1 - lo);
            assert(pieces == seq![s.subrange(i - lo, e - lo)] + rpieces);
            assert forall|k2: int| 0 <= k2 < pieces.len() implies {
                &&& lo <= (#[trigger] ps@[k2]).0 <= ps@[k2].1 <= hi
                &&& v@.subrange(ps@[k2].0 as int, ps@[k2].1 as int) == pieces[k2]
            } by {
                if k2 == 0 {
                    assert(pieces[0] == s.subrange(i - lo, e - lo));
                } else {
                    assert(ps@[k2] == rest@[k2 - 1]);
                    assert(pieces[k2] == rpieces[k2 - 1]);
                }
            }
        }
        ps
    }
}

/// Parses a digits-only token from the range, accepting only values up
/// to `max`.
fn parse_digits_range(v: &Vec<char>, lo: usize, hi: usize, max: i64) -> (r: Option<i64>)
    requires
        lo <= hi <= v.len(),
        0 <= max <= 1000000000000,
    ensures
        ({
            let s = v@.subrange(lo as int, hi as int);
            r == if all_digits(s) && s.len() >= 1 && num_of_digits(s) <= max {
                Option::Some(num_of_digits(s) as i64)
            } else {
                Option::None::<i64>
            }
        }),
{
    let ghost s = v@.subrange(lo as int, hi as int);
    if !all_digits_range(v, lo, hi) {
        return Option::None;
    }
    if hi - lo < 1 {
        return Option::None;
    }
    let sig = skip_zeros(v, lo, hi);
    proof {
        lemma_drop_leading_zeros(s);
        assert(v@.subrange(sig as int, hi as int) == drop_leading_zeros(s));
        lemma_pow10_16();
    }
    if hi - sig > 13 {
        proof {
            let dz = drop_leading_zeros(s);
            lemma_num_of_digits_lower(dz);
            lemma_pow10_mono(13, (dz.len() - 1) as nat);
        }
        return Option::None;
    }
    let mag = digits_value(v, sig, hi);
    if mag as i64 <= max {
        Option::Some(mag as i64)
    } else {
        Option::None
    }
}

/// The grid-placement grammar: `start/end`, or `start/span count`, with
/// optional whitespace around the slash and after `span`. Values must fit
/// their grid-line and span types; grid lines are numbered from one, so a
/// zero start, end or span is rejected.
pub open spec fn parse_grid_spec(s: Seq<char>) -> Option<GridPlacement> {
    match s.index_of_first('/') {
        Option::None => Option::None,
        Option::Some(k) => {
            let left = s.take(k);
            let t = token_end(left, 0);
            if t >= 1 && all_digits(left.take(t)) && space_end(left, t) == left.len()
                && 1 <= num_of_digits(left.take(t)) <= 32767 {
                let sv = num_of_digits(left.take(t));
                let rest = s.skip(space_end(s, k + 1));
                if rest.len() >= 4 && rest.take(4) == "span"@ {
                    let d = rest.skip(4).skip(space_end(rest.skip(4), 0));
                    if all_digits(d) && d.len() >= 1 && 1 <= num_of_digits(d) <= 65535 {
                        Option::Some(
                            GridPlacement {
                                start: Option::Some(sv as i16),
                                span: Option::Some(num_of_digits(d) as u16),
                                end: Option::None,
                            },
                        )
                    } else {
                        Option::None
                    }
                } else {
                    if all_digits(rest) && rest.len() >= 1 && 1 <= num_of_digits(rest) <= 32767 {
                        Option::Some(
                            GridPlacement {
                                start: Option::Some(sv as i16),
                                span: Option::Some(1),
                                end: Option::Some(num_of_digits(rest) as i16),
                            },
                        )
                    } else {
                        Option::None
                    }
                }
            } else {
                Option::None
            }
        },
    }
}

/// The position of the first slash in the range, if any.
fn find_slash(v: &Vec<char>, lo: usize, hi: usize) -> (r: Option<usize>)
    requires
        lo <= hi <= v.len(),
    ensures
        match r {
            Option::Some(i) => {
                &&& lo <= i < hi
                &&& v@.subrange(lo as int, hi as int).index_of_first('/') == Option::Some(
                    i - lo,
                )
            },
            Option::None => v@.subrange(lo as int, hi as int).index_of_first('/')
                == Option::None::<int>,
        },
{
    let ghost s = v@.subrange(lo as int, hi as int);
    let mut i: usize = lo;
    while i < hi
        invariant
            lo <= i <= hi <= v.len(),
            s == v@.subrange(lo as int, hi as int),
            forall|j: int| lo <= j < i ==> v@[j] != '/',
        decreases hi - i,
    {
        if v[i] == '/' {
            proof {
                s.index_of_first_ensures('/');
                assert(s[i - lo] == v@[i as int]);
                assert(s.contains('/')) by {
                    assert(s[i - lo] == '/');
                }
                let k = s.index_of_first('/')->0;
                assert(s[k] == '/');
                assert forall|j: int| 0 <= j < i - lo implies s[j] != '/' by {
                    assert(s[j] == v@[lo + j]);
                }
                assert(k == i - lo);
            }
            return Option::Some(i);
        }
        i = i + 1;
    }
    proof {
        s.index_of_first_ensures('/');
        if s.contains('/') {
            let k = s.index_of_first('/')->0;
            assert(s[k] == v@[lo + k]);
        }
    }
    Option::None
}

/// Parses a grid-placement string: `start/end` or `start/span count`.
pub fn parse_grid_placement_str(s: &str) -> (r: Result<GridPlacement, GuiseError>)
    ensures
        match r {
            Result::Ok(p) => parse_grid_spec(s@) == Option::Some(p),
            Result::Err(e) => {
                &&& parse_grid_spec(s@) is None
                &&& e matches GuiseError::InvalidAttributeValue(t) && t@ == s@
            },
        },
{
    let v = chars_of(s);
    let n = v.len();
    proof {
        assert(v@.subrange(0, n as int) =~= s@);
    }
    let k = match find_slash(&v, 0, n) {
        Option::Some(k) => k,
        Option::None => {
            return Result::Err(GuiseError::InvalidAttributeValue(s.to_owned()));
        },
    };
    let ghost left = s@.take(k as int);
    proof {
        assert(left =~= v@.subrange(0, k as int));
    }
    let t = token_end_range(&v, 0, k, 0);
    let se = space_end_range(&v, 0, k, t);
    proof {
        assert(left.take(token_end(left, 0)) =~= v@.subrange(0, t as int));
    }
    if t < 1 || se < k {
        return Result::Err(GuiseError::InvalidAttributeValue(s.to_owned()));
    }
    let sv = match parse_digits_range(&v, 0, t, 32767) {
        Option::Some(x) => x,
        Option::None => {
            return Result::Err(GuiseError::InvalidAttributeValue(s.to_owned()));
        },
    };
    if sv < 1 {
        return Result::Err(GuiseError::InvalidAttributeValue(s.to_owned()));
    }
    let r0 = space_end_range(&v, 0, n, k + 1);
    let ghost rest = s@.skip(space_end(s@, k + 1));
    proof {
        assert(rest =~= v@.subrange(r0 as int, n as int));
    }
    let is_span = n - r0 >= 4 && {
        let c0 = v[r0];
        let c1 = v[r0 + 1];
        let c2 = v[r0 + 2];
        let c3 = v[r0 + 3];
        c0 == 's' && c1 == 'p' && c2 == 'a' && c3 == 'n'
    };
    proof {
        reveal_strlit("span");
        if n - r0 >= 4 {
            assert(rest.take(4)[0] == v@[r0 as int]);
            assert(rest.take(4)[1] == v@[r0 + 1]);
            assert(rest.take(4)[2] == v@[r0 + 2]);
            assert(rest.take(4)[3] == v@[r0 + 3]);
            if is_span {
                assert(rest.take(4) =~= "span"@);
            } else {
                assert(rest.take(4) != "span"@);
            }
        }
    }
    if is_span {
        let ghost after = rest.skip(4);
        proof {
            assert(after =~= v@.subrange(r0 + 4, n as int));
        }
        let d0 = space_end_range(&v, r0 + 4, n, r0 + 4);
        proof {
            assert(after.skip(space_end(after, 0)) =~= v@.subrange(d0 as int, n as int));
        }
        match parse_digits_range(&v, d0, n, 65535) {
            Option::Some(sp) => {
                if sp >= 1 {
                    Result::Ok(
                        GridPlacement {
                            start: Option::Some(sv as i16),
                            span: Option::Some(sp as u16),
                            end: Option::None,
                        },
                    )
                } else {
                    Result::Err(GuiseError::InvalidAttributeValue(s.to_owned()))
                }
            },
            Option::None => Result::Err(GuiseError::InvalidAttributeValue(s.to_owned())),
        }
    } else {
        match parse_digits_range(&v, r0, n, 32767) {
            Option::Some(ev) => {
                if ev >= 1 {
                    Result::Ok(
                        GridPlacement {
                            start: Option::Some(sv as i16),
                            span: Option::Some(1),
                            end: Option::Some(ev as i16),
                        },
                    )
                } else {
                    Result::Err(GuiseError::InvalidAttributeValue(s.to_owned()))
                }
            },
            Option::None => Result::Err(GuiseError::InvalidAttributeValue(s.to_owned())),
        }
    }
}

/// Parses a signed sixteen-bit integer token.
pub fn parse_i16_str(s: &str) -> (r: Result<i16, GuiseError>)
    ensures
        match r {
            Result::Ok(x) => int_token(s@) == Option::Some(x as int),
            Result::Err(e) => {
                &&& (match int_token(s@) {
                    Option::Some(x) => !(i16::MIN <= x <= i16::MAX),
                    Option::None => true,
                })
                &&& e matches GuiseError::InvalidAttributeValue(t) && t@ == s@
            },
        },
{
    let v = chars_of(s);
    proof {
        assert(v@.subrange(0, v@.len() as int) =~= s@);
    }
    match parse_int_range(&v, 0, v.len(), -32768, 32767) {
        Option::Some(x) => Result::Ok(x as i16),
        Option::None => Result::Err(GuiseError::InvalidAttributeValue(s.to_owned())),
    }
}

/// Parses an unsigned sixteen-bit integer token.
pub fn parse_u16_str(s: &str) -> (r: Result<u16, GuiseError>)
    ensures
        match r {
            Result::Ok(x) => int_token(s@) == Option::Some(x as int),
            Result::Err(e) => {
                &&& (match int_token(s@) {
                    Option::Some(x) => !(0 <= x <= u16::MAX),
                    Option::None => true,
                })
                &&& e matches GuiseError::InvalidAttributeValue(t) && t@ == s@
            },
        },
{
    let v = chars_of(s);
    proof {
        assert(v@.subrange(0, v@.len() as int) =~= s@);
    }
    match parse_int_range(&v, 0, v.len(), 0, 65535) {
        Option::Some(x) => Result::Ok(x as u16),
        Option::None => Result::Err(GuiseError::InvalidAttributeValue(s.to_owned())),
    }
}

/// Parses a signed thirty-two-bit integer token.
pub fn parse_i32_str(s: &str) -> (r: Result<i32, GuiseError>)
    ensures
        match r {
            Result::Ok(x) => int_token(s@) == Option::Some(x as int),
            Result::Err(e) => {
                &&& (match int_token(s@) {
                    Option::Some(x) => !(i32::MIN <= x <= i32::MAX),
                    Option::None => true,
                })
                &&& e matches GuiseError::InvalidAttributeValue(t) && t@ == s@
            },
        },
{
    let v = chars_of(s);
    proof {
        assert(v@.subrange(0, v@.len() as int) =~= s@);
    }
    match parse_int_range(&v, 0, v.len(), -2147483648, 2147483647) {
        Option::Some(x) => Result::Ok(x as i32),
        Option::None => Result::Err(GuiseError::InvalidAttributeValue(s.to_owned())),
    }
}

/// Parses a scalar token: a signed number in thousandths.
pub fn parse_scalar_str(s: &str) -> (r: Result<i64, GuiseError>)
    ensures
        match r {
            Result::Ok(m) => signed_milli(s@) == Option::Some(m as int) && -MAX_MILLI <= m
                <= MAX_MILLI,
            Result::Err(e) => {
                &&& signed_milli(s@) is None
                &&& e matches GuiseError::InvalidAttributeValue(t) && t@ == s@
            },
        },
{
    let v = chars_of(s);
    proof {
        assert(v@.subrange(0, v@.len() as int) =~= s@);
    }
    match parse_signed_range(&v, 0, v.len()) {
        Option::Some(m) => Result::Ok(m),
        Option::None => Result::Err(GuiseError::InvalidAttributeValue(s.to_owned())),
    }
}

/// The hex-literal color grammar: an optional `#`, then three, four, six
/// or eight hex digits; channels are scaled to thousandths, rounding to
/// the nearest.
pub open spec fn parse_hex_color(s: Seq<char>) -> Option<ColorValue> {
    let b = if s.len() >= 1 && s[0] == '#' {
        s.skip(1)
    } else {
        s
    };
    if all_hex(b) && b.len() == 3 {
        Option::Some(
            ColorValue::Rgba {
                red: hex_channel((hex_digit_val(b[0]) * 17) as u8),
                green: hex_channel((hex_digit_val(b[1]) * 17) as u8),
                blue: hex_channel((hex_digit_val(b[2]) * 17) as u8),
                alpha: 1000,
            },
        )
    } else if all_hex(b) && b.len() == 4 {
        Option::Some(
            ColorValue::Rgba {
                red: hex_channel((hex_digit_val(b[0]) * 17) as u8),
                green: hex_channel((hex_digit_val(b[1]) * 17) as u8),
                blue: hex_channel((hex_digit_val(b[2]) * 17) as u8),
                alpha: hex_channel((hex_digit_val(b[3]) * 17) as u8),
            },
        )
    } else if all_hex(b) && b.len() == 6 {
        Option::Some(
            ColorValue::Rgba {
                red: hex_channel((hex_digit_val(b[0]) * 16 + hex_digit_val(b[1])) as u8),
                green: hex_channel((hex_digit_val(b[2]) * 16 + hex_digit_val(b[3])) as u8),
                blue: hex_channel((hex_digit_val(b[4]) * 16 + hex_digit_val(b[5])) as u8),
                alpha: 1000,
            },
        )
    } else if all_hex(b) && b.len() == 8 {
        Option::Some(
            ColorValue::Rgba {
                red: hex_channel((hex_digit_val(b[0]) * 16 + hex_digit_val(b[1])) as u8),
                green: hex_channel((hex_digit_val(b[2]) * 16 + hex_digit_val(b[3])) as u8),
                blue: hex_channel((hex_digit_val(b[4]) * 16 + hex_digit_val(b[5])) as u8),
                alpha: hex_channel((hex_digit_val(b[6]) * 16 + hex_digit_val(b[7])) as u8),
            },
        )
    } else {
        Option::None
    }
}

/// The four numeric arguments of an `rgba(...)` or `hsla(...)` form:
/// comma-separated unsigned numbers, optional whitespace after each
/// comma.
pub open spec fn color_fn_args(inner: Seq<char>) -> Option<(nat, nat, nat, nat)> {
    let ps = split_commas_from(inner, 0);
    if ps.len() == 4 {
        let a0 = unsigned_milli(ps[0]);
        let a1 = unsigned_milli(ps[1].skip(space_end(ps[1], 0)));
        let a2 = unsigned_milli(ps[2].skip(space_end(ps[2], 0)));
        let a3 = unsigned_milli(ps[3].skip(space_end(ps[3], 0)));
        if a0 is Some && a1 is Some && a2 is Some && a3 is Some {
            Option::Some((a0->0, a1->0, a2->0, a3->0))
        } else {
            Option::None
        }
    } else {
        Option::None
    }
}

/// The color grammar: a hex literal, `rgba(r, g, b, a)`, or
/// `hsla(h, s, l, a)`.
pub open spec fn parse_color_spec(s: Seq<char>) -> Option<ColorValue> {
    if parse_hex_color(s) is Some {
        parse_hex_color(s)
    } else if s.len() >= 6 && s.take(5) == "rgba("@ && s.last() == ')' {
        match color_fn_args(s.subrange(5, s.len() - 1)) {
            Option::Some(a) => Option::Some(
                ColorValue::Rgba {
                    red: a.0 as i64,
                    green: a.1 as i64,
                    blue: a.2 as i64,
                    alpha: a.3 as i64,
                },
            ),
            Option::None => Option::None,
        }
    } else if s.len() >= 6 && s.take(5) == "hsla("@ && s.last() == ')' {
        match color_fn_args(s.subrange(5, s.len() - 1)) {
            Option::Some(a) => Option::Some(
                ColorValue::Hsla {
                    hue: a.0 as i64,
                    saturation: a.1 as i64,
                    lightness: a.2 as i64,
                    alpha: a.3 as i64,
                },
            ),
            Option::None => Option::None,
        }
    } else {
        Option::None
    }
}

/// Parses the four arguments of a color function from the range.
fn color_fn_args_range(v: &Vec<char>, lo: usize, hi: usize) -> (r: Option<(i64, i64, i64, i64)>)
    requires
        lo <= hi <= v.len(),
    ensures
        match r {
            Option::Some(a) => {
                &&& color_fn_args(v@.subrange(lo as int, hi as int)) == Option::Some(
                    ((a.0 as nat, a.1 as nat, a.2 as nat, a.3 as nat)),
                )
                &&& 0 <= a.0 <= MAX_MILLI && 0 <= a.1 <= MAX_MILLI && 0 <= a.2 <= MAX_MILLI && 0
                    <= a.3 <= MAX_MILLI
            },
            Option::None => color_fn_args(v@.subrange(lo as int, hi as int)) is None,
        },
{
    let ghost s = v@.subrange(lo as int, hi as int);
    let ps = split_commas_range(v, lo, hi, lo);
    if ps.len() != 4 {
        return Option::None;
    }
    let p0 = ps[0];
    let p1 = ps[1];
    let p2 = ps[2];
    let p3 = ps[3];
    let ghost pieces = split_commas_from(s, 0);
    let s1 = space_end_range(v, p1.0, p1.1, p1.0);
    let s2 = space_end_range(v, p2.0, p2.1, p2.0);
    let s3 = space_end_range(v, p3.0, p3.1, p3.0);
    proof {
        assert(pieces[1].skip(space_end(pieces[1], 0)) =~= v@.subrange(s1 as int, p1.1 as int));
        assert(pieces[2].skip(space_end(pieces[2], 0)) =~= v@.subrange(s2 as int, p2.1 as int));
        assert(pieces[3].skip(space_end(pieces[3], 0)) =~= v@.subrange(s3 as int, p3.1 as int));
    }
    let a0 = parse_unsigned_range(v, p0.0, p0.1);
    let a1 = parse_unsigned_range(v, s1, p1.1);
    let a2 = parse_unsigned_range(v, s2, p2.1);
    let a3 = parse_unsigned_range(v, s3, p3.1);
    match (a0, a1, a2, a3) {
        (Option::Some(x0), Option::Some(x1), Option::Some(x2), Option::Some(x3)) => Option::Some(
            (x0, x1, x2, x3),
        ),
        _ => Option::None,
    }
}

/// Parses a color string: a hex literal with an optional leading `#`, or
/// an `rgba(...)` or `hsla(...)` form with four numeric components.
pub fn parse_color_str(s: &str) -> (r: Result<ColorValue, GuiseError>)
    ensures
        match r {
            Result::Ok(c) => parse_color_spec(s@) == Option::Some(c),
            Result::Err(e) => {
                &&& parse_color_spec(s@) is None
                &&& e matches GuiseError::InvalidAttributeValue(t) && t@ == s@
            },
        },
{
    let v = chars_of(s);
    let n = v.len();
    proof {
        assert(v@.subrange(0, n as int) =~= s@);
    }
    // Hex literal first.
    let hb: usize = if n >= 1 && v[0] == '#' {
        1
    } else {
        0
    };
    let ghost b = if s@.len() >= 1 && s@[0] == '#' {
        s@.skip(1)
    } else {
        s@
    };
    proof {
        assert(b =~= v@.subrange(hb as int, n as int));
    }
    if all_hex_range(&v, hb, n) && (n - hb == 3 || n - hb == 4 || n - hb == 6 || n - hb == 8) {
        let bl = n - hb;
        proof {
            assert forall|k: int| 0 <= k < b.len() implies b[k] == v@[hb + k] by {}
        }
        if bl == 3 || bl == 4 {
            let red = hex_channel_exec(hex_val_of_char(v[hb]) * 17);
            let green = hex_channel_exec(hex_val_of_char(v[hb + 1]) * 17);
            let blue = hex_channel_exec(hex_val_of_char(v[hb + 2]) * 17);
            let alpha = if bl == 4 {
                hex_channel_exec(hex_val_of_char(v[hb + 3]) * 17)
            } else {
                1000
            };
            proof {
                assert(hex_channel(255) == 1000);
            }
            return Result::Ok(ColorValue::Rgba { red, green, blue, alpha });
        } else {
            let red = hex_channel_exec(hex_val_of_char(v[hb]) * 16 + hex_val_of_char(v[hb + 1]));
            let green = hex_channel_exec(
                hex_val_of_char(v[hb + 2]) * 16 + hex_val_of_char(v[hb + 3]),
            );
            let blue = hex_channel_exec(
                hex_val_of_char(v[hb + 4]) * 16 + hex_val_of_char(v[hb + 5]),
            );
            let alpha = if bl == 8 {
                hex_channel_exec(hex_val_of_char(v[hb + 6]) * 16 + hex_val_of_char(v[hb + 7]))
            } else {
                1000
            };
            proof {
                assert(hex_channel(255) == 1000);
            }
            return Result::Ok(ColorValue::Rgba { red, green, blue, alpha });
        }
    }
    proof {
        assert(parse_hex_color(s@) is None);
    }
    // Function forms.
    if n >= 6 && v[n - 1] == ')' {
        proof {
            assert(s@.last() == v@[n - 1]);
            reveal_strlit("rgba(");
            reveal_strlit("hsla(");
        }
        if v[0] == 'r' && v[1] == 'g' && v[2] == 'b' && v[3] == 'a' && v[4] == '(' {
            proof {
                assert(s@.take(5) =~= "rgba("@);
                assert(s@.subrange(5, s@.len() - 1) =~= v@.subrange(5, n - 1));
            }
            if let Option::Some(a) = color_fn_args_range(&v, 5, n - 1) {
                return Result::Ok(
                    ColorValue::Rgba { red: a.0, green: a.1, blue: a.2, alpha: a.3 },
                );
            }
            return Result::Err(GuiseError::InvalidAttributeValue(s.to_owned()));
        }
        if v[0] == 'h' && v[1] == 's' && v[2] == 'l' && v[3] == 'a' && v[4] == '(' {
            proof {
                assert(s@.take(5) =~= "hsla("@);
                assert(s@.take(5) != "rgba("@);
                assert(s@.subrange(5, s@.len() - 1) =~= v@.subrange(5, n - 1));
            }
            if let Option::Some(a) = color_fn_args_range(&v, 5, n - 1) {
                return Result::Ok(
                    ColorValue::Hsla { hue: a.0, saturation: a.1, lightness: a.2, alpha: a.3 },
                );
            }
            return Result::Err(GuiseError::InvalidAttributeValue(s.to_owned()));
        }
        proof {
            if s@.len() >= 5 {
                assert(s@.take(5)[0] == v@[0]);
                assert(s@.take(5)[1] == v@[1]);
                assert(s@.take(5)[2] == v@[2]);
                assert(s@.take(5)[3] == v@[3]);
                assert(s@.take(5)[4] == v@[4]);
            }
            assert(s@.take(5) != "rgba("@ && s@.take(5) != "hsla("@);
        }
        return Result::Err(GuiseError::InvalidAttributeValue(s.to_owned()));
    }
    proof {
        if s@.len() >= 6 {
            assert(s@.last() == v@[n - 1]);
        }
    }
    Result::Err(GuiseError::InvalidAttributeValue(s.to_owned()))
}

/// The canonical string form of a rect: top, right, bottom, left,
/// separated by single spaces.
pub open spec fn render_uirect(r: UiRect) -> Seq<char> {
    render_val(r.top) + " "@ + render_val(r.right) + " "@ + render_val(r.bottom) + " "@
        + render_val(r.left)
}

/// Renders a rect to its canonical string form.
pub fn render_uirect_str(r: &UiRect) -> (out: String)
    requires
        r.left.wf(),
        r.right.wf(),
        r.top.wf(),
        r.bottom.wf(),
    ensures
        out@ == render_uirect(*r),
{
    let mut s = render_val_str(r.top);
    s.append(" ");
    let p1 = render_val_str(r.right);
    s.append(p1.as_str());
    s.append(" ");
    let p2 = render_val_str(r.bottom);
    s.append(p2.as_str());
    s.append(" ");
    let p3 = render_val_str(r.left);
    s.append(p3.as_str());
    proof {
        assert(s@ =~= render_uirect(*r));
    }
    s
}

/// The canonical string form of a color: its model name, then the four
/// channels separated by comma-space.
pub open spec fn render_color(c: ColorValue) -> Seq<char> {
    match c {
        ColorValue::Rgba { red, green, blue, alpha } => "rgba("@ + render_milli(red as int)
            + ", "@ + render_milli(green as int) + ", "@ + render_milli(blue as int) + ", "@
            + render_milli(alpha as int) + ")"@,
        ColorValue::Hsla { hue, saturation, lightness, alpha } => "hsla("@ + render_milli(
            hue as int,
        ) + ", "@ + render_milli(saturation as int) + ", "@ + render_milli(lightness as int)
            + ", "@ + render_milli(alpha as int) + ")"@,
    }
}

/// Renders a color to its canonical string form.
pub fn render_color_str(c: &ColorValue) -> (out: String)
    requires
        c.wf(),
    ensures
        out@ == render_color(*c),
{
    let mut s = String::new();
    match c {
        ColorValue::Rgba { red, green, blue, alpha } => {
            s.append("rgba(");
            append_milli(&mut s, *red);
            s.append(", ");
            append_milli(&mut s, *green);
            s.append(", ");
            append_milli(&mut s, *blue);
            s.append(", ");
            append_milli(&mut s, *alpha);
            s.append(")");
        },
        ColorValue::Hsla { hue, saturation, lightness, alpha } => {
            s.append("hsla(");
            append_milli(&mut s, *hue);
            s.append(", ");
            append_milli(&mut s, *saturation);
            s.append(", ");
            append_milli(&mut s, *lightness);
            s.append(", ");
            append_milli(&mut s, *alpha);
            s.append(")");
        },
    }
    proof {
        assert(s@ =~= render_color(*c));
    }
    s
}

/// Parses a length string: `auto`, or a signed number with an optional
/// unit among `px`, `vw`, `vh`, `vmin`, `vmax` and `%`, defaulting to
/// pixels. Malformed numerics and trailing garbage are invalid-value
/// errors.
pub fn parse_val_str(s: &str) -> (r: Result<Val, GuiseError>)
    ensures
        match r {
            Result::Ok(val) => parse_val_spec(s@) == Option::Some(val) && val.wf(),
            Result::Err(e) => {
                &&& parse_val_spec(s@) is None
                &&& e matches GuiseError::InvalidAttributeValue(t) && t@ == s@
            },
        },
{
    let v = chars_of(s);
    match parse_val_range(&v, 0, v.len()) {
        Option::Some(val) => {
            proof {
                assert(v@.subrange(0, v@.len() as int) =~= s@);
            }
            Result::Ok(val)
        },
        Option::None => {
            proof {
                assert(v@.subrange(0, v@.len() as int) =~= s@);
            }
            Result::Err(GuiseError::InvalidAttributeValue(s.to_owned()))
        },
    }
}

/// Parses a rect-shorthand string: one to four whitespace-separated length
/// tokens in CSS order (top, right, bottom, left), missing sides
/// defaulting as in CSS.
pub fn parse_uirect_str(s: &str) -> (r: Result<UiRect, GuiseError>)
    ensures
        match r {
            Result::Ok(rect) => {
                &&& parse_uirect_spec(s@) == Option::Some(rect)
                &&& rect.left.wf() && rect.right.wf() && rect.top.wf() && rect.bottom.wf()
            },
            Result::Err(e) => {
                &&& parse_uirect_spec(s@) is None
                &&& e matches GuiseError::InvalidAttributeValue(t) && t@ == uirect_err_token(s@)
            },
        },
{
    let v = chars_of(s);
    proof {
        assert(v@.subrange(0, v@.len() as int) =~= s@);
    }
    let toks = split_tokens_from(&v, 0, v.len(), 0);
    if toks.len() < 1 || toks.len() > 4 {
        return Result::Err(GuiseError::InvalidAttributeValue(s.to_owned()));
    }
    let t0 = toks[0];
    let top = match parse_val_range(&v, t0.0, t0.1) {
        Option::Some(val) => val,
        Option::None => {
            return Result::Err(
                GuiseError::InvalidAttributeValue(crate::text::string_of_range(&v, t0.0, t0.1)),
            );
        },
    };
    let right = if toks.len() >= 2 {
        let t1 = toks[1];
        match parse_val_range(&v, t1.0, t1.1) {
            Option::Some(val) => val,
            Option::None => {
                return Result::Err(
                    GuiseError::InvalidAttributeValue(
                        crate::text::string_of_range(&v, t1.0, t1.1),
                    ),
                );
            },
        }
    } else {
        top
    };
    let bottom = if toks.len() >= 3 {
        let t2 = toks[2];
        match parse_val_range(&v, t2.0, t2.1) {
            Option::Some(val) => val,
            Option::None => {
                return Result::Err(
                    GuiseError::InvalidAttributeValue(
                        crate::text::string_of_range(&v, t2.0, t2.1),
                    ),
                );
            },
        }
    } else {
        top
    };
    let left = if toks.len() >= 4 {
        let t3 = toks[3];
        match parse_val_range(&v, t3.0, t3.1) {
            Option::Some(val) => val,
            Option::None => {
                return Result::Err(
                    GuiseError::InvalidAttributeValue(
                        crate::text::string_of_range(&v, t3.0, t3.1),
                    ),
                );
            },
        }
    } else {
        right
    };
    Result::Ok(UiRect { left, right, top, bottom })
}

} // verus!
