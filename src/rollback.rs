use vstd::prelude::*;

use vstd::slice::slice_subrange;
use vstd::string::StringSliceAdditionalSpecFns;

use crate::error::RollbackError;

verus! {

/// The phrase with which the engine's rollback command announces the height
/// that it went back to.
pub open spec fn rollback_phrase() -> Seq<u8> {
    seq![
        82u8, 111u8, 108u8, 108u8, 101u8, 100u8, 32u8, 98u8, 97u8, 99u8, 107u8, 32u8,
        115u8, 116u8, 97u8, 116u8, 101u8, 32u8, 116u8, 111u8, 32u8, 104u8, 101u8,
        105u8, 103u8, 104u8, 116u8,
    ]
}

/// ASCII whitespace as `split_ascii_whitespace` knows it.
pub open spec fn is_ascii_ws(b: u8) -> bool {
    b == 0x20u8 || b == 0x09u8 || b == 0x0Au8 || b == 0x0Cu8 || b == 0x0Du8
}

pub open spec fn occurs_at(s: Seq<u8>, p: Seq<u8>, i: int) -> bool {
    0 <= i && i + p.len() <= s.len() && s.subrange(i, i + p.len()) == p
}

/// The first index at or after `k` where `p` occurs in `s`, if any.
pub open spec fn find_from(s: Seq<u8>, p: Seq<u8>, k: int) -> Option<int>
    decreases s.len() + 1 - k,
{
    if k < 0 || k + p.len() > s.len() {
        None
    } else if occurs_at(s, p, k) {
        Some(k)
    } else {
        find_from(s, p, k + 1)
    }
}

/// The leading run of non-whitespace bytes of `s`.
pub open spec fn leading_word(s: Seq<u8>) -> Seq<u8>
    decreases s.len(),
{
    if s.len() == 0 || is_ascii_ws(s[0]) {
        Seq::empty()
    } else {
        seq![s[0]] + leading_word(s.drop_first())
    }
}

/// The first whitespace-separated token of `s`; empty when there is none.
pub open spec fn first_token(s: Seq<u8>) -> Seq<u8>
    decreases s.len(),
{
    if s.len() == 0 {
        Seq::empty()
    } else if is_ascii_ws(s[0]) {
        first_token(s.drop_first())
    } else {
        leading_word(s)
    }
}

pub open spec fn is_digit(b: u8) -> bool {
    48u8 <= b && b <= 57u8
}

pub open spec fn all_digits(s: Seq<u8>) -> bool {
    forall|i: int| 0 <= i < s.len() ==> is_digit(#[trigger] s[i])
}

/// The value of a string of decimal digits.
pub open spec fn digits_value(s: Seq<u8>) -> nat
    decreases s.len(),
{
    if s.len() == 0 {
        0
    } else {
        digits_value(s.drop_last()) * 10 + (s.last() - 48) as nat
    }
}

/// The digits of a token, without the one leading `+` that an unsigned
/// integer may carry.
pub open spec fn unsigned_digits(t: Seq<u8>) -> Seq<u8> {
    if t.len() > 0 && t[0] == 43u8 {
        t.drop_first()
    } else {
        t
    }
}

/// A token read as a `u64` in decimal: an optional `+`, then at least one
/// digit, with a value that fits.
pub open spec fn parse_u64(t: Seq<u8>) -> Option<u64> {
    let d = unsigned_digits(t);
    if d.len() > 0 && all_digits(d) && digits_value(d) <= u64::MAX {
        Some(digits_value(d) as u64)
    } else {
        None
    }
}

/// What a rollback report says: the height after the first occurrence of
/// the phrase, or the stage at which reading it fails.
pub open spec fn rollback_outcome(s: Seq<u8>) -> Result<u64, RollbackError> {
    match find_from(s, rollback_phrase(), 0) {
        None => Err(RollbackError::PhraseNotFound),
        Some(i) => {
            let token = first_token(s.subrange(i + rollback_phrase().len(), s.len() as int));
            if token.len() == 0 {
                Err(RollbackError::MissingHeight)
            } else {
                match parse_u64(token) {
                    Some(h) => Ok(h),
                    None => Err(RollbackError::InvalidHeight),
                }
            }
        }
    }
}

fn phrase_bytes() -> (r: Vec<u8>)
    ensures
        r@ == rollback_phrase(),
{
    let r: Vec<u8> = vec![
        82u8, 111u8, 108u8, 108u8, 101u8, 100u8, 32u8, 98u8, 97u8, 99u8, 107u8, 32u8,
        115u8, 116u8, 97u8, 116u8, 101u8, 32u8, 116u8, 111u8, 32u8, 104u8, 101u8,
        105u8, 103u8, 104u8, 116u8,
    ];
    assert(r@ =~= rollback_phrase());
    r
}

fn is_ascii_whitespace(b: u8) -> (r: bool)
    ensures
        r == is_ascii_ws(b),
{
    b == 0x20u8 || b == 0x09u8 || b == 0x0Au8 || b == 0x0Cu8 || b == 0x0Du8
}

fn matches_at(s: &[u8], p: &[u8], i: usize) -> (r: bool)
    requires
        i + p@.len() <= s@.len(),
    ensures
        r == occurs_at(s@, p@, i as int),
{
    let n = s.len();
    let mut j: usize = 0;
    while j < p.len()
        invariant
            j <= p@.len(),
            n == s@.len(),
            i + p@.len() <= s@.len(),
            forall|k: int| 0 <= k < j ==> s@[i + k] == p@[k],
        decreases p@.len() - j,
    {
        if s[i + j] != p[j] {
            assert(s@.subrange(i as int, i + p@.len())[j as int] != p@[j as int]);
            return false;
        }
        j = j + 1;
    }
    assert(s@.subrange(i as int, i + p@.len()) =~= p@);
    true
}

/// Index of the first occurrence of `p` in `s`.
fn find(s: &[u8], p: &[u8]) -> (r: Option<usize>)
    requires
        p@.len() > 0,
    ensures
        match r {
            None => find_from(s@, p@, 0) is None,
            Some(k) => find_from(s@, p@, 0) == Some(k as int),
        },
{
    if p.len() > s.len() {
        return None;
    }
    let n = s.len();
    let last = n - p.len();
    let mut i: usize = 0;
    while i <= last
        invariant
            p@.len() <= s@.len(),
            last < n,
            n == s@.len(),
            last == s@.len() - p@.len(),
            i <= last + 1,
            find_from(s@, p@, 0) == find_from(s@, p@, i as int),
        decreases last + 1 - i,
    {
        if matches_at(s, p, i) {
            return Some(i);
        }
        i = i + 1;
    }
    None
}

proof fn lemma_find_from_occurs(s: Seq<u8>, p: Seq<u8>, k: int)
    ensures
        match find_from(s, p, k) {
            None => true,
            Some(j) => occurs_at(s, p, j),
        },
    decreases s.len() + 1 - k,
{
    if !(k < 0 || k + p.len() > s.len()) && !occurs_at(s, p, k) {
        lemma_find_from_occurs(s, p, k + 1);
    }
}

/// Skips whitespace from `start` and returns the bounds of the token found.
fn token_bounds(s: &[u8], start: usize) -> (r: (usize, usize))
    requires
        start <= s@.len(),
    ensures
        r.0 <= r.1 <= s@.len(),
        s@.subrange(r.0 as int, r.1 as int) == first_token(s@.subrange(start as int, s@.len() as int)),
{
    let mut i: usize = start;
    while i < s.len() && is_ascii_whitespace(s[i])
        invariant
            start <= i <= s@.len(),
            first_token(s@.subrange(start as int, s@.len() as int))
                == first_token(s@.subrange(i as int, s@.len() as int)),
        decreases s@.len() - i,
    {
        assert(s@.subrange(i as int, s@.len() as int).drop_first()
            =~= s@.subrange(i + 1, s@.len() as int));
        i = i + 1;
    }
    let begin = i;
    if i == s.len() {
        assert(s@.subrange(i as int, s@.len() as int) =~= Seq::<u8>::empty());
        assert(s@.subrange(begin as int, i as int) =~= Seq::<u8>::empty());
        return (begin, i);
    }
    while i < s.len() && !is_ascii_whitespace(s[i])
        invariant
            begin <= i <= s@.len(),
            begin < s@.len(),
            !is_ascii_ws(s@[begin as int]),
            leading_word(s@.subrange(begin as int, s@.len() as int))
                == s@.subrange(begin as int, i as int) + leading_word(s@.subrange(i as int, s@.len() as int)),
        decreases s@.len() - i,
    {
        let ghost rest = s@.subrange(i as int, s@.len() as int);
        assert(rest.drop_first() =~= s@.subrange(i + 1, s@.len() as int));
        assert(s@.subrange(begin as int, i + 1) =~= s@.subrange(begin as int, i as int) + seq![s@[i as int]]);
        i = i + 1;
    }
    let ghost rest = s@.subrange(i as int, s@.len() as int);
    assert(leading_word(rest) =~= Seq::<u8>::empty());
    assert(s@.subrange(begin as int, i as int) + Seq::<u8>::empty() =~= s@.subrange(begin as int, i as int));
    (begin, i)
}

proof fn lemma_digits_value_push(s: Seq<u8>, b: u8)
    ensures
        digits_value(s.push(b)) == digits_value(s) * 10 + (b - 48) as nat,
{
    assert(s.push(b).drop_last() =~= s);
}

/// Reads `t` as an unsigned decimal integer that fits in a `u64`.
fn parse_token(t: &[u8]) -> (r: Option<u64>)
    ensures
        r == parse_u64(t@),
{
    let mut start: usize = 0;
    if t.len() > 0 && t[0] == 43u8 {
        start = 1;
    }
    let ghost d = unsigned_digits(t@);
    assert(d =~= t@.subrange(start as int, t@.len() as int));
    if start == t.len() {
        assert(d.len() == 0);
        return None;
    }
    let mut i: usize = start;
    let mut value: u64 = 0;
    while i < t.len()
        invariant
            start <= i <= t@.len(),
            d == unsigned_digits(t@),
            d == t@.subrange(start as int, t@.len() as int),
            all_digits(t@.subrange(start as int, i as int)),
            value as nat == digits_value(t@.subrange(start as int, i as int)),
        decreases t@.len() - i,
    {
        let b = t[i];
        let ghost prefix = t@.subrange(start as int, i as int);
        assert(t@.subrange(start as int, i + 1) =~= prefix.push(b));
        proof {
            lemma_digits_value_push(prefix, b);
        }
        assert(d[i - start] == b);
        if !(48u8 <= b && b <= 57u8) {
            assert(!is_digit(d[i - start]));
            assert(!all_digits(d));
            return None;
        }
        let digit: u64 = (b - 48u8) as u64;
        if value > (u64::MAX - digit) / 10 {
            proof {
                assert(d.subrange(0, i - start + 1) =~= t@.subrange(start as int, i + 1));
                if all_digits(d) {
                    lemma_digits_prefix_bound(d, (i - start) as int + 1);
                }
            }
            return None;
        }
        value = value * 10 + digit;
        i = i + 1;
    }
    assert(t@.subrange(start as int, i as int) =~= d);
    Some(value)
}

/// A prefix of a digit string has no larger value than the whole.
proof fn lemma_digits_prefix_bound(d: Seq<u8>, n: int)
    requires
        0 <= n <= d.len(),
        all_digits(d),
    ensures
        digits_value(d.subrange(0, n)) <= digits_value(d),
    decreases d.len() - n,
{
    if n < d.len() {
        lemma_digits_prefix_bound(d, n + 1);
        let p = d.subrange(0, n);
        assert(d.subrange(0, n + 1) =~= p.push(d[n]));
        lemma_digits_value_push(p, d[n]);
        assert(is_digit(d[n]));
    } else {
        assert(d.subrange(0, n) =~= d);
    }
}

/// Reads the block height that the engine's rollback command reports on its
/// standard output ("Rolled back state to height <N> and hash <H>").
pub fn parse_rollback_output(stdout: &str) -> (r: Result<u64, RollbackError>)
    ensures
        r == rollback_outcome(stdout.spec_bytes()),
{
    let s = stdout.as_bytes();
    let n = s.len();
    let phrase = phrase_bytes();
    match find(s, phrase.as_slice()) {
        None => Err(RollbackError::PhraseNotFound),
        Some(i) => {
            proof {
                lemma_find_from_occurs(s@, phrase@, 0);
                assert(occurs_at(s@, phrase@, i as int));
            }
            assert(i + phrase.len() <= n);
            let (b, e) = token_bounds(s, i + phrase.len());
            if b == e {
                assert(s@.subrange(b as int, e as int).len() == 0);
                return Err(RollbackError::MissingHeight);
            }
            let token = slice_subrange(s, b, e);
            match parse_token(token) {
                Some(h) => Ok(h),
                None => Err(RollbackError::InvalidHeight),
            }
        }
    }
}

/// The decimal digits of `n`, without leading zeros.
pub open spec fn decimal(n: nat) -> Seq<u8>
    decreases n,
{
    if n < 10 {
        seq![(48 + n) as u8]
    } else {
        decimal(n / 10).push((48 + n % 10) as u8)
    }
}

proof fn lemma_decimal(n: nat)
    ensures
        decimal(n).len() > 0,
        all_digits(decimal(n)),
        digits_value(decimal(n)) == n,
        decimal(n)[0] != 43u8,
        forall|i: int| 0 <= i < decimal(n).len() ==> !is_ascii_ws(#[trigger] decimal(n)[i]),
    decreases n,
{
    if n < 10 {
        let d = decimal(n);
        assert(d.drop_last() =~= Seq::<u8>::empty());
        assert(d.last() == (48 + n) as u8);
        assert(digits_value(d) == digits_value(d.drop_last()) * 10 + (d.last() - 48) as nat);
    } else {
        lemma_decimal(n / 10);
        let p = decimal(n / 10);
        let b = (48 + n % 10) as u8;
        lemma_digits_value_push(p, b);
        assert(decimal(n) == p.push(b));
        assert((b - 48) as nat == n % 10);
        assert((n / 10) * 10 + n % 10 == n);
        assert forall|i: int| 0 <= i < decimal(n).len() implies is_digit(#[trigger] decimal(n)[i]) by {
            if i < p.len() {
                assert(decimal(n)[i] == p[i]);
            }
        }
    }
}

proof fn lemma_leading_word(w: Seq<u8>, rest: Seq<u8>)
    requires
        forall|i: int| 0 <= i < w.len() ==> !is_ascii_ws(#[trigger] w[i]),
        rest.len() == 0 || is_ascii_ws(rest[0]),
    ensures
        leading_word(w + rest) == w,
    decreases w.len(),
{
    if w.len() == 0 {
        assert(w + rest =~= rest);
    } else {
        assert((w + rest).drop_first() =~= w.drop_first() + rest);
        lemma_leading_word(w.drop_first(), rest);
        assert(seq![w[0]] + w.drop_first() =~= w);
    }
}

proof fn lemma_find_first(s: Seq<u8>, p: Seq<u8>, k: int, j: int)
    requires
        0 <= k <= j,
        occurs_at(s, p, j),
        forall|i: int| k <= i < j ==> !occurs_at(s, p, i),
    ensures
        find_from(s, p, k) == Some(j),
    decreases j - k,
{
    if k < j {
        lemma_find_first(s, p, k + 1, j);
    }
}

proof fn lemma_find_none(s: Seq<u8>, p: Seq<u8>, k: int)
    requires
        0 <= k,
        forall|i: int| k <= i ==> !occurs_at(s, p, i),
    ensures
        find_from(s, p, k) is None,
    decreases s.len() + 1 - k,
{
    if k + p.len() <= s.len() {
        lemma_find_none(s, p, k + 1);
    }
}

/// A report in which the phrase is followed by a space, the height in
/// decimal and then white space or nothing (" and hash <H>"), and which
/// holds no earlier occurrence of the phrase, reads as exactly that height.
pub proof fn lemma_report_gives_height(prefix: Seq<u8>, height: u64, tail: Seq<u8>)
    requires
        forall|i: int|
            0 <= i < prefix.len() ==> !occurs_at(
                prefix + rollback_phrase() + seq![32u8] + decimal(height as nat) + tail,
                rollback_phrase(),
                i,
            ),
        tail.len() == 0 || is_ascii_ws(tail[0]),
    ensures
        rollback_outcome(prefix + rollback_phrase() + seq![32u8] + decimal(height as nat) + tail)
            == Ok::<u64, RollbackError>(height),
{
    let ph = rollback_phrase();
    let d = decimal(height as nat);
    let s = prefix + ph + seq![32u8] + d + tail;
    assert(s.subrange(prefix.len() as int, (prefix.len() + ph.len()) as int) =~= ph);
    lemma_find_first(s, ph, 0, prefix.len() as int);
    let rest = s.subrange((prefix.len() + ph.len()) as int, s.len() as int);
    assert(rest =~= seq![32u8] + (d + tail));
    assert(rest.drop_first() =~= d + tail);
    lemma_decimal(height as nat);
    lemma_leading_word(d, tail);
    assert((d + tail)[0] == d[0]);
    assert(first_token(rest) == first_token(d + tail));
    assert(first_token(d + tail) == leading_word(d + tail));
    assert(unsigned_digits(d) == d);
}

/// A report that nowhere holds the phrase reads as the error that says so.
pub proof fn lemma_report_without_phrase(s: Seq<u8>)
    requires
        forall|i: int| 0 <= i ==> !occurs_at(s, rollback_phrase(), i),
    ensures
        rollback_outcome(s) == Err::<u64, RollbackError>(RollbackError::PhraseNotFound),
{
    lemma_find_none(s, rollback_phrase(), 0);
}

} // verus!
