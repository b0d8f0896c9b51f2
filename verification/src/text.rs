//! Decimal text: the numeric suffix parsing and index rendering that the
//! roster loader, the operation responses and the client's argument
//! handling share.

use vstd::prelude::*;

verus! {

/// `c` is one of the ten ASCII digits.
pub open spec fn is_digit_char(c: char) -> bool {
    48 <= c as int <= 57
}

/// Every character of `s` is an ASCII digit.
pub open spec fn all_digits(s: Seq<char>) -> bool {
    forall|i: int| 0 <= i < s.len() ==> is_digit_char(s[i])
}

/// The number that the digit string `s` denotes (most significant digit
/// first); meaningful when `all_digits(s)` holds.
pub open spec fn digits_val(s: Seq<char>) -> int
    decreases s.len(),
{
    if s.len() == 0 {
        0
    } else {
        digits_val(s.drop_last()) * 10 + (s.last() as int - 48)
    }
}

/// The digit character for a value below ten.
pub open spec fn digit_char(d: int) -> char {
    if d == 0 { '0' }
    else if d == 1 { '1' }
    else if d == 2 { '2' }
    else if d == 3 { '3' }
    else if d == 4 { '4' }
    else if d == 5 { '5' }
    else if d == 6 { '6' }
    else if d == 7 { '7' }
    else if d == 8 { '8' }
    else { '9' }
}

/// The decimal rendering of `n`, without sign or leading zeros.
pub open spec fn dec_str(n: int) -> Seq<char>
    decreases n,
{
    if n < 10 {
        seq![digit_char(n)]
    } else {
        dec_str(n / 10).push(digit_char(n % 10))
    }
}

/// The digits of a decimal numeral: everything after one optional
/// leading plus sign.
pub open spec fn numeral_body(s: Seq<char>) -> Seq<char> {
    if s.len() >= 1 && s[0] == '+' {
        s.skip(1)
    } else {
        s
    }
}

/// `s` is a decimal numeral: an optional plus sign, then at least one
/// ASCII digit and nothing else.
pub open spec fn is_numeral(s: Seq<char>) -> bool {
    numeral_body(s).len() > 0 && all_digits(numeral_body(s))
}

/// The number a decimal numeral denotes.
pub open spec fn numeral_val(s: Seq<char>) -> int {
    digits_val(numeral_body(s))
}

/// `needle` occurs somewhere inside `hay`.
pub open spec fn contains_seq(hay: Seq<char>, needle: Seq<char>) -> bool {
    exists|i: int| 0 <= i && i + needle.len() <= hay.len()
        && #[trigger] hay.subrange(i, i + needle.len()) == needle
}

/// `c` is `k` itself, or — for a lower-case ASCII letter `k` — its
/// upper-case form.
pub open spec fn char_matches_ci(c: char, k: char) -> bool {
    c == k || (97 <= k as int <= 122 && c as int == k as int - 32)
}

/// `s` equals the lower-case ASCII keyword `kw` up to ASCII case.
pub open spec fn seq_matches_ci(s: Seq<char>, kw: Seq<char>) -> bool {
    s.len() == kw.len() && forall|i: int| 0 <= i < s.len() ==> char_matches_ci(s[i], #[trigger] kw[i])
}

/// Compares `s` against the keyword `kw` up to ASCII case.
pub fn str_matches_ci(s: &str, kw: &str) -> (r: bool)
    ensures
        r == seq_matches_ci(s@, kw@),
{
    let n = s.unicode_len();
    if n != kw.unicode_len() {
        return false;
    }
    let mut i: usize = 0;
    while i < n
        invariant
            0 <= i <= n,
            n == s@.len(),
            n == kw@.len(),
            forall|j: int| 0 <= j < i ==> char_matches_ci(s@[j], #[trigger] kw@[j]),
        decreases n - i,
    {
        let c = s.get_char(i) as u32;
        let k = kw.get_char(i) as u32;
        if !(c == k || (97 <= k && k <= 122 && c == k - 32)) {
            assert(!char_matches_ci(s@[i as int], kw@[i as int]));
            return false;
        }
        i = i + 1;
    }
    true
}

/// A decimal rendering is never empty and consists of digits alone.
pub proof fn lemma_dec_str_digits(n: int)
    requires
        n >= 0,
    ensures
        dec_str(n).len() >= 1,
        all_digits(dec_str(n)),
    decreases n,
{
    if n < 10 {
        assert(is_digit_char(digit_char(n)));
    } else {
        lemma_dec_str_digits(n / 10);
        assert(is_digit_char(digit_char(n % 10)));
        assert forall|i: int| 0 <= i < dec_str(n).len() implies is_digit_char(
            #[trigger] dec_str(n)[i],
        ) by {
            if i < dec_str(n / 10).len() {
                assert(dec_str(n)[i] == dec_str(n / 10)[i]);
            } else {
                assert(dec_str(n)[i] == digit_char(n % 10));
            }
        }
    }
}

proof fn lemma_digits_val_nonneg(s: Seq<char>)
    requires
        all_digits(s),
    ensures
        digits_val(s) >= 0,
    decreases s.len(),
{
    if s.len() > 0 {
        assert(all_digits(s.drop_last()));
        lemma_digits_val_nonneg(s.drop_last());
    }
}

proof fn lemma_digits_val_step(s: Seq<char>, i: int)
    requires
        0 <= i < s.len(),
    ensures
        digits_val(s.take(i + 1)) == digits_val(s.take(i)) * 10 + (s[i] as int - 48),
    decreases s.len(),
{
    assert(s.take(i + 1).drop_last() =~= s.take(i));
    assert(s.take(i + 1).last() == s[i]);
}

/// Extending a digit string to the right never shrinks its value.
proof fn lemma_digits_val_prefix(s: Seq<char>, i: int)
    requires
        all_digits(s),
        0 <= i <= s.len(),
    ensures
        digits_val(s.take(i)) <= digits_val(s),
    decreases s.len() - i,
{
    if i < s.len() {
        lemma_digits_val_step(s, i);
        assert(all_digits(s.take(i)));
        lemma_digits_val_nonneg(s.take(i));
        assert(digits_val(s.take(i)) <= digits_val(s.take(i + 1)));
        lemma_digits_val_prefix(s, i + 1);
    } else {
        assert(s.take(i) =~= s);
    }
}

/// Reads a non-negative decimal numeral, as the configuration loader
/// and the argument parsers understand one: an optional plus sign, then
/// at least one ASCII digit. Returns `Some` exactly when the whole
/// string has that shape and the value fits in `usize`.
pub fn parse_usize(s: &str) -> (r: Option<usize>)
    ensures
        r is Some <==> is_numeral(s@) && numeral_val(s@) <= usize::MAX,
        r is Some ==> r->0 == numeral_val(s@),
{
    let len = s.unicode_len();
    let start: usize = if len >= 1 && s.get_char(0) as u32 == 43 {
        1
    } else {
        0
    };
    let ghost body = numeral_body(s@);
    proof {
        assert(body =~= s@.skip(start as int));
    }
    if len == start {
        return None;
    }
    let mut acc: usize = 0;
    let mut j: usize = 0;
    while j < len - start
        invariant
            0 <= j <= len - start,
            start <= len,
            len == s@.len(),
            body == numeral_body(s@),
            body == s@.skip(start as int),
            body.len() == len - start,
            all_digits(body.take(j as int)),
            acc == digits_val(body.take(j as int)),
        decreases len - start - j,
    {
        let c = s.get_char(start + j);
        assert(c == body[j as int]);
        let u = c as u32;
        if u < 48 || u > 57 {
            assert(!is_digit_char(body[j as int]));
            return None;
        }
        let d = (u - 48) as usize;
        if acc > (usize::MAX - d) / 10 {
            proof {
                lemma_digits_val_step(body, j as int);
                assert(acc * 10 + d > usize::MAX) by (nonlinear_arith)
                    requires
                        acc > (usize::MAX - d) / 10,
                        0 <= d <= 9,
                {};
                assert(digits_val(body.take(j as int + 1)) > usize::MAX);
                if all_digits(body) {
                    lemma_digits_val_prefix(body, j as int + 1);
                }
            }
            return None;
        }
        proof {
            assert(acc * 10 + d <= usize::MAX) by (nonlinear_arith)
                requires
                    acc <= (usize::MAX - d) / 10,
                    0 <= d <= 9,
            {};
            lemma_digits_val_step(body, j as int);
            assert(all_digits(body.take(j as int + 1)));
        }
        acc = acc * 10 + d;
        j = j + 1;
    }
    proof {
        assert(body.take(body.len() as int) =~= body);
    }
    Some(acc)
}

fn digit_to_str(d: usize) -> (r: String)
    requires
        d < 10,
    ensures
        r@ == seq![digit_char(d as int)],
        r@.len() == 1,
{
    let s = match d {
        0 => String::from_str("0"),
        1 => String::from_str("1"),
        2 => String::from_str("2"),
        3 => String::from_str("3"),
        4 => String::from_str("4"),
        5 => String::from_str("5"),
        6 => String::from_str("6"),
        7 => String::from_str("7"),
        8 => String::from_str("8"),
        _ => String::from_str("9"),
    };
    proof {
        reveal_strlit("0");
        reveal_strlit("1");
        reveal_strlit("2");
        reveal_strlit("3");
        reveal_strlit("4");
        reveal_strlit("5");
        reveal_strlit("6");
        reveal_strlit("7");
        reveal_strlit("8");
        reveal_strlit("9");
        assert(s@ =~= seq![digit_char(d as int)]);
    }
    s
}

/// Renders `n` in decimal, most significant digit first.
pub fn usize_to_string(n: usize) -> (r: String)
    ensures
        r@ == dec_str(n as int),
    decreases n,
{
    if n < 10 {
        digit_to_str(n)
    } else {
        let prefix = usize_to_string(n / 10);
        let last = digit_to_str(n % 10);
        let r = prefix.concat(last.as_str());
        proof {
            assert(r@ =~= dec_str((n / 10) as int).push(digit_char((n % 10) as int)));
        }
        r
    }
}

} // verus!
