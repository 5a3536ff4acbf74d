//! Decimal text handling for the range header and the content-length probe:
//! formatting an unsigned integer as decimal digits, and parsing a
//! `content-length` header value as an unsigned 64-bit integer.

use vstd::prelude::*;
use vstd::string::StrSliceExecFns;
use vstd::string::StringExecFns;

verus! {

/// The character for a single decimal digit value.
pub open spec fn dec_digit(d: int) -> char {
    if d == 0 {
        '0'
    } else if d == 1 {
        '1'
    } else if d == 2 {
        '2'
    } else if d == 3 {
        '3'
    } else if d == 4 {
        '4'
    } else if d == 5 {
        '5'
    } else if d == 6 {
        '6'
    } else if d == 7 {
        '7'
    } else if d == 8 {
        '8'
    } else {
        '9'
    }
}

/// Decimal representation of `n`, most significant digit first, without
/// leading zeros (a single `'0'` for zero).
pub open spec fn dec_chars(n: nat) -> Seq<char>
    decreases n,
{
    if n < 10 {
        seq![dec_digit(n as int)]
    } else {
        dec_chars(n / 10) + seq![dec_digit((n % 10) as int)]
    }
}

/// `c` is an ASCII decimal digit.
pub open spec fn is_dec_digit(c: char) -> bool {
    48 <= c as int <= 57
}

/// Numeric value of an ASCII decimal digit.
pub open spec fn digit_val(c: char) -> int {
    c as int - 48
}

/// Every character of `s` is an ASCII decimal digit.
pub open spec fn all_dec_digits(s: Seq<char>) -> bool {
    forall|i: int| 0 <= i < s.len() ==> is_dec_digit(#[trigger] s[i])
}

/// Value of a sequence of decimal digits, most significant first.
pub open spec fn dec_val(s: Seq<char>) -> int
    decreases s.len(),
{
    if s.len() == 0 {
        0
    } else {
        10 * dec_val(s.drop_last()) + digit_val(s.last())
    }
}

/// The digits of a textual unsigned integer: an optional leading `'+'` is
/// allowed, as in the standard library's unsigned parser.
pub open spec fn digits_part(s: Seq<char>) -> Seq<char> {
    if s.len() > 0 && s[0] == '+' {
        s.subrange(1, s.len() as int)
    } else {
        s
    }
}

/// What parsing a textual unsigned 64-bit integer yields: the value when the
/// text is an optional `'+'` followed by one or more decimal digits whose
/// value fits in 64 bits, and nothing otherwise.
pub open spec fn spec_parse_u64(s: Seq<char>) -> Option<u64> {
    let d = digits_part(s);
    if d.len() > 0 && all_dec_digits(d) && dec_val(d) <= u64::MAX {
        Some(dec_val(d) as u64)
    } else {
        None
    }
}

proof fn lemma_dec_val_nonneg(s: Seq<char>)
    requires
        all_dec_digits(s),
    ensures
        dec_val(s) >= 0,
    decreases s.len(),
{
    if s.len() > 0 {
        assert(forall|i: int| 0 <= i < s.drop_last().len() ==> is_dec_digit(#[trigger] s.drop_last()[i]));
        lemma_dec_val_nonneg(s.drop_last());
    }
}

proof fn lemma_dec_val_prefix_le(s: Seq<char>, j: int)
    requires
        all_dec_digits(s),
        0 <= j <= s.len(),
    ensures
        dec_val(s.subrange(0, j)) <= dec_val(s),
    decreases s.len() - j,
{
    if j < s.len() {
        let pj = s.subrange(0, j);
        let pj1 = s.subrange(0, j + 1);
        assert(pj1.drop_last() =~= pj);
        assert(forall|i: int| 0 <= i < pj.len() ==> is_dec_digit(#[trigger] pj[i]));
        lemma_dec_val_nonneg(pj);
        assert(dec_val(pj1) == 10 * dec_val(pj) + digit_val(pj1.last()));
        assert(is_dec_digit(s[j]));
        lemma_dec_val_prefix_le(s, j + 1);
    } else {
        assert(s.subrange(0, j) =~= s);
    }
}

fn digit_str(d: u64) -> (r: &'static str)
    requires
        d < 10,
    ensures
        r@ == seq![dec_digit(d as int)],
{
    proof {
        reveal_strlit("0");
        reveal_strlit("1");
        reveal_strlit("2");
        reveal_strlit("3");
        reveal_strlit("4");
        reveal_strlit("5");
        reveal_strlit("6");
        reveal_strlit("7");
        reveal_strlit("8");
        reveal_strlit("9");
        assert("0"@ =~= seq!['0']);
        assert("1"@ =~= seq!['1']);
        assert("2"@ =~= seq!['2']);
        assert("3"@ =~= seq!['3']);
        assert("4"@ =~= seq!['4']);
        assert("5"@ =~= seq!['5']);
        assert("6"@ =~= seq!['6']);
        assert("7"@ =~= seq!['7']);
        assert("8"@ =~= seq!['8']);
        assert("9"@ =~= seq!['9']);
    }
    if d == 0 {
        "0"
    } else if d == 1 {
        "1"
    } else if d == 2 {
        "2"
    } else if d == 3 {
        "3"
    } else if d == 4 {
        "4"
    } else if d == 5 {
        "5"
    } else if d == 6 {
        "6"
    } else if d == 7 {
        "7"
    } else if d == 8 {
        "8"
    } else {
        "9"
    }
}

/// Format `n` as decimal digits.
pub fn u64_to_string(n: u64) -> (r: String)
    ensures
        r@ == dec_chars(n as nat),
    decreases n,
{
    if n < 10 {
        String::from_str(digit_str(n))
    } else {
        let mut s = u64_to_string(n / 10);
        s.append(digit_str(n % 10));
        proof {
            assert(s@ =~= dec_chars(n as nat));
        }
        s
    }
}

/// Parse a textual unsigned 64-bit integer: an optional leading `'+'`
/// followed by one or more decimal digits. Yields nothing on an empty
/// string, a non-digit character, or a value that does not fit in 64 bits.
pub fn parse_u64(s: &str) -> (r: Option<u64>)
    ensures
        r == spec_parse_u64(s@),
{
    let n = s.unicode_len();
    let mut start: usize = 0;
    if n > 0 && s.get_char(0) == '+' {
        start = 1;
    }
    let ghost d = digits_part(s@);
    proof {
        assert(d =~= s@.subrange(start as int, n as int));
    }
    if start >= n {
        return None;
    }
    let mut acc: u64 = 0;
    let mut j: usize = start;
    while j < n
        invariant
            start <= j <= n,
            n == s@.len(),
            start <= 1,
            d == digits_part(s@),
            d =~= s@.subrange(start as int, n as int),
            all_dec_digits(d.subrange(0, j - start)),
            acc as int == dec_val(d.subrange(0, j - start)),
        decreases n - j,
    {
        let c = s.get_char(j);
        let u = c as u32;
        if u < 48 || u > 57 {
            proof {
                assert(d[j - start] == s@[j as int]);
                assert(!is_dec_digit(d[j - start]));
            }
            return None;
        }
        let dgt = (u - 48) as u64;
        let ghost pj = d.subrange(0, j - start);
        let ghost pj1 = d.subrange(0, j - start + 1);
        proof {
            assert(pj1.drop_last() =~= pj);
            assert(pj1.last() == s@[j as int]);
            assert(dec_val(pj1) == 10 * (acc as int) + dgt);
        }
        if acc > (u64::MAX - dgt) / 10 {
            proof {
                assert(10 * (acc as int) + dgt > u64::MAX) by (nonlinear_arith)
                    requires
                        acc as int > (u64::MAX - dgt) as int / 10,
                        0 <= dgt <= 9,
                        acc <= u64::MAX,
                ;
                if all_dec_digits(d) {
                    lemma_dec_val_prefix_le(d, j - start + 1);
                }
            }
            return None;
        }
        acc = acc * 10 + dgt;
        j += 1;
        proof {
            assert(d.subrange(0, j - start) =~= pj1);
            assert(forall|i: int| 0 <= i < pj1.len() ==> is_dec_digit(#[trigger] pj1[i]));
        }
    }
    proof {
        assert(d.subrange(0, j - start) =~= d);
    }
    Some(acc)
}

} // verus!
