//! Small verified string helpers shared by the signing and decoding paths:
//! character-wise equality and lexicographic comparison of UTF-8 strings,
//! and decimal rendering of unsigned integers.

use vstd::prelude::*;
use vstd::string::StrSliceExecFns;

verus! {

/// Lexicographic "less than or equal" on character sequences, comparing
/// scalar values position by position; a proper prefix sorts first.
/// This coincides with the byte-wise ordering of the UTF-8 encodings.
pub open spec fn lex_le(a: Seq<char>, b: Seq<char>) -> bool
    decreases a.len(),
{
    if a.len() == 0 {
        true
    } else if b.len() == 0 {
        false
    } else if a[0] == b[0] {
        lex_le(a.drop_first(), b.drop_first())
    } else {
        a[0] < b[0]
    }
}

pub proof fn lemma_lex_le_reflexive(a: Seq<char>)
    ensures
        lex_le(a, a),
    decreases a.len(),
{
    if a.len() > 0 {
        lemma_lex_le_reflexive(a.drop_first());
    }
}

pub proof fn lemma_lex_le_antisymmetric(a: Seq<char>, b: Seq<char>)
    requires
        lex_le(a, b),
        lex_le(b, a),
    ensures
        a == b,
    decreases a.len(),
{
    if a.len() == 0 {
        assert(b.len() == 0);
        assert(a =~= b);
    } else {
        assert(a[0] == b[0]);
        lemma_lex_le_antisymmetric(a.drop_first(), b.drop_first());
        assert(a =~= seq![a[0]] + a.drop_first());
        assert(b =~= seq![b[0]] + b.drop_first());
    }
}

pub proof fn lemma_lex_le_transitive(a: Seq<char>, b: Seq<char>, c: Seq<char>)
    requires
        lex_le(a, b),
        lex_le(b, c),
    ensures
        lex_le(a, c),
    decreases a.len(),
{
    if a.len() > 0 && b.len() > 0 && c.len() > 0 {
        if a[0] == b[0] && b[0] == c[0] {
            lemma_lex_le_transitive(a.drop_first(), b.drop_first(), c.drop_first());
        }
    }
}

pub proof fn lemma_lex_le_connected(a: Seq<char>, b: Seq<char>)
    ensures
        lex_le(a, b) || lex_le(b, a),
    decreases a.len(),
{
    if a.len() > 0 && b.len() > 0 {
        if a[0] == b[0] {
            lemma_lex_le_connected(a.drop_first(), b.drop_first());
        }
    }
}

/// Character-wise string equality: returns whether the two views agree.
pub fn str_eq(a: &str, b: &str) -> (r: bool)
    ensures
        r == (a@ == b@),
{
    let alen = a.unicode_len();
    let blen = b.unicode_len();
    if alen != blen {
        return false;
    }
    let mut i: usize = 0;
    while i < alen
        invariant
            alen == a@.len(),
            alen == b@.len(),
            0 <= i <= alen,
            forall|j: int| 0 <= j < i ==> a@[j] == b@[j],
        decreases alen - i,
    {
        if a.get_char(i) != b.get_char(i) {
            return false;
        }
        i = i + 1;
    }
    proof {
        assert(a@ =~= b@);
    }
    true
}

/// Lexicographic comparison of two strings, as `lex_le` on their views.
pub fn str_lex_le(a: &str, b: &str) -> (r: bool)
    ensures
        r == lex_le(a@, b@),
{
    let alen = a.unicode_len();
    let blen = b.unicode_len();
    let mut i: usize = 0;
    proof {
        assert(a@.skip(0) =~= a@);
        assert(b@.skip(0) =~= b@);
    }
    loop
        invariant
            alen == a@.len(),
            blen == b@.len(),
            0 <= i <= alen,
            i <= blen,
            forall|j: int| 0 <= j < i ==> a@[j] == b@[j],
            lex_le(a@, b@) == lex_le(a@.skip(i as int), b@.skip(i as int)),
        decreases alen - i,
    {
        if i >= alen {
            proof {
                assert(a@.skip(i as int).len() == 0);
            }
            return true;
        }
        if i >= blen {
            proof {
                assert(b@.skip(i as int).len() == 0);
                assert(a@.skip(i as int).len() > 0);
            }
            return false;
        }
        let ca = a.get_char(i);
        let cb = b.get_char(i);
        proof {
            assert(a@.skip(i as int)[0] == a@[i as int]);
            assert(b@.skip(i as int)[0] == b@[i as int]);
            assert(a@.skip(i as int).drop_first() =~= a@.skip(i as int + 1));
            assert(b@.skip(i as int).drop_first() =~= b@.skip(i as int + 1));
        }
        if ca != cb {
            return ca < cb;
        }
        i = i + 1;
    }
}

/// The decimal rendering of a natural number, most significant digit first,
/// without leading zeros (and `"0"` for zero).
pub open spec fn dec_str(n: nat) -> Seq<char>
    decreases n,
{
    if n < 10 {
        seq![dec_digit(n)]
    } else {
        dec_str(n / 10).push(dec_digit(n % 10))
    }
}

/// The character for a single decimal digit.
pub open spec fn dec_digit(n: nat) -> char {
    if n == 0 {
        '0'
    } else if n == 1 {
        '1'
    } else if n == 2 {
        '2'
    } else if n == 3 {
        '3'
    } else if n == 4 {
        '4'
    } else if n == 5 {
        '5'
    } else if n == 6 {
        '6'
    } else if n == 7 {
        '7'
    } else if n == 8 {
        '8'
    } else {
        '9'
    }
}

/// Relies on `u64`'s `Display` implementation, which std documents as
/// formatting the integer in base ten with no sign and no leading zeros.
#[verifier::external_body]
pub fn u64_to_string(n: u64) -> (r: String)
    ensures
        r@ == dec_str(n as nat),
{
    n.to_string()
}

/// An ASCII decimal digit.
pub open spec fn is_digit_char(c: char) -> bool {
    '0' <= c && c <= '9'
}

/// How often `c` occurs in `s`.
pub open spec fn count_char(s: Seq<char>, c: char) -> int
    decreases s.len(),
{
    if s.len() == 0 {
        0
    } else {
        count_char(s.drop_last(), c) + if s.last() == c {
            1int
        } else {
            0int
        }
    }
}

/// A decimal number token without sign: digits with at most one inner
/// decimal point, neither starting nor ending the token.
pub open spec fn spec_decimal_body(t: Seq<char>) -> bool {
    &&& t.len() > 0
    &&& t[0] != '.'
    &&& t[t.len() - 1] != '.'
    &&& (forall|i: int| 0 <= i < t.len() ==> (is_digit_char(#[trigger] t[i]) || t[i] == '.'))
    &&& count_char(t, '.') <= 1
}

/// A decimal number token as the exchange writes quantities and prices:
/// an optional leading minus sign, then digits with at most one inner
/// decimal point.
pub open spec fn spec_is_decimal(s: Seq<char>) -> bool {
    if s.len() > 0 && s[0] == '-' {
        spec_decimal_body(s.drop_first())
    } else {
        spec_decimal_body(s)
    }
}

/// Check a string against the decimal-token grammar.
pub fn is_decimal_str(s: &str) -> (r: bool)
    ensures
        r == spec_is_decimal(s@),
{
    let len = s.unicode_len();
    let offset: usize = if len > 0 && s.get_char(0) == '-' {
        1
    } else {
        0
    };
    let ghost t = s@.skip(offset as int);
    proof {
        if offset == 1 {
            assert(t =~= s@.drop_first());
        } else {
            assert(t =~= s@);
        }
    }
    if len == offset {
        proof {
            assert(t.len() == 0);
        }
        return false;
    }
    if s.get_char(offset) == '.' {
        return false;
    }
    if s.get_char(len - 1) == '.' {
        proof {
            assert(t[t.len() - 1] == s@[len - 1]);
        }
        return false;
    }
    let mut i: usize = offset;
    let mut dots: u64 = 0;
    proof {
        assert(t.take(0) =~= Seq::<char>::empty());
    }
    while i < len
        invariant
            offset <= i <= len,
            offset <= 1,
            len == s@.len(),
            t == s@.skip(offset as int),
            spec_is_decimal(s@) == spec_decimal_body(t),
            dots == count_char(t.take(i - offset), '.'),
            dots <= 1,
            forall|j: int|
                0 <= j < i - offset ==> (is_digit_char(#[trigger] t[j]) || t[j] == '.'),
        decreases len - i,
    {
        let c = s.get_char(i);
        proof {
            assert(t[i - offset] == s@[i as int]);
            assert(t.take(i - offset + 1).drop_last() =~= t.take(i - offset));
            assert(t.take(i - offset + 1).last() == t[i - offset]);
        }
        if c == '.' {
            if dots > 0 {
                proof {
                    lemma_count_char_take_le(t, i - offset + 1, '.');
                    assert(count_char(t.take(i - offset + 1), '.') == dots + 1);
                    assert(count_char(t, '.') >= 2);
                    assert(!spec_decimal_body(t));
                    assert(!spec_is_decimal(s@));
                }
                return false;
            }
            dots = 1;
        } else if !(('0' <= c) && (c <= '9')) {
            proof {
                assert(!(is_digit_char(t[i - offset]) || t[i - offset] == '.'));
                assert(!spec_decimal_body(t));
                assert(!spec_is_decimal(s@));
            }
            return false;
        }
        i = i + 1;
    }
    proof {
        assert(t.take(len - offset) =~= t);
    }
    true
}

/// A prefix never holds more occurrences than the whole sequence.
proof fn lemma_count_char_take_le(s: Seq<char>, k: int, c: char)
    requires
        0 <= k <= s.len(),
    ensures
        count_char(s.take(k), c) <= count_char(s, c),
    decreases s.len() - k,
{
    if k < s.len() {
        lemma_count_char_take_le(s, k + 1, c);
        assert(s.take(k + 1).drop_last() =~= s.take(k));
        assert(s.take(k + 1).last() == s[k]);
    } else {
        assert(s.take(k) =~= s);
    }
}

/// `needle` occurs as a contiguous run somewhere in `hay`.
pub open spec fn spec_contains(hay: Seq<char>, needle: Seq<char>) -> bool {
    exists|k: int|
        0 <= k && k + needle.len() <= hay.len() && #[trigger] hay.subrange(k, k + needle.len())
            == needle
}

/// Substring search: whether `needle` occurs anywhere in `hay`.
pub fn str_contains(hay: &str, needle: &str) -> (r: bool)
    ensures
        r == spec_contains(hay@, needle@),
{
    let hlen = hay.unicode_len();
    let nlen = needle.unicode_len();
    if nlen > hlen {
        return false;
    }
    if nlen == 0 {
        proof {
            assert(hay@.subrange(0, 0 + needle@.len() as int) =~= needle@);
            assert(spec_contains(hay@, needle@));
        }
        return true;
    }
    let mut k: usize = 0;
    while k <= hlen - nlen
        invariant
            hlen == hay@.len(),
            nlen == needle@.len(),
            0 < nlen <= hlen,
            0 <= k <= hlen - nlen + 1,
            forall|j: int|
                0 <= j < k ==> #[trigger] hay@.subrange(j, j + needle@.len()) != needle@,
        decreases hlen - k,
    {
        let piece = hay.substring_char(k, k + nlen);
        if str_eq(piece, needle) {
            proof {
                assert(hay@.subrange(k as int, k as int + needle@.len()) == needle@);
            }
            return true;
        }
        k = k + 1;
    }
    proof {
        assert forall|j: int| 0 <= j && j + needle@.len() <= hay@.len()
            implies #[trigger] hay@.subrange(j, j + needle@.len()) != needle@ by {
            assert(j < k);
        }
    }
    false
}

} // verus!
