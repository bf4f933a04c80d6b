//! Character-sequence helpers: suffix tests, equality, lexicographic order, concatenation.
//!
//! Strings are specified by their `Seq<char>` view. Lexicographic order on code points is the
//! order Rust's `str` comparison gives (UTF-8 preserves code-point order).

use vstd::prelude::*;
use vstd::string::*;

verus! {

/// `suffix` is a suffix of `s`.
pub open spec fn has_suffix(s: Seq<char>, suffix: Seq<char>) -> bool {
    suffix.len() <= s.len() && s.subrange(s.len() - suffix.len(), s.len() as int) == suffix
}

/// Strict lexicographic order on code points: `a` is a proper prefix of `b`, or at the first
/// differing position `a` has the smaller character.
pub open spec fn lex_less(a: Seq<char>, b: Seq<char>) -> bool {
    ||| (a.len() < b.len() && a == b.subrange(0, a.len() as int))
    ||| exists|i: int|
        0 <= i < a.len() && i < b.len() && a.subrange(0, i) == b.subrange(0, i) && (a[i] as u32)
            < (b[i] as u32)
}

proof fn lemma_char_code_injective(a: char, b: char)
    requires
        a != b,
    ensures
        (a as u32) != (b as u32),
{
}

proof fn lemma_lex_lift(a: Seq<char>, b: Seq<char>)
    requires
        a.len() > 0,
        b.len() > 0,
        a[0] == b[0],
        lex_less(a.drop_first(), b.drop_first()),
    ensures
        lex_less(a, b),
{
    let a1 = a.drop_first();
    let b1 = b.drop_first();
    if a1.len() < b1.len() && a1 == b1.subrange(0, a1.len() as int) {
        assert(a =~= b.subrange(0, a.len() as int)) by {
            assert forall|k: int| 0 <= k < a.len() implies a[k] == b.subrange(0, a.len() as int)[k] by {
                if k > 0 {
                    assert(a[k] == a1[k - 1]);
                    assert(b[k] == b1[k - 1]);
                    assert(a1[k - 1] == b1.subrange(0, a1.len() as int)[k - 1]);
                }
            }
        }
    } else {
        let i = choose|i: int|
            0 <= i < a1.len() && i < b1.len() && a1.subrange(0, i) == b1.subrange(0, i) && (
            a1[i] as u32) < (b1[i] as u32);
        assert(a.subrange(0, i + 1) =~= b.subrange(0, i + 1)) by {
            assert forall|k: int| 0 <= k < i + 1 implies #[trigger] a.subrange(0, i + 1)[k]
                == b.subrange(0, i + 1)[k] by {
                if k > 0 {
                    assert(a1.subrange(0, i)[k - 1] == b1.subrange(0, i)[k - 1]);
                }
            }
        }
        assert(a[i + 1] == a1[i]);
        assert(b[i + 1] == b1[i]);
    }
}

/// Lexicographic order is total: two character sequences are equal or one is below the other.
pub proof fn lemma_lex_total(a: Seq<char>, b: Seq<char>)
    ensures
        a == b || lex_less(a, b) || lex_less(b, a),
    decreases a.len(),
{
    if a.len() == 0 || b.len() == 0 {
        if a.len() == 0 && b.len() == 0 {
            assert(a =~= b);
        } else if a.len() == 0 {
            assert(a =~= b.subrange(0, 0));
        } else {
            assert(b =~= a.subrange(0, 0));
        }
    } else if a[0] != b[0] {
        assert(a.subrange(0, 0) =~= b.subrange(0, 0));
        if (a[0] as u32) < (b[0] as u32) {
            assert(lex_less(a, b));
        } else {
            lemma_char_code_injective(a[0], b[0]);
            assert((b[0] as u32) < (a[0] as u32));
            assert(lex_less(b, a));
        }
    } else {
        lemma_lex_total(a.drop_first(), b.drop_first());
        if a.drop_first() == b.drop_first() {
            assert(a =~= b) by {
                assert forall|k: int| 0 <= k < a.len() implies a[k] == b[k] by {
                    if k > 0 {
                        assert(a[k] == a.drop_first()[k - 1]);
                        assert(b[k] == b.drop_first()[k - 1]);
                    }
                }
            }
        } else if lex_less(a.drop_first(), b.drop_first()) {
            lemma_lex_lift(a, b);
        } else {
            lemma_lex_lift(b, a);
        }
    }
}

/// Lexicographic order is irreflexive.
pub proof fn lemma_lex_irreflexive(a: Seq<char>)
    ensures
        !lex_less(a, a),
{
}

/// Lexicographic order is transitive.
pub proof fn lemma_lex_transitive(a: Seq<char>, b: Seq<char>, c: Seq<char>)
    requires
        lex_less(a, b),
        lex_less(b, c),
    ensures
        lex_less(a, c),
{
    let ab_prefix = a.len() < b.len() && a == b.subrange(0, a.len() as int);
    let bc_prefix = b.len() < c.len() && b == c.subrange(0, b.len() as int);
    if ab_prefix && bc_prefix {
        assert(a =~= c.subrange(0, a.len() as int)) by {
            assert forall|k: int| 0 <= k < a.len() implies a[k] == c.subrange(0, a.len() as int)[k] by {
                assert(a[k] == b.subrange(0, a.len() as int)[k]);
                assert(b[k] == c.subrange(0, b.len() as int)[k]);
            }
        }
    } else if ab_prefix {
        let j = choose|j: int|
            0 <= j < b.len() && j < c.len() && b.subrange(0, j) == c.subrange(0, j) && (b[j] as u32)
                < (c[j] as u32);
        if j < a.len() {
            assert(a.subrange(0, j) =~= c.subrange(0, j)) by {
                assert forall|k: int| 0 <= k < j implies a.subrange(0, j)[k] == c.subrange(0, j)[k] by {
                    assert(a[k] == b.subrange(0, a.len() as int)[k]);
                    assert(b.subrange(0, j)[k] == c.subrange(0, j)[k]);
                }
            }
            assert(a[j] == b.subrange(0, a.len() as int)[j]);
            assert(lex_less(a, c));
        } else {
            assert(a =~= c.subrange(0, a.len() as int)) by {
                assert forall|k: int| 0 <= k < a.len() implies a[k] == c.subrange(0, a.len() as int)[k] by {
                    assert(a[k] == b.subrange(0, a.len() as int)[k]);
                    assert(b.subrange(0, j)[k] == c.subrange(0, j)[k]);
                }
            }
        }
    } else if bc_prefix {
        let i = choose|i: int|
            0 <= i < a.len() && i < b.len() && a.subrange(0, i) == b.subrange(0, i) && (a[i] as u32)
                < (b[i] as u32);
        assert(a.subrange(0, i) =~= c.subrange(0, i)) by {
            assert forall|k: int| 0 <= k < i implies a.subrange(0, i)[k] == c.subrange(0, i)[k] by {
                assert(a.subrange(0, i)[k] == b.subrange(0, i)[k]);
                assert(b[k] == c.subrange(0, b.len() as int)[k]);
            }
        }
        assert(b[i] == c.subrange(0, b.len() as int)[i]);
        assert(lex_less(a, c));
    } else {
        let i = choose|i: int|
            0 <= i < a.len() && i < b.len() && a.subrange(0, i) == b.subrange(0, i) && (a[i] as u32)
                < (b[i] as u32);
        let j = choose|j: int|
            0 <= j < b.len() && j < c.len() && b.subrange(0, j) == c.subrange(0, j) && (b[j] as u32)
                < (c[j] as u32);
        let m = if i < j { i } else { j };
        assert(a.subrange(0, m) =~= c.subrange(0, m)) by {
            assert forall|k: int| 0 <= k < m implies a.subrange(0, m)[k] == c.subrange(0, m)[k] by {
                assert(a.subrange(0, i)[k] == b.subrange(0, i)[k]);
                assert(b.subrange(0, j)[k] == c.subrange(0, j)[k]);
            }
        }
        if i < j {
            assert(b.subrange(0, j)[i] == c.subrange(0, j)[i]);
        } else if j < i {
            assert(a.subrange(0, i)[j] == b.subrange(0, i)[j]);
        }
        assert(lex_less(a, c));
    }
}

/// True when `suffix` ends `s`.
pub fn ends_with(s: &str, suffix: &str) -> (r: bool)
    ensures
        r == has_suffix(s@, suffix@),
{
    let n = s.unicode_len();
    let m = suffix.unicode_len();
    if m > n {
        return false;
    }
    let start = n - m;
    let mut i: usize = 0;
    while i < m
        invariant
            n == s@.len(),
            m == suffix@.len(),
            start == n - m,
            i <= m,
            forall|j: int| 0 <= j < i ==> s@[start + j] == suffix@[j],
        decreases m - i,
    {
        if s.get_char(start + i) != suffix.get_char(i) {
            assert(s@.subrange(start as int, n as int)[i as int] != suffix@[i as int]);
            return false;
        }
        i = i + 1;
    }
    assert(s@.subrange(start as int, n as int) =~= suffix@);
    true
}

/// True when the two strings hold the same characters.
pub fn same_text(a: &str, b: &str) -> (r: bool)
    ensures
        r == (a@ == b@),
{
    let n = a.unicode_len();
    if n != b.unicode_len() {
        return false;
    }
    let mut i: usize = 0;
    while i < n
        invariant
            n == a@.len(),
            n == b@.len(),
            i <= n,
            forall|j: int| 0 <= j < i ==> a@[j] == b@[j],
        decreases n - i,
    {
        if a.get_char(i) != b.get_char(i) {
            return false;
        }
        i = i + 1;
    }
    assert(a@ =~= b@);
    true
}

/// Strict lexicographic comparison: `a < b`.
pub fn text_less(a: &str, b: &str) -> (r: bool)
    ensures
        r == lex_less(a@, b@),
{
    let n = a.unicode_len();
    let m = b.unicode_len();
    let mut i: usize = 0;
    while i < n && i < m
        invariant
            n == a@.len(),
            m == b@.len(),
            i <= n,
            i <= m,
            a@.subrange(0, i as int) == b@.subrange(0, i as int),
        decreases n - i,
    {
        let ca = a.get_char(i);
        let cb = b.get_char(i);
        if ca != cb {
            if (ca as u32) < (cb as u32) {
                assert(0 <= i < a@.len() && i < b@.len() && a@.subrange(0, i as int)
                    == b@.subrange(0, i as int) && (a@[i as int] as u32) < (b@[i as int] as u32));
                return true;
            } else {
                proof {
                    assert forall|k: int|
                        0 <= k < a@.len() && k < b@.len() && a@.subrange(0, k) == b@.subrange(
                            0,
                            k,
                        ) implies !((a@[k] as u32) < (b@[k] as u32)) by {
                        if k < i {
                            assert(a@[k] == a@.subrange(0, i as int)[k]);
                            assert(b@[k] == b@.subrange(0, i as int)[k]);
                        } else if k > i {
                            assert(a@[i as int] == a@.subrange(0, k)[i as int]);
                            assert(b@[i as int] == b@.subrange(0, k)[i as int]);
                        }
                    }
                    if a@.len() < b@.len() && a@ == b@.subrange(0, a@.len() as int) {
                        assert(a@[i as int] == b@.subrange(0, a@.len() as int)[i as int]);
                    }
                }
                return false;
            }
        }
        proof {
            assert(a@.subrange(0, i + 1) =~= a@.subrange(0, i as int).push(ca));
            assert(b@.subrange(0, i + 1) =~= b@.subrange(0, i as int).push(cb));
        }
        i = i + 1;
    }
    proof {
        assert forall|k: int|
            0 <= k < a@.len() && k < b@.len() && a@.subrange(0, k) == b@.subrange(
                0,
                k,
            ) implies !((a@[k] as u32) < (b@[k] as u32)) by {
            assert(a@[k] == a@.subrange(0, i as int)[k]);
            assert(b@[k] == b@.subrange(0, i as int)[k]);
        }
    }
    if n < m {
        assert(a@ =~= a@.subrange(0, n as int));
        true
    } else {
        false
    }
}

/// `a`, then `b`, then `c`.
pub fn concat3(a: &str, b: &str, c: &str) -> (r: String)
    ensures
        r@ == a@ + b@ + c@,
{
    let mut s = String::from_str(a);
    s.append(b);
    s.append(c);
    s
}

/// `a`, then `b`.
pub fn concat2(a: &str, b: &str) -> (r: String)
    ensures
        r@ == a@ + b@,
{
    let mut s = String::from_str(a);
    s.append(b);
    s
}

/// The character of a decimal digit.
pub open spec fn digit_char(d: nat) -> char {
    if d == 0 { '0' } else if d == 1 { '1' } else if d == 2 { '2' } else if d == 3 { '3' }
    else if d == 4 { '4' } else if d == 5 { '5' } else if d == 6 { '6' } else if d == 7 { '7' }
    else if d == 8 { '8' } else { '9' }
}

/// The decimal rendering of a natural number, without leading zeros.
pub open spec fn decimal(n: nat) -> Seq<char>
    decreases n,
{
    if n < 10 {
        seq![digit_char(n)]
    } else {
        decimal(n / 10) + seq![digit_char(n % 10)]
    }
}

fn digit_text(d: u32) -> (r: &'static str)
    requires
        d < 10,
    ensures
        r@ == seq![digit_char(d as nat)],
{
    if d == 0 {
        proof { reveal_strlit("0"); }
        "0"
    } else if d == 1 {
        proof { reveal_strlit("1"); }
        "1"
    } else if d == 2 {
        proof { reveal_strlit("2"); }
        "2"
    } else if d == 3 {
        proof { reveal_strlit("3"); }
        "3"
    } else if d == 4 {
        proof { reveal_strlit("4"); }
        "4"
    } else if d == 5 {
        proof { reveal_strlit("5"); }
        "5"
    } else if d == 6 {
        proof { reveal_strlit("6"); }
        "6"
    } else if d == 7 {
        proof { reveal_strlit("7"); }
        "7"
    } else if d == 8 {
        proof { reveal_strlit("8"); }
        "8"
    } else {
        proof { reveal_strlit("9"); }
        "9"
    }
}

/// The decimal rendering of `n`.
pub fn decimal_text(n: u64) -> (r: String)
    ensures
        r@ == decimal(n as nat),
    decreases n,
{
    if n < 10 {
        String::from_str(digit_text(n as u32))
    } else {
        let mut s = decimal_text(n / 10);
        s.append(digit_text((n % 10) as u32));
        s
    }
}

} // verus!
