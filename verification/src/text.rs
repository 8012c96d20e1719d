//! Small verified string utilities: equality and prefix tests on `&str`,
//! and decimal formatting/parsing for unsigned integers.

use vstd::prelude::*;
use vstd::string::StrSliceExecFns;
use vstd::string::StringExecFns;

verus! {

/// The view of an optional string.
pub open spec fn opt_view(o: Option<String>) -> Option<Seq<char>> {
    match o {
        Some(s) => Some(s@),
        None => None,
    }
}

/// The views of a sequence of strings, in order.
pub open spec fn all_views(v: Seq<String>) -> Seq<Seq<char>> {
    v.map_values(|s: String| s@)
}

/// The views of a pushed sequence: the view of the new element, pushed.
pub proof fn lemma_all_views_push(s: Seq<String>, x: String)
    ensures
        all_views(s.push(x)) == all_views(s).push(x@),
{
    assert(all_views(s.push(x)) =~= all_views(s).push(x@));
}

/// `p` is a prefix of `s`.
pub open spec fn has_prefix(s: Seq<char>, p: Seq<char>) -> bool {
    p.len() <= s.len() && s.subrange(0, p.len() as int) == p
}

/// Character-wise string equality, stated over the views.
pub fn str_eq(a: &str, b: &str) -> (r: bool)
    ensures
        r == (a@ == b@),
{
    let an = a.unicode_len();
    let bn = b.unicode_len();
    if an != bn {
        return false;
    }
    let mut i: usize = 0;
    while i < an
        invariant
            an == a@.len(),
            an == b@.len(),
            i <= an,
            forall|j: int| 0 <= j < i ==> a@[j] == b@[j],
        decreases an - i,
    {
        if a.get_char(i) != b.get_char(i) {
            return false;
        }
        i = i + 1;
    }
    proof {
        assert(a@ =~= b@);
    }
    true
}

/// If `p` is a prefix of `s`, returns the remainder of `s` after `p`.
pub fn strip_prefix(s: &str, p: &str) -> (r: Option<String>)
    ensures
        match r {
            Some(rest) => has_prefix(s@, p@) && rest@ == s@.skip(p@.len() as int),
            None => !has_prefix(s@, p@),
        },
{
    let sn = s.unicode_len();
    let pn = p.unicode_len();
    if pn > sn {
        return None;
    }
    let mut i: usize = 0;
    while i < pn
        invariant
            sn == s@.len(),
            pn == p@.len(),
            pn <= sn,
            i <= pn,
            forall|j: int| 0 <= j < i ==> s@[j] == p@[j],
        decreases pn - i,
    {
        if s.get_char(i) != p.get_char(i) {
            proof {
                assert(s@.subrange(0, p@.len() as int)[i as int] != p@[i as int]);
            }
            return None;
        }
        i = i + 1;
    }
    proof {
        assert(s@.subrange(0, p@.len() as int) =~= p@);
    }
    let rest = s.substring_char(pn, sn);
    proof {
        assert(rest@ =~= s@.skip(p@.len() as int));
    }
    Some(String::from_str(rest))
}

/// The decimal digit character for a value below ten.
pub open spec fn digit_char(v: nat) -> char
    recommends
        v < 10,
{
    "0123456789"@[v as int]
}

/// The numeric value of a decimal digit character.
pub open spec fn digit_val(c: char) -> nat {
    if c as u32 >= 48 {
        (c as u32 - 48) as nat
    } else {
        0
    }
}

/// `c` is a decimal digit.
pub open spec fn is_digit(c: char) -> bool {
    48 <= c as u32 <= 57
}

/// Every character of `s` is a decimal digit.
pub open spec fn all_digits(s: Seq<char>) -> bool {
    forall|i: int| 0 <= i < s.len() ==> is_digit(s[i])
}

/// The canonical decimal representation of `n`, without leading zeros.
pub open spec fn dec_rep(n: nat) -> Seq<char>
    decreases n,
{
    if n < 10 {
        seq![digit_char(n)]
    } else {
        dec_rep(n / 10).push(digit_char(n % 10))
    }
}

/// The numeric value of a digit string, read most significant first.
pub open spec fn dec_val(s: Seq<char>) -> nat
    decreases s.len(),
{
    if s.len() == 0 {
        0
    } else {
        dec_val(s.drop_last()) * 10 + digit_val(s.last())
    }
}

/// Digit characters carry their digit value.
proof fn lemma_digit_char(v: nat)
    requires
        v < 10,
    ensures
        is_digit(digit_char(v)),
        digit_val(digit_char(v)) == v,
{
    reveal_strlit("0123456789");
    if v == 0 {
    } else if v == 1 {
    } else if v == 2 {
    } else if v == 3 {
    } else if v == 4 {
    } else if v == 5 {
    } else if v == 6 {
    } else if v == 7 {
    } else if v == 8 {
    } else {
        assert(v == 9);
    }
}

/// The canonical decimal representation of `n` is a nonempty digit string
/// whose value is `n` again.
pub proof fn lemma_dec_rep_val(n: nat)
    ensures
        dec_rep(n).len() >= 1,
        all_digits(dec_rep(n)),
        dec_val(dec_rep(n)) == n,
    decreases n,
{
    if n < 10 {
        lemma_digit_char(n);
        let s = seq![digit_char(n)];
        assert(s.drop_last() =~= Seq::<char>::empty());
        assert(dec_val(Seq::<char>::empty()) == 0);
        assert(s.last() == digit_char(n));
        assert(dec_val(s) == digit_val(digit_char(n)));
    } else {
        lemma_dec_rep_val(n / 10);
        lemma_digit_char(n % 10);
        let p = dec_rep(n / 10);
        let s = p.push(digit_char(n % 10));
        assert(s.drop_last() =~= p);
        assert(s.last() == digit_char(n % 10));
        assert(dec_val(s) == (n / 10) * 10 + n % 10);
        assert(forall|i: int| 0 <= i < s.len() ==> is_digit(#[trigger] s[i]));
    }
}

/// Reading a longer prefix of a digit string never decreases its value.
proof fn lemma_dec_val_take_monotone(s: Seq<char>, i: int)
    requires
        0 <= i <= s.len(),
    ensures
        dec_val(s.take(i)) <= dec_val(s),
    decreases s.len() - i,
{
    if i < s.len() {
        assert(s.take(i + 1).drop_last() =~= s.take(i));
        assert(s.take(i + 1).last() == s[i]);
        assert(dec_val(s.take(i)) <= dec_val(s.take(i + 1)));
        lemma_dec_val_take_monotone(s, i + 1);
    } else {
        assert(s.take(i) =~= s);
    }
}

/// The one-character string for a decimal digit value.
fn digit_str(v: u32) -> (r: &'static str)
    requires
        v < 10,
    ensures
        r@ == seq![digit_char(v as nat)],
{
    proof {
        reveal_strlit("0123456789");
        reveal_strlit("0");
        reveal_strlit("1");
        reveal_strlit("2");
        reveal_strlit("3");
        reveal_strlit("4");
        reveal_strlit("5");
        reveal_strlit("6");
        reveal_strlit("7");
        reveal_strlit("8");
        reveal_strlit("9");
    }
    if v == 0 {
        let r = "0";
        proof {
            assert(r@ =~= seq![digit_char(v as nat)]);
        }
        r
    } else if v == 1 {
        let r = "1";
        proof {
            assert(r@ =~= seq![digit_char(v as nat)]);
        }
        r
    } else if v == 2 {
        let r = "2";
        proof {
            assert(r@ =~= seq![digit_char(v as nat)]);
        }
        r
    } else if v == 3 {
        let r = "3";
        proof {
            assert(r@ =~= seq![digit_char(v as nat)]);
        }
        r
    } else if v == 4 {
        let r = "4";
        proof {
            assert(r@ =~= seq![digit_char(v as nat)]);
        }
        r
    } else if v == 5 {
        let r = "5";
        proof {
            assert(r@ =~= seq![digit_char(v as nat)]);
        }
        r
    } else if v == 6 {
        let r = "6";
        proof {
            assert(r@ =~= seq![digit_char(v as nat)]);
        }
        r
    } else if v == 7 {
        let r = "7";
        proof {
            assert(r@ =~= seq![digit_char(v as nat)]);
        }
        r
    } else if v == 8 {
        let r = "8";
        proof {
            assert(r@ =~= seq![digit_char(v as nat)]);
        }
        r
    } else {
        let r = "9";
        proof {
            assert(r@ =~= seq![digit_char(v as nat)]);
        }
        r
    }
}

/// The canonical decimal rendering of an unsigned integer.
pub fn u32_to_dec(n: u32) -> (r: String)
    ensures
        r@ == dec_rep(n as nat),
    decreases n,
{
    if n < 10 {
        String::from_str(digit_str(n))
    } else {
        let r = u32_to_dec(n / 10).concat(digit_str(n % 10));
        proof {
            assert(r@ =~= dec_rep(n as nat));
        }
        r
    }
}

/// Parses a decimal digit string into an unsigned integer. Returns `None`
/// exactly when the string is empty, holds a non-digit, or its value does
/// not fit.
pub fn parse_u32_dec(s: &str) -> (r: Option<u32>)
    ensures
        match r {
            Some(n) => s@.len() > 0 && all_digits(s@) && dec_val(s@) == n as nat,
            None => !(s@.len() > 0 && all_digits(s@) && dec_val(s@) <= u32::MAX as nat),
        },
{
    let n = s.unicode_len();
    if n == 0 {
        return None;
    }
    let mut acc: u64 = 0;
    let mut i: usize = 0;
    while i < n
        invariant
            n == s@.len(),
            i <= n,
            all_digits(s@.take(i as int)),
            acc as nat == dec_val(s@.take(i as int)),
            acc <= u32::MAX as u64,
        decreases n - i,
    {
        let c = s.get_char(i);
        let v = c as u32;
        if v < 48 || v > 57 {
            proof {
                assert(!is_digit(s@[i as int]));
            }
            return None;
        }
        let next = acc * 10 + ((v - 48) as u64);
        proof {
            assert(s@.take(i + 1).drop_last() =~= s@.take(i as int));
            assert(s@.take(i + 1).last() == s@[i as int]);
            assert(next as nat == dec_val(s@.take(i + 1)));
            assert(forall|j: int|
                0 <= j < i + 1 ==> is_digit(#[trigger] s@.take(i + 1)[j]));
        }
        if next > u32::MAX as u64 {
            proof {
                lemma_dec_val_take_monotone(s@, i + 1);
            }
            return None;
        }
        acc = next;
        i = i + 1;
    }
    proof {
        assert(s@.take(n as int) =~= s@);
    }
    Some(acc as u32)
}

/// The flag string for a token sequence: each token preceded by a single
/// space, so that the empty token sequence yields the empty string.
pub open spec fn joined(toks: Seq<Seq<char>>) -> Seq<char>
    decreases toks.len(),
{
    if toks.len() == 0 {
        Seq::empty()
    } else {
        joined(toks.drop_last()) + " "@ + toks.last()
    }
}

/// Joins flag tokens into the flag string, a space before each token.
pub fn join_flags(toks: &Vec<String>) -> (r: String)
    ensures
        r@ == joined(all_views(toks@)),
{
    let mut r = String::new();
    let mut i: usize = 0;
    while i < toks.len()
        invariant
            i <= toks@.len(),
            r@ == joined(all_views(toks@).take(i as int)),
        decreases toks@.len() - i,
    {
        r.append(" ");
        r.append(toks[i].as_str());
        proof {
            assert(all_views(toks@).take(i + 1).drop_last() =~= all_views(toks@).take(i as int));
            assert(all_views(toks@).take(i + 1).last() == toks@[i as int]@);
        }
        i = i + 1;
    }
    proof {
        assert(all_views(toks@).take(toks@.len() as int) =~= all_views(toks@));
    }
    r
}

} // verus!
