use vstd::prelude::*;

verus! {

use vstd::string::StrSliceExecFns;
use vstd::string::StringExecFns;

/// ASCII whitespace: what the control surface strips from the ends of a
/// command or an action name.
pub open spec fn is_space(c: char) -> bool {
    c == ' ' || c == '\t' || c == '\n' || c == '\r'
}

fn char_is_space(c: char) -> (r: bool)
    ensures
        r == is_space(c),
{
    c == ' ' || c == '\t' || c == '\n' || c == '\r'
}

/// `r` is `s` shorn of the whitespace span `[0, lo)` at the front and the
/// whitespace span `[hi, len)` at the back, with nothing strippable left.
pub open spec fn trim_witness(s: Seq<char>, r: Seq<char>, lo: int, hi: int) -> bool {
    &&& 0 <= lo <= hi <= s.len()
    &&& r == s.subrange(lo, hi)
    &&& forall|j: int| 0 <= j < lo ==> is_space(#[trigger] s[j])
    &&& forall|j: int| hi <= j < s.len() ==> is_space(#[trigger] s[j])
    &&& (lo == hi || (!is_space(s[lo]) && !is_space(s[hi - 1])))
}

/// `r` is `s` with all leading and trailing whitespace removed.
pub open spec fn is_trimmed_of(r: Seq<char>, s: Seq<char>) -> bool {
    exists|lo: int, hi: int| trim_witness(s, r, lo, hi)
}

/// `s` trims to the literal `lit`: what remains of `s` after stripping
/// leading and trailing whitespace is exactly `lit`.
pub open spec fn trims_to(s: Seq<char>, lit: Seq<char>) -> bool {
    exists|t: Seq<char>| is_trimmed_of(t, s) && t == lit
}

/// Trimming is a function: a string trims to exactly one result.
pub proof fn lemma_trim_unique(s: Seq<char>, r1: Seq<char>, r2: Seq<char>)
    requires
        is_trimmed_of(r1, s),
        is_trimmed_of(r2, s),
    ensures
        r1 == r2,
{
    let (lo1, hi1): (int, int) = choose|lo: int, hi: int| trim_witness(s, r1, lo, hi);
    let (lo2, hi2): (int, int) = choose|lo: int, hi: int| trim_witness(s, r2, lo, hi);
    if lo1 == hi1 {
        // r1 is empty, so every character of s is whitespace; then no
        // witness for r2 can keep a non-space boundary character.
        assert(forall|j: int| 0 <= j < s.len() ==> is_space(#[trigger] s[j]));
        if lo2 < hi2 {
            assert(is_space(s[lo2]));
            assert(false);
        }
        assert(r1 =~= r2);
    } else if lo2 == hi2 {
        assert(forall|j: int| 0 <= j < s.len() ==> is_space(#[trigger] s[j]));
        assert(is_space(s[lo1]));
        assert(false);
    } else {
        assert(!is_space(s[lo1]) && !is_space(s[hi1 - 1]));
        assert(!is_space(s[lo2]) && !is_space(s[hi2 - 1]));
        assert(lo1 == lo2) by {
            if lo1 < lo2 {
                assert(is_space(s[lo1]));
            } else if lo2 < lo1 {
                assert(is_space(s[lo2]));
            }
        }
        assert(hi1 == hi2) by {
            if hi1 < hi2 {
                assert(is_space(s[hi2 - 1]));
            } else if hi2 < hi1 {
                assert(is_space(s[hi1 - 1]));
            }
        }
        assert(r1 =~= r2);
    }
}

/// Whether `s` trims to exactly `lit`, decided in one pass.
pub fn trimmed_eq(s: &str, lit: &str) -> (r: bool)
    ensures
        r == trims_to(s@, lit@),
{
    let t = trim_str(s);
    let e = str_eq(t, lit);
    proof {
        if e {
            assert(is_trimmed_of(t@, s@) && t@ == lit@);
        } else if trims_to(s@, lit@) {
            let x = choose|x: Seq<char>| is_trimmed_of(x, s@) && x == lit@;
            lemma_trim_unique(s@, x, t@);
        }
    }
    e
}

pub fn str_eq(a: &str, b: &str) -> (r: bool)
    ensures
        r == (a@ == b@),
{
    let an = a.unicode_len();
    let bn = b.unicode_len();
    if an != bn {
        return false;
    }
    let mut i: usize = 0;
    while i < an
        invariant
            an == a@.len(),
            bn == b@.len(),
            an == bn,
            0 <= i <= an,
            forall|j: int| 0 <= j < i ==> a@[j] == b@[j],
        decreases an - i,
    {
        if a.get_char(i) != b.get_char(i) {
            return false;
        }
        i += 1;
    }
    proof {
        assert(a@ =~= b@);
    }
    true
}

pub fn str_starts_with(s: &str, prefix: &str) -> (r: bool)
    ensures
        r == (prefix@.len() <= s@.len() && s@.subrange(0, prefix@.len() as int) == prefix@),
{
    let sn = s.unicode_len();
    let pn = prefix.unicode_len();
    if pn > sn {
        return false;
    }
    let mut i: usize = 0;
    while i < pn
        invariant
            sn == s@.len(),
            pn == prefix@.len(),
            pn <= sn,
            0 <= i <= pn,
            forall|j: int| 0 <= j < i ==> s@[j] == prefix@[j],
        decreases pn - i,
    {
        if s.get_char(i) != prefix.get_char(i) {
            proof {
                assert(s@.subrange(0, pn as int)[i as int] == s@[i as int]);
            }
            return false;
        }
        i += 1;
    }
    proof {
        assert(s@.subrange(0, pn as int) =~= prefix@);
    }
    true
}

pub fn trim_str<'a>(s: &'a str) -> (r: &'a str)
    ensures
        is_trimmed_of(r@, s@),
{
    let n = s.unicode_len();
    let mut lo: usize = 0;
    while lo < n && char_is_space(s.get_char(lo))
        invariant
            n == s@.len(),
            0 <= lo <= n,
            forall|j: int| 0 <= j < lo ==> is_space(#[trigger] s@[j]),
        decreases n - lo,
    {
        lo += 1;
    }
    if lo == n {
        let r = s.substring_char(n, n);
        proof {
            assert(trim_witness(s@, r@, n as int, n as int));
        }
        return r;
    }
    let mut hi: usize = n;
    while hi > lo + 1 && char_is_space(s.get_char(hi - 1))
        invariant
            n == s@.len(),
            0 <= lo < n,
            lo < hi <= n,
            !is_space(s@[lo as int]),
            forall|j: int| hi <= j < n ==> is_space(#[trigger] s@[j]),
        decreases hi,
    {
        hi -= 1;
    }
    let r = s.substring_char(lo, hi);
    proof {
        if hi == lo + 1 {
            assert(!is_space(s@[hi - 1]));
        }
        assert(trim_witness(s@, r@, lo as int, hi as int));
    }
    r
}

/// The character that writes the decimal digit `d`.
pub open spec fn digit_char(d: nat) -> char {
    if d == 0 {
        '0'
    } else if d == 1 {
        '1'
    } else if d == 2 {
        '2'
    } else if d == 3 {
        '3'
    } else if d == 4 {
        '4'
    } else if d == 5 {
        '5'
    } else if d == 6 {
        '6'
    } else if d == 7 {
        '7'
    } else if d == 8 {
        '8'
    } else {
        '9'
    }
}

/// The decimal writing of `n`, most significant digit first, no leading zero
/// except for `n == 0` itself.
pub open spec fn spec_dec(n: nat) -> Seq<char>
    decreases n,
{
    if n < 10 {
        seq![digit_char(n)]
    } else {
        spec_dec(n / 10) + seq![digit_char(n % 10)]
    }
}

fn digit_str(d: u64) -> (r: &'static str)
    requires
        d < 10,
    ensures
        r@ == seq![digit_char(d as nat)],
{
    proof {
        reveal_strlit("0");
        reveal_strlit("1");
        reveal_strlit("2");
        reveal_strlit("3");
        reveal_strlit("4");
        reveal_strlit("5");
        reveal_strlit("6");
        reveal_strlit("7");
        reveal_strlit("8");
        reveal_strlit("9");
    }
    let r = if d == 0 {
        "0"
    } else if d == 1 {
        "1"
    } else if d == 2 {
        "2"
    } else if d == 3 {
        "3"
    } else if d == 4 {
        "4"
    } else if d == 5 {
        "5"
    } else if d == 6 {
        "6"
    } else if d == 7 {
        "7"
    } else if d == 8 {
        "8"
    } else {
        "9"
    };
    proof {
        assert(r@ =~= seq![digit_char(d as nat)]);
    }
    r
}

pub fn u64_to_dec(n: u64) -> (r: String)
    ensures
        r@ == spec_dec(n as nat),
    decreases n,
{
    if n < 10 {
        digit_str(n).to_owned()
    } else {
        let mut s = u64_to_dec(n / 10);
        s.append(digit_str(n % 10));
        s
    }
}

/// The items laid end to end with `sep` between each neighbouring pair,
/// starting from position `i`.
pub open spec fn spec_join_from(items: Seq<Seq<char>>, i: int, sep: Seq<char>) -> Seq<char>
    decreases items.len() - i,
{
    if i < 0 || i >= items.len() {
        Seq::empty()
    } else if i == items.len() - 1 {
        items[i]
    } else {
        items[i] + sep + spec_join_from(items, i + 1, sep)
    }
}

pub fn join_strings(items: &Vec<String>, sep: &str) -> (r: String)
    ensures
        r@ == spec_join_from(items.deep_view(), 0, sep@),
{
    if items.len() == 0 {
        let empty = String::new();
        proof {
            assert(empty@ =~= spec_join_from(items.deep_view(), 0, sep@));
        }
        return empty;
    }
    proof {
        assert(forall|k: int|
            0 <= k < items@.len() ==> #[trigger] items.deep_view()[k] == items@[k]@);
    }
    let mut acc: String = items[0].clone();
    let mut i: usize = 1;
    while i < items.len()
        invariant
            1 <= i <= items.len(),
            items.deep_view().len() == items.len(),
            forall|k: int| 0 <= k < items@.len() ==> #[trigger] items.deep_view()[k] == items@[k]@,
            i < items.len() ==> spec_join_from(items.deep_view(), 0, sep@) == acc@ + sep@
                + spec_join_from(items.deep_view(), i as int, sep@),
            i >= items.len() ==> spec_join_from(items.deep_view(), 0, sep@) == acc@,
        decreases items.len() - i,
    {
        let ghost pre = acc@;
        acc.append(sep);
        acc.append(items[i].as_str());
        proof {
            let gi = items.deep_view();
            if i + 1 < items.len() {
                assert(pre + sep@ + gi[i as int] + sep@ + spec_join_from(gi, i as int + 1, sep@)
                    =~= pre + sep@ + (gi[i as int] + sep@ + spec_join_from(
                    gi,
                    i as int + 1,
                    sep@,
                )));
            } else {
                assert(pre + sep@ + gi[i as int] =~= pre + sep@ + spec_join_from(
                    gi,
                    i as int,
                    sep@,
                ));
            }
        }
        i += 1;
    }
    acc
}

} // verus!
