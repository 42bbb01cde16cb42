//! Text helpers: prefix, suffix and substring tests, and decimal rendering of
//! unsigned integers, each stated over the character sequence of a string.

use vstd::prelude::*;
use vstd::string::*;

verus! {

broadcast use vstd::string::group_string_axioms;

/// `prefix` is an initial segment of `s`.
pub open spec fn seq_starts_with(s: Seq<char>, prefix: Seq<char>) -> bool {
    prefix.len() <= s.len() && s.subrange(0, prefix.len() as int) == prefix
}

/// `suffix` is a final segment of `s`.
pub open spec fn seq_ends_with(s: Seq<char>, suffix: Seq<char>) -> bool {
    suffix.len() <= s.len() && s.subrange(s.len() - suffix.len(), s.len() as int) == suffix
}

/// `part` occurs somewhere in `s` as a contiguous run of characters.
pub open spec fn seq_contains_run(s: Seq<char>, part: Seq<char>) -> bool {
    exists|i: int| 0 <= i && i + part.len() <= s.len() && #[trigger] s.subrange(i, i + part.len()) == part
}

/// The characters of `s`, in order.
pub fn chars_of(s: &str) -> (v: Vec<char>)
    ensures
        v@ == s@,
{
    let mut v: Vec<char> = Vec::new();
    for c in it: s.chars()
        invariant
            it.seq() == s@,
            v@ == it.seq().take(it.index() as int),
    {
        v.push(c);
    }
    v
}


/// Whether `s` and `p` agree on the `p@.len()` characters that start at `at`.
fn matches_at(s: &Vec<char>, p: &Vec<char>, at: usize) -> (r: bool)
    requires
        at + p@.len() <= s@.len(),
    ensures
        r == (s@.subrange(at as int, at + p@.len()) == p@),
{
    let n = s.len();
    let mut i: usize = 0;
    while i < p.len()
        invariant
            n == s@.len(),
            at + p@.len() <= s@.len(),
            i <= p@.len(),
            forall|j: int| 0 <= j < i ==> s@[at + j] == p@[j],
        decreases p@.len() - i,
    {
        if s[at + i] != p[i] {
            assert(s@.subrange(at as int, at + p@.len())[i as int] != p@[i as int]);
            return false;
        }
        i = i + 1;
    }
    assert(s@.subrange(at as int, at + p@.len()) =~= p@);
    true
}

/// Whether `s` begins with `prefix`.
pub fn starts_with(s: &str, prefix: &str) -> (r: bool)
    ensures
        r == seq_starts_with(s@, prefix@),
{
    let sv = chars_of(s);
    let pv = chars_of(prefix);
    if pv.len() > sv.len() {
        false
    } else {
        matches_at(&sv, &pv, 0)
    }
}

/// Whether `s` ends with `suffix`.
pub fn ends_with(s: &str, suffix: &str) -> (r: bool)
    ensures
        r == seq_ends_with(s@, suffix@),
{
    let sv = chars_of(s);
    let pv = chars_of(suffix);
    if pv.len() > sv.len() {
        false
    } else {
        matches_at(&sv, &pv, sv.len() - pv.len())
    }
}

/// Whether `part` occurs in `s`.
pub fn contains_run(s: &str, part: &str) -> (r: bool)
    ensures
        r == seq_contains_run(s@, part@),
{
    let sv = chars_of(s);
    let pv = chars_of(part);
    if pv.len() > sv.len() {
        assert forall|i: int| 0 <= i && i + part@.len() <= s@.len() implies
            #[trigger] s@.subrange(i, i + part@.len()) != part@ by {}
        return false;
    }
    if pv.len() == 0 {
        assert(s@.subrange(0int, 0int + part@.len()) =~= part@);
        return true;
    }
    let n = sv.len();
    let last = n - pv.len();
    let mut at: usize = 0;
    while at <= last
        invariant
            n == sv@.len(),
            last < n,
            sv@ == s@,
            pv@ == part@,
            last + pv@.len() == sv@.len(),
            forall|i: int| 0 <= i < at ==> #[trigger] s@.subrange(i, i + part@.len()) != part@,
        decreases last + 1 - at,
    {
        if matches_at(&sv, &pv, at) {
            return true;
        }
        at = at + 1;
    }
    false
}

/// Whether two strings hold the same characters.
pub fn same_text(a: &str, b: &str) -> (r: bool)
    ensures
        r == (a@ == b@),
{
    a.to_owned() == b.to_owned()
}


/// The decimal digit character for `d`, for `0 <= d < 10`.
pub open spec fn digit_char(d: int) -> char {
    if d == 0 { '0' } else if d == 1 { '1' } else if d == 2 { '2' } else if d == 3 { '3' }
    else if d == 4 { '4' } else if d == 5 { '5' } else if d == 6 { '6' } else if d == 7 { '7' }
    else if d == 8 { '8' } else { '9' }
}

/// The decimal numeral of `n`, most significant digit first, with no leading zeros.
pub open spec fn decimal_seq(n: nat) -> Seq<char>
    decreases n,
{
    if n < 10 {
        seq![digit_char(n as int)]
    } else {
        decimal_seq(n / 10).push(digit_char((n % 10) as int))
    }
}

fn digit_text(d: u64) -> (s: &'static str)
    requires
        d < 10,
    ensures
        s@ == seq![digit_char(d as int)],
{
    if d == 0 {
        proof { reveal_strlit("0"); }
        return "0";
    }
    if d == 1 {
        proof { reveal_strlit("1"); }
        return "1";
    }
    if d == 2 {
        proof { reveal_strlit("2"); }
        return "2";
    }
    if d == 3 {
        proof { reveal_strlit("3"); }
        return "3";
    }
    if d == 4 {
        proof { reveal_strlit("4"); }
        return "4";
    }
    if d == 5 {
        proof { reveal_strlit("5"); }
        return "5";
    }
    if d == 6 {
        proof { reveal_strlit("6"); }
        return "6";
    }
    if d == 7 {
        proof { reveal_strlit("7"); }
        return "7";
    }
    if d == 8 {
        proof { reveal_strlit("8"); }
        return "8";
    }
    proof { reveal_strlit("9"); }
    "9"
}

/// The decimal numeral of `n`, as `n.to_string()` renders it.
pub fn decimal_text(n: u64) -> (s: String)
    ensures
        s@ == decimal_seq(n as nat),
    decreases n,
{
    if n < 10 {
        let mut s = String::new();
        s.append(digit_text(n));
        s
    } else {
        let mut s = decimal_text(n / 10);
        s.append(digit_text(n % 10));
        s
    }
}

/// The value of a decimal digit character, and -1 for any other character.
pub open spec fn digit_value(c: char) -> int {
    if c == '0' { 0 } else if c == '1' { 1 } else if c == '2' { 2 } else if c == '3' { 3 }
    else if c == '4' { 4 } else if c == '5' { 5 } else if c == '6' { 6 } else if c == '7' { 7 }
    else if c == '8' { 8 } else if c == '9' { 9 } else { -1 }
}

/// The number that a string of decimal digits denotes, most significant first.
pub open spec fn numeral_value(s: Seq<char>) -> int
    decreases s.len(),
{
    if s.len() == 0 {
        0
    } else {
        numeral_value(s.drop_last()) * 10 + digit_value(s.last())
    }
}

proof fn lemma_digit_reads_back(d: int)
    requires
        0 <= d < 10,
    ensures
        digit_value(digit_char(d)) == d,
        digit_char(d) == '0' <==> d == 0,
{
}

/// The decimal numeral of `n` is a non-empty run of digits that reads back as
/// `n`, and it starts with `0` only for `n == 0`.
pub proof fn law_decimal_reads_back(n: nat)
    ensures
        decimal_seq(n).len() >= 1,
        forall|i: int| 0 <= i < decimal_seq(n).len() ==> 0 <= #[trigger] digit_value(decimal_seq(n)[i]) <= 9,
        numeral_value(decimal_seq(n)) == n,
        decimal_seq(n)[0] == '0' <==> n == 0,
    decreases n,
{
    if n < 10 {
        lemma_digit_reads_back(n as int);
        assert(decimal_seq(n).drop_last() =~= Seq::<char>::empty());
        assert(numeral_value(Seq::<char>::empty()) == 0);
        assert(numeral_value(decimal_seq(n)) == numeral_value(decimal_seq(n).drop_last()) * 10 + digit_value(
            decimal_seq(n).last(),
        ));
    } else {
        law_decimal_reads_back(n / 10);
        lemma_digit_reads_back((n % 10) as int);
        let s = decimal_seq(n);
        assert(s.drop_last() =~= decimal_seq(n / 10));
        assert(s.last() == digit_char((n % 10) as int));
        assert((n / 10) * 10 + n % 10 == n);
        assert(numeral_value(s) == numeral_value(s.drop_last()) * 10 + digit_value(s.last()));
        assert forall|i: int| 0 <= i < s.len() implies 0 <= #[trigger] digit_value(s[i]) <= 9 by {
            if i < s.len() - 1 {
                assert(s[i] == decimal_seq(n / 10)[i]);
            }
        }
        assert(s[0] == decimal_seq(n / 10)[0]);
    }
}

} // verus!
