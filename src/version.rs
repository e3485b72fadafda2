use vstd::prelude::*;
use vstd::string::StrSliceExecFns;

use crate::text::chars_of;

verus! {

/// An ASCII decimal digit. Versions are written with `0`-`9` only: digits of other
/// scripts are not read as part of a version.
pub open spec fn is_digit(c: char) -> bool {
    '0' <= c && c <= '9'
}

/// The number of consecutive digits in `s` that start at `i`.
pub open spec fn digit_run(s: Seq<char>, i: int) -> nat
    decreases s.len() - i,
{
    if 0 <= i < s.len() && is_digit(s[i]) {
        1 + digit_run(s, i + 1)
    } else {
        0
    }
}

/// Where `groups` runs of digits joined by dots, starting at `i`, end; each run is
/// taken whole, as a greedy `\d+` takes it.
pub open spec fn dotted_end(s: Seq<char>, i: int, groups: nat) -> Option<int>
    decreases groups,
{
    let e = i + digit_run(s, i);
    if digit_run(s, i) == 0 {
        None
    } else if groups <= 1 {
        Some(e)
    } else if e < s.len() && s[e] == '.' {
        dotted_end(s, e + 1, (groups - 1) as nat)
    } else {
        None
    }
}

/// Where a four-part version `W.X.Y.Z` that starts at `i` ends.
pub open spec fn version_end(s: Seq<char>, i: int) -> Option<int> {
    dotted_end(s, i, 4)
}

/// A four-part version starts at `i`, and none starts before it.
pub open spec fn first_version_at(s: Seq<char>, i: int) -> bool {
    &&& 0 <= i < s.len()
    &&& version_end(s, i) is Some
    &&& forall|j: int| 0 <= j < i ==> !(#[trigger] version_end(s, j) is Some)
}

/// The first four-part version in `s`, or empty where there is none.
pub open spec fn version_of(s: Seq<char>) -> Seq<char> {
    if exists|i: int| first_version_at(s, i) {
        let i = choose|i: int| first_version_at(s, i);
        s.subrange(i, version_end(s, i)->0)
    } else {
        Seq::empty()
    }
}

/// A version whose first part is three digits and begins with `1` starts at `i`.
pub open spec fn main_version_at(s: Seq<char>, i: int) -> bool {
    &&& 0 <= i
    &&& i + 4 <= s.len()
    &&& s[i] == '1'
    &&& is_digit(s[i + 1])
    &&& is_digit(s[i + 2])
    &&& s[i + 3] == '.'
    &&& dotted_end(s, i + 4, 3) is Some
}

/// The leftmost place where `main_version_at` holds.
pub open spec fn first_main_version_at(s: Seq<char>, i: int) -> bool {
    &&& main_version_at(s, i)
    &&& forall|j: int| 0 <= j < i ==> !#[trigger] main_version_at(s, j)
}

/// The three-digit first part of the first such version in `s`, or empty.
pub open spec fn main_version_of(s: Seq<char>) -> Seq<char> {
    if exists|i: int| first_main_version_at(s, i) {
        let i = choose|i: int| first_main_version_at(s, i);
        s.subrange(i, i + 3)
    } else {
        Seq::empty()
    }
}

proof fn lemma_first_version_unique(s: Seq<char>, i: int, k: int)
    requires
        first_version_at(s, i),
        first_version_at(s, k),
    ensures
        i == k,
{
    if i < k {
        assert(!(version_end(s, i) is Some));
    } else if k < i {
        assert(!(version_end(s, k) is Some));
    }
}

proof fn lemma_first_main_unique(s: Seq<char>, i: int, k: int)
    requires
        first_main_version_at(s, i),
        first_main_version_at(s, k),
    ensures
        i == k,
{
    if i < k {
        assert(!main_version_at(s, i));
    } else if k < i {
        assert(!main_version_at(s, k));
    }
}

/// A four-part version is never empty.
pub(crate) proof fn lemma_dotted_end_after(s: Seq<char>, i: int, groups: nat)
    requires
        dotted_end(s, i, groups) is Some,
    ensures
        i < dotted_end(s, i, groups)->0 <= s.len(),
        0 <= i ==> 0 < digit_run(s, i),
    decreases groups,
{
    lemma_digit_run_bound(s, i);
    if groups > 1 {
        let e = i + digit_run(s, i);
        lemma_dotted_end_after(s, e + 1, (groups - 1) as nat);
    }
}

pub(crate) proof fn lemma_digit_run_bound(s: Seq<char>, i: int)
    ensures
        digit_run(s, i) > 0 ==> 0 <= i && i + digit_run(s, i) <= s.len(),
    decreases s.len() - i,
{
    if 0 <= i < s.len() && is_digit(s[i]) {
        lemma_digit_run_bound(s, i + 1);
    }
}

/// Every character of `s` from `i` up to `j` is a digit.
pub open spec fn all_digits(s: Seq<char>, i: int, j: int) -> bool {
    forall|k: int| i <= k < j ==> is_digit(#[trigger] s[k])
}

/// `s[i..j]` is `groups` runs of one or more digits joined by dots, with the runs split
/// anywhere: the strings that `\d+(\.\d+)*` with `groups` parts would accept.
pub open spec fn dotted_span(s: Seq<char>, i: int, j: int, groups: nat) -> bool
    decreases groups,
{
    if groups <= 1 {
        0 <= i < j <= s.len() && all_digits(s, i, j)
    } else {
        exists|k: int|
            0 <= i < k < j && k < s.len() && all_digits(s, i, k) && #[trigger] s[k] == '.'
                && dotted_span(s, k + 1, j, (groups - 1) as nat)
    }
}

proof fn lemma_digit_run_facts(s: Seq<char>, i: int)
    requires
        0 <= i <= s.len(),
    ensures
        i + digit_run(s, i) <= s.len(),
        all_digits(s, i, i + digit_run(s, i)),
        i + digit_run(s, i) < s.len() ==> !is_digit(s[i + digit_run(s, i)]),
        forall|k: int| i <= k <= s.len() && all_digits(s, i, k) ==> k <= i + digit_run(s, i),
    decreases s.len() - i,
{
    if i < s.len() && is_digit(s[i]) {
        lemma_digit_run_facts(s, i + 1);
        assert forall|k: int| i <= k <= s.len() && all_digits(s, i, k) implies k <= i
            + digit_run(s, i) by {
            if k > i {
                assert(all_digits(s, i + 1, k));
            }
        }
    }
}

proof fn lemma_dotted_end_exact(s: Seq<char>, i: int, j: int, groups: nat)
    requires
        0 <= i <= s.len(),
        groups >= 1,
    ensures
        dotted_span(s, i, j, groups) ==> (dotted_end(s, i, groups) matches Some(e) && j <= e),
        dotted_end(s, i, groups) matches Some(e) ==> dotted_span(s, i, e, groups),
    decreases groups,
{
    lemma_digit_run_facts(s, i);
    let e = i + digit_run(s, i);
    if groups > 1 {
        if e < s.len() && s[e] == '.' && digit_run(s, i) > 0 {
            lemma_dotted_end_exact(s, e + 1, j, (groups - 1) as nat);
            if let Some(f) = dotted_end(s, e + 1, (groups - 1) as nat) {
                lemma_dotted_end_exact(s, e + 1, f, (groups - 1) as nat);
                lemma_dotted_end_after(s, e + 1, (groups - 1) as nat);
            }
        }
        if dotted_span(s, i, j, groups) {
            let k = choose|k: int|
                0 <= i < k < j && k < s.len() && all_digits(s, i, k) && #[trigger] s[k] == '.'
                    && dotted_span(s, k + 1, j, (groups - 1) as nat);
            assert(k == e);
        }
    }
}

/// The result of `get_version` is the leftmost and, from there, the longest span of `s`
/// that four dot-joined digit runs make, as a leftmost-first greedy match of
/// `\d+\.\d+\.\d+\.\d+` gives it; it is empty exactly where no such span exists.
pub proof fn lemma_version_is_leftmost_longest(s: Seq<char>)
    ensures
        version_of(s).len() == 0 <==> forall|i: int, j: int| !dotted_span(s, i, j, 4),
        version_of(s).len() > 0 ==> exists|i: int, j: int|
            {
                &&& dotted_span(s, i, j, 4)
                &&& version_of(s) == s.subrange(i, j)
                &&& forall|i2: int, j2: int| #[trigger] dotted_span(s, i2, j2, 4) ==> i <= i2
                &&& forall|j2: int| #[trigger] dotted_span(s, i, j2, 4) ==> j2 <= j
            },
{
    assert forall|i: int, j: int| #[trigger] dotted_span(s, i, j, 4) implies 0 <= i < s.len()
        && (version_end(s, i) matches Some(e) && j <= e) by {
        lemma_span_start(s, i, j, 4);
        lemma_dotted_end_exact(s, i, j, 4);
        lemma_dotted_end_after(s, i, 4);
    }
    if exists|i: int| first_version_at(s, i) {
        let i = choose|i: int| first_version_at(s, i);
        let e = version_end(s, i)->0;
        lemma_dotted_end_exact(s, i, e, 4);
        lemma_dotted_end_after(s, i, 4);
        assert(version_of(s) == s.subrange(i, e));
        assert forall|i2: int, j2: int| #[trigger] dotted_span(s, i2, j2, 4) implies i <= i2 by {
            if i2 < i {
                assert(!(version_end(s, i2) is Some));
            }
        }
        assert(dotted_span(s, i, e, 4));
        assert(version_of(s).len() > 0);
    } else {
        assert forall|i: int, j: int| !dotted_span(s, i, j, 4) by {
            if dotted_span(s, i, j, 4) {
                lemma_first_exists(s, i);
            }
        }
    }
}

proof fn lemma_span_start(s: Seq<char>, i: int, j: int, groups: nat)
    requires
        dotted_span(s, i, j, groups),
    ensures
        0 <= i < s.len(),
    decreases groups,
{
    if groups > 1 {
        let k = choose|k: int|
            0 <= i < k < j && k < s.len() && all_digits(s, i, k) && #[trigger] s[k] == '.'
                && dotted_span(s, k + 1, j, (groups - 1) as nat);
        lemma_span_start(s, k + 1, j, (groups - 1) as nat);
    }
}

/// Where a version starts at `i`, some first one starts at or before it.
proof fn lemma_first_exists(s: Seq<char>, i: int)
    requires
        0 <= i < s.len(),
        version_end(s, i) is Some,
    ensures
        exists|k: int| first_version_at(s, k),
    decreases i,
{
    if forall|j: int| 0 <= j < i ==> !(#[trigger] version_end(s, j) is Some) {
        assert(first_version_at(s, i));
    } else {
        let j = choose|j: int| 0 <= j < i && (#[trigger] version_end(s, j) is Some);
        lemma_first_exists(s, j);
    }
}

/// Counts the digits of `s` from `i` on.
fn digit_run_at(s: &Vec<char>, i: usize) -> (n: usize)
    requires
        i <= s.len(),
    ensures
        n == digit_run(s@, i as int),
        i + n <= s.len(),
{
    let mut j: usize = i;
    while j < s.len() && '0' <= s[j] && s[j] <= '9'
        invariant
            i <= j <= s.len(),
            digit_run(s@, i as int) == (j - i) + digit_run(s@, j as int),
        decreases s.len() - j,
    {
        j = j + 1;
    }
    j - i
}

/// Computes `dotted_end` for up to four groups.
pub(crate) fn dotted_end_at(s: &Vec<char>, i: usize, groups: usize) -> (r: Option<usize>)
    requires
        i <= s.len(),
        groups <= 4,
    ensures
        match r {
            Some(e) => dotted_end(s@, i as int, groups as nat) == Some(e as int),
            None => dotted_end(s@, i as int, groups as nat) is None,
        },
    decreases groups,
{
    let n = digit_run_at(s, i);
    if n == 0 {
        None
    } else if groups <= 1 {
        Some(i + n)
    } else if i + n < s.len() && s[i + n] == '.' {
        dotted_end_at(s, i + n + 1, groups - 1)
    } else {
        None
    }
}

/// The first substring of `s` shaped `W.X.Y.Z`, each part one or more digits, or
/// an empty string where there is none.
pub fn get_version(s: &str) -> (r: String)
    ensures
        r@ == version_of(s@),
        r@.len() == 0 <==> forall|i: int| 0 <= i < s@.len() ==> !(#[trigger] version_end(s@, i) is Some),
{
    let v = chars_of(s);
    let mut i: usize = 0;
    while i < v.len()
        invariant
            v@ == s@,
            i <= v.len(),
            forall|j: int| 0 <= j < i ==> !(#[trigger] version_end(s@, j) is Some),
        decreases v.len() - i,
    {
        if let Some(e) = dotted_end_at(&v, i, 4) {
            proof {
                lemma_dotted_end_after(s@, i as int, 4);
                assert(first_version_at(s@, i as int));
                let k = choose|k: int| first_version_at(s@, k);
                lemma_first_version_unique(s@, i as int, k);
            }
            return s.substring_char(i, e).to_owned();
        }
        i = i + 1;
    }
    proof {
        if exists|k: int| first_version_at(s@, k) {
            let k = choose|k: int| first_version_at(s@, k);
            assert(!(version_end(s@, k) is Some));
        }
    }
    String::new()
}

/// The first part of the first version in `s` whose first part is three digits
/// beginning with `1`, or an empty string where there is none.
pub fn get_main_version(s: &str) -> (r: String)
    ensures
        r@ == main_version_of(s@),
        r@.len() == 0 <==> forall|i: int| !#[trigger] main_version_at(s@, i),
        r@.len() == 0 || r@.len() == 3,
        r@.len() == 3 ==> r@[0] == '1' && is_digit(r@[1]) && is_digit(r@[2]),
{
    let v = chars_of(s);
    let mut i: usize = 0;
    while v.len() >= 4 && i <= v.len() - 4
        invariant
            v@ == s@,
            i <= v.len(),
            forall|j: int| 0 <= j < i ==> !#[trigger] main_version_at(s@, j),
        decreases v.len() - i,
    {
        if v[i] == '1' && '0' <= v[i + 1] && v[i + 1] <= '9' && '0' <= v[i + 2] && v[i + 2]
            <= '9' && v[i + 3] == '.' {
            if let Some(_) = dotted_end_at(&v, i + 4, 3) {
                proof {
                    assert(first_main_version_at(s@, i as int));
                    let k = choose|k: int| first_main_version_at(s@, k);
                    lemma_first_main_unique(s@, i as int, k);
                }
                return s.substring_char(i, i + 3).to_owned();
            }
        }
        i = i + 1;
    }
    proof {
        assert forall|j: int| !#[trigger] main_version_at(s@, j) by {
            if 0 <= j && j >= i {
                assert(v.len() < 4 || j > v.len() - 4);
            }
        }
    }
    String::new()
}

} // verus!
