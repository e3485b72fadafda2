use vstd::prelude::*;
use vstd::string::{StrSliceExecFns, StringExecFns};

use crate::html::{any_row_contains, rows_view, some_row_contains};
use crate::text::{chars_of, contains, contains_exec, occurs_at, occurs_at_exec};
use crate::version::{dotted_end, dotted_end_at, lemma_dotted_end_after};

verus! {

/// Where the Chrome driver archives are stored.
pub open spec fn chrome_base() -> Seq<char> {
    "https://storage.googleapis.com/chrome-for-testing-public/"@
}

/// The path of the 64-bit Windows driver archive inside a Chrome build's folder.
pub open spec fn chrome_suffix() -> Seq<char> {
    "/win64/chromedriver-win64.zip"@
}

/// Where the Edge driver archives are stored.
pub open spec fn edge_base() -> Seq<char> {
    "https://msedgedriver.azureedge.net/"@
}

/// The name of the 64-bit Windows Edge driver archive.
pub open spec fn edge_suffix() -> Seq<char> {
    "/edgedriver_win64.zip"@
}

/// What a Chrome driver link for main version `main` starts with.
pub open spec fn chrome_head(main: Seq<char>) -> Seq<char> {
    chrome_base() + main + seq!['.']
}

/// Where a Chrome driver link `<base><main>.X.Y.Z/win64/chromedriver-win64.zip` that
/// starts at `i` ends.
pub open spec fn chrome_link_end(t: Seq<char>, main: Seq<char>, i: int) -> Option<int> {
    if occurs_at(t, chrome_head(main), i) {
        match dotted_end(t, i + chrome_head(main).len(), 3) {
            Some(e) => if occurs_at(t, chrome_suffix(), e) {
                Some(e + chrome_suffix().len())
            } else {
                None
            },
            None => None,
        }
    } else {
        None
    }
}

/// A Chrome driver link starts at `i` and a healthy row holds it.
pub open spec fn chrome_eligible(
    t: Seq<char>,
    main: Seq<char>,
    rows: Seq<Seq<Seq<char>>>,
    i: int,
) -> bool {
    &&& chrome_link_end(t, main, i) is Some
    &&& some_row_contains(rows, t.subrange(i, chrome_link_end(t, main, i)->0))
}

/// `i` is the first place of `t` where `chrome_eligible` holds.
pub open spec fn chrome_first_at(
    t: Seq<char>,
    main: Seq<char>,
    rows: Seq<Seq<Seq<char>>>,
    i: int,
) -> bool {
    &&& 0 <= i <= t.len()
    &&& chrome_eligible(t, main, rows, i)
    &&& forall|j: int| 0 <= j < i ==> !#[trigger] chrome_eligible(t, main, rows, j)
}

/// The first Chrome driver link for `main` in `t` that a healthy row holds, or empty.
pub open spec fn chrome_url_of(t: Seq<char>, main: Seq<char>, rows: Seq<Seq<Seq<char>>>) -> Seq<
    char,
> {
    if exists|i: int| chrome_first_at(t, main, rows, i) {
        let i = choose|i: int| chrome_first_at(t, main, rows, i);
        t.subrange(i, chrome_link_end(t, main, i)->0)
    } else {
        Seq::empty()
    }
}

/// The Edge driver link for the full version `version`.
pub open spec fn edge_link(version: Seq<char>) -> Seq<char> {
    edge_base() + version + edge_suffix()
}

/// The Edge driver link for `version` where `t` holds it, or empty.
pub open spec fn edge_url_of(t: Seq<char>, version: Seq<char>) -> Seq<char> {
    if contains(t, edge_link(version)) {
        edge_link(version)
    } else {
        Seq::empty()
    }
}

proof fn lemma_chrome_first_unique(
    t: Seq<char>,
    main: Seq<char>,
    rows: Seq<Seq<Seq<char>>>,
    i: int,
    k: int,
)
    requires
        chrome_first_at(t, main, rows, i),
        chrome_first_at(t, main, rows, k),
    ensures
        i == k,
{
    if i < k {
        assert(!chrome_eligible(t, main, rows, i));
    } else if k < i {
        assert(!chrome_eligible(t, main, rows, k));
    }
}

/// Computes `chrome_link_end`, given the link's head and suffix.
fn chrome_link_end_at(
    t: &Vec<char>,
    main: &Vec<char>,
    head: &Vec<char>,
    suffix: &Vec<char>,
    i: usize,
) -> (r: Option<usize>)
    requires
        i <= t.len(),
        head@ == chrome_head(main@),
        suffix@ == chrome_suffix(),
    ensures
        match r {
            Some(e) => chrome_link_end(t@, main@, i as int) == Some(e as int) && i <= e <= t.len(),
            None => chrome_link_end(t@, main@, i as int) is None,
        },
{
    if !occurs_at_exec(t, head, i) {
        return None;
    }
    match dotted_end_at(t, i + head.len(), 3) {
        Some(e) => {
            proof {
                lemma_dotted_end_after(t@, i + head.len(), 3);
            }
            if occurs_at_exec(t, suffix, e) {
                Some(e + suffix.len())
            } else {
                None
            }
        },
        None => None,
    }
}

/// The first link `<base><main_version>.X.Y.Z/win64/chromedriver-win64.zip` in `body`,
/// in document order, that one of `rows` (the text pieces of the healthy catalog rows)
/// holds; an empty string where there is none.
pub fn chrome_driver_url(body: &str, main_version: &str, rows: &Vec<Vec<String>>) -> (r: String)
    ensures
        r@ == chrome_url_of(body@, main_version@, rows_view(rows@)),
{
    let t = chars_of(body);
    let main = chars_of(main_version);
    let mut head = chars_of("https://storage.googleapis.com/chrome-for-testing-public/");
    let mut tail = chars_of(main_version);
    head.append(&mut tail);
    head.push('.');
    let suffix = chars_of("/win64/chromedriver-win64.zip");
    proof {
        assert(head@ =~= chrome_head(main@));
    }
    let mut i: usize = 0;
    while i < t.len()
        invariant
            t@ == body@,
            main@ == main_version@,
            head@ == chrome_head(main@),
            suffix@ == chrome_suffix(),
            i <= t.len(),
            forall|j: int|
                0 <= j < i ==> !#[trigger] chrome_eligible(body@, main_version@, rows_view(rows@), j),
        decreases t.len() - i,
    {
        if let Some(e) = chrome_link_end_at(&t, &main, &head, &suffix, i) {
            let cand = body.substring_char(i, e);
            if any_row_contains(rows, cand) {
                proof {
                    let rv = rows_view(rows@);
                    assert(chrome_first_at(body@, main_version@, rv, i as int));
                    let k = choose|k: int| chrome_first_at(body@, main_version@, rv, k);
                    lemma_chrome_first_unique(body@, main_version@, rv, i as int, k);
                }
                return cand.to_owned();
            }
        }
        i = i + 1;
    }
    proof {
        let rv = rows_view(rows@);
        if exists|k: int| chrome_first_at(body@, main_version@, rv, k) {
            let k = choose|k: int| chrome_first_at(body@, main_version@, rv, k);
            if k == t.len() {
                assert(head@.len() > 0);
                assert(!occurs_at(body@, chrome_head(main_version@), k));
            }
            assert(!chrome_eligible(body@, main_version@, rv, k));
        }
    }
    String::new()
}

/// The link `<base><version>/edgedriver_win64.zip` where `body` holds it, or an empty
/// string.
pub fn edge_driver_url(body: &str, version: &str) -> (r: String)
    ensures
        r@ == edge_url_of(body@, version@),
{
    let mut url = "https://msedgedriver.azureedge.net/".to_owned();
    url.append(version);
    url.append("/edgedriver_win64.zip");
    let t = chars_of(body);
    let u = chars_of(url.as_str());
    if contains_exec(&t, &u) {
        url
    } else {
        String::new()
    }
}

} // verus!
