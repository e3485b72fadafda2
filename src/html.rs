use vstd::prelude::*;

use crate::text::{chars_of, contains, contains_exec};

verus! {

/// The text pieces of each element that `selector` picks in the document `html`, in the
/// order scraper yields them; `None` where the selector does not parse.
pub uninterp spec fn selected_texts(html: Seq<char>, selector: Seq<char>) -> Option<
    Seq<Seq<Seq<char>>>,
>;

/// The view of a list of strings.
pub open spec fn strings_view(v: Seq<String>) -> Seq<Seq<char>> {
    v.map_values(|s: String| s@)
}

/// The view of a list of lists of strings.
pub open spec fn rows_view(v: Seq<Vec<String>>) -> Seq<Seq<Seq<char>>> {
    v.map_values(|r: Vec<String>| strings_view(r@))
}

/// The pieces joined by single spaces.
pub open spec fn joined(parts: Seq<Seq<char>>) -> Seq<char>
    decreases parts.len(),
{
    if parts.len() == 0 {
        Seq::empty()
    } else if parts.len() == 1 {
        parts[0]
    } else {
        joined(parts.drop_last()) + seq![' '] + parts.last()
    }
}

/// Some row, its pieces joined by spaces, holds `url`.
pub open spec fn some_row_contains(rows: Seq<Seq<Seq<char>>>, url: Seq<char>) -> bool {
    exists|k: int| 0 <= k < rows.len() && contains(joined(#[trigger] rows[k]), url)
}

/// The selector of the catalog rows that are marked as working builds.
pub open spec fn healthy_row_selector() -> Seq<char> {
    "tr.status-ok"@
}

/// Relies on scraper's `Selector::parse`, `Html::parse_document`, `Html::select` and
/// `ElementRef::text`: for each element that the selector matches, in the order scraper
/// yields them, its descendant text nodes; the result depends on the two strings alone.
#[verifier::external_body]
fn select_texts(html: &str, selector: &str) -> (r: Option<Vec<Vec<String>>>)
    ensures
        match r {
            Some(v) => selected_texts(html@, selector@) == Some(rows_view(v@)),
            None => selected_texts(html@, selector@) is None,
        },
{
    let selector = scraper::Selector::parse(selector).ok()?;
    let document = scraper::Html::parse_document(html);
    let rows = document.select(&selector).map(
        |e| e.text().map(|t| t.to_string()).collect::<Vec<String>>(),
    ).collect();
    Some(rows)
}

/// The text pieces of the rows of `html` that are marked as working builds; `None`
/// where the selector is refused.
pub fn healthy_rows(html: &str) -> (r: Option<Vec<Vec<String>>>)
    ensures
        match r {
            Some(v) => selected_texts(html@, healthy_row_selector()) == Some(rows_view(v@)),
            None => selected_texts(html@, healthy_row_selector()) is None,
        },
{
    let sel = "tr.status-ok";
    proof {
        assert(sel@ == healthy_row_selector());
    }
    select_texts(html, sel)
}

/// The characters of the pieces joined by single spaces.
pub fn join_pieces(parts: &Vec<String>) -> (r: Vec<char>)
    ensures
        r@ == joined(strings_view(parts@)),
{
    let mut out: Vec<char> = Vec::new();
    let mut k: usize = 0;
    while k < parts.len()
        invariant
            k <= parts.len(),
            out@ == joined(strings_view(parts@).take(k as int)),
        decreases parts.len() - k,
    {
        let piece = chars_of(parts[k].as_str());
        if k > 0 {
            out.push(' ');
        }
        let mut j: usize = 0;
        let ghost before = out@;
        while j < piece.len()
            invariant
                j <= piece.len(),
                out@ == before + piece@.take(j as int),
            decreases piece.len() - j,
        {
            out.push(piece[j]);
            proof {
                assert(piece@.take(j + 1) =~= piece@.take(j as int).push(piece@[j as int]));
            }
            j = j + 1;
        }
        proof {
            let sv = strings_view(parts@);
            assert(piece@.take(j as int) =~= piece@);
            assert(sv.take(k + 1).drop_last() =~= sv.take(k as int));
            if k == 0 {
                assert(before =~= Seq::<char>::empty());
                assert(out@ =~= joined(sv.take(1)));
            } else {
                assert(out@ =~= joined(sv.take(k + 1)));
            }
        }
        k = k + 1;
    }
    proof {
        assert(strings_view(parts@).take(k as int) =~= strings_view(parts@));
    }
    out
}

/// Whether some row, its pieces joined by spaces, holds `url`.
pub fn any_row_contains(rows: &Vec<Vec<String>>, url: &str) -> (r: bool)
    ensures
        r == some_row_contains(rows_view(rows@), url@),
{
    let u = chars_of(url);
    let mut k: usize = 0;
    while k < rows.len()
        invariant
            k <= rows.len(),
            u@ == url@,
            forall|j: int| 0 <= j < k ==> !contains(joined(#[trigger] rows_view(rows@)[j]), url@),
        decreases rows.len() - k,
    {
        let text = join_pieces(&rows[k]);
        if contains_exec(&text, &u) {
            proof {
                assert(contains(joined(rows_view(rows@)[k as int]), url@));
            }
            return true;
        }
        k = k + 1;
    }
    false
}

/// Whether a row of `html` marked as a working build holds `url` in its text.
pub fn check_url(html: &str, url: &str) -> (r: bool)
    ensures
        r == match selected_texts(html@, healthy_row_selector()) {
            Some(rows) => some_row_contains(rows, url@),
            None => false,
        },
{
    match healthy_rows(html) {
        Some(rows) => any_row_contains(&rows, url),
        None => false,
    }
}

} // verus!
