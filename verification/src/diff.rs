//! What an update added to a text: the line-by-line comparison of the text
//! before with the text after, and the spans that only the text after holds.
//!
//! The comparison itself is the work of the crate `difference`. Its result
//! is known here by a name, [`changeset_diffs`]; what is made of the result
//! is stated and proved over every value that the result can have.

use vstd::prelude::*;

verus! {

/// What a specification sees of a [`Change`].
pub enum ChangeView {
    Same(Seq<char>),
    Add(Seq<char>),
    Rem(Seq<char>),
}

/// One span of a comparison of two texts.
#[derive(Clone, Debug, PartialEq, Eq)]
pub enum Change {
    /// A span that both texts hold.
    Same(String),
    /// A span that only the text after holds.
    Add(String),
    /// A span that only the text before holds.
    Rem(String),
}

impl View for Change {
    type V = ChangeView;

    open spec fn view(&self) -> ChangeView {
        match self {
            Change::Same(text) => ChangeView::Same(text@),
            Change::Add(text) => ChangeView::Add(text@),
            Change::Rem(text) => ChangeView::Rem(text@),
        }
    }
}

/// The views of the spans of a comparison, in order.
pub open spec fn changes_view(diffs: Seq<Change>) -> Seq<ChangeView> {
    diffs.map_values(|d: Change| d@)
}

/// The views of a list of texts, in order.
pub open spec fn texts_view(texts: Seq<String>) -> Seq<Seq<char>> {
    texts.map_values(|t: String| t@)
}

/// The text of a span if the span is an addition.
pub open spec fn addition_of(d: ChangeView) -> Option<Seq<char>> {
    match d {
        ChangeView::Add(text) => Some(text),
        _ => None,
    }
}

/// The texts of the additions among `diffs`, in the order of `diffs`.
pub open spec fn added(diffs: Seq<ChangeView>) -> Seq<Seq<char>> {
    diffs.filter_map(|d: ChangeView| addition_of(d))
}

/// Keeps the additions of a comparison and drops what was removed and what
/// stayed: the result holds the text of every added span, in the order of
/// the document.
pub fn get_additions(diffs: Vec<Change>) -> (additions: Vec<String>)
    ensures
        texts_view(additions@) == added(changes_view(diffs@)),
{
    let mut additions: Vec<String> = Vec::new();
    let ghost all = changes_view(diffs@);
    for d in it: diffs
        invariant
            all == changes_view(it.seq()),
            texts_view(additions@) == added(all.take(it.index() as int)),
    {
        proof {
            all.lemma_filter_map_take_succ(|d: ChangeView| addition_of(d), it.index() as int);
        }
        match d {
            Change::Add(text) => {
                additions.push(text);
            },
            _ => {},
        }
    }
    assert(all.take(all.len() as int) =~= all);
    additions
}

/// A comparison without an addition adds nothing.
proof fn lemma_added_of_none(diffs: Seq<ChangeView>)
    requires
        forall|i: int| 0 <= i < diffs.len() ==> !(diffs[i] is Add),
    ensures
        added(diffs) == Seq::<Seq<char>>::empty(),
    decreases diffs.len(),
{
    if diffs.len() > 0 {
        lemma_added_of_none(diffs.drop_last());
    }
}

/// The test for being the character `sep`.
pub open spec fn is_char(sep: char) -> spec_fn(char) -> bool {
    |c: char| c == sep
}

/// Into how many pieces the separator `sep` splits `text`: one more than
/// the number of its occurrences.
pub open spec fn pieces(text: Seq<char>, sep: char) -> nat {
    text.filter(is_char(sep)).len() + 1
}

/// A count as far as a `usize` can hold it.
pub open spec fn capped(n: nat) -> int {
    if n <= usize::MAX {
        n as int
    } else {
        usize::MAX as int
    }
}

/// Counts the pieces into which `sep` splits `text`. A count that does not
/// fit is given as `usize::MAX`.
pub fn count_pieces(text: &str, sep: char) -> (n: usize)
    ensures
        n == capped(pieces(text@, sep)),
{
    let mut n: usize = 1;
    for c in it: text.chars()
        invariant
            it.seq() == text@,
            n == capped(pieces(text@.take(it.index() as int), sep)),
    {
        proof {
            let i = it.index() as int;
            assert(text@.take(i + 1) =~= text@.take(i).push(text@[i]));
            text@.take(i).lemma_filter_push(text@[i], is_char(sep));
        }
        if c == sep && n < usize::MAX {
            n = n + 1;
        }
    }
    assert(text@.take(text@.len() as int) =~= text@);
    n
}

/// Whether a table with a cell for each pair of one of `before` and one of
/// `after` pieces can be laid out: a cell takes a machine word of at most
/// eight bytes, and no allocation exceeds `isize::MAX` bytes.
pub open spec fn cells_fit(before: nat, after: nat) -> bool {
    before * after * 8 <= isize::MAX
}

/// Tells whether a table for `before` times `after` pieces can be laid out.
pub fn table_cells_fit(before: usize, after: usize) -> (fits: bool)
    ensures
        fits == cells_fit(before as nat, after as nat),
{
    let limit: usize = (isize::MAX / 8) as usize;
    if after == 0 {
        return true;
    }
    let fits = before <= limit / after;
    proof {
        let a = before as int;
        let b = after as int;
        let l = limit as int;
        assert(a * b * 8 <= isize::MAX <==> a * b <= l) by (nonlinear_arith)
            requires
                l == isize::MAX / 8,
                isize::MAX % 8 == 7,
        ;
        assert(a <= l / b <==> a * b <= l) by (nonlinear_arith)
            requires
                a >= 0,
                b >= 1,
                l >= 0,
        ;
    }
    fits
}

/// Whether the table of the comparison of `orig` with `edit`, split at
/// `sep`, can be laid out.
pub open spec fn table_fits(orig: Seq<char>, edit: Seq<char>, sep: char) -> bool {
    cells_fit(pieces(orig, sep), pieces(edit, sep))
}

/// Whether [`additions`] can compare `previous` with `current`: whether the
/// table of their line-by-line comparison can be laid out.
pub open spec fn comparable(previous: Seq<char>, current: Seq<char>) -> bool {
    table_fits(previous, current, '\n')
}

/// More pieces than a `usize` can count take a table that cannot be laid
/// out, whatever they are paired with.
proof fn lemma_uncounted_does_not_fit(before: nat, after: nat)
    requires
        before > usize::MAX || after > usize::MAX,
        before >= 1,
        after >= 1,
    ensures
        !cells_fit(before, after),
        !cells_fit(capped(before) as nat, capped(after) as nat),
{
    let a = before as int;
    let b = after as int;
    let ca = capped(before);
    let cb = capped(after);
    if before > usize::MAX {
        assert(a * b * 8 > isize::MAX) by (nonlinear_arith)
            requires
                a > isize::MAX,
                b >= 1,
        ;
        assert(ca * cb * 8 > isize::MAX) by (nonlinear_arith)
            requires
                ca > isize::MAX,
                cb >= 1,
        ;
    } else {
        assert(a * b * 8 > isize::MAX) by (nonlinear_arith)
            requires
                b > isize::MAX,
                a >= 1,
        ;
        assert(ca * cb * 8 > isize::MAX) by (nonlinear_arith)
            requires
                cb > isize::MAX,
                ca >= 1,
        ;
    }
}

/// Tells whether `previous` and `current` are [`comparable`].
pub fn can_compare(previous: &str, current: &str) -> (fits: bool)
    ensures
        fits == comparable(previous@, current@),
{
    let before = count_pieces(previous, '\n');
    let after = count_pieces(current, '\n');
    proof {
        let a = pieces(previous@, '\n');
        let b = pieces(current@, '\n');
        if a > usize::MAX || b > usize::MAX {
            lemma_uncounted_does_not_fit(a, b);
        }
    }
    table_cells_fit(before, after)
}

/// The spans of the comparison of `orig` with `edit`, split at `split`, as
/// `difference::Changeset::new` computes them.
pub uninterp spec fn changeset_diffs(
    orig: Seq<char>,
    edit: Seq<char>,
    split: Seq<char>,
) -> Seq<ChangeView>;

/// Calls `difference::Changeset::new` and hands out its `diffs`, each moved
/// into the [`Change`] of the same variant.
///
/// Trusted: that the spans are the function [`changeset_diffs`] of the three
/// texts, and that a text compared with itself gives no span but `Same`
/// (the longest common subsequence of a list of pieces with itself is the
/// whole list, so nothing is left to add or to remove).
///
/// The function splits both texts at `split` and fills a table with a cell
/// for every pair of pieces, which it allocates in one block: texts whose
/// table cannot be allocated are left out. So is every separator but a
/// single character, the only kind for which the call was read to return on
/// every input.
#[verifier::external_body]
fn changeset(orig: &str, edit: &str, split: &str) -> (diffs: Vec<Change>)
    requires
        split@.len() == 1,
        table_fits(orig@, edit@, split@[0]),
    ensures
        changes_view(diffs@) == changeset_diffs(orig@, edit@, split@),
        orig@ == edit@ ==> forall|i: int| 0 <= i < diffs@.len() ==> diffs@[i] is Same,
{
    difference::Changeset::new(orig, edit, split).diffs.into_iter().map(
        |d| match d {
            difference::Difference::Same(text) => Change::Same(text),
            difference::Difference::Add(text) => Change::Add(text),
            difference::Difference::Rem(text) => Change::Rem(text),
        },
    ).collect()
}

/// The spans that `current` holds and `previous` does not, in the order of
/// the document, as a comparison line by line finds them.
///
/// A text compared with itself has no such span.
pub fn additions(previous: &str, current: &str) -> (spans: Vec<String>)
    requires
        comparable(previous@, current@),
    ensures
        texts_view(spans@) == added(changeset_diffs(previous@, current@, "\n"@)),
        previous@ == current@ ==> spans@.len() == 0,
{
    proof {
        reveal_strlit("\n");
    }
    let diffs = changeset(previous, current, "\n");
    proof {
        if previous@ == current@ {
            lemma_added_of_none(changes_view(diffs@));
        }
    }
    let spans = get_additions(diffs);
    assert(texts_view(spans@).len() == spans@.len());
    spans
}

} // verus!
