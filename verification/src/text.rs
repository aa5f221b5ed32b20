//! Turning the text runs of a document into one string: the runs are joined
//! with nothing between them, and every full-width space becomes an ordinary
//! space.

use vstd::prelude::*;
use vstd::string::StringExecFns;

verus! {

/// The full-width (ideographic) space, U+3000.
pub open spec fn wide_space() -> char {
    '\u{3000}'
}

/// One character after normalisation.
pub open spec fn narrow(c: char) -> char {
    if c == wide_space() {
        ' '
    } else {
        c
    }
}

/// A text with each full-width space replaced by an ordinary space.
pub open spec fn normalized(text: Seq<char>) -> Seq<char> {
    text.map_values(|c: char| narrow(c))
}

/// The runs one after another, in order, with no separator.
pub open spec fn joined(runs: Seq<Seq<char>>) -> Seq<char>
    decreases runs.len(),
{
    if runs.len() == 0 {
        Seq::empty()
    } else {
        joined(runs.drop_last()) + runs.last()
    }
}

/// The text of a document whose runs are `runs`.
pub open spec fn document_text(runs: Seq<Seq<char>>) -> Seq<char> {
    normalized(joined(runs))
}

/// The character views of a vector of strings.
pub open spec fn run_views(runs: Seq<String>) -> Seq<Seq<char>> {
    runs.map_values(|s: String| s@)
}

/// `String::push` appends the character to the end of the string.
pub assume_specification[ String::push ](s: &mut String, ch: char)
    ensures
        final(s)@ == old(s)@.push(ch),
;

/// Replaces each full-width space of `text` by an ordinary space and leaves
/// every other character as it is.
pub fn normalize_spaces(text: &str) -> (out: String)
    ensures
        out@ == normalized(text@),
{
    let mut out = String::new();
    for c in it: text.chars()
        invariant
            it.seq() == text@,
            out@ == normalized(text@.take(it.index() as int)),
    {
        let ghost before = text@.take(it.index() as int);
        let d = if c == '\u{3000}' {
            ' '
        } else {
            c
        };
        out.push(d);
        proof {
            let after = text@.take(it.index() + 1);
            assert(after =~= before.push(c));
            assert(normalized(after) =~= normalized(before).push(narrow(c)));
        }
    }
    proof {
        assert(text@.take(text@.len() as int) =~= text@);
    }
    out
}

/// Joins the runs in order, with nothing between them.
pub fn join_runs(runs: &Vec<String>) -> (out: String)
    ensures
        out@ == joined(run_views(runs@)),
{
    let mut out = String::new();
    let mut i: usize = 0;
    while i < runs.len()
        invariant
            i <= runs.len(),
            out@ == joined(run_views(runs@).take(i as int)),
        decreases runs.len() - i,
    {
        out.append(runs[i].as_str());
        proof {
            let all = run_views(runs@);
            assert(all.take(i + 1).drop_last() =~= all.take(i as int));
            assert(all.take(i + 1).last() == runs@[i as int]@);
        }
        i += 1;
    }
    proof {
        assert(run_views(runs@).take(runs.len() as int) =~= run_views(runs@));
    }
    out
}

/// The text of a document from its runs: joined, then normalised.
pub fn assemble_text(runs: &Vec<String>) -> (out: String)
    ensures
        out@ == document_text(run_views(runs@)),
{
    let whole = join_runs(runs);
    normalize_spaces(whole.as_str())
}

/// Normalisation keeps the length and every character but the full-width
/// space, puts an ordinary space where a full-width one stood, and leaves no
/// full-width space behind.
pub proof fn lemma_normalized_pointwise(text: Seq<char>)
    ensures
        normalized(text).len() == text.len(),
        forall|i: int|
            0 <= i < text.len() && text[i] == wide_space() ==> #[trigger] normalized(text)[i]
                == ' ',
        forall|i: int|
            0 <= i < text.len() && text[i] != wide_space() ==> #[trigger] normalized(text)[i]
                == text[i],
        !normalized(text).contains(wide_space()),
{
    assert forall|i: int| 0 <= i < text.len() implies #[trigger] normalized(text)[i]
        != wide_space() by {
        assert(normalized(text)[i] == narrow(text[i]));
    }
}

/// A text without a full-width space is its own normal form; so normalising
/// twice is normalising once.
pub proof fn lemma_normalized_is_stable(text: Seq<char>)
    ensures
        !text.contains(wide_space()) ==> normalized(text) == text,
        normalized(normalized(text)) == normalized(text),
{
    if !text.contains(wide_space()) {
        assert forall|i: int| 0 <= i < text.len() implies #[trigger] normalized(text)[i]
            == text[i] by {
            assert(text.contains(text[i]));
        }
        assert(normalized(text) =~= text);
    }
    lemma_normalized_pointwise(text);
    let once = normalized(text);
    assert forall|i: int| 0 <= i < once.len() implies #[trigger] normalized(once)[i]
        == once[i] by {
        assert(once.contains(once[i]));
    }
    assert(normalized(once) =~= once);
}

/// Joining keeps the order of the runs: the runs of `first` come before
/// those of `second`, with nothing put between them.
pub proof fn lemma_joined_concat(first: Seq<Seq<char>>, second: Seq<Seq<char>>)
    ensures
        joined(first + second) == joined(first) + joined(second),
    decreases second.len(),
{
    if second.len() == 0 {
        assert(first + second =~= first);
        assert(joined(first) + joined(second) =~= joined(first));
    } else {
        let whole = first + second;
        assert(whole.drop_last() =~= first + second.drop_last());
        assert(whole.last() == second.last());
        lemma_joined_concat(first, second.drop_last());
        assert(joined(first) + joined(second.drop_last()) + second.last() =~= joined(first) + (
        joined(second.drop_last()) + second.last()));
    }
}

/// The text of two runs is the first followed directly by the second.
pub proof fn lemma_joined_pair(first: Seq<char>, second: Seq<char>)
    ensures
        joined(seq![first, second]) == first + second,
{
    let runs = seq![first, second];
    assert(runs.drop_last() =~= seq![first]);
    assert(seq![first].drop_last() =~= Seq::<Seq<char>>::empty());
    assert(joined(Seq::<Seq<char>>::empty()) =~= Seq::<char>::empty());
    assert(joined(seq![first]) =~= joined(seq![first].drop_last()) + first);
    assert(joined(seq![first]) =~= first);
}

/// No document text holds a full-width space.
pub proof fn lemma_document_text_has_no_wide_space(runs: Seq<Seq<char>>)
    ensures
        !document_text(runs).contains(wide_space()),
{
    lemma_normalized_pointwise(joined(runs));
}

} // verus!
