use vstd::prelude::*;
use vstd::string::StringExecFns;

use crate::songs::{titles, SongList};

verus! {

/// `n` line breaks in a row.
pub open spec fn newlines(n: nat) -> Seq<char>
    decreases n,
{
    if n == 0 {
        Seq::empty()
    } else {
        newlines((n - 1) as nat).push('\n')
    }
}

/// The parts in order with `sep` between each two neighbours; empty for no
/// parts.
pub open spec fn joined(parts: Seq<Seq<char>>, sep: Seq<char>) -> Seq<char>
    decreases parts.len(),
{
    if parts.len() == 0 {
        Seq::empty()
    } else if parts.len() == 1 {
        parts[0]
    } else {
        joined(parts.drop_last(), sep) + sep + parts.last()
    }
}

/// The text shown for a list of titles: the titles joined by `line_breaks`
/// line breaks (none at all for zero).
pub open spec fn display_of(titles: Seq<Seq<char>>, line_breaks: nat) -> Seq<char> {
    joined(titles, newlines(line_breaks))
}

/// `n` line breaks as a string.
pub fn separator(n: usize) -> (r: String)
    ensures
        r@ == newlines(n as nat),
{
    let mut out = String::new();
    let mut i: usize = 0;
    while i < n
        invariant
            i <= n,
            out@ == newlines(i as nat),
        decreases n - i,
    {
        proof {
            reveal_strlit("\n");
        }
        out.append("\n");
        assert(out@ =~= newlines((i + 1) as nat));
        i = i + 1;
    }
    out
}

/// The text of the remote element for this list: its titles in order,
/// joined by `line_breaks` line breaks.
pub fn display_text(songs: &SongList, line_breaks: usize) -> (r: String)
    ensures
        r@ == display_of(titles(songs@), line_breaks as nat),
{
    let sep = separator(line_breaks);
    let ghost parts = titles(songs@);
    let mut out = String::new();
    let mut i: usize = 0;
    let n = songs.len();
    while i < n
        invariant
            n == songs@.len(),
            parts == titles(songs@),
            i <= n,
            out@ == joined(parts.take(i as int), sep@),
        decreases n - i,
    {
        if i > 0 {
            out.append(sep.as_str());
        }
        let title = songs.title(i);
        out.append(title.as_str());
        assert(parts.take(i + 1).drop_last() =~= parts.take(i as int));
        assert(parts[i as int] == songs@[i as int].title);
        i = i + 1;
    }
    assert(parts.take(n as int) =~= parts);
    out
}

/// Three titles are shown as the first, `n` line breaks, the second, `n`
/// line breaks, and the third.
pub proof fn lemma_three_titles(a: Seq<char>, b: Seq<char>, c: Seq<char>, n: nat)
    ensures
        display_of(seq![a, b, c], n) == a + newlines(n) + b + newlines(n) + c,
{
    let parts = seq![a, b, c];
    assert(parts.drop_last() =~= seq![a, b]);
    assert(seq![a, b].drop_last() =~= seq![a]);
    let sep = newlines(n);
    assert(joined(seq![a], sep) == a);
    assert(joined(seq![a, b], sep) == a + sep + b);
    assert(joined(parts, sep) == a + sep + b + sep + c);
}

} // verus!
