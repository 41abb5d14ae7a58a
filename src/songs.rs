use vstd::prelude::*;

verus! {

/// One entry of the set list. `id` is the list's length plus one at the time
/// the entry was added; it is not renumbered when earlier entries go.
#[derive(Clone, Debug)]
pub struct Song {
    pub id: usize,
    pub title: String,
    pub artist: String,
}

/// The mathematical value of a song: its id and the characters of its strings.
pub struct SongView {
    pub id: nat,
    pub title: Seq<char>,
    pub artist: Seq<char>,
}

impl View for Song {
    type V = SongView;

    open spec fn view(&self) -> SongView {
        SongView { id: self.id as nat, title: self.title@, artist: self.artist@ }
    }
}

/// Why a change of the list was refused.
#[derive(Clone, Copy, Debug, PartialEq, Eq, Structural)]
pub enum SongListError {
    IndexOutOfBounds,
}

/// The list after `title` is added at its end.
pub open spec fn appended(s: Seq<SongView>, title: Seq<char>) -> Seq<SongView> {
    s.push(SongView { id: s.len() + 1, title, artist: Seq::empty() })
}

/// The list after the entry at `index` is taken out, the later ones moving
/// one place forward with their ids kept; the list itself where `index` is
/// past the end.
pub open spec fn removed(s: Seq<SongView>, index: int) -> Seq<SongView> {
    if 0 <= index < s.len() {
        s.remove(index)
    } else {
        s
    }
}

/// The titles of a list, in its order.
pub open spec fn titles(s: Seq<SongView>) -> Seq<Seq<char>> {
    s.map_values(|song: SongView| song.title)
}

/// The ordered list of songs, in the order in which they were added.
pub struct SongList {
    songs: Vec<Song>,
}

impl View for SongList {
    type V = Seq<SongView>;

    closed spec fn view(&self) -> Seq<SongView> {
        self.songs@.map_values(|song: Song| song@)
    }
}

impl SongList {
    /// An empty list.
    pub fn new() -> (r: SongList)
        ensures
            r@ == Seq::<SongView>::empty(),
    {
        SongList { songs: Vec::new() }
    }

    /// The number of songs.
    pub fn len(&self) -> (r: usize)
        ensures
            r == self@.len(),
    {
        self.songs.len()
    }

    /// The title of the song at `index`.
    pub fn title(&self, index: usize) -> (r: &String)
        requires
            index < self@.len(),
        ensures
            r@ == self@[index as int].title,
    {
        &self.songs[index].title
    }

    /// A copy of the list, in order.
    pub fn list(&self) -> (r: Vec<Song>)
        ensures
            r@.map_values(|song: Song| song@) == self@,
    {
        let mut out: Vec<Song> = Vec::new();
        let mut i: usize = 0;
        while i < self.songs.len()
            invariant
                i <= self.songs@.len(),
                out@.len() == i,
                forall|k: int| 0 <= k < i ==> #[trigger] out@[k]@ == self.songs@[k]@,
            decreases self.songs@.len() - i,
        {
            let s = &self.songs[i];
            let copy = Song { id: s.id, title: s.title.clone(), artist: s.artist.clone() };
            out.push(copy);
            i = i + 1;
        }
        assert(out@.map_values(|song: Song| song@) =~= self@);
        out
    }

    /// Adds a song with the given title and an empty artist at the end; its
    /// id is the length before the call plus one.
    pub fn append(&mut self, title: String) -> (r: bool)
        requires
            old(self)@.len() < usize::MAX,
        ensures
            r,
            final(self)@ == appended(old(self)@, title@),
    {
        let id = self.songs.len() + 1;
        let artist = String::new();
        self.songs.push(Song { id, title, artist });
        assert(self@ =~= appended(old(self)@, title@));
        true
    }

    /// Takes out the song at `index`; the later ones move one place forward
    /// and keep their ids. An index past the end leaves the list as it was.
    pub fn remove(&mut self, index: usize) -> (r: Result<(), SongListError>)
        ensures
            r is Err <==> index >= old(self)@.len(),
            r is Err ==> r == Err::<(), SongListError>(SongListError::IndexOutOfBounds),
            final(self)@ == removed(old(self)@, index as int),
    {
        if index >= self.songs.len() {
            return Err(SongListError::IndexOutOfBounds);
        }
        self.songs.remove(index);
        assert(self@ =~= old(self)@.remove(index as int));
        Ok(())
    }
}

/// A change of the list: adding a title at the end, or taking out the entry
/// at an index.
pub enum SongOp {
    Append(Seq<char>),
    Remove(int),
}

/// The list after the changes, in order.
pub open spec fn apply_ops(s: Seq<SongView>, ops: Seq<SongOp>) -> Seq<SongView>
    decreases ops.len(),
{
    if ops.len() == 0 {
        s
    } else {
        let before = apply_ops(s, ops.drop_last());
        match ops.last() {
            SongOp::Append(title) => appended(before, title),
            SongOp::Remove(index) => removed(before, index),
        }
    }
}

/// How many of the changes add a title.
pub open spec fn append_count(ops: Seq<SongOp>) -> nat
    decreases ops.len(),
{
    if ops.len() == 0 {
        0
    } else {
        append_count(ops.drop_last()) + if ops.last() is Append {
            1nat
        } else {
            0nat
        }
    }
}

/// How many of the changes take out an entry that is there.
pub open spec fn removal_count(s: Seq<SongView>, ops: Seq<SongOp>) -> nat
    decreases ops.len(),
{
    if ops.len() == 0 {
        0
    } else {
        let before = apply_ops(s, ops.drop_last());
        removal_count(s, ops.drop_last()) + match ops.last() {
            SongOp::Remove(index) => if 0 <= index < before.len() {
                1nat
            } else {
                0nat
            },
            SongOp::Append(_) => 0nat,
        }
    }
}

/// The songs that the changes add, in the order they are added.
pub open spec fn added_songs(s: Seq<SongView>, ops: Seq<SongOp>) -> Seq<SongView>
    decreases ops.len(),
{
    if ops.len() == 0 {
        Seq::empty()
    } else {
        let before = apply_ops(s, ops.drop_last());
        match ops.last() {
            SongOp::Append(title) => added_songs(s, ops.drop_last()).push(
                appended(before, title).last(),
            ),
            SongOp::Remove(_) => added_songs(s, ops.drop_last()),
        }
    }
}

/// Every entry of `a` stands in `b`, and in the same order: `f` maps the
/// positions of `a` to increasing positions of `b` that hold the same songs.
pub open spec fn order_kept_by(a: Seq<SongView>, b: Seq<SongView>, f: spec_fn(int) -> int) -> bool {
    &&& forall|i: int, j: int| 0 <= i < j < a.len() ==> #[trigger] f(i) < #[trigger] f(j)
    &&& forall|i: int| 0 <= i < a.len() ==> 0 <= #[trigger] f(i) < b.len() && a[i] == b[f(i)]
}

/// `a` is `b` with some entries left out and the others in their order.
pub open spec fn order_kept(a: Seq<SongView>, b: Seq<SongView>) -> bool {
    exists|f: spec_fn(int) -> int| order_kept_by(a, b, f)
}

/// After any run of appends and removes the list has as many songs as it
/// had, plus the appends, minus the removes that found an entry; and its
/// songs are those it had followed by those added, some left out, in order.
pub proof fn lemma_ops_count_and_order(s: Seq<SongView>, ops: Seq<SongOp>)
    ensures
        apply_ops(s, ops).len() + removal_count(s, ops) == s.len() + append_count(ops),
        order_kept(apply_ops(s, ops), s + added_songs(s, ops)),
    decreases ops.len(),
{
    if ops.len() == 0 {
        let f = |i: int| i;
        assert(s + Seq::<SongView>::empty() =~= s);
        assert(order_kept_by(s, s, f));
    } else {
        let prev = ops.drop_last();
        lemma_ops_count_and_order(s, prev);
        let before = apply_ops(s, prev);
        let whole = s + added_songs(s, prev);
        let f = choose|f: spec_fn(int) -> int| order_kept_by(before, whole, f);
        match ops.last() {
            SongOp::Append(title) => {
                let after = appended(before, title);
                let whole2 = s + added_songs(s, ops);
                assert(whole2 =~= whole.push(after.last()));
                let g = |i: int|
                    if i < before.len() {
                        f(i)
                    } else {
                        whole.len() as int
                    };
                assert(order_kept_by(after, whole2, g));
            },
            SongOp::Remove(index) => {
                assert(s + added_songs(s, ops) == whole);
                if 0 <= index < before.len() {
                    let after = before.remove(index);
                    let g = |i: int|
                        if i < index {
                            f(i)
                        } else {
                            f(i + 1)
                        };
                    assert forall|i: int, j: int| 0 <= i < j < after.len() implies #[trigger] g(i)
                        < #[trigger] g(j) by {
                        let fi = if i < index {
                            i
                        } else {
                            i + 1
                        };
                        let fj = if j < index {
                            j
                        } else {
                            j + 1
                        };
                        assert(f(fi) < f(fj));
                    }
                    assert forall|i: int| 0 <= i < after.len() implies 0 <= #[trigger] g(i)
                        < whole.len() && after[i] == whole[g(i)] by {
                        let fi = if i < index {
                            i
                        } else {
                            i + 1
                        };
                        assert(before[fi] == whole[f(fi)]);
                    }
                    assert(order_kept_by(after, whole, g));
                } else {
                    assert(order_kept_by(before, whole, f));
                }
            },
        }
    }
}

} // verus!
