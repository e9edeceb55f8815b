use vstd::prelude::*;
use crate::tile::{Tile, TileView, slug_of, views};

verus! {

/// No two entries share a slug.
pub open spec fn slugs_unique(s: Seq<TileView>) -> bool {
    forall|i: int, j: int|
        0 <= i < s.len() && 0 <= j < s.len() && i != j ==> slug_of(#[trigger] s[i]) != slug_of(
            #[trigger] s[j],
        )
}

/// The position of the entry whose slug is `id`, if there is one.
pub open spec fn find_slug(s: Seq<TileView>, id: Seq<char>) -> Option<int> {
    if exists|i: int| 0 <= i < s.len() && slug_of(#[trigger] s[i]) == id {
        Some(choose|i: int| 0 <= i < s.len() && slug_of(#[trigger] s[i]) == id)
    } else {
        None
    }
}

/// The entries after registering `t`: an entry with the same slug is
/// overwritten in place, else `t` is appended.
pub open spec fn registered(s: Seq<TileView>, t: TileView) -> Seq<TileView> {
    match find_slug(s, slug_of(t)) {
        Some(i) => s.update(i, t),
        None => s.push(t),
    }
}

/// The entries after registering each of `ts` in turn.
pub open spec fn registered_all(s: Seq<TileView>, ts: Seq<TileView>) -> Seq<TileView>
    decreases ts.len(),
{
    if ts.len() == 0 {
        s
    } else {
        registered(registered_all(s, ts.drop_last()), ts.last())
    }
}

/// Registering keeps slugs unique.
pub proof fn lemma_registered_unique(s: Seq<TileView>, t: TileView)
    requires
        slugs_unique(s),
    ensures
        slugs_unique(registered(s, t)),
{
}

/// Registering two tiles with the same colors leaves exactly one entry with
/// their slug, and adds at most one entry in all.
pub proof fn lemma_same_colors_one_entry(s: Seq<TileView>, a: TileView, b: TileView)
    requires
        slugs_unique(s),
        a.background == b.background,
        a.color == b.color,
    ensures
        ({
            let r = registered(registered(s, a), b);
            &&& r.len() == registered(s, a).len()
            &&& r.len() <= s.len() + 1
            &&& exists|i: int|
                0 <= i < r.len() && r[i] == b && forall|j: int|
                    0 <= j < r.len() && j != i ==> slug_of(#[trigger] r[j]) != slug_of(a)
        }),
{
    lemma_registered_unique(s, a);
    let m = registered(s, a);
    match find_slug(s, slug_of(a)) {
        Some(i) => {
            assert(slug_of(m[i]) == slug_of(b));
        },
        None => {
            assert(slug_of(m[s.len() as int]) == slug_of(b));
        },
    }
    assert(find_slug(m, slug_of(b)) is Some);
    let k = find_slug(m, slug_of(b))->Some_0;
    let r = registered(m, b);
    lemma_registered_unique(m, b);
    assert(r[k] == b);
    assert forall|j: int| 0 <= j < r.len() && j != k implies slug_of(#[trigger] r[j]) != slug_of(a) by {
        assert(slug_of(r[j]) != slug_of(r[k]));
    }
}

/// The palette: tiles in insertion order, at most one per slug.
pub struct TileRegistry {
    tiles: Vec<Tile>,
}

impl View for TileRegistry {
    type V = Seq<TileView>;

    closed spec fn view(&self) -> Seq<TileView> {
        views(self.tiles@)
    }
}

impl TileRegistry {
    /// Well-formed: no two entries share a slug.
    pub open spec fn wf(&self) -> bool {
        slugs_unique(self@)
    }

    pub fn new() -> (r: TileRegistry)
        ensures
            r.wf(),
            r@ == Seq::<TileView>::empty(),
    {
        let r = TileRegistry { tiles: Vec::new() };
        assert(r@ =~= Seq::<TileView>::empty());
        r
    }

    /// The position of the tile whose slug is `id`.
    fn position(&self, id: &String) -> (r: Option<usize>)
        requires
            self.wf(),
        ensures
            r matches Some(i) ==> find_slug(self@, id@) == Some(i as int),
            r is None ==> find_slug(self@, id@) is None,
    {
        let mut i: usize = 0;
        while i < self.tiles.len()
            invariant
                i <= self.tiles@.len(),
                self.wf(),
                forall|k: int| 0 <= k < i ==> slug_of(#[trigger] self@[k]) != id@,
            decreases self.tiles@.len() - i,
        {
            let found = self.tiles[i].slug().eq(id);
            assert(self@[i as int] == self.tiles@[i as int]@);
            if found {
                proof {
                    assert(slug_of(self@[i as int]) == id@);
                    assert(exists|c: int| 0 <= c < self@.len() && slug_of(#[trigger] self@[c]) == id@);
                    let c = choose|c: int| 0 <= c < self@.len() && slug_of(#[trigger] self@[c]) == id@;
                    assert(slug_of(self@[c]) == slug_of(self@[i as int]));
                }
                return Some(i);
            }
            i = i + 1;
        }
        None
    }

    /// Inserts `tile`, overwriting in place the entry with the same slug.
    pub fn register(&mut self, tile: Tile)
        requires
            old(self).wf(),
        ensures
            final(self).wf(),
            final(self)@ == registered(old(self)@, tile@),
    {
        proof {
            lemma_registered_unique(self@, tile@);
        }
        let pos = self.position(tile.slug());
        let ghost v = tile@;
        match pos {
            Some(i) => {
                self.tiles.set(i, tile);
            },
            None => {
                self.tiles.push(tile);
            },
        }
        assert(self@ =~= registered(old(self)@, v));
    }

    /// All palette tiles, in insertion order.
    pub fn all(&self) -> (r: Vec<Tile>)
        ensures
            views(r@) == self@,
    {
        let mut out: Vec<Tile> = Vec::new();
        let mut i: usize = 0;
        while i < self.tiles.len()
            invariant
                i <= self.tiles@.len(),
                views(out@) =~= self@.take(i as int),
            decreases self.tiles@.len() - i,
        {
            let t = self.tiles[i].clone();
            assert(t@ == self@[i as int]);
            let ghost prev = out@;
            out.push(t);
            assert(views(out@) =~= views(prev).push(t@));
            i = i + 1;
        }
        assert(self@.take(self.tiles@.len() as int) =~= self@);
        out
    }

    /// The tile whose slug is `id`.
    pub fn lookup(&self, id: &String) -> (r: Option<&Tile>)
        requires
            self.wf(),
        ensures
            match find_slug(self@, id@) {
                Some(i) => r matches Some(t) && t@ == self@[i],
                None => r is None,
            },
    {
        match self.position(id) {
            Some(i) => Some(&self.tiles[i]),
            None => None,
        }
    }

    /// Whether a tile with the same colors is registered.
    pub fn contains(&self, tile: &Tile) -> (r: bool)
        ensures
            r == self@.contains(tile@),
    {
        let mut i: usize = 0;
        while i < self.tiles.len()
            invariant
                i <= self.tiles@.len(),
                forall|k: int| 0 <= k < i ==> self@[k] != tile@,
            decreases self.tiles@.len() - i,
        {
            if self.tiles[i].same_as(tile) {
                assert(self@[i as int] == tile@);
                return true;
            }
            i = i + 1;
        }
        false
    }

    pub fn len(&self) -> (r: usize)
        ensures
            r == self@.len(),
    {
        self.tiles.len()
    }
}

} // verus!
