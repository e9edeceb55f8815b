use vstd::prelude::*;
use vstd::string::*;

verus! {

/// The mathematical value of a tile: its two colors.
pub struct TileView {
    pub background: Seq<char>,
    pub color: Seq<char>,
}

/// The identity key of a tile: `"{background}-{color}"`.
pub open spec fn slug_of(t: TileView) -> Seq<char> {
    t.background + seq!['-'] + t.color
}

/// The colors of each tile of a sequence.
pub open spec fn views(ts: Seq<Tile>) -> Seq<TileView> {
    ts.map_values(|t: Tile| t@)
}

/// An immutable pair of colors, identified by its slug.
pub struct Tile {
    slug: String,
    background_color: String,
    color: String,
}

impl View for Tile {
    type V = TileView;

    closed spec fn view(&self) -> TileView {
        TileView { background: self.background_color@, color: self.color@ }
    }
}

impl Tile {
    #[verifier::type_invariant]
    closed spec fn slug_matches(&self) -> bool {
        self.slug@ == slug_of(self@)
    }

    /// Creates a tile from its background and foreground colors.
    pub fn new(background_color: &str, color: &str) -> (t: Tile)
        ensures
            t@ == (TileView { background: background_color@, color: color@ }),
    {
        let bg_string = String::from_str(background_color);
        let color_string = color.to_owned();
        let mut slug = bg_string.clone();
        slug.append("-");
        slug.append(color);
        proof {
            reveal_strlit("-");
            assert("-"@ =~= seq!['-']);
        }
        Tile { slug, background_color: bg_string, color: color_string }
    }

    /// The identity key, `"{background}-{color}"`.
    pub fn slug(&self) -> (r: &String)
        ensures
            r@ == slug_of(self@),
    {
        proof {
            use_type_invariant(self);
        }
        &self.slug
    }

    pub fn background_color(&self) -> (r: &String)
        ensures
            r@ == self@.background,
    {
        &self.background_color
    }

    pub fn color(&self) -> (r: &String)
        ensures
            r@ == self@.color,
    {
        &self.color
    }

    /// Whether two tiles hold the same colors.
    pub fn same_as(&self, other: &Tile) -> (r: bool)
        ensures
            r == (self@ == other@),
    {
        let b = self.background_color == other.background_color;
        let c = self.color == other.color;
        b && c
    }
}

impl Clone for Tile {
    fn clone(&self) -> (r: Tile)
        ensures
            r@ == self@,
    {
        proof {
            use_type_invariant(self);
        }
        Tile {
            slug: self.slug.clone(),
            background_color: self.background_color.clone(),
            color: self.color.clone(),
        }
    }
}

} // verus!
