use vstd::prelude::*;

use crate::color::Color;

verus! {

/// A pixel field: the colors known at individual screen coordinates.
/// Coordinates that carry no entry are unavailable, and `sample` answers
/// `None` for them, the way a broken or out-of-screen read is reported.
///
/// The scanner reads pixels only through `sample`, so a synthetic field
/// built with `put` drives it exactly like a live one.
pub struct PixelGrid {
    entries: Vec<((i32, i32), Color)>,
}

/// The map an entry list denotes: later entries overwrite earlier ones.
pub closed spec fn entries_map(s: Seq<((i32, i32), Color)>) -> Map<(int, int), Color>
    decreases s.len(),
{
    if s.len() == 0 {
        Map::empty()
    } else {
        entries_map(s.drop_last()).insert(
            (s.last().0.0 as int, s.last().0.1 as int),
            s.last().1,
        )
    }
}

/// The color a pixel field holds at a coordinate, if any.
pub open spec fn color_at(g: Map<(int, int), Color>, x: int, y: int) -> Option<Color> {
    if g.contains_key((x, y)) {
        Some(g[(x, y)])
    } else {
        None
    }
}

impl View for PixelGrid {
    type V = Map<(int, int), Color>;

    closed spec fn view(&self) -> Map<(int, int), Color> {
        entries_map(self.entries@)
    }
}

proof fn lemma_entries_map_absent(s: Seq<((i32, i32), Color)>, x: int, y: int)
    requires
        forall|j: int| 0 <= j < s.len() ==> (#[trigger] s[j]).0.0 != x || s[j].0.1 != y,
    ensures
        !entries_map(s).contains_key((x, y)),
    decreases s.len(),
{
    if s.len() > 0 {
        assert forall|j: int| 0 <= j < s.drop_last().len() implies (#[trigger] s.drop_last()[j]).0.0
            != x || s.drop_last()[j].0.1 != y by {
            assert(s.drop_last()[j] == s[j]);
        }
        lemma_entries_map_absent(s.drop_last(), x, y);
    }
}

proof fn lemma_entries_map_found(s: Seq<((i32, i32), Color)>, x: int, y: int, i: int)
    requires
        0 <= i < s.len(),
        s[i].0.0 == x && s[i].0.1 == y,
        forall|j: int| i < j < s.len() ==> (#[trigger] s[j]).0.0 != x || s[j].0.1 != y,
    ensures
        entries_map(s).contains_key((x, y)),
        entries_map(s)[(x, y)] == s[i].1,
    decreases s.len(),
{
    if i == s.len() - 1 {
    } else {
        assert(s.last() == s[s.len() - 1]);
        assert forall|j: int| i < j < s.drop_last().len() implies (#[trigger] s.drop_last()[j]).0.0
            != x || s.drop_last()[j].0.1 != y by {
            assert(s.drop_last()[j] == s[j]);
        }
        assert(s.drop_last()[i] == s[i]);
        lemma_entries_map_found(s.drop_last(), x, y, i);
    }
}

impl PixelGrid {
    /// A field with no pixel available anywhere.
    pub fn new() -> (g: PixelGrid)
        ensures
            g@ == Map::<(int, int), Color>::empty(),
    {
        PixelGrid { entries: Vec::new() }
    }

    /// Make the color at one coordinate known, replacing what was there.
    pub fn put(&mut self, x: i32, y: i32, c: Color)
        ensures
            final(self)@ == old(self)@.insert((x as int, y as int), c),
    {
        self.entries.push(((x, y), c));
        proof {
            assert(self.entries@.drop_last() =~= old(self).entries@);
        }
    }

    /// Read the color at a coordinate; `None` where no sample is available.
    pub fn sample(&self, x: i32, y: i32) -> (res: Option<Color>)
        ensures
            res == color_at(self@, x as int, y as int),
    {
        let mut i: usize = self.entries.len();
        while i > 0
            invariant
                i <= self.entries.len(),
                forall|j: int|
                    i <= j < self.entries@.len() ==> (#[trigger] self.entries@[j]).0.0 != x
                        || self.entries@[j].0.1 != y,
            decreases i,
        {
            i = i - 1;
            let e = self.entries[i];
            if e.0.0 == x && e.0.1 == y {
                proof {
                    lemma_entries_map_found(self.entries@, x as int, y as int, i as int);
                }
                return Some(e.1);
            }
        }
        proof {
            lemma_entries_map_absent(self.entries@, x as int, y as int);
        }
        None
    }
}

} // verus!
