//! Size, margin and padding attributes of layout controls, and the
//! chainable builders that set them.

use vstd::prelude::*;

verus! {

/// The size of a control.
#[derive(Clone, Copy, Debug, PartialEq, Eq, Structural)]
pub struct Dimension {
    pub height: i32,
    pub width: i32,
}

impl Default for Dimension {
    fn default() -> (r: Self)
        ensures
            r == (Dimension { height: 0, width: 0 }),
    {
        Dimension { height: 0, width: 0 }
    }
}

/// Sets the size of a control by chaining.
pub trait DimensionBuilder: Sized {
    /// The size held by `self`.
    spec fn dimension_of(&self) -> Dimension;

    /// `self` with its size replaced by `d` and all else kept.
    spec fn with_dimension(self, d: Dimension) -> Self;

    /// Replacing the dimension sets exactly the dimension: it reads back, a later
    /// replacement overrides it, and putting back the same dimension changes nothing.
    proof fn lemma_with_dimension(self, a: Dimension, b: Dimension)
        ensures
            self.with_dimension(a).dimension_of() == a,
            self.with_dimension(a).with_dimension(b) == self.with_dimension(b),
            self.with_dimension(self.dimension_of()) == self,
    ;

    fn set_height(&mut self, v: i32)
        ensures
            *final(self) == old(self).with_dimension(
                Dimension { height: v, ..old(self).dimension_of() },
            ),
    ;

    fn set_width(&mut self, v: i32)
        ensures
            *final(self) == old(self).with_dimension(
                Dimension { width: v, ..old(self).dimension_of() },
            ),
    ;

    fn height(self, v: i32) -> (r: Self)
        ensures
            r == self.with_dimension(Dimension { height: v, ..self.dimension_of() }),
            r.dimension_of() == (Dimension { height: v, ..self.dimension_of() }),
    {
        proof {
            let want = Dimension { height: v, ..self.dimension_of() };
            self.lemma_with_dimension(want, want);
        }
        let mut s = self;
        s.set_height(v);
        s
    }

    fn width(self, v: i32) -> (r: Self)
        ensures
            r == self.with_dimension(Dimension { width: v, ..self.dimension_of() }),
            r.dimension_of() == (Dimension { width: v, ..self.dimension_of() }),
    {
        proof {
            let want = Dimension { width: v, ..self.dimension_of() };
            self.lemma_with_dimension(want, want);
        }
        let mut s = self;
        s.set_width(v);
        s
    }
}

/// Space kept around a control, on each side.
#[derive(Clone, Copy, Debug, PartialEq, Eq, Structural)]
pub struct Margin {
    pub right: i32,
    pub left: i32,
    pub top: i32,
    pub bottom: i32,
}

impl Default for Margin {
    fn default() -> (r: Self)
        ensures
            r == (Margin { right: 0, left: 0, top: 0, bottom: 0 }),
    {
        Margin { right: 0, left: 0, top: 0, bottom: 0 }
    }
}

/// Sets the margin of a control by chaining; each setter keeps the other sides.
pub trait MarginBuilder: Sized {
    /// The margin held by `self`.
    spec fn margin_of(&self) -> Margin;

    /// `self` with its margin replaced by `m` and all else kept.
    spec fn with_margin(self, m: Margin) -> Self;

    /// Replacing the margin sets exactly the margin: it reads back, a later
    /// replacement overrides it, and putting back the same margin changes nothing.
    proof fn lemma_with_margin(self, a: Margin, b: Margin)
        ensures
            self.with_margin(a).margin_of() == a,
            self.with_margin(a).with_margin(b) == self.with_margin(b),
            self.with_margin(self.margin_of()) == self,
    ;

    fn get_margin(&self) -> (r: Margin)
        ensures
            r == self.margin_of(),
    ;

    fn set_margin(&mut self, m: Margin)
        ensures
            *final(self) == old(self).with_margin(m),
    ;

    fn left_margin(self, m: i32) -> (r: Self)
        ensures
            r == self.with_margin(Margin { left: m, ..self.margin_of() }),
            r.margin_of() == (Margin { left: m, ..self.margin_of() }),
    {
        proof {
            let want = Margin { left: m, ..self.margin_of() };
            self.lemma_with_margin(want, want);
        }
        let mut s = self;
        let mm = s.get_margin();
        s.set_margin(Margin { left: m, ..mm });
        s
    }

    fn right_margin(self, m: i32) -> (r: Self)
        ensures
            r == self.with_margin(Margin { right: m, ..self.margin_of() }),
            r.margin_of() == (Margin { right: m, ..self.margin_of() }),
    {
        proof {
            let want = Margin { right: m, ..self.margin_of() };
            self.lemma_with_margin(want, want);
        }
        let mut s = self;
        let mm = s.get_margin();
        s.set_margin(Margin { right: m, ..mm });
        s
    }

    fn top_margin(self, m: i32) -> (r: Self)
        ensures
            r == self.with_margin(Margin { top: m, ..self.margin_of() }),
            r.margin_of() == (Margin { top: m, ..self.margin_of() }),
    {
        proof {
            let want = Margin { top: m, ..self.margin_of() };
            self.lemma_with_margin(want, want);
        }
        let mut s = self;
        let mm = s.get_margin();
        s.set_margin(Margin { top: m, ..mm });
        s
    }

    fn bottom_margin(self, m: i32) -> (r: Self)
        ensures
            r == self.with_margin(Margin { bottom: m, ..self.margin_of() }),
            r.margin_of() == (Margin { bottom: m, ..self.margin_of() }),
    {
        proof {
            let want = Margin { bottom: m, ..self.margin_of() };
            self.lemma_with_margin(want, want);
        }
        let mut s = self;
        let mm = s.get_margin();
        s.set_margin(Margin { bottom: m, ..mm });
        s
    }

    /// Sets the top and bottom margins to `m`.
    fn vertical_margin(self, m: i32) -> (r: Self)
        ensures
            r == self.with_margin(Margin { top: m, bottom: m, ..self.margin_of() }),
            r.margin_of() == (Margin { top: m, bottom: m, ..self.margin_of() }),
    {
        proof {
            let want = Margin { top: m, bottom: m, ..self.margin_of() };
            self.lemma_with_margin(want, want);
        }
        let mut s = self;
        let mm = s.get_margin();
        s.set_margin(Margin { top: m, bottom: m, ..mm });
        s
    }

    /// Sets the left and right margins to `m`.
    fn horizontal_margin(self, m: i32) -> (r: Self)
        ensures
            r == self.with_margin(Margin { left: m, right: m, ..self.margin_of() }),
            r.margin_of() == (Margin { left: m, right: m, ..self.margin_of() }),
    {
        proof {
            let want = Margin { left: m, right: m, ..self.margin_of() };
            self.lemma_with_margin(want, want);
        }
        let mut s = self;
        let mm = s.get_margin();
        s.set_margin(Margin { left: m, right: m, ..mm });
        s
    }
}

/// Space kept inside a container, on each side.
#[derive(Clone, Copy, Debug, PartialEq, Eq, Structural)]
pub struct Padding {
    pub right: i32,
    pub left: i32,
    pub top: i32,
    pub bottom: i32,
}

impl Default for Padding {
    fn default() -> (r: Self)
        ensures
            r == (Padding { right: 0, left: 0, top: 0, bottom: 0 }),
    {
        Padding { right: 0, left: 0, top: 0, bottom: 0 }
    }
}

/// Sets the padding of a container by chaining; each setter keeps the other sides.
pub trait PaddingBuilder: Sized {
    /// The padding held by `self`.
    spec fn padding_of(&self) -> Padding;

    /// `self` with its padding replaced by `p` and all else kept.
    spec fn with_padding(self, p: Padding) -> Self;

    /// Replacing the padding sets exactly the padding: it reads back, a later
    /// replacement overrides it, and putting back the same padding changes nothing.
    proof fn lemma_with_padding(self, a: Padding, b: Padding)
        ensures
            self.with_padding(a).padding_of() == a,
            self.with_padding(a).with_padding(b) == self.with_padding(b),
            self.with_padding(self.padding_of()) == self,
    ;

    fn get_padding(&self) -> (r: Padding)
        ensures
            r == self.padding_of(),
    ;

    fn set_padding(&mut self, p: Padding)
        ensures
            *final(self) == old(self).with_padding(p),
    ;

    fn left_padding(self, m: i32) -> (r: Self)
        ensures
            r == self.with_padding(Padding { left: m, ..self.padding_of() }),
            r.padding_of() == (Padding { left: m, ..self.padding_of() }),
    {
        proof {
            let want = Padding { left: m, ..self.padding_of() };
            self.lemma_with_padding(want, want);
        }
        let mut s = self;
        let mm = s.get_padding();
        s.set_padding(Padding { left: m, ..mm });
        s
    }

    fn right_padding(self, m: i32) -> (r: Self)
        ensures
            r == self.with_padding(Padding { right: m, ..self.padding_of() }),
            r.padding_of() == (Padding { right: m, ..self.padding_of() }),
    {
        proof {
            let want = Padding { right: m, ..self.padding_of() };
            self.lemma_with_padding(want, want);
        }
        let mut s = self;
        let mm = s.get_padding();
        s.set_padding(Padding { right: m, ..mm });
        s
    }

    fn top_padding(self, m: i32) -> (r: Self)
        ensures
            r == self.with_padding(Padding { top: m, ..self.padding_of() }),
            r.padding_of() == (Padding { top: m, ..self.padding_of() }),
    {
        proof {
            let want = Padding { top: m, ..self.padding_of() };
            self.lemma_with_padding(want, want);
        }
        let mut s = self;
        let mm = s.get_padding();
        s.set_padding(Padding { top: m, ..mm });
        s
    }

    fn bottom_padding(self, m: i32) -> (r: Self)
        ensures
            r == self.with_padding(Padding { bottom: m, ..self.padding_of() }),
            r.padding_of() == (Padding { bottom: m, ..self.padding_of() }),
    {
        proof {
            let want = Padding { bottom: m, ..self.padding_of() };
            self.lemma_with_padding(want, want);
        }
        let mut s = self;
        let mm = s.get_padding();
        s.set_padding(Padding { bottom: m, ..mm });
        s
    }

    /// Sets the top and bottom padding to `m`.
    fn vertical_padding(self, m: i32) -> (r: Self)
        ensures
            r == self.with_padding(Padding { top: m, bottom: m, ..self.padding_of() }),
            r.padding_of() == (Padding { top: m, bottom: m, ..self.padding_of() }),
    {
        proof {
            let want = Padding { top: m, bottom: m, ..self.padding_of() };
            self.lemma_with_padding(want, want);
        }
        let mut s = self;
        let mm = s.get_padding();
        s.set_padding(Padding { top: m, bottom: m, ..mm });
        s
    }

    /// Sets the left and right padding to `m`.
    fn horizontal_padding(self, m: i32) -> (r: Self)
        ensures
            r == self.with_padding(Padding { left: m, right: m, ..self.padding_of() }),
            r.padding_of() == (Padding { left: m, right: m, ..self.padding_of() }),
    {
        proof {
            let want = Padding { left: m, right: m, ..self.padding_of() };
            self.lemma_with_padding(want, want);
        }
        let mut s = self;
        let mm = s.get_padding();
        s.set_padding(Padding { left: m, right: m, ..mm });
        s
    }
}

} // verus!
