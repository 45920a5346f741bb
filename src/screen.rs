//! Placement of a layout tree on a window: each leaf control gets a
//! position and a size, in one pass that accumulates the extent of every
//! stack. All coordinates are 32-bit; a layout whose arithmetic leaves that
//! range is refused.

use vstd::prelude::*;

use crate::controls::Control;
use crate::margins::{Dimension, Margin, Padding};

verus! {

/// Whether `v` is a 32-bit signed value.
pub open spec fn fits(v: int) -> bool {
    i32::MIN <= v <= i32::MAX
}

/// The kind of a leaf control to create.
#[derive(Clone, Copy, Debug, PartialEq, Eq, Structural)]
pub enum ControlKind {
    InputText,
    Button,
}

/// Where a leaf control goes: its kind, its text, its top-left corner and its size.
#[derive(Clone, Debug)]
pub struct Placement {
    pub kind: ControlKind,
    pub text: String,
    pub x: i32,
    pub y: i32,
    pub width: i32,
    pub height: i32,
}

/// A placement, with its text as characters.
pub struct PlacedView {
    pub kind: ControlKind,
    pub text: Seq<char>,
    pub x: int,
    pub y: int,
    pub width: int,
    pub height: int,
}

impl View for Placement {
    type V = PlacedView;

    open spec fn view(&self) -> PlacedView {
        PlacedView {
            kind: self.kind,
            text: self.text@,
            x: self.x as int,
            y: self.y as int,
            width: self.width as int,
            height: self.height as int,
        }
    }
}

/// The views of a sequence of placements.
pub open spec fn views(s: Seq<Placement>) -> Seq<PlacedView> {
    s.map_values(|p: Placement| p@)
}

/// The extent a control takes, margins and padding included.
#[derive(Clone, Copy, Debug, PartialEq, Eq, Structural)]
pub struct Rect {
    pub w: i32,
    pub h: i32,
}

/// Why a layout was refused.
#[derive(Clone, Copy, Debug, PartialEq, Eq, Structural)]
pub enum LayoutError {
    /// A coordinate or an extent left the 32-bit range.
    Overflow,
}

/// The layout of a subtree: its placements in tree order, and its extent.
pub struct Laid {
    pub placed: Seq<PlacedView>,
    pub w: int,
    pub h: int,
}

/// The state of a stack after some of its items: placements so far, extent
/// so far, and the corner where the next item goes.
pub struct StackAcc {
    pub placed: Seq<PlacedView>,
    pub w: int,
    pub h: int,
    pub x: int,
    pub y: int,
}

/// A stack being laid out: its direction and spacing, its own corner
/// `(init_x, init_y)`, and the corner `(x0, y0)` of its first item, inside
/// its padding.
pub struct StackFrame {
    pub vertical: bool,
    pub spacing: int,
    pub init_x: int,
    pub init_y: int,
    pub x0: int,
    pub y0: int,
}

/// A leaf control with corner `(x, y)`: it is placed inside its margin, and
/// takes its size plus its margins.
pub open spec fn leaf_layout(
    kind: ControlKind,
    text: Seq<char>,
    d: Dimension,
    m: Margin,
    x: int,
    y: int,
) -> Option<Laid> {
    let px = x + m.left;
    let py = y + m.top;
    let w1 = d.width + m.left;
    let w = w1 + m.right;
    let h1 = d.height + m.top;
    let h = h1 + m.bottom;
    if fits(px) && fits(py) && fits(w1) && fits(w) && fits(h1) && fits(h) {
        Some(
            Laid {
                placed: seq![
                    PlacedView {
                        kind,
                        text,
                        x: px,
                        y: py,
                        width: d.width as int,
                        height: d.height as int,
                    },
                ],
                w,
                h,
            },
        )
    } else {
        None
    }
}

/// Adds the layout `r` of one more item to a stack. A vertical stack is as
/// wide as its widest item and grows downwards by each item's height plus
/// the spacing; each item after the first starts that far below the
/// stack's own corner, so the top padding applies to the first item only.
/// A horizontal stack is the same with the axes swapped.
pub open spec fn stack_step(acc: StackAcc, r: Laid, f: StackFrame) -> Option<StackAcc> {
    let spacing = f.spacing;
    if f.vertical {
        let w = if acc.w >= r.w {
            acc.w
        } else {
            r.w
        };
        let t = r.h + spacing;
        let h = acc.h + t;
        let y = f.init_y + h;
        if fits(t) && fits(h) && fits(y) {
            Some(StackAcc { placed: acc.placed + r.placed, w, h, x: acc.x, y })
        } else {
            None
        }
    } else {
        let h = if acc.h >= r.h {
            acc.h
        } else {
            r.h
        };
        let t = r.w + spacing;
        let w = acc.w + t;
        let x = f.init_x + w;
        if fits(t) && fits(w) && fits(x) {
            Some(StackAcc { placed: acc.placed + r.placed, w, h, x, y: acc.y })
        } else {
            None
        }
    }
}

/// A stack's extent: the spacing after the last item is taken back, and
/// the padding on each side is added.
pub open spec fn stack_finish(acc: StackAcc, vertical: bool, spacing: int, pad: Padding) -> Option<
    Laid,
> {
    let w0 = if vertical {
        acc.w
    } else {
        acc.w - spacing
    };
    let h0 = if vertical {
        acc.h - spacing
    } else {
        acc.h
    };
    let pw = pad.left + pad.right;
    let w = w0 + pw;
    let ph = pad.top + pad.bottom;
    let h = h0 + ph;
    if fits(w0) && fits(h0) && fits(pw) && fits(w) && fits(ph) && fits(h) {
        Some(Laid { placed: acc.placed, w, h })
    } else {
        None
    }
}

/// The layout of a control with corner `(x, y)`, or `None` where the
/// 32-bit arithmetic overflows.
pub open spec fn layout_of(c: Control, x: int, y: int) -> Option<Laid>
    decreases c, 0nat,
{
    match c {
        Control::Empty => Some(Laid { placed: seq![], w: 0, h: 0 }),
        Control::InputText(t) => leaf_layout(
            ControlKind::InputText,
            t.text@,
            t.dimension,
            t.margin,
            x,
            y,
        ),
        Control::Button(b) => leaf_layout(
            ControlKind::Button,
            b.title@,
            b.dimension,
            b.margin,
            x,
            y,
        ),
        Control::VStack(s) => stack_layout(s.items@, true, s.spacing as int, s.padding, x, y),
        Control::HStack(s) => stack_layout(s.items@, false, s.spacing as int, s.padding, x, y),
    }
}

/// The layout of a stack with corner `(x, y)`: its first item starts inside
/// the padding, the later ones from the stack's corner as `stack_step` says.
pub open spec fn stack_layout(
    items: Seq<Control>,
    vertical: bool,
    spacing: int,
    pad: Padding,
    x: int,
    y: int,
) -> Option<Laid>
    decreases items, items.len() + 1,
{
    let x0 = x + pad.left;
    let y0 = y + pad.top;
    if fits(x0) && fits(y0) {
        let f = StackFrame { vertical, spacing, init_x: x, init_y: y, x0, y0 };
        match stack_fold(items, items.len(), f) {
            Some(acc) => stack_finish(acc, vertical, spacing, pad),
            None => None,
        }
    } else {
        None
    }
}

/// The stack `f` after its first `n` items.
pub open spec fn stack_fold(items: Seq<Control>, n: nat, f: StackFrame) -> Option<StackAcc>
    decreases items, n,
{
    if n == 0 {
        Some(StackAcc { placed: seq![], w: 0, h: 0, x: f.x0, y: f.y0 })
    } else if n <= items.len() {
        match stack_fold(items, (n - 1) as nat, f) {
            Some(acc) => match layout_of(items[n - 1], acc.x, acc.y) {
                Some(r) => stack_step(acc, r, f),
                None => None,
            },
            None => None,
        }
    } else {
        None
    }
}

/// A stack whose first `n` items overflow overflows with more items too.
proof fn lemma_fold_none(items: Seq<Control>, n: nat, m: nat, f: StackFrame)
    requires
        n <= m,
        stack_fold(items, n, f) is None,
    ensures
        stack_fold(items, m, f) is None,
    decreases m - n,
{
    if n < m {
        lemma_fold_none(items, n, (m - 1) as nat, f);
    }
}

proof fn lemma_views_push(s: Seq<Placement>, p: Placement)
    ensures
        views(s.push(p)) == views(s) + seq![p@],
{
    assert(views(s.push(p)) =~= views(s) + seq![p@]);
}

/// The corner at which the next control goes.
struct Offset {
    left: i32,
    top: i32,
}

/// Lays out a control tree on the window `h_window` of module `h_instance`.
pub struct Screen {
    h_instance: usize,
    h_window: usize,
    offset: Offset,
}

impl Screen {
    /// The corner at which the next control goes.
    pub closed spec fn origin(&self) -> (int, int) {
        (self.offset.left as int, self.offset.top as int)
    }

    pub closed spec fn spec_h_instance(&self) -> usize {
        self.h_instance
    }

    pub closed spec fn spec_h_window(&self) -> usize {
        self.h_window
    }

    pub fn new(h_instance: usize, h_window: usize) -> (s: Screen)
        ensures
            s.origin() == (0int, 0int),
            s.spec_h_instance() == h_instance,
            s.spec_h_window() == h_window,
    {
        Screen { h_instance, h_window, offset: Offset { left: 0, top: 0 } }
    }

    pub fn h_instance(&self) -> (r: usize)
        ensures
            r == self.spec_h_instance(),
    {
        self.h_instance
    }

    pub fn h_window(&self) -> (r: usize)
        ensures
            r == self.spec_h_window(),
    {
        self.h_window
    }

    /// The placements of every leaf control of `root`, in tree order, with
    /// `root` at the screen's origin; the origin is kept, also on failure.
    pub fn render(&mut self, root: Control) -> (r: Result<Vec<Placement>, LayoutError>)
        ensures
            final(self).spec_h_instance() == old(self).spec_h_instance(),
            final(self).spec_h_window() == old(self).spec_h_window(),
            final(self).origin() == old(self).origin(),
            match layout_of(root, old(self).origin().0, old(self).origin().1) {
                Some(l) => r matches Ok(v) && views(v@) == l.placed,
                None => r == Err::<Vec<Placement>, LayoutError>(LayoutError::Overflow),
            },
    {
        let mut out: Vec<Placement> = Vec::new();
        assert(views(out@) =~= Seq::<PlacedView>::empty());
        match self.render_recurse(&root, &mut out) {
            Ok(_) => {
                assert(views(out@) =~= Seq::<PlacedView>::empty() + layout_of(
                    root,
                    old(self).origin().0,
                    old(self).origin().1,
                )->Some_0.placed);
                Ok(out)
            },
            Err(e) => Err(e),
        }
    }

    /// Places `root` at the current origin, appends its placements to `out`,
    /// and returns its extent; the origin is restored, also on failure.
    fn render_recurse(&mut self, root: &Control, out: &mut Vec<Placement>) -> (r: Result<
        Rect,
        LayoutError,
    >)
        ensures
            final(self).spec_h_instance() == old(self).spec_h_instance(),
            final(self).spec_h_window() == old(self).spec_h_window(),
            final(self).origin() == old(self).origin(),
            match layout_of(*root, old(self).origin().0, old(self).origin().1) {
                Some(l) => r matches Ok(rect) && rect.w == l.w && rect.h == l.h && views(
                    final(out)@,
                ) == views(old(out)@) + l.placed,
                None => r == Err::<Rect, LayoutError>(LayoutError::Overflow),
            },
        decreases root,
    {
        let left = self.offset.left;
        let top = self.offset.top;
        let r = match root {
            Control::Empty => {
                assert(views(out@) =~= views(out@) + Seq::<PlacedView>::empty());
                Ok(Rect { w: 0, h: 0 })
            },
            Control::HStack(stack) => self.render_stack(
                &stack.items,
                false,
                stack.spacing,
                stack.padding,
                out,
            ),
            Control::VStack(stack) => self.render_stack(
                &stack.items,
                true,
                stack.spacing,
                stack.padding,
                out,
            ),
            Control::Button(button) => self.render_leaf(
                ControlKind::Button,
                &button.title,
                button.dimension,
                button.margin,
                out,
            ),
            Control::InputText(input) => self.render_leaf(
                ControlKind::InputText,
                &input.text,
                input.dimension,
                input.margin,
                out,
            ),
        };
        self.offset.left = left;
        self.offset.top = top;
        r
    }

    /// Places one leaf control inside its margin at the current origin.
    fn render_leaf(
        &mut self,
        kind: ControlKind,
        text: &String,
        d: Dimension,
        m: Margin,
        out: &mut Vec<Placement>,
    ) -> (r: Result<Rect, LayoutError>)
        ensures
            *final(self) == *old(self),
            match leaf_layout(kind, text@, d, m, old(self).origin().0, old(self).origin().1) {
                Some(l) => r matches Ok(rect) && rect.w == l.w && rect.h == l.h && views(
                    final(out)@,
                ) == views(old(out)@) + l.placed,
                None => r == Err::<Rect, LayoutError>(LayoutError::Overflow),
            },
    {
        let x = match self.offset.left.checked_add(m.left) {
            Some(v) => v,
            None => return Err(LayoutError::Overflow),
        };
        let y = match self.offset.top.checked_add(m.top) {
            Some(v) => v,
            None => return Err(LayoutError::Overflow),
        };
        let w1 = match d.width.checked_add(m.left) {
            Some(v) => v,
            None => return Err(LayoutError::Overflow),
        };
        let w = match w1.checked_add(m.right) {
            Some(v) => v,
            None => return Err(LayoutError::Overflow),
        };
        let h1 = match d.height.checked_add(m.top) {
            Some(v) => v,
            None => return Err(LayoutError::Overflow),
        };
        let h = match h1.checked_add(m.bottom) {
            Some(v) => v,
            None => return Err(LayoutError::Overflow),
        };
        let p = Placement { kind, text: text.clone(), x, y, width: d.width, height: d.height };
        proof {
            lemma_views_push(out@, p);
        }
        out.push(p);
        Ok(Rect { w, h })
    }

    /// Places the items of a stack one after another from the current
    /// origin, and returns the stack's extent; the origin is restored.
    fn render_stack(
        &mut self,
        items: &Vec<Control>,
        vertical: bool,
        spacing: i32,
        padding: Padding,
        out: &mut Vec<Placement>,
    ) -> (r: Result<Rect, LayoutError>)
        ensures
            final(self).spec_h_instance() == old(self).spec_h_instance(),
            final(self).spec_h_window() == old(self).spec_h_window(),
            match stack_layout(
                items@,
                vertical,
                spacing as int,
                padding,
                old(self).origin().0,
                old(self).origin().1,
            ) {
                Some(l) => r matches Ok(rect) && rect.w == l.w && rect.h == l.h && views(
                    final(out)@,
                ) == views(old(out)@) + l.placed && final(self).origin() == old(self).origin(),
                None => r == Err::<Rect, LayoutError>(LayoutError::Overflow),
            },
        decreases items,
    {
        let init_x = self.offset.left;
        let init_y = self.offset.top;
        let x0 = match init_x.checked_add(padding.left) {
            Some(v) => v,
            None => return Err(LayoutError::Overflow),
        };
        let y0 = match init_y.checked_add(padding.top) {
            Some(v) => v,
            None => return Err(LayoutError::Overflow),
        };
        self.offset.left = x0;
        self.offset.top = y0;
        let ghost base = views(out@);
        let ghost f = StackFrame {
            vertical,
            spacing: spacing as int,
            init_x: init_x as int,
            init_y: init_y as int,
            x0: x0 as int,
            y0: y0 as int,
        };
        let mut w: i32 = 0;
        let mut h: i32 = 0;
        let mut i: usize = 0;
        assert(base + Seq::<PlacedView>::empty() =~= base);
        while i < items.len()
            invariant
                0 <= i <= items.len(),
                self.spec_h_instance() == old(self).spec_h_instance(),
                self.spec_h_window() == old(self).spec_h_window(),
                init_x == old(self).origin().0,
                init_y == old(self).origin().1,
                x0 == init_x + padding.left,
                y0 == init_y + padding.top,
                f == (StackFrame {
                    vertical,
                    spacing: spacing as int,
                    init_x: init_x as int,
                    init_y: init_y as int,
                    x0: x0 as int,
                    y0: y0 as int,
                }),
                stack_fold(items@, i as nat, f) matches Some(acc) && acc.w == w && acc.h == h
                    && acc.x == self.origin().0 && acc.y == self.origin().1 && views(out@) == base
                    + acc.placed,
            decreases items.len() - i,
        {
            let ghost acc = stack_fold(items@, i as nat, f)->Some_0;
            let ghost before = views(out@);
            let r = match self.render_recurse(&items[i], out) {
                Ok(r) => r,
                Err(e) => {
                    proof {
                        assert(layout_of(items@[i as int], acc.x, acc.y) is None);
                        assert(stack_fold(items@, (i + 1) as nat, f) is None);
                        lemma_fold_none(items@, (i + 1) as nat, items@.len(), f);
                    }
                    return Err(e);
                },
            };
            let ghost l = layout_of(items@[i as int], acc.x, acc.y)->Some_0;
            assert(stack_fold(items@, (i + 1) as nat, f) == stack_step(acc, l, f));
            assert(r.w == l.w && r.h == l.h);
            assert(views(out@) == base + (acc.placed + l.placed)) by {
                assert(before + l.placed == base + (acc.placed + l.placed));
            }
            if vertical {
                if r.w > w {
                    w = r.w;
                }
                let t = match r.h.checked_add(spacing) {
                    Some(v) => v,
                    None => {
                        proof {
                            lemma_fold_none(items@, (i + 1) as nat, items@.len(), f);
                        }
                        return Err(LayoutError::Overflow);
                    },
                };
                let grown = match h.checked_add(t) {
                    Some(v) => v,
                    None => {
                        proof {
                            lemma_fold_none(items@, (i + 1) as nat, items@.len(), f);
                        }
                        return Err(LayoutError::Overflow);
                    },
                };
                h = grown;
                self.offset.top = match init_y.checked_add(h) {
                    Some(v) => v,
                    None => {
                        proof {
                            lemma_fold_none(items@, (i + 1) as nat, items@.len(), f);
                        }
                        return Err(LayoutError::Overflow);
                    },
                };
            } else {
                if r.h > h {
                    h = r.h;
                }
                let t = match r.w.checked_add(spacing) {
                    Some(v) => v,
                    None => {
                        proof {
                            lemma_fold_none(items@, (i + 1) as nat, items@.len(), f);
                        }
                        return Err(LayoutError::Overflow);
                    },
                };
                let grown = match w.checked_add(t) {
                    Some(v) => v,
                    None => {
                        proof {
                            lemma_fold_none(items@, (i + 1) as nat, items@.len(), f);
                        }
                        return Err(LayoutError::Overflow);
                    },
                };
                w = grown;
                self.offset.left = match init_x.checked_add(w) {
                    Some(v) => v,
                    None => {
                        proof {
                            lemma_fold_none(items@, (i + 1) as nat, items@.len(), f);
                        }
                        return Err(LayoutError::Overflow);
                    },
                };
            }
            i = i + 1;
        }
        let (w0, h0) = if vertical {
            match h.checked_sub(spacing) {
                Some(v) => (w, v),
                None => return Err(LayoutError::Overflow),
            }
        } else {
            match w.checked_sub(spacing) {
                Some(v) => (v, h),
                None => return Err(LayoutError::Overflow),
            }
        };
        let pw = match padding.left.checked_add(padding.right) {
            Some(v) => v,
            None => return Err(LayoutError::Overflow),
        };
        let w = match w0.checked_add(pw) {
            Some(v) => v,
            None => return Err(LayoutError::Overflow),
        };
        let ph = match padding.top.checked_add(padding.bottom) {
            Some(v) => v,
            None => return Err(LayoutError::Overflow),
        };
        let h = match h0.checked_add(ph) {
            Some(v) => v,
            None => return Err(LayoutError::Overflow),
        };
        self.offset.left = init_x;
        self.offset.top = init_y;
        Ok(Rect { w, h })
    }
}

} // verus!
