//! Layout primitives: integer rectangles with saturating arithmetic, sizing
//! constraints, and a solver that partitions a rectangle along one axis.

use vstd::prelude::*;

verus! {

/// Saturating addition of two `u16` values, as a spec-level function.
pub open spec fn sat_add16(a: u16, b: u16) -> u16 {
    if a + b > 0xFFFF {
        0xFFFFu16
    } else {
        (a + b) as u16
    }
}

/// Saturating subtraction of two `u16` values, as a spec-level function.
pub open spec fn sat_sub16(a: u16, b: u16) -> u16 {
    if a < b {
        0u16
    } else {
        (a - b) as u16
    }
}

/// An axis-aligned rectangle: origin at the top-left, sizes in cells.
///
/// All arithmetic on rectangles saturates; coordinates never wrap.
#[derive(Debug, Clone, Copy, PartialEq, Eq, Structural, Hash)]
pub struct Rect {
    /// X coordinate of the top-left corner
    pub x: u16,
    /// Y coordinate of the top-left corner
    pub y: u16,
    /// Width of the rectangle
    pub width: u16,
    /// Height of the rectangle
    pub height: u16,
}

impl Default for Rect {
    /// The default rectangle sits at the origin with zero size.
    fn default() -> (r: Self)
        ensures
            r == (Rect { x: 0u16, y: 0u16, width: 0u16, height: 0u16 }),
    {
        Rect { x: 0, y: 0, width: 0, height: 0 }
    }
}

/// What `Rect::inner` returns: the rectangle shrunk by `margin` on each
/// side, or the zero rectangle when a dimension cannot give up two margins.
pub open spec fn rect_inner_spec(r: Rect, margin: u16) -> Rect {
    let dm = if margin * 2 > 0xFFFF {
        0xFFFFu16
    } else {
        (margin * 2) as u16
    };
    if r.width < dm || r.height < dm {
        Rect { x: 0u16, y: 0u16, width: 0u16, height: 0u16 }
    } else {
        Rect {
            x: sat_add16(r.x, margin),
            y: sat_add16(r.y, margin),
            width: (r.width - dm) as u16,
            height: (r.height - dm) as u16,
        }
    }
}

impl Rect {
    /// Creates a rectangle from its origin and sizes.
    #[inline]
    pub fn new(x: u16, y: u16, width: u16, height: u16) -> (r: Self)
        ensures
            r == (Rect { x, y, width, height }),
    {
        Self { x, y, width, height }
    }

    /// The area in cells, saturating at `u16::MAX`.
    #[inline]
    pub fn area(self) -> (a: u16)
        ensures
            a == if self.width * self.height > 0xFFFF {
                0xFFFFu16
            } else {
                (self.width * self.height) as u16
            },
    {
        proof {
            assert((self.width as int) * (self.height as int) < 0x1_0000_0000) by (nonlinear_arith)
                requires
                    self.width <= 0xFFFF,
                    self.height <= 0xFFFF,
            ;
        }
        let p: u32 = (self.width as u32) * (self.height as u32);
        if p > 0xFFFF {
            0xFFFF
        } else {
            p as u16
        }
    }

    /// The X coordinate of the left edge.
    #[inline]
    pub fn left(self) -> (r: u16)
        ensures
            r == self.x,
    {
        self.x
    }

    /// The X coordinate one past the right edge, saturating.
    #[inline]
    pub fn right(self) -> (r: u16)
        ensures
            r == sat_add16(self.x, self.width),
    {
        self.x.saturating_add(self.width)
    }

    /// The Y coordinate of the top edge.
    #[inline]
    pub fn top(self) -> (r: u16)
        ensures
            r == self.y,
    {
        self.y
    }

    /// The Y coordinate one past the bottom edge, saturating.
    #[inline]
    pub fn bottom(self) -> (r: u16)
        ensures
            r == sat_add16(self.y, self.height),
    {
        self.y.saturating_add(self.height)
    }

    /// Shrinks the rectangle by `margin` on every side; the zero rectangle
    /// results when either dimension is smaller than twice the margin.
    pub fn inner(self, margin: u16) -> (r: Self)
        ensures
            r == rect_inner_spec(self, margin),
    {
        let doubled_margin: u16 = if margin > 0x7FFF {
            0xFFFF
        } else {
            margin * 2
        };
        if self.width < doubled_margin || self.height < doubled_margin {
            Rect { x: 0, y: 0, width: 0, height: 0 }
        } else {
            Self {
                x: self.x.saturating_add(margin),
                y: self.y.saturating_add(margin),
                width: self.width - doubled_margin,
                height: self.height - doubled_margin,
            }
        }
    }

    /// The intersection of two rectangles (empty when they do not overlap).
    pub fn intersection(self, other: Self) -> (r: Self)
        ensures
            r.x == if self.x > other.x { self.x } else { other.x },
            r.y == if self.y > other.y { self.y } else { other.y },
            r.width == sat_sub16(
                if sat_add16(self.x, self.width) < sat_add16(other.x, other.width) {
                    sat_add16(self.x, self.width)
                } else {
                    sat_add16(other.x, other.width)
                },
                r.x,
            ),
            r.height == sat_sub16(
                if sat_add16(self.y, self.height) < sat_add16(other.y, other.height) {
                    sat_add16(self.y, self.height)
                } else {
                    sat_add16(other.y, other.height)
                },
                r.y,
            ),
    {
        let x1 = if self.x > other.x {
            self.x
        } else {
            other.x
        };
        let y1 = if self.y > other.y {
            self.y
        } else {
            other.y
        };
        let sr = self.right();
        let or = other.right();
        let x2 = if sr < or {
            sr
        } else {
            or
        };
        let sb = self.bottom();
        let ob = other.bottom();
        let y2 = if sb < ob {
            sb
        } else {
            ob
        };
        Self { x: x1, y: y1, width: x2.saturating_sub(x1), height: y2.saturating_sub(y1) }
    }

    /// The smallest rectangle covering both rectangles.
    pub fn union(self, other: Self) -> (r: Self)
        ensures
            r.x == if self.x < other.x { self.x } else { other.x },
            r.y == if self.y < other.y { self.y } else { other.y },
            r.width == sat_sub16(
                if sat_add16(self.x, self.width) > sat_add16(other.x, other.width) {
                    sat_add16(self.x, self.width)
                } else {
                    sat_add16(other.x, other.width)
                },
                r.x,
            ),
            r.height == sat_sub16(
                if sat_add16(self.y, self.height) > sat_add16(other.y, other.height) {
                    sat_add16(self.y, self.height)
                } else {
                    sat_add16(other.y, other.height)
                },
                r.y,
            ),
    {
        let x1 = if self.x < other.x {
            self.x
        } else {
            other.x
        };
        let y1 = if self.y < other.y {
            self.y
        } else {
            other.y
        };
        let sr = self.right();
        let or = other.right();
        let x2 = if sr > or {
            sr
        } else {
            or
        };
        let sb = self.bottom();
        let ob = other.bottom();
        let y2 = if sb > ob {
            sb
        } else {
            ob
        };
        Self { x: x1, y: y1, width: x2.saturating_sub(x1), height: y2.saturating_sub(y1) }
    }

    /// Whether the point `(x, y)` lies inside the rectangle; the right and
    /// bottom edges are one past the end.
    #[inline]
    pub fn contains(self, x: u16, y: u16) -> (r: bool)
        ensures
            r == (self.x <= x && x < sat_add16(self.x, self.width) && self.y <= y && y < sat_add16(
                self.y,
                self.height,
            )),
    {
        x >= self.left() && x < self.right() && y >= self.top() && y < self.bottom()
    }

    /// Whether the two rectangles overlap in at least one cell.
    #[inline]
    pub fn intersects(self, other: Self) -> (r: bool)
        ensures
            r == (self.x < sat_add16(other.x, other.width) && sat_add16(self.x, self.width)
                > other.x && self.y < sat_add16(other.y, other.height) && sat_add16(
                self.y,
                self.height,
            ) > other.y),
    {
        self.x < other.right() && self.right() > other.x && self.y < other.bottom()
            && self.bottom() > other.y
    }
}

/// Saturating subtraction of two `usize` values, as a spec-level
/// function.
pub open spec fn sat_sub_usize(a: usize, b: usize) -> usize {
    if a < b {
        0usize
    } else {
        (a - b) as usize
    }
}

/// Whether the point `(x, y)` lies inside `r`, with the same half-open,
/// saturating edges as [`Rect::contains`].
pub open spec fn rect_covers(r: Rect, x: int, y: int) -> bool {
    r.x <= x < sat_add16(r.x, r.width) && r.y <= y < sat_add16(r.y, r.height)
}

/// A sizing request for one slot of a layout.
#[derive(Debug, Clone, Copy, PartialEq, Eq, Structural, Hash)]
pub enum Constraint {
    /// A fixed number of cells (never more than the space that is left)
    Length(u16),
    /// A percentage of the whole main-axis size, clamped to 100
    Percentage(u16),
    /// A numerator/denominator share of the whole main-axis size
    Ratio(u32, u32),
    /// At least this many cells
    Min(u16),
    /// At most this many cells
    Max(u16),
    /// An equal share of whatever space the other constraints leave
    Fill(u16),
}

/// What `Constraint::apply` computes for a given available length.
///
/// `Ratio` mirrors machine arithmetic: the product is reduced modulo `2^32`
/// and the quotient modulo `2^16`, which only matters for degenerate ratios.
pub open spec fn apply_spec(c: Constraint, length: u16) -> u16 {
    match c {
        Constraint::Length(l) => if length < l {
            length
        } else {
            l
        },
        Constraint::Percentage(p) => {
            let pc = if p < 100 {
                p
            } else {
                100u16
            };
            ((length * pc) / 100) as u16
        },
        Constraint::Ratio(n, d) => if d == 0 {
            0u16
        } else {
            ((((length * n) % 0x1_0000_0000) / (d as int)) % 0x10000) as u16
        },
        Constraint::Min(m) => if length > m {
            length
        } else {
            m
        },
        Constraint::Max(m) => if length < m {
            length
        } else {
            m
        },
        Constraint::Fill(_) => length,
    }
}

impl Constraint {
    /// Resolves the constraint against `length` available cells.
    pub fn apply(&self, length: u16) -> (r: u16)
        ensures
            r == apply_spec(*self, length),
    {
        match *self {
            Constraint::Length(l) => if length < l {
                length
            } else {
                l
            },
            Constraint::Percentage(p) => {
                let pc: u16 = if p < 100 {
                    p
                } else {
                    100
                };
                proof {
                    assert((length as int) * (pc as int) <= 0xFFFF * 100) by (nonlinear_arith)
                        requires
                            length <= 0xFFFF,
                            pc <= 100,
                    ;
                }
                let prod: u32 = (length as u32) * (pc as u32);
                assert(prod / 100 <= length as u32) by (nonlinear_arith)
                    requires
                        prod == length * pc,
                        pc <= 100,
                ;
                (prod / 100) as u16
            },
            Constraint::Ratio(n, d) => {
                if d == 0 {
                    0
                } else {
                    proof {
                        assert((length as int) * (n as int) <= 0xFFFF * 0xFFFF_FFFF)
                            by (nonlinear_arith)
                            requires
                                length <= 0xFFFF,
                                n <= 0xFFFF_FFFF,
                        ;
                    }
                    let prod: u64 = (length as u64) * (n as u64);
                    let wrapped: u64 = prod % 0x1_0000_0000;
                    let q: u64 = wrapped / (d as u64);
                    (q % 0x10000) as u16
                }
            },
            Constraint::Min(m) => if length > m {
                length
            } else {
                m
            },
            Constraint::Max(m) => if length < m {
                length
            } else {
                m
            },
            Constraint::Fill(_) => length,
        }
    }
}

/// The axis along which a layout splits its area.
#[derive(Debug, Clone, Copy, PartialEq, Eq, Structural, Hash)]
pub enum Direction {
    /// Split left to right
    Horizontal,
    /// Split top to bottom
    Vertical,
}

/// A layout: a direction, a margin, and an ordered list of constraints.
///
/// `split` partitions a rectangle into one sub-rectangle per constraint.
#[derive(Debug, Clone, PartialEq, Eq, Hash)]
pub struct Layout {
    /// The axis along which the area is split
    pub direction: Direction,
    /// A margin taken off every side before splitting
    pub margin: u16,
    /// The sizing requests, one per output rectangle
    pub constraints: Vec<Constraint>,
}

/// The size the first solver pass gives one constraint: `Percentage` and
/// `Ratio` read the whole main-axis size, `Fill` is deferred, everything
/// else reads the running remainder.
pub open spec fn p1_step_size(c: Constraint, main: u16, remaining: u16) -> u16 {
    if c is Fill {
        0u16
    } else if c is Percentage || c is Ratio {
        apply_spec(c, main)
    } else {
        apply_spec(c, remaining)
    }
}

/// The space left after the first pass has handled one constraint.
pub open spec fn p1_step_rem(c: Constraint, main: u16, remaining: u16) -> u16 {
    if c is Fill {
        remaining
    } else {
        sat_sub16(remaining, p1_step_size(c, main, remaining))
    }
}

/// First-pass sizes of a constraint list, threading the remaining budget.
pub open spec fn p1_sizes(cs: Seq<Constraint>, main: u16, remaining: u16) -> Seq<u16>
    decreases cs.len(),
{
    if cs.len() <= 0 {
        Seq::empty()
    } else {
        seq![p1_step_size(cs[0], main, remaining)] + p1_sizes(
            cs.drop_first(),
            main,
            p1_step_rem(cs[0], main, remaining),
        )
    }
}

/// The budget left once the first pass has run over the whole list.
pub open spec fn p1_rem(cs: Seq<Constraint>, main: u16, remaining: u16) -> u16
    decreases cs.len(),
{
    if cs.len() <= 0 {
        remaining
    } else {
        p1_rem(cs.drop_first(), main, p1_step_rem(cs[0], main, remaining))
    }
}

/// How many `Fill` constraints a list holds.
pub open spec fn fill_count(cs: Seq<Constraint>) -> nat
    decreases cs.len(),
{
    if cs.len() <= 0 {
        0nat
    } else {
        (if cs[0] is Fill {
            1nat
        } else {
            0nat
        }) + fill_count(cs.drop_first())
    }
}

/// The size of slot `i` after the second pass: `Fill` slots share the
/// leftover space evenly, the first `leftover % count` of them one cell more.
pub open spec fn p2_size(cs: Seq<Constraint>, main: u16, i: int) -> int {
    if cs[i] is Fill {
        let rem = p1_rem(cs, main, main) as nat;
        let n = fill_count(cs);
        rem / n + if fill_count(cs.take(i)) < rem % n {
            1int
        } else {
            0int
        }
    } else {
        p1_sizes(cs, main, main)[i] as int
    }
}

/// The size of slot `i` after the third pass re-clamps `Min` and `Max`.
pub open spec fn solved_size(cs: Seq<Constraint>, main: u16, i: int) -> int {
    let s = p2_size(cs, main, i);
    match cs[i] {
        Constraint::Min(m) => if s < m {
            m as int
        } else {
            s
        },
        Constraint::Max(m) => if s > m {
            m as int
        } else {
            s
        },
        _ => s,
    }
}

/// `solved_size` always fits in a `u16`.
pub proof fn lemma_solved_size_range(cs: Seq<Constraint>, main: u16, i: int)
    requires
        0 <= i < cs.len(),
    ensures
        0 <= solved_size(cs, main, i) < 0x10000,
{
    lemma_p1_sizes_len(cs, main, main);
    if cs[i] is Fill {
        let rem = p1_rem(cs, main, main) as nat;
        let n = fill_count(cs);
        lemma_fill_count_positive(cs, i);
        assert(rem / n <= rem) by (nonlinear_arith)
            requires
                n >= 1,
        ;
        if fill_count(cs.take(i)) < rem % n {
            assert(rem % n >= 1);
            assert(n >= 2) by {
                if n == 1 {
                    assert(rem % 1nat == 0nat) by (nonlinear_arith);
                }
            }
            assert(rem / n <= rem / 2) by (nonlinear_arith)
                requires
                    n >= 2,
            ;
        }
    }
}

/// A slot of a list with a `Fill` at index `i` has at least one `Fill`.
pub proof fn lemma_fill_count_positive(cs: Seq<Constraint>, i: int)
    requires
        0 <= i < cs.len(),
        cs[i] is Fill,
    ensures
        fill_count(cs) >= 1,
    decreases cs.len(),
{
    if i == 0 {
    } else {
        lemma_fill_count_positive(cs.drop_first(), i - 1);
    }
}

/// `p1_sizes` yields one size per constraint.
pub proof fn lemma_p1_sizes_len(cs: Seq<Constraint>, main: u16, remaining: u16)
    ensures
        p1_sizes(cs, main, remaining).len() == cs.len(),
    decreases cs.len(),
{
    if cs.len() > 0 {
        lemma_p1_sizes_len(cs.drop_first(), main, p1_step_rem(cs[0], main, remaining));
    }
}

/// The final size of slot `i`, as the `u16` it provably fits in.
pub open spec fn solved_u16(cs: Seq<Constraint>, main: u16, i: int) -> u16 {
    solved_size(cs, main, i) as u16
}

/// The main-axis offset of slot `i`: the saturating sum of all earlier sizes.
pub open spec fn offset_prefix(cs: Seq<Constraint>, main: u16, i: int) -> u16
    decreases i,
{
    if i <= 0 {
        0u16
    } else {
        sat_add16(offset_prefix(cs, main, i - 1), solved_u16(cs, main, i - 1))
    }
}

/// Everything `Layout::split` returns, as one spec-level function of the
/// layout and the area: margin first, then the three solver passes, then
/// one rectangle per constraint laid out along the direction's axis.
pub open spec fn split_spec(l: Layout, area: Rect) -> Seq<Rect> {
    let inner = rect_inner_spec(area, l.margin);
    let cs = l.constraints@;
    let main = if l.direction is Horizontal {
        inner.width
    } else {
        inner.height
    };
    let cross = if l.direction is Horizontal {
        inner.height
    } else {
        inner.width
    };
    if cs.len() == 0 {
        seq![inner]
    } else {
        Seq::new(
            cs.len(),
            |i: int|
                {
                    let size = solved_u16(cs, main, i);
                    let off = offset_prefix(cs, main, i);
                    if l.direction is Horizontal {
                        Rect { x: sat_add16(inner.x, off), y: inner.y, width: size, height: cross }
                    } else {
                        Rect { x: inner.x, y: sat_add16(inner.y, off), width: cross, height: size }
                    }
                },
        )
    }
}

/// Appending a constraint extends the first pass by one step on the final
/// remainder.
proof fn lemma_p1_push(cs: Seq<Constraint>, c: Constraint, main: u16, remaining: u16)
    ensures
        p1_sizes(cs.push(c), main, remaining) == p1_sizes(cs, main, remaining).push(
            p1_step_size(c, main, p1_rem(cs, main, remaining)),
        ),
        p1_rem(cs.push(c), main, remaining) == p1_step_rem(c, main, p1_rem(cs, main, remaining)),
    decreases cs.len(),
{
    if cs.len() == 0 {
        let single = cs.push(c);
        assert(single[0] == c);
        assert(single.drop_first() =~= Seq::<Constraint>::empty());
        assert(p1_sizes(single.drop_first(), main, p1_step_rem(c, main, remaining))
            =~= Seq::<u16>::empty());
        assert(p1_rem(single.drop_first(), main, p1_step_rem(c, main, remaining)) == p1_step_rem(
            c,
            main,
            remaining,
        ));
        assert(p1_sizes(cs, main, remaining) =~= Seq::<u16>::empty());
        assert(p1_rem(cs, main, remaining) == remaining);
        assert(p1_sizes(single, main, remaining) =~= p1_sizes(cs, main, remaining).push(
            p1_step_size(c, main, p1_rem(cs, main, remaining)),
        ));
    } else {
        let h = cs[0];
        let rem1 = p1_step_rem(h, main, remaining);
        assert(cs.push(c).drop_first() =~= cs.drop_first().push(c));
        assert(cs.push(c)[0] == h);
        lemma_p1_push(cs.drop_first(), c, main, rem1);
        assert(p1_sizes(cs.push(c), main, remaining) =~= seq![p1_step_size(h, main, remaining)]
            + p1_sizes(cs.drop_first().push(c), main, rem1));
        assert(p1_sizes(cs, main, remaining) =~= seq![p1_step_size(h, main, remaining)]
            + p1_sizes(cs.drop_first(), main, rem1));
        assert(p1_rem(cs.push(c), main, remaining) == p1_rem(
            cs.drop_first().push(c),
            main,
            rem1,
        ));
        assert(p1_rem(cs, main, remaining) == p1_rem(cs.drop_first(), main, rem1));
        assert(p1_sizes(cs.push(c), main, remaining) =~= p1_sizes(cs, main, remaining).push(
            p1_step_size(c, main, p1_rem(cs, main, remaining)),
        ));
    }
}

/// Appending a constraint adds one to the fill count exactly when it fills.
proof fn lemma_fill_count_push(cs: Seq<Constraint>, c: Constraint)
    ensures
        fill_count(cs.push(c)) == fill_count(cs) + (if c is Fill {
            1nat
        } else {
            0nat
        }),
    decreases cs.len(),
{
    if cs.len() == 0 {
        let single = cs.push(c);
        assert(single[0] == c);
        assert(single.drop_first() =~= Seq::<Constraint>::empty());
        assert(fill_count(single.drop_first()) == 0nat);
        assert(fill_count(cs) == 0nat);
    } else {
        assert(cs.push(c).drop_first() =~= cs.drop_first().push(c));
        assert(cs.push(c)[0] == cs[0]);
        lemma_fill_count_push(cs.drop_first(), c);
    }
}

impl Default for Layout {
    /// The default layout splits vertically, with no margin and no
    /// constraints.
    fn default() -> (l: Self)
        ensures
            l.direction == Direction::Vertical,
            l.margin == 0,
            l.constraints@.len() == 0,
    {
        Self { direction: Direction::Vertical, margin: 0, constraints: Vec::new() }
    }
}

impl Layout {
    /// Creates the default layout.
    pub fn new() -> (l: Self)
        ensures
            l.direction == Direction::Vertical,
            l.margin == 0,
            l.constraints@.len() == 0,
    {
        Self::default()
    }

    /// Returns the layout with the split direction set.
    pub fn direction(self, direction: Direction) -> (l: Self)
        ensures
            l.direction == direction,
            l.margin == self.margin,
            l.constraints == self.constraints,
    {
        Self { direction, ..self }
    }

    /// Returns the layout with the margin set.
    pub fn margin(self, margin: u16) -> (l: Self)
        ensures
            l.direction == self.direction,
            l.margin == margin,
            l.constraints == self.constraints,
    {
        Self { margin, ..self }
    }

    /// Returns the layout with the constraint list replaced.
    pub fn constraints(self, constraints: &[Constraint]) -> (l: Self)
        ensures
            l.direction == self.direction,
            l.margin == self.margin,
            l.constraints@ == constraints@,
    {
        let mut v: Vec<Constraint> = Vec::new();
        let mut i: usize = 0;
        while i < constraints.len()
            invariant
                i <= constraints@.len(),
                v@ == constraints@.take(i as int),
            decreases constraints@.len() - i,
        {
            v.push(constraints[i]);
            assert(constraints@.take(i + 1 as int) =~= constraints@.take(i as int).push(
                constraints@[i as int],
            ));
            i = i + 1;
        }
        assert(v@ =~= constraints@);
        Self { constraints: v, ..self }
    }

    /// Splits `area` according to the layout: the margin is applied first,
    /// then every constraint is resolved in three passes, and one rectangle
    /// per constraint is laid out along the chosen axis. With no constraints
    /// the single margin-shrunk area is returned.
    pub fn split(&self, area: Rect) -> (r: Vec<Rect>)
        ensures
            r@ == split_spec(*self, area),
    {
        let inner_area = area.inner(self.margin);

        if self.constraints.len() == 0 {
            let mut res: Vec<Rect> = Vec::new();
            res.push(inner_area);
            assert(res@ =~= split_spec(*self, area));
            return res;
        }
        let ghost cs = self.constraints@;

        let (main_axis_size, cross_axis_size) = match self.direction {
            Direction::Horizontal => (inner_area.width, inner_area.height),
            Direction::Vertical => (inner_area.height, inner_area.width),
        };
        let ghost main = main_axis_size;

        // First pass: resolve everything except the Fill constraints.
        let n = self.constraints.len();
        let mut sizes: Vec<u16> = Vec::new();
        let mut remaining: u16 = main_axis_size;
        let mut fill_cnt: usize = 0;
        let mut i: usize = 0;
        while i < n
            invariant
                n == cs.len(),
                i <= n,
                sizes@ == p1_sizes(cs.take(i as int), main, main),
                remaining == p1_rem(cs.take(i as int), main, main),
                fill_cnt == fill_count(cs.take(i as int)),
                fill_cnt <= i,
                main == main_axis_size,
                self.constraints@ == cs,
            decreases n - i,
        {
            let c = self.constraints[i];
            proof {
                assert(cs.take(i + 1 as int) =~= cs.take(i as int).push(cs[i as int]));
                lemma_p1_push(cs.take(i as int), cs[i as int], main, main);
                lemma_fill_count_push(cs.take(i as int), cs[i as int]);
                lemma_p1_sizes_len(cs.take(i as int), main, main);
            }
            match c {
                Constraint::Fill(_) => {
                    sizes.push(0);
                    fill_cnt = fill_cnt + 1;
                },
                Constraint::Percentage(_) | Constraint::Ratio(_, _) => {
                    let size = c.apply(main_axis_size);
                    sizes.push(size);
                    remaining = remaining.saturating_sub(size);
                },
                _ => {
                    let size = c.apply(remaining);
                    sizes.push(size);
                    remaining = remaining.saturating_sub(size);
                },
            }
            i = i + 1;
        }
        proof {
            assert(cs.take(n as int) =~= cs);
            lemma_p1_sizes_len(cs, main, main);
        }

        // Second pass: share the leftover space among the Fill constraints;
        // the first `remaining % fill_cnt` of them get one extra cell.
        if fill_cnt > 0 {
            let fill_size: usize = (remaining as usize) / fill_cnt;
            let fill_remainder: usize = (remaining as usize) % fill_cnt;
            proof {
                assert(fill_remainder <= remaining && fill_size <= remaining)
                    by (nonlinear_arith)
                    requires
                        fill_cnt >= 1,
                        fill_size == (remaining as nat) / (fill_cnt as nat),
                        fill_remainder == (remaining as nat) % (fill_cnt as nat),
                ;
            }
            let mut remainder_distributed: usize = 0;
            let mut j: usize = 0;
            while j < n
                invariant
                    n == cs.len(),
                    j <= n,
                    sizes@.len() == n,
                    fill_cnt == fill_count(cs),
                    fill_cnt > 0,
                    remaining == p1_rem(cs, main, main),
                    fill_size == (remaining as nat) / (fill_cnt as nat),
                    fill_remainder == (remaining as nat) % (fill_cnt as nat),
                    fill_remainder <= 0xFFFF,
                    fill_size <= 0xFFFF,
                    remainder_distributed == if fill_count(cs.take(j as int)) < fill_remainder {
                        fill_count(cs.take(j as int))
                    } else {
                        fill_remainder as nat
                    },
                    forall|k: int| 0 <= k < j ==> sizes@[k] as int == p2_size(cs, main, k),
                    forall|k: int|
                        j <= k < n ==> sizes@[k] == p1_sizes(cs, main, main)[k],
                    self.constraints@ == cs,
                decreases n - j,
            {
                let c = self.constraints[j];
                proof {
                    assert(cs.take(j + 1 as int) =~= cs.take(j as int).push(cs[j as int]));
                    lemma_fill_count_push(cs.take(j as int), cs[j as int]);
                }
                if let Constraint::Fill(_) = c {
                    proof {
                        lemma_fill_count_take_le(cs, j as int);
                        if fill_count(cs.take(j as int)) < fill_remainder {
                            assert((remaining as nat) % (fill_cnt as nat) < fill_cnt as nat)
                                by (nonlinear_arith)
                                requires
                                    fill_cnt > 0,
                            ;
                            assert(fill_size + 1 <= 0xFFFF) by {
                                assert(fill_cnt >= 2) by {
                                    if fill_cnt == 1 {
                                        assert((remaining as nat) % 1nat == 0nat)
                                            by (nonlinear_arith);
                                    }
                                }
                                assert((remaining as nat) / (fill_cnt as nat) <= (remaining as nat)
                                    / 2) by (nonlinear_arith)
                                    requires
                                        fill_cnt >= 2,
                                ;
                            }
                        }
                        assert(fill_size <= remaining) by (nonlinear_arith)
                            requires
                                fill_size == (remaining as nat) / (fill_cnt as nat),
                                fill_cnt >= 1,
                        ;
                    }
                    let mut v: u16 = fill_size as u16;
                    if remainder_distributed < fill_remainder {
                        v = v + 1;
                        remainder_distributed = remainder_distributed + 1;
                    }
                    sizes.set(j, v);
                }
                j = j + 1;
            }
        }

        // Third pass: re-clamp Min and Max constraints.
        let ghost sizes2 = sizes@;
        proof {
            assert forall|m: int| 0 <= m < n implies sizes2[m] as int == p2_size(
                cs,
                main,
                m,
            ) by {
                if fill_count(cs) == 0 {
                    lemma_no_fill_at(cs, m);
                }
            }
        }
        let mut k: usize = 0;
        while k < n
            invariant
                n == cs.len(),
                k <= n,
                sizes@.len() == n,
                sizes2.len() == n,
                forall|m: int| 0 <= m < n ==> sizes2[m] as int == p2_size(cs, main, m),
                forall|m: int| 0 <= m < k ==> sizes@[m] == solved_after_p2(cs, sizes2[m] as int, m),
                forall|m: int| k <= m < n ==> sizes@[m] == sizes2[m],
                self.constraints@ == cs,
            decreases n - k,
        {
            let c = self.constraints[k];
            match c {
                Constraint::Min(min) => {
                    if sizes[k] < min {
                        sizes.set(k, min);
                    }
                },
                Constraint::Max(max) => {
                    if sizes[k] > max {
                        sizes.set(k, max);
                    }
                },
                _ => {},
            }
            k = k + 1;
        }

        proof {
            assert forall|m: int| 0 <= m < n implies sizes@[m] as int == solved_size(
                cs,
                main,
                m,
            ) by {
                assert(sizes@[m] == solved_after_p2(cs, sizes2[m] as int, m));
            }
        }

        // Build one rectangle per slot, walking the main axis.
        let mut results: Vec<Rect> = Vec::new();
        let mut offset: u16 = 0;
        let mut t: usize = 0;
        while t < n
            invariant
                n == cs.len(),
                t <= n,
                sizes@.len() == n,
                forall|m: int| 0 <= m < n ==> sizes@[m] as int == solved_size(cs, main, m),
                offset == offset_prefix(cs, main, t as int),
                results@.len() == t,
                forall|m: int| 0 <= m < t ==> results@[m] == split_spec(*self, area)[m],
                self.constraints@ == cs,
                main == if self.direction is Horizontal {
                    inner_area.width
                } else {
                    inner_area.height
                },
                cross_axis_size == if self.direction is Horizontal {
                    inner_area.height
                } else {
                    inner_area.width
                },
                inner_area == rect_inner_spec(area, self.margin),
            decreases n - t,
        {
            let size = sizes[t];
            proof {
                lemma_solved_size_range(cs, main, t as int);
            }
            let rect = match self.direction {
                Direction::Horizontal => Rect {
                    x: inner_area.x.saturating_add(offset),
                    y: inner_area.y,
                    width: size,
                    height: cross_axis_size,
                },
                Direction::Vertical => Rect {
                    x: inner_area.x,
                    y: inner_area.y.saturating_add(offset),
                    width: cross_axis_size,
                    height: size,
                },
            };
            results.push(rect);
            offset = offset.saturating_add(size);
            t = t + 1;
        }
        proof {
            assert(results@ =~= split_spec(*self, area));
        }
        results
    }
}

/// The third pass applied to one already-second-passed size.
pub open spec fn solved_after_p2(cs: Seq<Constraint>, s: int, i: int) -> int {
    match cs[i] {
        Constraint::Min(m) => if s < m {
            m as int
        } else {
            s
        },
        Constraint::Max(m) => if s > m {
            m as int
        } else {
            s
        },
        _ => s,
    }
}

/// A prefix never holds more fills than the whole list.
proof fn lemma_fill_count_take_le(cs: Seq<Constraint>, i: int)
    requires
        0 <= i <= cs.len(),
    ensures
        fill_count(cs.take(i)) <= fill_count(cs),
    decreases i,
{
    if i > 0 {
        lemma_fill_count_take_le(cs, i - 1);
        assert(cs.take(i) =~= cs.take(i - 1).push(cs[i - 1]));
        lemma_fill_count_push(cs.take(i - 1), cs[i - 1]);
        lemma_fill_count_mono(cs, i);
    }
}

/// `fill_count` of a prefix grows by steps toward the whole list's count.
proof fn lemma_fill_count_mono(cs: Seq<Constraint>, i: int)
    requires
        0 <= i <= cs.len(),
    ensures
        fill_count(cs.take(i)) + fill_count(cs.skip(i)) == fill_count(cs),
    decreases cs.len() - i,
{
    if i == cs.len() {
        assert(cs.take(i) =~= cs);
        assert(cs.skip(i) =~= Seq::<Constraint>::empty());
    } else {
        lemma_fill_count_mono(cs, i + 1);
        assert(cs.take(i + 1) =~= cs.take(i).push(cs[i]));
        lemma_fill_count_push(cs.take(i), cs[i]);
        assert(cs.skip(i).drop_first() =~= cs.skip(i + 1));
        assert(cs.skip(i)[0] == cs[i]);
    }
}

/// In a list without fills no slot is a `Fill`.
proof fn lemma_no_fill_at(cs: Seq<Constraint>, i: int)
    requires
        0 <= i < cs.len(),
        fill_count(cs) == 0,
    ensures
        !(cs[i] is Fill),
    decreases i,
{
    if i > 0 {
        lemma_no_fill_at(cs.drop_first(), i - 1);
    }
}

/// The length a `Length` constraint asks for (0 for any other kind).
pub open spec fn length_at(cs: Seq<Constraint>, i: int) -> u16 {
    match cs[i] {
        Constraint::Length(v) => v,
        _ => 0u16,
    }
}

/// The sum of the lengths a list of `Length` constraints asks for.
pub open spec fn sum_lengths(cs: Seq<Constraint>) -> int
    decreases cs.len(),
{
    if cs.len() <= 0 {
        0int
    } else {
        length_at(cs, 0) + sum_lengths(cs.drop_first())
    }
}

/// The sum of the heights of a list of rectangles.
pub open spec fn sum_heights(rs: Seq<Rect>) -> int
    decreases rs.len(),
{
    if rs.len() <= 0 {
        0int
    } else {
        rs[0].height + sum_heights(rs.drop_first())
    }
}

proof fn lemma_sum_lengths_nonneg(cs: Seq<Constraint>)
    ensures
        sum_lengths(cs) >= 0,
    decreases cs.len(),
{
    if cs.len() > 0 {
        lemma_sum_lengths_nonneg(cs.drop_first());
    }
}

/// Over a list of `Length` constraints whose sum fits in the budget, the
/// first pass grants every constraint exactly its length and spends
/// exactly their sum.
proof fn lemma_all_length_p1(cs: Seq<Constraint>, main: u16, remaining: u16)
    requires
        forall|i: int| 0 <= i < cs.len() ==> cs[i] is Length,
        sum_lengths(cs) <= remaining,
    ensures
        p1_sizes(cs, main, remaining).len() == cs.len(),
        forall|i: int|
            0 <= i < cs.len() ==> p1_sizes(cs, main, remaining)[i] == length_at(cs, i),
        p1_rem(cs, main, remaining) == remaining - sum_lengths(cs),
        fill_count(cs) == 0,
    decreases cs.len(),
{
    lemma_p1_sizes_len(cs, main, remaining);
    if cs.len() > 0 {
        let v = length_at(cs, 0);
        lemma_sum_lengths_nonneg(cs.drop_first());
        assert(v <= remaining);
        assert(p1_step_size(cs[0], main, remaining) == v);
        assert(p1_step_rem(cs[0], main, remaining) == remaining - v);
        assert(forall|i: int|
            0 <= i < cs.drop_first().len() ==> cs.drop_first()[i] == cs[i + 1]);
        lemma_all_length_p1(cs.drop_first(), main, (remaining - v) as u16);
        assert forall|i: int| 0 <= i < cs.len() implies p1_sizes(cs, main, remaining)[i]
            == length_at(cs, i) by {
            if i > 0 {
                assert(p1_sizes(cs, main, remaining)[i] == p1_sizes(
                    cs.drop_first(),
                    main,
                    (remaining - v) as u16,
                )[i - 1]);
                assert(length_at(cs.drop_first(), i - 1) == length_at(cs, i));
            }
        }
    }
}

proof fn lemma_sum_heights_matches_lengths(rs: Seq<Rect>, cs: Seq<Constraint>)
    requires
        rs.len() == cs.len(),
        forall|i: int| 0 <= i < rs.len() ==> rs[i].height == length_at(cs, i),
    ensures
        sum_heights(rs) == sum_lengths(cs),
    decreases rs.len(),
{
    if rs.len() > 0 {
        assert forall|i: int| 0 <= i < rs.drop_first().len() implies rs.drop_first()[i].height
            == length_at(cs.drop_first(), i) by {
            assert(rs.drop_first()[i] == rs[i + 1]);
            assert(cs.drop_first()[i] == cs[i + 1]);
            assert(rs[i + 1].height == length_at(cs, i + 1));
        }
        lemma_sum_heights_matches_lengths(rs.drop_first(), cs.drop_first());
    }
}

/// Size conservation: a vertical layout without margin, whose constraints
/// are all `Length` and ask together for exactly the area's height, yields
/// one rectangle per constraint with exactly the requested height and the
/// full width, and the output heights sum back to the area's height (an
/// empty constraint list yields the single whole-area rectangle, whose
/// height is the required zero).
pub proof fn lemma_split_length_conservation(l: Layout, area: Rect)
    requires
        l.margin == 0,
        l.direction is Vertical,
        forall|i: int| 0 <= i < l.constraints@.len() ==> l.constraints@[i] is Length,
        sum_lengths(l.constraints@) == area.height,
    ensures
        l.constraints@.len() > 0 ==> split_spec(l, area).len() == l.constraints@.len(),
        l.constraints@.len() == 0 ==> split_spec(l, area).len() == 1,
        forall|i: int|
            0 <= i < l.constraints@.len() ==> split_spec(l, area)[i].width == area.width,
        forall|i: int|
            0 <= i < l.constraints@.len() ==> split_spec(l, area)[i].height == length_at(
                l.constraints@,
                i,
            ),
        sum_heights(split_spec(l, area)) == area.height,
{
    let cs = l.constraints@;
    let inner = rect_inner_spec(area, 0);
    assert(inner == area);
    let main = area.height;
    if cs.len() == 0 {
        assert(split_spec(l, area) == seq![area]);
        assert(seq![area].drop_first() =~= Seq::<Rect>::empty());
        assert(sum_heights(seq![area].drop_first()) == 0);
        assert(sum_heights(split_spec(l, area)) == area.height);
        return ;
    }
    lemma_all_length_p1(cs, main, main);
    assert forall|i: int| 0 <= i < cs.len() implies split_spec(l, area)[i].height == length_at(
        cs,
        i,
    ) && split_spec(l, area)[i].width == area.width by {
        lemma_no_fill_at(cs, i);
        assert(p2_size(cs, main, i) == p1_sizes(cs, main, main)[i] as int);
        assert(solved_size(cs, main, i) == length_at(cs, i) as int);
    }
    lemma_sum_heights_matches_lengths(split_spec(l, area), cs);
}

proof fn lemma_all_fill_rem(cs: Seq<Constraint>, main: u16, remaining: u16)
    requires
        forall|i: int| 0 <= i < cs.len() ==> cs[i] is Fill,
    ensures
        p1_rem(cs, main, remaining) == remaining,
        fill_count(cs) == cs.len(),
    decreases cs.len(),
{
    if cs.len() > 0 {
        assert(forall|i: int|
            0 <= i < cs.drop_first().len() ==> cs.drop_first()[i] == cs[i + 1]);
        lemma_all_fill_rem(cs.drop_first(), main, remaining);
    }
}

proof fn lemma_all_fill_take_count(cs: Seq<Constraint>, i: int)
    requires
        forall|j: int| 0 <= j < cs.len() ==> cs[j] is Fill,
        0 <= i <= cs.len(),
    ensures
        fill_count(cs.take(i)) == i,
    decreases i,
{
    if i > 0 {
        lemma_all_fill_take_count(cs, i - 1);
        assert(cs.take(i) =~= cs.take(i - 1).push(cs[i - 1]));
        lemma_fill_count_push(cs.take(i - 1), cs[i - 1]);
    }
}

proof fn lemma_sum_heights_fair(rs: Seq<Rect>, q: int, r: int)
    requires
        0 <= q,
        0 <= r <= rs.len(),
        forall|i: int|
            0 <= i < rs.len() ==> rs[i].height == q + (if i < r {
                1int
            } else {
                0int
            }),
    ensures
        sum_heights(rs) == rs.len() * q + r,
    decreases rs.len(),
{
    if rs.len() == 0 {
    } else {
        let rest = rs.drop_first();
        let r2 = if r > 0 {
            r - 1
        } else {
            0int
        };
        assert forall|i: int| 0 <= i < rest.len() implies rest[i].height == q + (if i < r2 {
            1int
        } else {
            0int
        }) by {
            assert(rest[i] == rs[i + 1]);
        }
        lemma_sum_heights_fair(rest, q, r2);
        assert(rs[0].height == q + (if 0 < r {
            1int
        } else {
            0int
        }));
        assert(rs.len() * q == rest.len() * q + q) by (nonlinear_arith)
            requires
                rs.len() == rest.len() + 1,
        ;
    }
}

/// Fill fairness: a vertical layout without margin whose constraints are
/// all `Fill` divides the area's height so that the first `height % n`
/// rectangles get one cell more than `height / n` and the rest exactly
/// `height / n`; the heights sum back to the area's height.
pub proof fn lemma_split_fill_fairness(l: Layout, area: Rect)
    requires
        l.margin == 0,
        l.direction is Vertical,
        l.constraints@.len() > 0,
        forall|i: int| 0 <= i < l.constraints@.len() ==> l.constraints@[i] is Fill,
    ensures
        split_spec(l, area).len() == l.constraints@.len(),
        forall|i: int|
            0 <= i < l.constraints@.len() ==> split_spec(l, area)[i].height as int == area.height
                as int / l.constraints@.len() as int + (if i < area.height as int
                % l.constraints@.len() as int {
                1int
            } else {
                0int
            }),
        sum_heights(split_spec(l, area)) == area.height,
{
    let cs = l.constraints@;
    let n = cs.len() as int;
    let inner = rect_inner_spec(area, 0);
    assert(inner == area);
    let main = area.height;
    let q = main as int / n;
    let r = main as int % n;
    lemma_all_fill_rem(cs, main, main);
    assert(0 <= r < n) by (nonlinear_arith)
        requires
            n >= 1,
            r == main as int % n,
    ;
    assert(0 <= q) by (nonlinear_arith)
        requires
            n >= 1,
            q == main as int / n,
    ;
    assert forall|i: int| 0 <= i < n implies split_spec(l, area)[i].height as int == q + (if i
        < r {
        1int
    } else {
        0int
    }) by {
        lemma_all_fill_take_count(cs, i);
        lemma_solved_size_range(cs, main, i);
        assert((main as nat) / (n as nat) == q && (main as nat) % (n as nat) == r);
        assert(p2_size(cs, main, i) == q + (if i < r {
            1int
        } else {
            0int
        }));
    }
    lemma_sum_heights_fair(split_spec(l, area), q, r);
    assert(main as int == n * q + r) by (nonlinear_arith)
        requires
            n >= 1,
            q == main as int / n,
            r == main as int % n,
    ;
}

/// A percentage of at least one hundred claims the whole length.
pub proof fn lemma_percentage_clamp(p: u16, length: u16)
    requires
        p >= 100,
    ensures
        apply_spec(Constraint::Percentage(p), length) == length,
{
    assert((length as int * 100) / 100 == length as int) by (nonlinear_arith);
}

/// A ratio with denominator zero claims nothing.
pub proof fn lemma_ratio_zero_denominator(n: u32, length: u16)
    ensures
        apply_spec(Constraint::Ratio(n, 0), length) == 0,
{
}

} // verus!

