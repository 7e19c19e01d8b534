//! Monitor rectangles and the box that encloses them.

use vstd::prelude::*;

verus! {

/// Width of the box that is used when no monitor is known.
pub const FALLBACK_WIDTH: i64 = 800;

/// Height of the box that is used when no monitor is known.
pub const FALLBACK_HEIGHT: i64 = 600;

/// One monitor: its size in pixels and the position of its top-left corner in
/// the virtual desktop. Positions left of or above the primary monitor are
/// negative.
#[derive(Clone, Copy, Debug, PartialEq, Eq, Structural)]
pub struct MonitorInfo {
    pub width: u32,
    pub height: u32,
    pub x: i32,
    pub y: i32,
}

impl MonitorInfo {
    /// A monitor shows something: both sides are at least one pixel long.
    pub open spec fn wf(&self) -> bool {
        self.width > 0 && self.height > 0
    }

    /// The leftmost column.
    pub open spec fn left(&self) -> int {
        self.x as int
    }

    /// The topmost row.
    pub open spec fn top(&self) -> int {
        self.y as int
    }

    /// The column just past the rightmost one.
    pub open spec fn right(&self) -> int {
        self.x + self.width
    }

    /// The row just past the lowest one.
    pub open spec fn bottom(&self) -> int {
        self.y + self.height
    }
}

/// An axis-aligned rectangle of the virtual desktop, from `(min_x, min_y)`
/// up to but not including `(max_x, max_y)`.
#[derive(Clone, Copy, Debug, PartialEq, Eq, Structural)]
pub struct BoundingBox {
    pub min_x: i64,
    pub min_y: i64,
    pub max_x: i64,
    pub max_y: i64,
}

impl BoundingBox {
    /// The corners are in order.
    pub open spec fn wf(&self) -> bool {
        self.min_x <= self.max_x && self.min_y <= self.max_y
    }

    pub open spec fn spec_target_width(&self) -> int {
        self.max_x - self.min_x
    }

    pub open spec fn spec_target_height(&self) -> int {
        self.max_y - self.min_y
    }

    /// Number of columns of the box.
    pub fn target_width(&self) -> (w: u64)
        requires
            self.wf(),
        ensures
            w == self.spec_target_width(),
    {
        let d: i128 = self.max_x as i128 - self.min_x as i128;
        d as u64
    }

    /// Number of rows of the box.
    pub fn target_height(&self) -> (h: u64)
        requires
            self.wf(),
        ensures
            h == self.spec_target_height(),
    {
        let d: i128 = self.max_y as i128 - self.min_y as i128;
        d as u64
    }
}

/// The least element of a sequence of integers; 0 for the empty sequence.
pub open spec fn seq_min(s: Seq<int>) -> int
    decreases s.len(),
{
    if s.len() == 0 {
        0
    } else if s.len() == 1 {
        s[0]
    } else {
        let rest = seq_min(s.drop_last());
        if s.last() < rest {
            s.last()
        } else {
            rest
        }
    }
}

/// The greatest element of a sequence of integers; 0 for the empty sequence.
pub open spec fn seq_max(s: Seq<int>) -> int
    decreases s.len(),
{
    if s.len() == 0 {
        0
    } else if s.len() == 1 {
        s[0]
    } else {
        let rest = seq_max(s.drop_last());
        if s.last() > rest {
            s.last()
        } else {
            rest
        }
    }
}

/// `seq_min` is a lower bound of the sequence and one of its elements.
pub proof fn lemma_seq_min_is_least(s: Seq<int>)
    requires
        s.len() > 0,
    ensures
        forall|i: int| 0 <= i < s.len() ==> seq_min(s) <= #[trigger] s[i],
        exists|i: int| 0 <= i < s.len() && #[trigger] s[i] == seq_min(s),
    decreases s.len(),
{
    if s.len() == 1 {
        assert(s[0] == seq_min(s));
    } else {
        let front = s.drop_last();
        lemma_seq_min_is_least(front);
        let k = choose|i: int| 0 <= i < front.len() && #[trigger] front[i] == seq_min(front);
        assert(front[k] == s[k]);
        assert(s[s.len() - 1] == s.last());
        assert forall|i: int| 0 <= i < s.len() implies seq_min(s) <= #[trigger] s[i] by {
            if i < front.len() {
                assert(front[i] == s[i]);
            }
        }
        if s.last() < seq_min(front) {
            assert(s[s.len() - 1] == seq_min(s));
        } else {
            assert(s[k] == seq_min(s));
        }
    }
}

/// `seq_max` is an upper bound of the sequence and one of its elements.
pub proof fn lemma_seq_max_is_greatest(s: Seq<int>)
    requires
        s.len() > 0,
    ensures
        forall|i: int| 0 <= i < s.len() ==> seq_max(s) >= #[trigger] s[i],
        exists|i: int| 0 <= i < s.len() && #[trigger] s[i] == seq_max(s),
    decreases s.len(),
{
    if s.len() == 1 {
        assert(s[0] == seq_max(s));
    } else {
        let front = s.drop_last();
        lemma_seq_max_is_greatest(front);
        let k = choose|i: int| 0 <= i < front.len() && #[trigger] front[i] == seq_max(front);
        assert(front[k] == s[k]);
        assert(s[s.len() - 1] == s.last());
        assert forall|i: int| 0 <= i < s.len() implies seq_max(s) >= #[trigger] s[i] by {
            if i < front.len() {
                assert(front[i] == s[i]);
            }
        }
        if s.last() > seq_max(front) {
            assert(s[s.len() - 1] == seq_max(s));
        } else {
            assert(s[k] == seq_max(s));
        }
    }
}

/// The left edges of the monitors, in their order.
pub open spec fn lefts(ms: Seq<MonitorInfo>) -> Seq<int> {
    Seq::new(ms.len(), |i: int| ms[i].left())
}

/// The top edges of the monitors, in their order.
pub open spec fn tops(ms: Seq<MonitorInfo>) -> Seq<int> {
    Seq::new(ms.len(), |i: int| ms[i].top())
}

/// The right edges of the monitors, in their order.
pub open spec fn rights(ms: Seq<MonitorInfo>) -> Seq<int> {
    Seq::new(ms.len(), |i: int| ms[i].right())
}

/// The bottom edges of the monitors, in their order.
pub open spec fn bottoms(ms: Seq<MonitorInfo>) -> Seq<int> {
    Seq::new(ms.len(), |i: int| ms[i].bottom())
}

/// The box that encloses the monitors: from the least left and top edge to
/// the greatest right and bottom edge. Without monitors it is the fallback
/// box at the origin.
pub open spec fn enclosing_box(ms: Seq<MonitorInfo>) -> BoundingBox {
    if ms.len() == 0 {
        BoundingBox { min_x: 0, min_y: 0, max_x: FALLBACK_WIDTH, max_y: FALLBACK_HEIGHT }
    } else {
        BoundingBox {
            min_x: seq_min(lefts(ms)) as i64,
            min_y: seq_min(tops(ms)) as i64,
            max_x: seq_max(rights(ms)) as i64,
            max_y: seq_max(bottoms(ms)) as i64,
        }
    }
}

/// The enclosing box of a non-empty monitor list covers every monitor, each
/// of its four edges is an edge of some monitor, and its corners are in
/// order.
pub proof fn lemma_enclosing_box_is_tight(ms: Seq<MonitorInfo>)
    requires
        ms.len() > 0,
    ensures
        enclosing_box(ms).wf(),
        enclosing_box(ms).min_x == seq_min(lefts(ms)),
        enclosing_box(ms).min_y == seq_min(tops(ms)),
        enclosing_box(ms).max_x == seq_max(rights(ms)),
        enclosing_box(ms).max_y == seq_max(bottoms(ms)),
        forall|i: int|
            0 <= i < ms.len() ==> {
                let m = #[trigger] ms[i];
                &&& enclosing_box(ms).min_x <= m.left()
                &&& enclosing_box(ms).min_y <= m.top()
                &&& m.right() <= enclosing_box(ms).max_x
                &&& m.bottom() <= enclosing_box(ms).max_y
            },
        exists|i: int| 0 <= i < ms.len() && (#[trigger] ms[i]).left() == enclosing_box(ms).min_x,
        exists|i: int| 0 <= i < ms.len() && (#[trigger] ms[i]).top() == enclosing_box(ms).min_y,
        exists|i: int| 0 <= i < ms.len() && (#[trigger] ms[i]).right() == enclosing_box(ms).max_x,
        exists|i: int| 0 <= i < ms.len() && (#[trigger] ms[i]).bottom() == enclosing_box(ms).max_y,
{
    let (l, t, r, b) = (lefts(ms), tops(ms), rights(ms), bottoms(ms));
    lemma_seq_min_is_least(l);
    lemma_seq_min_is_least(t);
    lemma_seq_max_is_greatest(r);
    lemma_seq_max_is_greatest(b);
    let il = choose|i: int| 0 <= i < l.len() && #[trigger] l[i] == seq_min(l);
    let it = choose|i: int| 0 <= i < t.len() && #[trigger] t[i] == seq_min(t);
    let ir = choose|i: int| 0 <= i < r.len() && #[trigger] r[i] == seq_max(r);
    let ib = choose|i: int| 0 <= i < b.len() && #[trigger] b[i] == seq_max(b);
    assert(ms[il].left() == seq_min(l));
    assert(ms[it].top() == seq_min(t));
    assert(ms[ir].right() == seq_max(r));
    assert(ms[ib].bottom() == seq_max(b));
    assert forall|i: int| 0 <= i < ms.len() implies {
        let m = #[trigger] ms[i];
        &&& seq_min(l) <= m.left()
        &&& seq_min(t) <= m.top()
        &&& m.right() <= seq_max(r)
        &&& m.bottom() <= seq_max(b)
    } by {
        assert(l[i] == ms[i].left());
        assert(t[i] == ms[i].top());
        assert(r[i] == ms[i].right());
        assert(b[i] == ms[i].bottom());
    }
    assert(seq_min(l) <= ms[0].left() <= ms[0].right() <= seq_max(r));
    assert(seq_min(t) <= ms[0].top() <= ms[0].bottom() <= seq_max(b));
}

/// For monitors that each show at least one pixel, the enclosing box of a
/// non-empty list is as wide as the distance from the least left edge to the
/// greatest right edge, as high as the distance from the least top edge to
/// the greatest bottom edge, and both are positive.
pub proof fn lemma_target_is_positive(ms: Seq<MonitorInfo>)
    requires
        ms.len() > 0,
        forall|i: int| 0 <= i < ms.len() ==> (#[trigger] ms[i]).wf(),
    ensures
        enclosing_box(ms).spec_target_width() == seq_max(rights(ms)) - seq_min(lefts(ms)),
        enclosing_box(ms).spec_target_height() == seq_max(bottoms(ms)) - seq_min(tops(ms)),
        enclosing_box(ms).spec_target_width() > 0,
        enclosing_box(ms).spec_target_height() > 0,
{
    lemma_enclosing_box_is_tight(ms);
    assert(ms[0].wf());
    assert(ms[0].left() < ms[0].right());
    assert(ms[0].top() < ms[0].bottom());
}

/// The enclosing box does not depend on the order of the monitors: two lists
/// that hold the same monitors have the same box.
pub proof fn lemma_enclosing_box_ignores_order(a: Seq<MonitorInfo>, b: Seq<MonitorInfo>)
    requires
        forall|i: int| 0 <= i < a.len() ==> b.contains(#[trigger] a[i]),
        forall|i: int| 0 <= i < b.len() ==> a.contains(#[trigger] b[i]),
    ensures
        enclosing_box(a) == enclosing_box(b),
{
    if a.len() == 0 {
        if b.len() > 0 {
            assert(a.contains(b[0]));
        }
    } else {
        assert(b.contains(a[0]));
        lemma_enclosing_box_is_tight(a);
        lemma_enclosing_box_is_tight(b);
        let (ea, eb) = (enclosing_box(a), enclosing_box(b));
        let al = choose|i: int| 0 <= i < a.len() && (#[trigger] a[i]).left() == ea.min_x;
        let at = choose|i: int| 0 <= i < a.len() && (#[trigger] a[i]).top() == ea.min_y;
        let ar = choose|i: int| 0 <= i < a.len() && (#[trigger] a[i]).right() == ea.max_x;
        let ab = choose|i: int| 0 <= i < a.len() && (#[trigger] a[i]).bottom() == ea.max_y;
        assert(b.contains(a[al]) && b.contains(a[at]) && b.contains(a[ar]) && b.contains(a[ab]));
        let bl = choose|i: int| 0 <= i < b.len() && (#[trigger] b[i]).left() == eb.min_x;
        let bt = choose|i: int| 0 <= i < b.len() && (#[trigger] b[i]).top() == eb.min_y;
        let br = choose|i: int| 0 <= i < b.len() && (#[trigger] b[i]).right() == eb.max_x;
        let bb = choose|i: int| 0 <= i < b.len() && (#[trigger] b[i]).bottom() == eb.max_y;
        assert(a.contains(b[bl]) && a.contains(b[bt]) && a.contains(b[br]) && a.contains(b[bb]));
    }
}

/// Computes the box that encloses all the monitors.
pub fn bounding_box(monitors: &[MonitorInfo]) -> (bbox: BoundingBox)
    ensures
        bbox == enclosing_box(monitors@),
        bbox.wf(),
{
    if monitors.len() == 0 {
        return BoundingBox { min_x: 0, min_y: 0, max_x: FALLBACK_WIDTH, max_y: FALLBACK_HEIGHT };
    }
    let first = monitors[0];
    let mut min_x: i64 = first.x as i64;
    let mut min_y: i64 = first.y as i64;
    let mut max_x: i64 = first.x as i64 + first.width as i64;
    let mut max_y: i64 = first.y as i64 + first.height as i64;
    let ghost ms = monitors@;
    proof {
        assert(lefts(ms).take(1).len() == 1);
        assert(tops(ms).take(1).len() == 1);
        assert(rights(ms).take(1).len() == 1);
        assert(bottoms(ms).take(1).len() == 1);
    }
    let mut i: usize = 1;
    while i < monitors.len()
        invariant
            1 <= i <= monitors.len(),
            ms == monitors@,
            min_x == seq_min(lefts(ms).take(i as int)),
            min_y == seq_min(tops(ms).take(i as int)),
            max_x == seq_max(rights(ms).take(i as int)),
            max_y == seq_max(bottoms(ms).take(i as int)),
        decreases monitors.len() - i,
    {
        let m = monitors[i];
        let right: i64 = m.x as i64 + m.width as i64;
        let bottom: i64 = m.y as i64 + m.height as i64;
        proof {
            let n = i as int + 1;
            assert(lefts(ms).take(n).drop_last() =~= lefts(ms).take(i as int));
            assert(tops(ms).take(n).drop_last() =~= tops(ms).take(i as int));
            assert(rights(ms).take(n).drop_last() =~= rights(ms).take(i as int));
            assert(bottoms(ms).take(n).drop_last() =~= bottoms(ms).take(i as int));
            assert(lefts(ms).take(n).last() == m.left());
            assert(tops(ms).take(n).last() == m.top());
            assert(rights(ms).take(n).last() == m.right());
            assert(bottoms(ms).take(n).last() == m.bottom());
        }
        if (m.x as i64) < min_x {
            min_x = m.x as i64;
        }
        if (m.y as i64) < min_y {
            min_y = m.y as i64;
        }
        if right > max_x {
            max_x = right;
        }
        if bottom > max_y {
            max_y = bottom;
        }
        i += 1;
    }
    proof {
        let n = ms.len() as int;
        assert(lefts(ms).take(n) =~= lefts(ms));
        assert(tops(ms).take(n) =~= tops(ms));
        assert(rights(ms).take(n) =~= rights(ms));
        assert(bottoms(ms).take(n) =~= bottoms(ms));
        lemma_enclosing_box_is_tight(ms);
    }
    BoundingBox { min_x, min_y, max_x, max_y }
}

} // verus!
