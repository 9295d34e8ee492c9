//! The desktop's logical layout as the compositor reports it through XDG
//! Output: each output's logical position and size, the outputs usable for
//! clamping, and the bounding box of the whole desktop.

use vstd::prelude::*;

verus! {

/// A rectangle in logical desktop coordinates.
#[derive(Debug, Clone, Copy, PartialEq, Eq, Structural)]
pub struct DesktopBounds {
    pub x: i32,
    pub y: i32,
    pub width: i32,
    pub height: i32,
}

/// One output with a usable (non-empty) logical rectangle.
#[derive(Debug, Clone, Copy, PartialEq, Eq, Structural)]
pub struct LogicalOutput {
    pub bounds: DesktopBounds,
}

/// What the compositor has told us about one output so far.
#[derive(Debug, Clone, Copy)]
pub struct OutputGeometry {
    pub logical_position: Option<(i32, i32)>,
    pub logical_size: Option<(i32, i32)>,
}

/// Whether both the position and the size of an output are known.
pub open spec fn is_complete(o: OutputGeometry) -> bool {
    o.logical_position is Some && o.logical_size is Some
}

/// Whether a complete output covers some area.
pub open spec fn is_usable(o: OutputGeometry) -> bool {
    is_complete(o) && o.logical_size->Some_0.0 > 0 && o.logical_size->Some_0.1 > 0
}

/// The rectangle of a complete output.
pub open spec fn rect_of(o: OutputGeometry) -> DesktopBounds {
    DesktopBounds {
        x: o.logical_position->Some_0.0,
        y: o.logical_position->Some_0.1,
        width: o.logical_size->Some_0.0,
        height: o.logical_size->Some_0.1,
    }
}

pub open spec fn min(a: int, b: int) -> int {
    if a <= b { a } else { b }
}

pub open spec fn max(a: int, b: int) -> int {
    if a >= b { a } else { b }
}

/// The edges of a complete output: left, top, right, bottom.
pub open spec fn edges(o: OutputGeometry) -> (int, int, int, int) {
    let r = rect_of(o);
    (r.x as int, r.y as int, r.x + r.width, r.y + r.height)
}

/// The smallest box, as edges, holding both `a` and `b`.
pub open spec fn hull(a: (int, int, int, int), b: (int, int, int, int)) -> (int, int, int, int) {
    (min(a.0, b.0), min(a.1, b.1), max(a.2, b.2), max(a.3, b.3))
}

/// The edges of the box around the usable outputs of `s`, taken in order;
/// `None` when no output of `s` is usable.
pub open spec fn extent(s: Seq<OutputGeometry>) -> Option<(int, int, int, int)>
    decreases s.len(),
{
    if s.len() == 0 {
        None
    } else {
        let prev = extent(s.drop_last());
        let o = s.last();
        if !is_usable(o) {
            prev
        } else {
            match prev {
                None => Some(edges(o)),
                Some(c) => Some(hull(c, edges(o))),
            }
        }
    }
}

/// The edges of the desktop's bounding box: `None` while some output's
/// position or size is unknown, or when no output covers any area.
pub open spec fn desktop_extent(s: Seq<OutputGeometry>) -> Option<(int, int, int, int)> {
    if forall|i: int| 0 <= i < s.len() ==> is_complete(#[trigger] s[i]) {
        extent(s)
    } else {
        None
    }
}

/// Whether rectangle `b` has exactly the edges `e`.
pub open spec fn has_edges(b: DesktopBounds, e: (int, int, int, int)) -> bool {
    b.x == e.0 && b.y == e.1 && b.x + b.width == e.2 && b.y + b.height == e.3
}

/// The arithmetic on the usable outputs stays inside `i32`: every far edge,
/// and the distance from any near edge to any far edge.
pub open spec fn fits_i32(s: Seq<OutputGeometry>) -> bool {
    forall|i: int, j: int|
        0 <= i < s.len() && 0 <= j < s.len() && is_usable(#[trigger] s[i]) && is_usable(#[trigger] s[j]) ==> {
            &&& edges(s[j]).2 - edges(s[i]).0 <= i32::MAX
            &&& edges(s[j]).3 - edges(s[i]).1 <= i32::MAX
            &&& edges(s[j]).2 <= i32::MAX
            &&& edges(s[j]).3 <= i32::MAX
        }
}

/// Output `i` of `s` is usable and lies inside the box with edges `e`.
pub open spec fn inside(s: Seq<OutputGeometry>, i: int, e: (int, int, int, int)) -> bool {
    0 <= i < s.len() && is_usable(s[i]) ==> {
        &&& e.0 <= edges(s[i]).0
        &&& e.1 <= edges(s[i]).1
        &&& edges(s[i]).2 <= e.2
        &&& edges(s[i]).3 <= e.3
    }
}

/// Output `i` of `s` is usable and its left edge is the left edge of `e`.
pub open spec fn gives_left(s: Seq<OutputGeometry>, i: int, e: (int, int, int, int)) -> bool {
    0 <= i < s.len() && is_usable(s[i]) && edges(s[i]).0 == e.0
}

/// Output `i` of `s` is usable and its top edge is the top edge of `e`.
pub open spec fn gives_top(s: Seq<OutputGeometry>, i: int, e: (int, int, int, int)) -> bool {
    0 <= i < s.len() && is_usable(s[i]) && edges(s[i]).1 == e.1
}

/// Output `i` of `s` is usable and its right edge is the right edge of `e`.
pub open spec fn gives_right(s: Seq<OutputGeometry>, i: int, e: (int, int, int, int)) -> bool {
    0 <= i < s.len() && is_usable(s[i]) && edges(s[i]).2 == e.2
}

/// Output `i` of `s` is usable and its bottom edge is the bottom edge of `e`.
pub open spec fn gives_bottom(s: Seq<OutputGeometry>, i: int, e: (int, int, int, int)) -> bool {
    0 <= i < s.len() && is_usable(s[i]) && edges(s[i]).3 == e.3
}

/// The box of `s` is tight: it holds every usable output, and each of its
/// edges is an edge of some usable output.
pub open spec fn is_tight(s: Seq<OutputGeometry>, e: (int, int, int, int)) -> bool {
    &&& forall|i: int| #[trigger] inside(s, i, e)
    &&& exists|i: int| #[trigger] gives_left(s, i, e)
    &&& exists|i: int| #[trigger] gives_top(s, i, e)
    &&& exists|i: int| #[trigger] gives_right(s, i, e)
    &&& exists|i: int| #[trigger] gives_bottom(s, i, e)
}

proof fn lemma_extent_shape(s: Seq<OutputGeometry>)
    ensures
        extent(s) is None <==> forall|i: int| 0 <= i < s.len() ==> !is_usable(#[trigger] s[i]),
        extent(s) matches Some(e) ==> is_tight(s, e),
    decreases s.len(),
{
    if s.len() > 0 {
        let p = s.drop_last();
        let last = s.len() - 1;
        lemma_extent_shape(p);
        assert forall|i: int| 0 <= i < p.len() implies #[trigger] p[i] == s[i] by {}
        assert(s.last() == s[last]);
        if !is_usable(s[last]) {
            if let Some(e) = extent(p) {
                assert forall|i: int| #[trigger] inside(s, i, e) by {
                    assert(inside(p, i, e));
                }
                let a = choose|i: int| gives_left(p, i, e);
                let b = choose|i: int| gives_top(p, i, e);
                let c = choose|i: int| gives_right(p, i, e);
                let d = choose|i: int| gives_bottom(p, i, e);
                assert(gives_left(s, a, e) && gives_top(s, b, e) && gives_right(s, c, e) && gives_bottom(s, d, e));
            } else {
                assert forall|i: int| 0 <= i < s.len() implies !is_usable(#[trigger] s[i]) by {
                    if i < last {
                        assert(!is_usable(p[i]));
                    }
                }
            }
        } else {
            let r = edges(s[last]);
            match extent(p) {
                None => {
                    assert forall|i: int| #[trigger] inside(s, i, r) by {
                        if 0 <= i < last {
                            assert(!is_usable(p[i]));
                        }
                    }
                    assert(gives_left(s, last, r) && gives_top(s, last, r) && gives_right(s, last, r) && gives_bottom(s, last, r));
                },
                Some(c) => {
                    let e = hull(c, r);
                    assert forall|i: int| #[trigger] inside(s, i, e) by {
                        assert(inside(p, i, c));
                    }
                    let a = choose|i: int| gives_left(p, i, c);
                    let b = choose|i: int| gives_top(p, i, c);
                    let cc = choose|i: int| gives_right(p, i, c);
                    let d = choose|i: int| gives_bottom(p, i, c);
                    if c.0 <= r.0 { assert(gives_left(s, a, e)); } else { assert(gives_left(s, last, e)); }
                    if c.1 <= r.1 { assert(gives_top(s, b, e)); } else { assert(gives_top(s, last, e)); }
                    if c.2 >= r.2 { assert(gives_right(s, cc, e)); } else { assert(gives_right(s, last, e)); }
                    if c.3 >= r.3 { assert(gives_bottom(s, d, e)); } else { assert(gives_bottom(s, last, e)); }
                },
            }
        }
    }
}

/// Adding usable output `n` to the box of the outputs before it stays
/// inside `i32`.
proof fn lemma_step_fits(s: Seq<OutputGeometry>, n: int)
    requires
        fits_i32(s),
        0 <= n < s.len(),
        is_usable(s[n]),
    ensures
        edges(s[n]).2 <= i32::MAX,
        edges(s[n]).3 <= i32::MAX,
        edges(s[n]).2 - edges(s[n]).0 <= i32::MAX,
        edges(s[n]).3 - edges(s[n]).1 <= i32::MAX,
        extent(s.take(n)) matches Some(c) ==> {
            let e = hull(c, edges(s[n]));
            &&& i32::MIN <= c.2 <= i32::MAX
            &&& i32::MIN <= c.3 <= i32::MAX
            &&& e.2 - e.0 <= i32::MAX
            &&& e.3 - e.1 <= i32::MAX
        },
{
    let p = s.take(n);
    lemma_extent_shape(p);
    assert(is_usable(s[n]) && is_usable(s[n]));
    if let Some(c) = extent(p) {
        let a = choose|i: int| gives_left(p, i, c);
        let b = choose|i: int| gives_top(p, i, c);
        let cc = choose|i: int| gives_right(p, i, c);
        let d = choose|i: int| gives_bottom(p, i, c);
        assert(gives_left(p, a, c) && gives_top(p, b, c) && gives_right(p, cc, c) && gives_bottom(p, d, c));
        assert(p[a] == s[a] && p[b] == s[b] && p[cc] == s[cc] && p[d] == s[d]);
        assert(is_usable(s[a]) && is_usable(s[b]) && is_usable(s[cc]) && is_usable(s[d]));
    }
}

/// The desktop's bounding box from the outputs the compositor reported (see
/// [`desktop_extent`]).
pub fn logical_desktop_bounds(outputs: &Vec<OutputGeometry>) -> (r: Option<DesktopBounds>)
    requires
        fits_i32(outputs@),
    ensures
        match desktop_extent(outputs@) {
            None => r is None,
            Some(e) => r matches Some(b) && has_edges(b, e),
        },
{
    let n = outputs.len();
    let mut bounds: Option<DesktopBounds> = None;
    let mut i: usize = 0;
    while i < n
        invariant
            n == outputs@.len(),
            i <= n,
            fits_i32(outputs@),
            forall|j: int| 0 <= j < i ==> is_complete(#[trigger] outputs@[j]),
            match extent(outputs@.take(i as int)) {
                None => bounds is None,
                Some(e) => bounds matches Some(b) && has_edges(b, e),
            },
        decreases n - i,
    {
        let o = outputs[i];
        proof {
            assert(outputs@.take(i + 1).drop_last() =~= outputs@.take(i as int));
            assert(outputs@.take(i + 1).last() == o);
        }
        let (x, y) = match o.logical_position {
            Some(p) => p,
            None => return None,
        };
        let (width, height) = match o.logical_size {
            Some(sz) => sz,
            None => return None,
        };
        if width > 0 && height > 0 {
            proof {
                lemma_step_fits(outputs@, i as int);
            }
            let next = match bounds {
                Some(current) => {
                    proof {
                        let c = extent(outputs@.take(i as int))->Some_0;
                        assert(has_edges(current, c));
                    }
                    let cr = current.x + current.width;
                    let orr = x + width;
                    let right = if cr >= orr { cr } else { orr };
                    let cb = current.y + current.height;
                    let ob = y + height;
                    let bottom = if cb >= ob { cb } else { ob };
                    let left = if current.x <= x { current.x } else { x };
                    let top = if current.y <= y { current.y } else { y };
                    DesktopBounds { x: left, y: top, width: right - left, height: bottom - top }
                },
                None => DesktopBounds { x, y, width, height },
            };
            bounds = Some(next);
        }
        i = i + 1;
    }
    assert(outputs@.take(n as int) =~= outputs@);
    bounds
}

/// The outputs usable for clamping: those whose position and size are
/// known and cover some area, in order; `None` when there are none.
pub open spec fn usable_outputs(s: Seq<OutputGeometry>) -> Seq<DesktopBounds>
    decreases s.len(),
{
    if s.len() == 0 {
        Seq::empty()
    } else if is_usable(s.last()) {
        usable_outputs(s.drop_last()).push(rect_of(s.last()))
    } else {
        usable_outputs(s.drop_last())
    }
}

/// The logical rectangles of the usable outputs (see [`usable_outputs`]);
/// `None` when no output is usable.
pub fn logical_outputs(outputs: &Vec<OutputGeometry>) -> (r: Option<Vec<LogicalOutput>>)
    ensures
        usable_outputs(outputs@).len() == 0 ==> r is None,
        usable_outputs(outputs@).len() > 0 ==> (r matches Some(v) && v@.len() == usable_outputs(outputs@).len()
            && forall|k: int| 0 <= k < v@.len() ==> (#[trigger] v@[k]).bounds == usable_outputs(outputs@)[k]),
{
    let n = outputs.len();
    let mut out: Vec<LogicalOutput> = Vec::new();
    let mut i: usize = 0;
    while i < n
        invariant
            n == outputs@.len(),
            i <= n,
            out@.len() == usable_outputs(outputs@.take(i as int)).len(),
            forall|k: int| 0 <= k < out@.len() ==> (#[trigger] out@[k]).bounds == usable_outputs(outputs@.take(i as int))[k],
        decreases n - i,
    {
        let o = outputs[i];
        assert(outputs@.take(i + 1).drop_last() =~= outputs@.take(i as int));
        assert(outputs@.take(i + 1).last() == o);
        match (o.logical_position, o.logical_size) {
            (Some((x, y)), Some((width, height))) => {
                if width > 0 && height > 0 {
                    out.push(LogicalOutput { bounds: DesktopBounds { x, y, width, height } });
                }
            },
            _ => {},
        }
        i = i + 1;
    }
    assert(outputs@.take(n as int) =~= outputs@);
    if out.len() == 0 {
        None
    } else {
        Some(out)
    }
}

/// The desktop's bounding box holds every usable output and is no larger
/// than it must be: each of its edges is an edge of some usable output.
pub proof fn lemma_desktop_bounds_is_tight(s: Seq<OutputGeometry>)
    ensures
        desktop_extent(s) matches Some(e) ==> is_tight(s, e),
        desktop_extent(s) is None <==> (exists|i: int| 0 <= i < s.len() && !is_complete(#[trigger] s[i]))
            || (forall|i: int| 0 <= i < s.len() ==> !is_usable(#[trigger] s[i])),
{
    lemma_extent_shape(s);
}

} // verus!
