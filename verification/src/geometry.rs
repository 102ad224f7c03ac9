//! Coordinates, rectangles and the transform between screen space and a
//! page's own coordinate space.
//!
//! All coordinates are whole render pixels. Screen positions are 32-bit;
//! positions local to a page are 64-bit and bounded by [`COORD_LIMIT`], so no
//! operation in this crate can overflow.

use vstd::prelude::*;

verus! {

/// Every coordinate of a page-local rectangle lies within
/// `-COORD_LIMIT..=COORD_LIMIT`. Anything derived from 32-bit screen
/// coordinates is far inside this range.
pub const COORD_LIMIT: i64 = 0x100_0000_0000;

/// A pointer position on screen.
#[derive(Clone, Copy, Debug, PartialEq, Eq, Structural)]
pub struct ScreenPos {
    pub x: i32,
    pub y: i32,
}

/// The area a page occupies on screen: its top-left corner and its extent.
#[derive(Clone, Copy, Debug, PartialEq, Eq, Structural)]
pub struct ScreenRect {
    pub left: i32,
    pub top: i32,
    pub width: u32,
    pub height: u32,
}

/// A position relative to a page's top-left corner.
#[derive(Clone, Copy, Debug, PartialEq, Eq, Structural)]
pub struct LocalPos {
    pub x: u32,
    pub y: u32,
}

/// One of the four sides of a rectangle.
#[derive(Clone, Copy, Debug, PartialEq, Eq, Structural)]
pub enum Edge {
    North,
    South,
    West,
    East,
}

/// A rectangle in screen space, as handed to whoever paints it.
#[derive(Clone, Copy, Debug, PartialEq, Eq, Structural)]
pub struct ScreenBox {
    pub left: i64,
    pub top: i64,
    pub right: i64,
    pub bottom: i64,
}

/// The size of a rendered page in render pixels; both sides are positive.
#[derive(Clone, Copy, Debug, PartialEq, Eq, Structural)]
pub struct PageSize {
    width: u32,
    height: u32,
}

impl PageSize {
    /// Holds of every page size that exists at run time.
    #[verifier::type_invariant]
    pub open spec fn well_formed(self) -> bool {
        self.spec_width() > 0 && self.spec_height() > 0
    }

    pub closed spec fn spec_width(&self) -> u32 {
        self.width
    }

    pub closed spec fn spec_height(&self) -> u32 {
        self.height
    }

    /// The size with the given sides, or `None` where one of them is 0.
    pub fn new(width: u32, height: u32) -> (size: Option<PageSize>)
        ensures
            size is Some <==> width > 0 && height > 0,
            size is Some ==> size->0.width() == width && size->0.height() == height,
    {
        if width > 0 && height > 0 {
            Some(PageSize { width, height })
        } else {
            None
        }
    }

    #[verifier::when_used_as_spec(spec_width)]
    pub fn width(&self) -> (width: u32)
        ensures
            width == self.width(),
            width > 0,
    {
        proof {
            use_type_invariant(self);
        }
        self.width
    }

    #[verifier::when_used_as_spec(spec_height)]
    pub fn height(&self) -> (height: u32)
        ensures
            height == self.height(),
            height > 0,
    {
        proof {
            use_type_invariant(self);
        }
        self.height
    }
}

/// The distance between two coordinates on one axis.
pub open spec fn distance(a: int, b: int) -> int {
    if a <= b {
        b - a
    } else {
        a - b
    }
}

/// The page-local position of a screen position: per axis, the distance
/// from the page's top-left corner. A pointer slightly left of or above the
/// page therefore maps to a small positive offset, not to a negative one.
pub open spec fn page_local(pos: ScreenPos, page: ScreenRect) -> LocalPos {
    LocalPos {
        x: distance(page.left as int, pos.x as int) as u32,
        y: distance(page.top as int, pos.y as int) as u32,
    }
}

/// `v` limited to `lo..=hi`. Where the bounds cross, a value below `lo`
/// gives `lo` and any other gives `hi`.
pub open spec fn clamp(v: int, lo: int, hi: int) -> int {
    if v < lo {
        lo
    } else if v > hi {
        hi
    } else {
        v
    }
}

/// Where an edge at `current` ends up when it is dragged to `v` between the
/// bounds `lo` and `hi`: `v` clamped into the bounds, or `current` where the
/// bounds cross and leave no room.
pub open spec fn dragged_edge(current: int, v: int, lo: int, hi: int) -> int {
    if lo <= hi {
        clamp(v, lo, hi)
    } else {
        current
    }
}

/// The mathematical content of a [`Rect`].
pub struct RectModel {
    pub left: int,
    pub top: int,
    pub right: int,
    pub bottom: int,
}

impl RectModel {
    /// The edges are ordered and within the coordinate range.
    pub open spec fn is_valid(self) -> bool {
        &&& self.left <= self.right
        &&& self.top <= self.bottom
        &&& -COORD_LIMIT <= self.left
        &&& self.right <= COORD_LIMIT
        &&& -COORD_LIMIT <= self.top
        &&& self.bottom <= COORD_LIMIT
    }

    pub open spec fn width(self) -> int {
        self.right - self.left
    }

    pub open spec fn height(self) -> int {
        self.bottom - self.top
    }

    /// The rectangle of the given size around `center`. The left and top
    /// edges lie half the size (rounded down) before the centre.
    pub open spec fn centered(center: LocalPos, width: u32, height: u32) -> RectModel {
        RectModel {
            left: center.x - width / 2,
            top: center.y - height / 2,
            right: center.x - width / 2 + width,
            bottom: center.y - height / 2 + height,
        }
    }

    /// The coordinate of one edge.
    pub open spec fn edge(self, edge: Edge) -> int {
        match edge {
            Edge::North => self.top,
            Edge::South => self.bottom,
            Edge::West => self.left,
            Edge::East => self.right,
        }
    }

    /// The rectangle after `edge` was dragged to the page-local pointer
    /// position `pointer` on a page of the given extent.
    ///
    /// The north and west edges move between 0 and the opposite edge; the
    /// south and east edges between the opposite edge and the page's far
    /// boundary. The other three edges stay.
    pub open spec fn resized(self, edge: Edge, pointer: LocalPos, page: ScreenRect) -> RectModel {
        match edge {
            Edge::North => RectModel {
                left: self.left,
                top: dragged_edge(self.top, pointer.y as int, 0, self.bottom),
                right: self.right,
                bottom: self.bottom,
            },
            Edge::South => RectModel {
                left: self.left,
                top: self.top,
                right: self.right,
                bottom: dragged_edge(self.bottom, pointer.y as int, self.top, page.height as int),
            },
            Edge::West => RectModel {
                left: dragged_edge(self.left, pointer.x as int, 0, self.right),
                top: self.top,
                right: self.right,
                bottom: self.bottom,
            },
            Edge::East => RectModel {
                left: self.left,
                top: self.top,
                right: dragged_edge(self.right, pointer.x as int, self.left, page.width as int),
                bottom: self.bottom,
            },
        }
    }

    /// The rectangle moved into screen space next to the page's corner.
    pub open spec fn on_screen(self, page: ScreenRect) -> ScreenBox {
        ScreenBox {
            left: (self.left + page.left) as i64,
            top: (self.top + page.top) as i64,
            right: (self.right + page.left) as i64,
            bottom: (self.bottom + page.top) as i64,
        }
    }
}

/// An axis-aligned rectangle in page-local coordinates whose edges are
/// ordered (`left <= right`, `top <= bottom`) and within the coordinate range.
#[derive(Clone, Copy, Debug, PartialEq, Eq, Structural)]
pub struct Rect {
    left: i64,
    top: i64,
    right: i64,
    bottom: i64,
}

impl View for Rect {
    type V = RectModel;

    closed spec fn view(&self) -> RectModel {
        RectModel {
            left: self.left as int,
            top: self.top as int,
            right: self.right as int,
            bottom: self.bottom as int,
        }
    }
}

/// The distance between two screen coordinates.
pub fn axis_distance(a: i32, b: i32) -> (d: u32)
    ensures
        d == distance(a as int, b as int),
{
    let wide_a: i64 = a as i64;
    let wide_b: i64 = b as i64;
    if wide_a <= wide_b {
        (wide_b - wide_a) as u32
    } else {
        (wide_a - wide_b) as u32
    }
}

/// Maps a screen position to the coordinate space of the page shown at
/// `page`.
pub fn to_page_local(pos: ScreenPos, page: ScreenRect) -> (local: LocalPos)
    ensures
        local == page_local(pos, page),
{
    LocalPos { x: axis_distance(page.left, pos.x), y: axis_distance(page.top, pos.y) }
}

/// Limits `v` to `lo..=hi`. Where the bounds cross, a value below `lo`
/// gives `lo` and any other gives `hi`.
pub fn clamp_coord(v: i64, lo: i64, hi: i64) -> (r: i64)
    ensures
        r == clamp(v as int, lo as int, hi as int),
        lo <= hi ==> lo <= r <= hi,
{
    if v < lo {
        lo
    } else if v > hi {
        hi
    } else {
        v
    }
}

impl Rect {
    /// Holds of every rectangle that exists at run time.
    #[verifier::type_invariant]
    pub open spec fn well_formed(self) -> bool {
        self@.is_valid()
    }

    /// A rectangle with the given edges, or `None` where they are not
    /// ordered or lie outside the coordinate range.
    pub fn new(left: i64, top: i64, right: i64, bottom: i64) -> (rect: Option<Rect>)
        ensures
            rect is Some <==> (RectModel {
                left: left as int,
                top: top as int,
                right: right as int,
                bottom: bottom as int,
            }).is_valid(),
            rect is Some ==> rect->0@ == (RectModel {
                left: left as int,
                top: top as int,
                right: right as int,
                bottom: bottom as int,
            }),
    {
        if left <= right && top <= bottom && -COORD_LIMIT <= left && right <= COORD_LIMIT
            && -COORD_LIMIT <= top && bottom <= COORD_LIMIT {
            Some(Rect { left, top, right, bottom })
        } else {
            None
        }
    }

    /// The rectangle of the given size around `center`.
    pub fn from_center_size(center: LocalPos, width: u32, height: u32) -> (rect: Rect)
        ensures
            rect@ == RectModel::centered(center, width, height),
            rect@.is_valid(),
            rect@.width() == width,
            rect@.height() == height,
    {
        let left: i64 = center.x as i64 - (width / 2) as i64;
        let top: i64 = center.y as i64 - (height / 2) as i64;
        Rect { left, top, right: left + width as i64, bottom: top + height as i64 }
    }

    pub fn left(&self) -> (v: i64)
        ensures
            v == self@.left,
            self@.is_valid(),
    {
        proof {
            use_type_invariant(self);
        }
        self.left
    }

    pub fn top(&self) -> (v: i64)
        ensures
            v == self@.top,
            self@.is_valid(),
    {
        proof {
            use_type_invariant(self);
        }
        self.top
    }

    pub fn right(&self) -> (v: i64)
        ensures
            v == self@.right,
            self@.is_valid(),
    {
        proof {
            use_type_invariant(self);
        }
        self.right
    }

    pub fn bottom(&self) -> (v: i64)
        ensures
            v == self@.bottom,
            self@.is_valid(),
    {
        proof {
            use_type_invariant(self);
        }
        self.bottom
    }

    pub fn width(&self) -> (v: i64)
        ensures
            v == self@.width(),
            v >= 0,
    {
        proof {
            use_type_invariant(self);
        }
        self.right - self.left
    }

    pub fn height(&self) -> (v: i64)
        ensures
            v == self@.height(),
            v >= 0,
    {
        proof {
            use_type_invariant(self);
        }
        self.bottom - self.top
    }

    /// The rectangle with `edge` dragged to the page-local pointer position
    /// `pointer`, on a page that occupies `page` on screen. The result is
    /// again a rectangle with ordered edges, whatever the inputs.
    pub fn resize_edge(&self, edge: Edge, pointer: LocalPos, page: ScreenRect) -> (rect: Rect)
        ensures
            rect@ == self@.resized(edge, pointer, page),
            rect@.is_valid(),
    {
        proof {
            use_type_invariant(self);
        }
        match edge {
            Edge::North => {
                let top: i64 = if 0 <= self.bottom {
                    clamp_coord(pointer.y as i64, 0, self.bottom)
                } else {
                    self.top
                };
                Rect { left: self.left, top, right: self.right, bottom: self.bottom }
            },
            Edge::South => {
                let bottom: i64 = if self.top <= page.height as i64 {
                    clamp_coord(pointer.y as i64, self.top, page.height as i64)
                } else {
                    self.bottom
                };
                Rect { left: self.left, top: self.top, right: self.right, bottom }
            },
            Edge::West => {
                let left: i64 = if 0 <= self.right {
                    clamp_coord(pointer.x as i64, 0, self.right)
                } else {
                    self.left
                };
                Rect { left, top: self.top, right: self.right, bottom: self.bottom }
            },
            Edge::East => {
                let right: i64 = if self.left <= page.width as i64 {
                    clamp_coord(pointer.x as i64, self.left, page.width as i64)
                } else {
                    self.right
                };
                Rect { left: self.left, top: self.top, right, bottom: self.bottom }
            },
        }
    }

    /// The rectangle in screen space, for painting it over the page shown
    /// at `page`.
    pub fn to_screen(&self, page: ScreenRect) -> (on_screen: ScreenBox)
        ensures
            on_screen == self@.on_screen(page),
            on_screen.left == self@.left + page.left,
            on_screen.top == self@.top + page.top,
            on_screen.right == self@.right + page.left,
            on_screen.bottom == self@.bottom + page.top,
    {
        proof {
            use_type_invariant(self);
        }
        ScreenBox {
            left: self.left + page.left as i64,
            top: self.top + page.top as i64,
            right: self.right + page.left as i64,
            bottom: self.bottom + page.top as i64,
        }
    }
}

/// Dragging one edge of a valid rectangle leaves a valid rectangle: the
/// result never has `left > right` or `top > bottom`.
pub proof fn lemma_resize_keeps_edges_ordered(
    rect: RectModel,
    edge: Edge,
    pointer: LocalPos,
    page: ScreenRect,
)
    requires
        rect.is_valid(),
    ensures
        rect.resized(edge, pointer, page).is_valid(),
        rect.resized(edge, pointer, page).left <= rect.resized(edge, pointer, page).right,
        rect.resized(edge, pointer, page).top <= rect.resized(edge, pointer, page).bottom,
{
}

/// Dragging one edge moves that edge only.
pub proof fn lemma_resize_moves_one_edge(
    rect: RectModel,
    edge: Edge,
    other: Edge,
    pointer: LocalPos,
    page: ScreenRect,
)
    requires
        other != edge,
    ensures
        rect.resized(edge, pointer, page).edge(other) == rect.edge(other),
{
}

/// The extent of the page along the axis on which `edge` moves.
pub open spec fn page_extent(edge: Edge, page: ScreenRect) -> int {
    match edge {
        Edge::North | Edge::South => page.height as int,
        Edge::West | Edge::East => page.width as int,
    }
}

/// The pointer's coordinate along the axis on which `edge` moves.
pub open spec fn pointer_on_axis(edge: Edge, pointer: LocalPos) -> int {
    match edge {
        Edge::North | Edge::South => pointer.y as int,
        Edge::West | Edge::East => pointer.x as int,
    }
}

/// The edge opposite to `edge`.
pub open spec fn opposite(edge: Edge) -> Edge {
    match edge {
        Edge::North => Edge::South,
        Edge::South => Edge::North,
        Edge::West => Edge::East,
        Edge::East => Edge::West,
    }
}

/// Whether a dragged edge can stay both on the page and on its side of
/// the opposite edge.
///
/// For the north and west edges this asks that the opposite edge is not
/// before the page's origin, and that the pointer or the opposite edge is on
/// the page. For the south and east edges it asks that the opposite edge is
/// not beyond the page's far boundary.
pub open spec fn drag_has_room(
    rect: RectModel,
    edge: Edge,
    pointer: LocalPos,
    page: ScreenRect,
) -> bool {
    let far = page_extent(edge, page);
    let other = rect.edge(opposite(edge));
    match edge {
        Edge::North | Edge::West => 0 <= other && (pointer_on_axis(edge, pointer) <= far || other
            <= far),
        Edge::South | Edge::East => other <= far,
    }
}

/// A dragged north or west edge ends up on the page and not beyond the
/// opposite edge; a dragged south or east edge ends up on the page and not
/// before the opposite edge. This holds exactly where there is room for it.
pub proof fn lemma_resize_clamps_to_page(
    rect: RectModel,
    edge: Edge,
    pointer: LocalPos,
    page: ScreenRect,
)
    requires
        rect.is_valid(),
    ensures
        ({
            let moved = rect.resized(edge, pointer, page).edge(edge);
            let other = rect.edge(opposite(edge));
            let on_page = 0 <= moved <= page_extent(edge, page);
            let kept_side = match edge {
                Edge::North | Edge::West => moved <= other,
                Edge::South | Edge::East => other <= moved,
            };
            kept_side && (on_page <==> drag_has_room(rect, edge, pointer, page))
        }),
{
}

} // verus!
