use vstd::prelude::*;

verus! {

/// A completed drag in overlay pixels: where the pointer went down and how
/// far it moved before release. Either offset may be negative.
#[derive(Clone, Copy, Debug, PartialEq, Eq, Structural)]
pub struct Drag {
    pub start_x: i32,
    pub start_y: i32,
    pub offset_x: i32,
    pub offset_y: i32,
}

/// An axis-aligned rectangle with a top-left origin and a non-negative size.
#[derive(Clone, Copy, Debug, PartialEq, Eq, Structural)]
pub struct Rect {
    pub x: i64,
    pub y: i64,
    pub width: i64,
    pub height: i64,
}

/// A rectangle of pixels that lies inside a frame.
#[derive(Clone, Copy, Debug, PartialEq, Eq, Structural)]
pub struct Region {
    pub x: u32,
    pub y: u32,
    pub width: u32,
    pub height: u32,
}

pub open spec fn min_int(a: int, b: int) -> int {
    if a <= b { a } else { b }
}

pub open spec fn max_int(a: int, b: int) -> int {
    if a <= b { b } else { a }
}

pub open spec fn abs_int(a: int) -> int {
    if a < 0 { -a } else { a }
}

/// `p` lies on the half-open span between the two ends, whichever is first.
pub open spec fn on_span(p: int, a: int, b: int) -> bool {
    min_int(a, b) <= p < max_int(a, b)
}

/// The pixel (px, py) is covered by the drag.
pub open spec fn drag_covers(d: Drag, px: int, py: int) -> bool {
    on_span(px, d.start_x as int, d.start_x + d.offset_x)
        && on_span(py, d.start_y as int, d.start_y + d.offset_y)
}

/// The pixel (px, py) is covered by the rectangle.
pub open spec fn rect_covers(r: Rect, px: int, py: int) -> bool {
    r.x <= px < r.x + r.width && r.y <= py < r.y + r.height
}

/// The drag as a rectangle: a negative offset moves the start back by the
/// offset and the offset's sign is flipped.
pub open spec fn normal_rect(d: Drag) -> Rect {
    Rect {
        x: (if d.offset_x < 0 { d.start_x + d.offset_x } else { d.start_x as int }) as i64,
        y: (if d.offset_y < 0 { d.start_y + d.offset_y } else { d.start_y as int }) as i64,
        width: abs_int(d.offset_x as int) as i64,
        height: abs_int(d.offset_y as int) as i64,
    }
}

/// A drag is ready to apply once it has moved along at least one axis.
pub open spec fn drag_moved(d: Drag) -> bool {
    d.offset_x != 0 || d.offset_y != 0
}

impl Drag {
    pub fn moved(&self) -> (r: bool)
        ensures
            r == drag_moved(*self),
    {
        self.offset_x != 0 || self.offset_y != 0
    }
}

/// Expresses a drag with a top-left origin and a non-negative width and height.
pub fn normalize(d: Drag) -> (r: Rect)
    ensures
        r == normal_rect(d),
        r.width >= 0,
        r.height >= 0,
        r.width == abs_int(d.offset_x as int),
        r.height == abs_int(d.offset_y as int),
{
    let mut x: i64 = d.start_x as i64;
    let mut y: i64 = d.start_y as i64;
    let mut width: i64 = d.offset_x as i64;
    let mut height: i64 = d.offset_y as i64;
    if width < 0 {
        x = x + width;
        width = -width;
    }
    if height < 0 {
        y = y + height;
        height = -height;
    }
    Rect { x, y, width, height }
}

/// Normalizing a drag keeps exactly the pixels it covers, and its size is
/// the absolute value of the offset.
pub proof fn lemma_normalize_same_region(d: Drag)
    ensures
        normal_rect(d).width == abs_int(d.offset_x as int),
        normal_rect(d).height == abs_int(d.offset_y as int),
        normal_rect(d).width >= 0,
        normal_rect(d).height >= 0,
        forall|px: int, py: int|
            drag_covers(d, px, py) <==> #[trigger] rect_covers(normal_rect(d), px, py),
{
}

/// The part of a frame of the given size that a crop with `r` keeps, when
/// the rectangle's origin lies inside the frame and it has a width and a
/// height: the rectangle cut down to the frame's right and bottom edges.
pub open spec fn crop_of(r: Rect, width: u32, height: u32) -> Option<Region> {
    if 0 <= r.x < width && 0 <= r.y < height && r.width > 0 && r.height > 0 {
        Some(
            Region {
                x: r.x as u32,
                y: r.y as u32,
                width: min_int(r.width as int, width - r.x) as u32,
                height: min_int(r.height as int, height - r.y) as u32,
            },
        )
    } else {
        None
    }
}

/// Bounds check of a crop: `None` where the rectangle's origin falls
/// outside `[0, width) x [0, height)` or the rectangle has no width or no
/// height, else the region that is kept, which is never empty.
pub fn crop_region(r: Rect, width: u32, height: u32) -> (res: Option<Region>)
    requires
        r.width >= 0,
        r.height >= 0,
    ensures
        res == crop_of(r, width, height),
        res is Some <==> (0 <= r.x < width && 0 <= r.y < height && r.width > 0 && r.height > 0),
        res matches Some(g) ==> g.x + g.width <= width && g.y + g.height <= height && g.width >= 1
            && g.height >= 1,
{
    if r.x < 0 || r.y < 0 || r.x >= width as i64 || r.y >= height as i64 || r.width == 0
        || r.height == 0 {
        return None;
    }
    let room_x: i64 = width as i64 - r.x;
    let room_y: i64 = height as i64 - r.y;
    let w: i64 = if r.width <= room_x { r.width } else { room_x };
    let h: i64 = if r.height <= room_y { r.height } else { room_y };
    Some(Region { x: r.x as u32, y: r.y as u32, width: w as u32, height: h as u32 })
}

} // verus!
