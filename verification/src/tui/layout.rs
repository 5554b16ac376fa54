//! Cell geometry and the per-frame index from screen areas to interactive tags.

use vstd::prelude::*;

use crate::data::{Direction, InteractGeneric, InteractKind, MouseButton, Position32};
use crate::tui::InteractTag;

verus! {

/// One of the two screen axes.
#[derive(Clone, Copy, PartialEq, Eq, Debug, Structural)]
pub enum Axis {
    Horizontal,
    Vertical,
}

/// A cell coordinate: column `x`, row `y`.
#[derive(Debug, Clone, Copy, PartialEq, Eq, Structural)]
pub struct Position {
    pub x: u16,
    pub y: u16,
}

impl Default for Position {
    fn default() -> (r: Self)
        ensures
            r == (Position { x: 0, y: 0 }),
    {
        Position { x: 0, y: 0 }
    }
}

impl Position {
    /// The coordinate along `axis`, for reading and writing.
    pub fn get_mut(&mut self, axis: Axis) -> (r: &mut u16)
        ensures
            *r == (match axis {
                Axis::Horizontal => old(self).x,
                Axis::Vertical => old(self).y,
            }),
            *final(self) == (match axis {
                Axis::Horizontal => Position { x: *final(r), y: old(self).y },
                Axis::Vertical => Position { x: old(self).x, y: *final(r) },
            }),
    {
        match axis {
            Axis::Horizontal => &mut self.x,
            Axis::Vertical => &mut self.y,
        }
    }
}

/// An extent in cells (or, where stated, in pixels): width `w`, height `h`.
#[derive(Debug, Clone, Copy, PartialEq, Eq, Structural)]
pub struct Size {
    pub w: u16,
    pub h: u16,
}

impl Default for Size {
    fn default() -> (r: Self)
        ensures
            r == (Size { w: 0, h: 0 }),
    {
        Size { w: 0, h: 0 }
    }
}

impl Size {
    /// The extent along `axis`.
    pub open spec fn along(self, axis: Axis) -> u16 {
        match axis {
            Axis::Horizontal => self.w,
            Axis::Vertical => self.h,
        }
    }

    /// The extent along `axis`, for reading and writing.
    pub fn get_mut(&mut self, axis: Axis) -> (r: &mut u16)
        ensures
            *r == old(self).along(axis),
            *final(self) == (match axis {
                Axis::Horizontal => Size { w: *final(r), h: old(self).h },
                Axis::Vertical => Size { w: old(self).w, h: *final(r) },
            }),
    {
        match axis {
            Axis::Horizontal => &mut self.w,
            Axis::Vertical => &mut self.h,
        }
    }

    /// The extent along `axis`.
    pub fn get(self, axis: Axis) -> (r: u16)
        ensures
            r == self.along(axis),
    {
        match axis {
            Axis::Horizontal => self.w,
            Axis::Vertical => self.h,
        }
    }
}

/// A rectangle of cells: its top-left corner and its extent.
#[derive(Debug, Clone, Copy, PartialEq, Eq, Structural)]
pub struct Area {
    pub pos: Position,
    pub size: Size,
}

impl Default for Area {
    fn default() -> (r: Self)
        ensures
            r == (Area { pos: Position { x: 0, y: 0 }, size: Size { w: 0, h: 0 } }),
    {
        Area { pos: Position { x: 0, y: 0 }, size: Size { w: 0, h: 0 } }
    }
}

/// `a - b`, or 0 where that would be negative.
pub open spec fn minus_or_zero(a: int, b: int) -> int {
    if a >= b {
        a - b
    } else {
        0
    }
}

/// `a`, or the largest `u16` where `a` exceeds it.
pub open spec fn clamp_u16(a: int) -> int {
    if a > u16::MAX as int {
        u16::MAX as int
    } else {
        a
    }
}

impl Area {
    /// Whether the cell `pos` lies inside the rectangle.
    pub open spec fn covers(self, pos: Position) -> bool {
        &&& self.pos.x <= pos.x < self.pos.x + self.size.w
        &&& self.pos.y <= pos.y < self.pos.y + self.size.h
    }

    /// The last row of the rectangle, with the sum held to the `u16` range and
    /// an empty rectangle at row 0 reported as row 0.
    pub fn y_bottom(&self) -> (r: u16)
        ensures
            r == minus_or_zero(clamp_u16(self.pos.y + self.size.h), 1),
    {
        self.pos.y.saturating_add(self.size.h).saturating_sub(1)
    }

    /// The last column of the rectangle, with the sum held to the `u16` range
    /// and an empty rectangle at column 0 reported as column 0.
    pub fn x_right(&self) -> (r: u16)
        ensures
            r == minus_or_zero(clamp_u16(self.pos.x + self.size.w), 1),
    {
        self.pos.x.saturating_add(self.size.w).saturating_sub(1)
    }

    /// Whether the cell `pos` lies inside the rectangle. An empty rectangle
    /// contains no cell.
    pub fn contains(self, pos: Position) -> (r: bool)
        ensures
            r == self.covers(pos),
    {
        let dx = pos.x.checked_sub(self.pos.x);
        let dy = pos.y.checked_sub(self.pos.y);
        match (dx, dy) {
            (Some(dx), Some(dy)) => dx < self.size.w && dy < self.size.h,
            _ => false,
        }
    }
}

/// What the pointer did, as the terminal reports it.
#[derive(Debug, Clone, Copy, PartialEq, Eq, Structural)]
pub enum MouseEventKind {
    Down(MouseButton),
    Up(MouseButton),
    Drag(MouseButton),
    Moved,
    ScrollDown,
    ScrollUp,
    ScrollLeft,
    ScrollRight,
}

/// A pointer event at a cell.
#[derive(Debug, Clone, Copy, PartialEq, Eq, Structural)]
pub struct MouseEvent {
    pub kind: MouseEventKind,
    pub column: u16,
    pub row: u16,
    /// The modifier keys held down, as the bits the terminal reports. They
    /// are carried along and bear on nothing.
    pub modifiers: u8,
}

/// An interaction aimed at a tagged element, or at none.
pub type TuiInteract = InteractGeneric<Option<InteractTag>>;

/// The interaction that a pointer event stands for. Releasing a button and
/// dragging are none.
pub open spec fn interaction_of(kind: MouseEventKind) -> Option<InteractKind> {
    match kind {
        MouseEventKind::Down(button) => Some(InteractKind::Click(button)),
        MouseEventKind::Moved => Some(InteractKind::Hover),
        MouseEventKind::ScrollDown => Some(InteractKind::Scroll(Direction::Down)),
        MouseEventKind::ScrollUp => Some(InteractKind::Scroll(Direction::Up)),
        MouseEventKind::ScrollLeft => Some(InteractKind::Scroll(Direction::Left)),
        MouseEventKind::ScrollRight => Some(InteractKind::Scroll(Direction::Right)),
        MouseEventKind::Up(_) | MouseEventKind::Drag(_) => None,
    }
}

/// `a`, or the largest `u32` where `a` exceeds it.
pub open spec fn clamp_u32(a: int) -> int {
    if a > u32::MAX as int {
        u32::MAX as int
    } else {
        a
    }
}

/// The pixel at the centre of `area` under a font cell of `font` pixels: the
/// area's corner in pixels, plus half its pixel extent, rounded down. Each
/// coordinate is held to the `u32` range.
pub open spec fn center_of(area: Area, font: Size) -> Position32 {
    Position32 {
        x: clamp_u32(area.pos.x * font.w + (area.size.w * font.w) / 2) as u32,
        y: clamp_u32(area.pos.y * font.h + (area.size.h * font.h) / 2) as u32,
    }
}

/// The place of the first area of `widgets` that covers `pos`, or the number
/// of areas where none does.
pub open spec fn first_hit(widgets: Seq<(Area, InteractTag)>, pos: Position) -> int
    decreases widgets.len(),
{
    if widgets.len() == 0 {
        0
    } else if widgets[0].0.covers(pos) {
        0
    } else {
        1 + first_hit(widgets.drop_first(), pos)
    }
}

/// `first_hit` is the least place whose area covers the point.
pub proof fn lemma_first_hit(widgets: Seq<(Area, InteractTag)>, pos: Position)
    ensures
        0 <= first_hit(widgets, pos) <= widgets.len(),
        forall|j: int| 0 <= j < first_hit(widgets, pos) ==> !(#[trigger] widgets[j]).0.covers(pos),
        first_hit(widgets, pos) < widgets.len() ==> widgets[first_hit(widgets, pos)].0.covers(pos),
    decreases widgets.len(),
{
    if widgets.len() > 0 && !widgets[0].0.covers(pos) {
        let rest = widgets.drop_first();
        lemma_first_hit(rest, pos);
        assert forall|j: int| 0 <= j < first_hit(widgets, pos) implies !(#[trigger] widgets[j]).0.covers(
            pos,
        ) by {
            if j > 0 {
                assert(widgets[j] == rest[j - 1]);
            }
        }
    }
}

/// Of two areas that cover a point, the one recorded first is hit: no area
/// recorded after one that covers the point is ever the answer.
pub proof fn lemma_earlier_area_wins(
    widgets: Seq<(Area, InteractTag)>,
    pos: Position,
    earlier: int,
    later: int,
)
    requires
        0 <= earlier < later < widgets.len(),
        widgets[earlier].0.covers(pos),
    ensures
        first_hit(widgets, pos) <= earlier,
        first_hit(widgets, pos) != later,
{
    lemma_first_hit(widgets, pos);
}

/// A place that covers the point, with none before it that does, is
/// `first_hit`.
pub proof fn lemma_first_hit_is(widgets: Seq<(Area, InteractTag)>, pos: Position, i: int)
    requires
        0 <= i <= widgets.len(),
        forall|j: int| 0 <= j < i ==> !(#[trigger] widgets[j]).0.covers(pos),
        i < widgets.len() ==> widgets[i].0.covers(pos),
    ensures
        first_hit(widgets, pos) == i,
    decreases widgets.len(),
{
    if i > 0 {
        let rest = widgets.drop_first();
        assert(!widgets[0].0.covers(pos));
        assert forall|j: int| 0 <= j < i - 1 implies !(#[trigger] rest[j]).0.covers(pos) by {
            assert(rest[j] == widgets[j + 1]);
        }
        lemma_first_hit_is(rest, pos, i - 1);
    }
}

/// The areas of one frame that take pointer events, each with its tag, in the
/// order in which the layout pass recorded them.
#[derive(Debug)]
pub struct RenderedLayout {
    pub widgets: Vec<(Area, InteractTag)>,
}

impl Default for RenderedLayout {
    fn default() -> (r: Self)
        ensures
            r.widgets@.len() == 0,
    {
        RenderedLayout { widgets: Vec::new() }
    }
}

impl RenderedLayout {
    /// Records `rect` as the area of the element tagged `widget`, after all
    /// those recorded before.
    pub fn insert(&mut self, rect: Area, widget: InteractTag)
        ensures
            final(self).widgets@ == old(self).widgets@.push((rect, widget)),
    {
        self.widgets.push((rect, widget));
    }

    /// What a pointer event means on this layout.
    ///
    /// Releasing a button and dragging mean nothing. Any other event is an
    /// interaction of the kind `interaction_of` gives. It is aimed at the
    /// first recorded area that covers the event's cell, and reported at that
    /// area's centre; where no area covers the cell it has no target and is
    /// reported at the cell's own corner.
    pub fn interpret_mouse_event(&mut self, event: MouseEvent, font_size: Size) -> (r: Option<
        TuiInteract,
    >)
        ensures
            final(self).widgets@ == old(self).widgets@,
            r is Some <==> interaction_of(event.kind) is Some,
            r matches Some(hit) ==> {
                let widgets = old(self).widgets@;
                let pos = Position { x: event.column, y: event.row };
                let i = first_hit(widgets, pos);
                &&& Some(hit.kind) == interaction_of(event.kind)
                &&& i < widgets.len() ==> {
                    &&& hit.target matches Some(tag)
                    &&& tag@ == widgets[i].1@
                    &&& hit.location == center_of(widgets[i].0, font_size)
                }
                &&& i >= widgets.len() ==> {
                    &&& hit.target is None
                    &&& hit.location == center_of(
                        Area { pos, size: Size { w: 0, h: 0 } },
                        font_size,
                    )
                }
            },
    {
        let pos = Position { x: event.column, y: event.row };
        let kind = match event.kind {
            MouseEventKind::Down(button) => InteractKind::Click(button),
            MouseEventKind::Moved => InteractKind::Hover,
            MouseEventKind::ScrollDown => InteractKind::Scroll(Direction::Down),
            MouseEventKind::ScrollUp => InteractKind::Scroll(Direction::Up),
            MouseEventKind::ScrollLeft => InteractKind::Scroll(Direction::Left),
            MouseEventKind::ScrollRight => InteractKind::Scroll(Direction::Right),
            MouseEventKind::Up(_) | MouseEventKind::Drag(_) => {
                return None;
            },
        };
        let n = self.widgets.len();
        let mut i: usize = 0;
        while i < n && !self.widgets[i].0.contains(pos)
            invariant
                i <= n,
                n == self.widgets@.len(),
                self.widgets@ == old(self).widgets@,
                forall|j: int| 0 <= j < i ==> !(#[trigger] self.widgets@[j]).0.covers(pos),
            decreases n - i,
        {
            i = i + 1;
        }
        proof {
            lemma_first_hit_is(self.widgets@, pos, i as int);
        }
        let (area, target) = if i < n {
            (self.widgets[i].0, Some(self.widgets[i].1.clone()))
        } else {
            (Area { pos, size: Size { w: 0, h: 0 } }, None)
        };
        Some(InteractGeneric { location: center(area, font_size), target, kind })
    }
}

/// One coordinate of an area's centre: see `center_of`.
fn center_along(corner: u16, extent: u16, font: u16) -> (r: u32)
    ensures
        r == clamp_u32(corner * font + (extent * font) / 2),
{
    assert(corner * font <= 0xFFFF * 0xFFFF && extent * font <= 0xFFFF * 0xFFFF) by (nonlinear_arith)
        requires
            0 <= corner <= 0xFFFF,
            0 <= extent <= 0xFFFF,
            0 <= font <= 0xFFFF,
    ;
    let at: u64 = corner as u64 * font as u64 + (extent as u64 * font as u64) / 2;
    if at > 0xFFFF_FFFF {
        u32::MAX
    } else {
        at as u32
    }
}

/// The pixel at the centre of `area`: see `center_of`.
pub fn center(area: Area, font: Size) -> (r: Position32)
    ensures
        r == center_of(area, font),
{
    Position32 {
        x: center_along(area.pos.x, area.size.w, font.w),
        y: center_along(area.pos.y, area.size.h, font.h),
    }
}

/// The extent of a terminal window, in cells and in pixels.
#[derive(Debug, Clone, Copy, PartialEq, Eq, Structural)]
pub struct Sizes {
    pub cell_size: Size,
    pub pix_size: Size,
}

impl Sizes {
    /// The pixel extent of one font cell: the window's pixel extent divided
    /// by its extent in cells, rounded down.
    pub fn font_size(self) -> (r: Size)
        requires
            self.cell_size.w > 0,
            self.cell_size.h > 0,
        ensures
            r.w == self.pix_size.w / self.cell_size.w,
            r.h == self.pix_size.h / self.cell_size.h,
    {
        Size { w: self.pix_size.w / self.cell_size.w, h: self.pix_size.h / self.cell_size.h }
    }

    /// The sizes that a terminal reports as `rows` by `columns` cells and
    /// `width` by `height` pixels. A terminal that reports a pixel extent of 0
    /// does not tell its window size: that is `None`.
    pub fn from_window(rows: u16, columns: u16, width: u16, height: u16) -> (r: Option<Sizes>)
        ensures
            r is None <==> width == 0 || height == 0,
            r matches Some(sizes) ==> sizes == (Sizes {
                cell_size: Size { w: columns, h: rows },
                pix_size: Size { w: width, h: height },
            }),
    {
        if width == 0 || height == 0 {
            None
        } else {
            Some(
                Sizes {
                    cell_size: Size { w: columns, h: rows },
                    pix_size: Size { w: width, h: height },
                },
            )
        }
    }
}

} // verus!
