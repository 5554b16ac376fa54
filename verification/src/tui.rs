//! Declarative element trees: the content of one frame, to be measured and
//! rendered.

pub mod layout;
pub mod picture;
pub mod sizing;
pub mod text;

pub use layout::{clamp_u16, Area, Axis, Position, RenderedLayout, Size, Sizes, TuiInteract};
pub use picture::{decoded_pixel_size, fit_cells, fit_spec, image_size, PixelSize};
pub use sizing::{auto_size_invariants, SizeError, SizingContext};
pub use text::{measure_text, text_size};

use vstd::prelude::*;
use vstd::slice::slice_to_vec;

verus! {

/// Which sides of a block carry a border line.
#[derive(Clone, Copy, PartialEq, Eq, Debug, Structural)]
pub struct Borders {
    pub top: bool,
    pub bottom: bool,
    pub left: bool,
    pub right: bool,
}

impl Default for Borders {
    fn default() -> (r: Self)
        ensures
            r == (Borders { top: false, bottom: false, left: false, right: false }),
    {
        Borders { top: false, bottom: false, left: false, right: false }
    }
}

impl Borders {
    /// A border on every side.
    pub fn all() -> (r: Self)
        ensures
            r == (Borders { top: true, bottom: true, left: true, right: true }),
    {
        Borders { top: true, bottom: true, left: true, right: true }
    }

    /// Cells that the left and right borders add to a width: 0, 1 or 2.
    pub open spec fn extra_w(self) -> int {
        (if self.left { 1int } else { 0int }) + (if self.right { 1int } else { 0int })
    }

    /// Cells that the top and bottom borders add to a height: 0, 1 or 2.
    pub open spec fn extra_h(self) -> int {
        (if self.top { 1int } else { 0int }) + (if self.bottom { 1int } else { 0int })
    }
}

/// How much room a part of a subdivision takes along the subdivision axis.
#[derive(Clone, Copy, Debug, PartialEq, Eq, Structural)]
pub enum Constraint {
    /// Exactly this many cells.
    Length(u16),
    /// A share of the space left over at render time, by this weight.
    Fill(u16),
    /// As much as the content measures.
    Auto,
}

impl Default for Constraint {
    fn default() -> (r: Self)
        ensures
            r == Constraint::Auto,
    {
        Constraint::Auto
    }
}

/// A terminal colour.
#[derive(Clone, Copy, Debug, PartialEq, Eq, Structural)]
pub enum Color {
    Reset,
    Black,
    Red,
    Green,
    Yellow,
    Blue,
    Magenta,
    Cyan,
    Gray,
    DarkGray,
    LightRed,
    LightGreen,
    LightYellow,
    LightBlue,
    LightMagenta,
    LightCyan,
    White,
    Rgb(u8, u8, u8),
    Indexed(u8),
}

impl Default for Color {
    fn default() -> (r: Self)
        ensures
            r == Color::Reset,
    {
        Color::Reset
    }
}

/// Text attributes.
#[derive(Clone, Copy, PartialEq, Eq, Debug, Structural)]
pub struct Modifier {
    pub bold: bool,
    pub dim: bool,
    pub italic: bool,
    pub underline: bool,
    pub hidden: bool,
    pub strike: bool,
}

impl Default for Modifier {
    fn default() -> (r: Self)
        ensures
            r == (Modifier {
                bold: false,
                dim: false,
                italic: false,
                underline: false,
                hidden: false,
                strike: false,
            }),
    {
        Modifier {
            bold: false,
            dim: false,
            italic: false,
            underline: false,
            hidden: false,
            strike: false,
        }
    }
}

/// Colours and attributes of a run of cells.
#[derive(Clone, Copy, Debug, PartialEq, Eq, Structural)]
pub struct Style {
    pub fg: Option<Color>,
    pub bg: Option<Color>,
    pub modifier: Modifier,
    pub underline_color: Option<Color>,
}

impl Default for Style {
    fn default() -> (r: Self)
        ensures
            r.fg is None,
            r.bg is None,
            r.underline_color is None,
            r.modifier == (Modifier {
                bold: false,
                dim: false,
                italic: false,
                underline: false,
                hidden: false,
                strike: false,
            }),
    {
        Style { fg: None, bg: None, modifier: Modifier::default(), underline_color: None }
    }
}

/// An opaque label that marks an element as a target of pointer events.
#[derive(Debug, PartialEq, Eq, PartialOrd, Ord, Hash)]
pub struct InteractTag(Vec<u8>);

impl View for InteractTag {
    type V = Seq<u8>;

    closed spec fn view(&self) -> Seq<u8> {
        self.0@
    }
}

impl Clone for InteractTag {
    fn clone(&self) -> (r: Self)
        ensures
            r@ == self@,
    {
        InteractTag(self.0.clone())
    }
}

impl InteractTag {
    /// The label's bytes.
    pub fn as_bytes(&self) -> (r: &[u8])
        ensures
            r@ == self@,
    {
        self.0.as_slice()
    }

    /// The label made of `bytes`.
    pub fn from_bytes(bytes: &[u8]) -> (r: Self)
        ensures
            r@ == bytes@,
    {
        InteractTag(slice_to_vec(bytes))
    }
}

/// The characters that border lines are drawn with.
#[derive(Debug)]
pub struct LineSet {
    pub vertical: String,
    pub horizontal: String,
    pub top_right: String,
    pub top_left: String,
    pub bottom_right: String,
    pub bottom_left: String,
    pub vertical_left: String,
    pub vertical_right: String,
    pub horizontal_down: String,
    pub horizontal_up: String,
    pub cross: String,
}

impl LineSet {
    /// Whether the set is made of these eleven strings, in the order of the
    /// fields.
    pub open spec fn made_of(
        self,
        vertical: &str,
        horizontal: &str,
        top_right: &str,
        top_left: &str,
        bottom_right: &str,
        bottom_left: &str,
        vertical_left: &str,
        vertical_right: &str,
        horizontal_down: &str,
        horizontal_up: &str,
        cross: &str,
    ) -> bool {
        &&& self.vertical@ == vertical@
        &&& self.horizontal@ == horizontal@
        &&& self.top_right@ == top_right@
        &&& self.top_left@ == top_left@
        &&& self.bottom_right@ == bottom_right@
        &&& self.bottom_left@ == bottom_left@
        &&& self.vertical_left@ == vertical_left@
        &&& self.vertical_right@ == vertical_right@
        &&& self.horizontal_down@ == horizontal_down@
        &&& self.horizontal_up@ == horizontal_up@
        &&& self.cross@ == cross@
    }

    /// Whether the two sets are made of the same strings.
    pub open spec fn same_text(self, other: LineSet) -> bool {
        &&& self.vertical@ == other.vertical@
        &&& self.horizontal@ == other.horizontal@
        &&& self.top_right@ == other.top_right@
        &&& self.top_left@ == other.top_left@
        &&& self.bottom_right@ == other.bottom_right@
        &&& self.bottom_left@ == other.bottom_left@
        &&& self.vertical_left@ == other.vertical_left@
        &&& self.vertical_right@ == other.vertical_right@
        &&& self.horizontal_down@ == other.horizontal_down@
        &&& self.horizontal_up@ == other.horizontal_up@
        &&& self.cross@ == other.cross@
    }

    /// The set made of these eleven strings, in the order of the fields.
    fn of(
        vertical: &str,
        horizontal: &str,
        top_right: &str,
        top_left: &str,
        bottom_right: &str,
        bottom_left: &str,
        vertical_left: &str,
        vertical_right: &str,
        horizontal_down: &str,
        horizontal_up: &str,
        cross: &str,
    ) -> (r: Self)
        ensures
            r.made_of(
                vertical,
                horizontal,
                top_right,
                top_left,
                bottom_right,
                bottom_left,
                vertical_left,
                vertical_right,
                horizontal_down,
                horizontal_up,
                cross,
            ),
    {
        LineSet {
            vertical: vertical.to_owned(),
            horizontal: horizontal.to_owned(),
            top_right: top_right.to_owned(),
            top_left: top_left.to_owned(),
            bottom_right: bottom_right.to_owned(),
            bottom_left: bottom_left.to_owned(),
            vertical_left: vertical_left.to_owned(),
            vertical_right: vertical_right.to_owned(),
            horizontal_down: horizontal_down.to_owned(),
            horizontal_up: horizontal_up.to_owned(),
            cross: cross.to_owned(),
        }
    }

    /// The light line characters.
    pub fn normal() -> (r: Self)
        ensures
            r.made_of("│", "─", "┐", "┌", "┘", "└", "┤", "├", "┬", "┴", "┼"),
    {
        Self::of("│", "─", "┐", "┌", "┘", "└", "┤", "├", "┬", "┴", "┼")
    }

    /// The light line characters with round corners.
    pub fn rounded() -> (r: Self)
        ensures
            r.made_of("│", "─", "╮", "╭", "╯", "╰", "┤", "├", "┬", "┴", "┼"),
    {
        Self::of("│", "─", "╮", "╭", "╯", "╰", "┤", "├", "┬", "┴", "┼")
    }

    /// The double line characters.
    pub fn double() -> (r: Self)
        ensures
            r.made_of("║", "═", "╗", "╔", "╝", "╚", "╣", "╠", "╦", "╩", "╬"),
    {
        Self::of("║", "═", "╗", "╔", "╝", "╚", "╣", "╠", "╦", "╩", "╬")
    }

    /// The heavy line characters.
    pub fn thick() -> (r: Self)
        ensures
            r.made_of("┃", "━", "┓", "┏", "┛", "┗", "┫", "┣", "┳", "┻", "╋"),
    {
        Self::of("┃", "━", "┓", "┏", "┛", "┗", "┫", "┣", "┳", "┻", "╋")
    }

    /// The light line characters with lines of two dashes.
    pub fn light_double_dashed() -> (r: Self)
        ensures
            r.made_of("╎", "╌", "┐", "┌", "┘", "└", "┤", "├", "┬", "┴", "┼"),
    {
        Self::of("╎", "╌", "┐", "┌", "┘", "└", "┤", "├", "┬", "┴", "┼")
    }

    /// The heavy line characters with lines of two dashes.
    pub fn heavy_double_dashed() -> (r: Self)
        ensures
            r.made_of("╏", "╍", "┓", "┏", "┛", "┗", "┫", "┣", "┳", "┻", "╋"),
    {
        Self::of("╏", "╍", "┓", "┏", "┛", "┗", "┫", "┣", "┳", "┻", "╋")
    }

    /// The light line characters with lines of three dashes.
    pub fn light_triple_dashed() -> (r: Self)
        ensures
            r.made_of("┆", "┄", "┐", "┌", "┘", "└", "┤", "├", "┬", "┴", "┼"),
    {
        Self::of("┆", "┄", "┐", "┌", "┘", "└", "┤", "├", "┬", "┴", "┼")
    }

    /// The heavy line characters with lines of three dashes.
    pub fn heavy_triple_dashed() -> (r: Self)
        ensures
            r.made_of("┇", "┅", "┓", "┏", "┛", "┗", "┫", "┣", "┳", "┻", "╋"),
    {
        Self::of("┇", "┅", "┓", "┏", "┛", "┗", "┫", "┣", "┳", "┻", "╋")
    }

    /// The light line characters with lines of four dashes.
    pub fn light_quadruple_dashed() -> (r: Self)
        ensures
            r.made_of("┊", "┈", "┐", "┌", "┘", "└", "┤", "├", "┬", "┴", "┼"),
    {
        Self::of("┊", "┈", "┐", "┌", "┘", "└", "┤", "├", "┬", "┴", "┼")
    }

    /// The heavy line characters with lines of four dashes.
    pub fn heavy_quadruple_dashed() -> (r: Self)
        ensures
            r.made_of("┋", "┉", "┓", "┏", "┛", "┗", "┫", "┣", "┳", "┻", "╋"),
    {
        Self::of("┋", "┉", "┓", "┏", "┛", "┗", "┫", "┣", "┳", "┻", "╋")
    }
}

impl Default for LineSet {
    /// The set of eleven empty strings.
    fn default() -> (r: Self)
        ensures
            r.made_of("", "", "", "", "", "", "", "", "", "", ""),
    {
        Self::of("", "", "", "", "", "", "", "", "", "", "")
    }
}

/// `image::ImageFormat`, the picture formats that the `image` crate knows:
/// carried along with a picture's bytes and never looked into.
#[verifier::external_type_specification]
#[verifier::external_body]
pub struct ExImageFormat(image::ImageFormat);

/// `image::ImageFormat` is a plain `Copy` enum: its clone is the value itself.
pub assume_specification[ <image::ImageFormat as Clone>::clone ](
    format: &image::ImageFormat,
) -> (r: image::ImageFormat)
    ensures
        r == *format,
;

/// A picture: its encoded bytes, the format they are in, and its pixel extent
/// once it has been decoded.
#[derive(Debug)]
pub struct Image {
    pub data: Vec<u8>,
    pub format: image::ImageFormat,
    pub cached: Option<PixelSize>,
}

/// A box around an optional inner element, with a border line on some sides.
#[derive(Debug)]
pub struct Block {
    pub borders: Borders,
    pub border_style: Style,
    pub border_set: LineSet,
    pub inner: Option<Box<Element>>,
}

/// Parts laid out one after the other along an axis.
#[derive(Debug)]
pub struct Subdiv {
    pub axis: Axis,
    pub parts: Vec<SubPart>,
}

/// One part of a subdivision: how much room it takes, and what it shows.
#[derive(Debug)]
pub struct SubPart {
    pub constr: Constraint,
    pub elem: Element,
}

/// What an element shows.
#[derive(Debug)]
pub enum ElementKind {
    Subdivide(Subdiv),
    PlainText(String),
    Image(Image),
    Block(Block),
    Empty,
}

/// A node of the tree that describes one frame: what it shows, and the tag
/// under which pointer events on it are reported, if it takes any.
#[derive(Debug)]
pub struct Element {
    pub tag: Option<InteractTag>,
    pub kind: ElementKind,
}

/// A whole frame.
#[derive(Debug)]
pub struct Tui {
    pub root: Element,
}

impl Default for ElementKind {
    fn default() -> (r: Self)
        ensures
            r is Empty,
    {
        ElementKind::Empty
    }
}

impl Default for Element {
    fn default() -> (r: Self)
        ensures
            r.tag is None,
            r.kind is Empty,
    {
        Element { tag: None, kind: ElementKind::Empty }
    }
}

impl From<Subdiv> for ElementKind {
    fn from(value: Subdiv) -> (r: Self) {
        ElementKind::Subdivide(value)
    }
}

impl vstd::std_specs::convert::FromSpecImpl<Subdiv> for ElementKind {
    open spec fn obeys_from_spec() -> bool {
        true
    }

    open spec fn from_spec(value: Subdiv) -> Self {
        ElementKind::Subdivide(value)
    }
}

impl From<Image> for ElementKind {
    fn from(value: Image) -> (r: Self) {
        ElementKind::Image(value)
    }
}

impl vstd::std_specs::convert::FromSpecImpl<Image> for ElementKind {
    open spec fn obeys_from_spec() -> bool {
        true
    }

    open spec fn from_spec(value: Image) -> Self {
        ElementKind::Image(value)
    }
}

impl From<Block> for ElementKind {
    fn from(value: Block) -> (r: Self) {
        ElementKind::Block(value)
    }
}

impl vstd::std_specs::convert::FromSpecImpl<Block> for ElementKind {
    open spec fn obeys_from_spec() -> bool {
        true
    }

    open spec fn from_spec(value: Block) -> Self {
        ElementKind::Block(value)
    }
}

impl SubPart {
    /// A part that shows nothing and only takes room.
    pub fn spacing(constr: Constraint) -> (r: Self)
        ensures
            r.constr == constr,
            r.elem.tag is None,
            r.elem.kind is Empty,
    {
        SubPart { constr, elem: Element { kind: ElementKind::Empty, tag: None } }
    }
}

impl Clone for LineSet {
    fn clone(&self) -> (r: Self)
        ensures
            r.same_text(*self),
    {
        LineSet {
            vertical: self.vertical.clone(),
            horizontal: self.horizontal.clone(),
            top_right: self.top_right.clone(),
            top_left: self.top_left.clone(),
            bottom_right: self.bottom_right.clone(),
            bottom_left: self.bottom_left.clone(),
            vertical_left: self.vertical_left.clone(),
            vertical_right: self.vertical_right.clone(),
            horizontal_down: self.horizontal_down.clone(),
            horizontal_up: self.horizontal_up.clone(),
            cross: self.cross.clone(),
        }
    }
}

impl Clone for Image {
    fn clone(&self) -> (r: Self)
        ensures
            r.data@ == self.data@,
            r.format == self.format,
            r.cached == self.cached,
    {
        Image { data: self.data.clone(), format: self.format.clone(), cached: self.cached }
    }
}

impl Element {
    /// Whether the two trees hold the same: each is the other with no pixel
    /// extent stored since.
    pub open spec fn same_content(self, other: Element) -> bool {
        self.loaded_from(other) && other.loaded_from(self)
    }

    /// A copy of the tree.
    pub fn duplicate(&self) -> (r: Self)
        ensures
            r.same_content(*self),
        decreases self,
    {
        let tag = match &self.tag {
            Some(tag) => Some(tag.clone()),
            None => None,
        };
        Element { tag, kind: self.kind.duplicate() }
    }
}

impl ElementKind {
    /// A copy of what an element shows.
    pub fn duplicate(&self) -> (r: Self)
        ensures
            r.loaded_from(*self),
            self.loaded_from(r),
        decreases self,
    {
        match self {
            ElementKind::Subdivide(subdiv) => ElementKind::Subdivide(subdiv.duplicate()),
            ElementKind::PlainText(text) => ElementKind::PlainText(text.clone()),
            ElementKind::Image(image) => ElementKind::Image(image.clone()),
            ElementKind::Block(block) => ElementKind::Block(block.duplicate()),
            ElementKind::Empty => ElementKind::Empty,
        }
    }
}

impl Block {
    /// A copy of the block.
    pub fn duplicate(&self) -> (r: Self)
        ensures
            r.loaded_from(*self),
            self.loaded_from(r),
        decreases self,
    {
        let inner = match &self.inner {
            Some(inner) => Some(Box::new(inner.duplicate())),
            None => None,
        };
        Block {
            borders: self.borders,
            border_style: self.border_style,
            border_set: self.border_set.clone(),
            inner,
        }
    }
}

impl SubPart {
    /// A copy of the part.
    pub fn duplicate(&self) -> (r: Self)
        ensures
            r.loaded_from(*self),
            self.loaded_from(r),
        decreases self,
    {
        SubPart { constr: self.constr, elem: self.elem.duplicate() }
    }
}

impl Subdiv {
    /// A copy of the subdivision.
    pub fn duplicate(&self) -> (r: Self)
        ensures
            r.loaded_from(*self),
            self.loaded_from(r),
        decreases self,
    {
        let n = self.parts.len();
        let mut parts: Vec<SubPart> = Vec::new();
        let mut i: usize = 0;
        while i < n
            invariant
                i <= n,
                n == self.parts@.len(),
                parts@.len() == i,
                forall|j: int|
                    0 <= j < i ==> (#[trigger] parts@[j]).loaded_from(self.parts@[j])
                        && self.parts@[j].loaded_from(parts@[j]),
            decreases n - i,
        {
            parts.push(self.parts[i].duplicate());
            i = i + 1;
        }
        Subdiv { axis: self.axis, parts }
    }
}

impl Clone for Element {
    fn clone(&self) -> (r: Self)
        ensures
            r.same_content(*self),
    {
        self.duplicate()
    }
}

impl Clone for ElementKind {
    fn clone(&self) -> (r: Self)
        ensures
            r.loaded_from(*self),
            self.loaded_from(r),
    {
        self.duplicate()
    }
}

impl Clone for Block {
    fn clone(&self) -> (r: Self)
        ensures
            r.loaded_from(*self),
            self.loaded_from(r),
    {
        self.duplicate()
    }
}

impl Clone for SubPart {
    fn clone(&self) -> (r: Self)
        ensures
            r.loaded_from(*self),
            self.loaded_from(r),
    {
        self.duplicate()
    }
}

impl Clone for Subdiv {
    fn clone(&self) -> (r: Self)
        ensures
            r.loaded_from(*self),
            self.loaded_from(r),
    {
        self.duplicate()
    }
}

impl Clone for Tui {
    fn clone(&self) -> (r: Self)
        ensures
            r.root.same_content(self.root),
    {
        Tui { root: self.root.duplicate() }
    }
}

} // verus!
