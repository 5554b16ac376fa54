//! The intrinsic size of an element tree.
//!
//! A tree is measured under a context that may fix its width, its height or
//! both. A node fixed in both is as large as it is told to be. Any other node
//! is measured by its content, and a fixed dimension then imposed on the
//! result.

use vstd::prelude::*;

use crate::tui::layout::{clamp_u16, Axis, Size};
use crate::tui::picture::fit_cells;
use crate::tui::text::{measure_text, text_size};
use crate::tui::{
    Block, Borders, Constraint, Element, ElementKind, Image, InteractTag, SubPart, Subdiv, Tui,
};

verus! {

/// Why an element tree could not be measured.
#[derive(Debug, Clone, Copy, PartialEq, Eq, Structural)]
pub enum SizeError {
    /// An image was reached with neither its width nor its height fixed.
    NoFixedDimension,
    /// An image's bytes could not be decoded.
    ImageDecode,
}

/// What a measurement works with: the pixel extent of one font cell, and the
/// dimensions, in cells, that an ancestor has already fixed.
#[derive(Debug, Clone, Copy, PartialEq, Eq, Structural)]
pub struct SizingContext {
    pub font_size: Size,
    pub div_w: Option<u16>,
    pub div_h: Option<u16>,
}

impl SizingContext {
    /// This context with the dimension along `axis` replaced by `fixed`.
    pub open spec fn with_axis(self, axis: Axis, fixed: Option<u16>) -> SizingContext {
        match axis {
            Axis::Horizontal => SizingContext { div_w: fixed, ..self },
            Axis::Vertical => SizingContext { div_h: fixed, ..self },
        }
    }

    /// `size` with each dimension that this context fixes replaced by the
    /// fixed value.
    pub open spec fn impose(self, size: Size) -> Size {
        Size {
            w: match self.div_w {
                Some(w) => w,
                None => size.w,
            },
            h: match self.div_h {
                Some(h) => h,
                None => size.h,
            },
        }
    }

    /// What a node reports under this context when its content measures
    /// `content`: the fixed size alone where both dimensions are fixed,
    /// whatever the content; else the content's error, or its size with the
    /// fixed dimension imposed.
    pub open spec fn settle(self, content: Result<Size, SizeError>) -> Result<Size, SizeError> {
        match (self.div_w, self.div_h) {
            (Some(w), Some(h)) => Ok(Size { w, h }),
            _ => match content {
                Ok(size) => Ok(self.impose(size)),
                Err(e) => Err(e),
            },
        }
    }
}

/// `size` with a cell added for each border of `borders`, each dimension held
/// to the `u16` range.
pub open spec fn bordered(size: Size, borders: Borders) -> Size {
    Size {
        w: clamp_u16(size.w + borders.extra_w()) as u16,
        h: clamp_u16(size.h + borders.extra_h()) as u16,
    }
}

/// The context in which a part with constraint `constr` of a subdivision along
/// `axis` is measured: a length fixes the extent along the axis, a fill frees
/// it, and an automatic part is measured as its parent is.
pub open spec fn part_context(constr: Constraint, axis: Axis, ctx: SizingContext) -> SizingContext {
    match constr {
        Constraint::Length(l) => ctx.with_axis(axis, Some(l)),
        Constraint::Fill(_) => ctx.with_axis(axis, None),
        Constraint::Auto => ctx,
    }
}

/// What a part that measures `measured` adds to its subdivision: a fill adds
/// nothing along the axis.
pub open spec fn part_share(constr: Constraint, axis: Axis, measured: Size) -> Size {
    match constr {
        Constraint::Fill(_) => match axis {
            Axis::Horizontal => Size { w: 0, h: measured.h },
            Axis::Vertical => Size { w: measured.w, h: 0 },
        },
        _ => measured,
    }
}

/// `acc` with one more part of size `part`: along `axis` the extents add up,
/// held to the `u16` range; across it the larger one stands.
pub open spec fn stacked(axis: Axis, acc: Size, part: Size) -> Size {
    match axis {
        Axis::Horizontal => Size {
            w: clamp_u16(acc.w + part.w) as u16,
            h: if part.h > acc.h { part.h } else { acc.h },
        },
        Axis::Vertical => Size {
            w: if part.w > acc.w { part.w } else { acc.w },
            h: clamp_u16(acc.h + part.h) as u16,
        },
    }
}

/// The bytes of a tag, if there is one.
pub open spec fn tag_content(tag: Option<InteractTag>) -> Option<Seq<u8>> {
    match tag {
        Some(t) => Some(t@),
        None => None,
    }
}

impl Element {
    /// The element's size under `ctx`: that of what it shows.
    pub open spec fn size_spec(self, ctx: SizingContext) -> Result<Size, SizeError>
        decreases self,
    {
        self.kind.size_spec(ctx)
    }

    /// Whether this is `before`, with at most the pixel extents of some of
    /// its pictures stored since.
    pub open spec fn loaded_from(self, before: Element) -> bool
        decreases self,
    {
        tag_content(self.tag) == tag_content(before.tag) && self.kind.loaded_from(before.kind)
    }
}

impl ElementKind {
    /// What the content measures by itself, before the context's fixed
    /// dimensions are imposed.
    pub open spec fn content_size(self, ctx: SizingContext) -> Result<Size, SizeError>
        decreases self, 0nat,
    {
        match self {
            ElementKind::Subdivide(subdiv) => subdiv.size_spec(ctx),
            ElementKind::PlainText(text) => Ok(text_size(text@)),
            ElementKind::Image(image) => image.size_spec(ctx),
            ElementKind::Block(block) => block.size_spec(ctx),
            ElementKind::Empty => Ok(Size { w: 0, h: 0 }),
        }
    }

    /// The size under `ctx`: a region fixed in both dimensions has that size
    /// whatever it holds; else the content is measured and the fixed
    /// dimension, if there is one, imposed.
    pub open spec fn size_spec(self, ctx: SizingContext) -> Result<Size, SizeError>
        decreases self, 1nat,
    {
        ctx.settle(self.content_size(ctx))
    }

    /// Whether this is `before`, with at most the pixel extents of some of
    /// its pictures stored since.
    pub open spec fn loaded_from(self, before: ElementKind) -> bool
        decreases self,
    {
        match (self, before) {
            (ElementKind::Subdivide(a), ElementKind::Subdivide(b)) => a.loaded_from(b),
            (ElementKind::PlainText(a), ElementKind::PlainText(b)) => a@ == b@,
            (ElementKind::Image(a), ElementKind::Image(b)) => a.loaded_from(b),
            (ElementKind::Block(a), ElementKind::Block(b)) => a.loaded_from(b),
            (ElementKind::Empty, ElementKind::Empty) => true,
            _ => false,
        }
    }
}

impl Block {
    /// The size under `ctx`: that of the inner element, or nothing, with the
    /// borders added; then the context's fixed dimensions imposed.
    pub open spec fn size_spec(self, ctx: SizingContext) -> Result<Size, SizeError>
        decreases self,
    {
        ctx.settle(
            match self.inner {
                Some(inner) => match inner.size_spec(ctx) {
                    Ok(size) => Ok(bordered(size, self.borders)),
                    Err(e) => Err(e),
                },
                None => Ok(bordered(Size { w: 0, h: 0 }, self.borders)),
            },
        )
    }

    /// Whether this is `before`, with at most the pixel extents of some of
    /// its pictures stored since.
    pub open spec fn loaded_from(self, before: Block) -> bool
        decreases self,
    {
        &&& self.borders == before.borders
        &&& self.border_style == before.border_style
        &&& self.border_set.same_text(before.border_set)
        &&& match (self.inner, before.inner) {
            (Some(a), Some(b)) => a.loaded_from(*b),
            (None, None) => true,
            _ => false,
        }
    }
}

impl SubPart {
    /// What the part adds to a subdivision along `axis` under `ctx`.
    pub open spec fn size_spec(self, axis: Axis, ctx: SizingContext) -> Result<Size, SizeError>
        decreases self,
    {
        match self.elem.size_spec(part_context(self.constr, axis, ctx)) {
            Ok(size) => Ok(part_share(self.constr, axis, size)),
            Err(e) => Err(e),
        }
    }

    /// Whether this is `before`, with at most the pixel extents of some of
    /// its pictures stored since.
    pub open spec fn loaded_from(self, before: SubPart) -> bool
        decreases self,
    {
        self.constr == before.constr && self.elem.loaded_from(before.elem)
    }
}

/// The size of the parts `parts` laid out along `axis`: each part's share
/// stacked on those before it, or the error of the first part that has one.
pub open spec fn parts_size(axis: Axis, parts: Seq<SubPart>, ctx: SizingContext) -> Result<
    Size,
    SizeError,
>
    decreases parts,
{
    if parts.len() == 0 {
        Ok(Size { w: 0, h: 0 })
    } else {
        match parts_size(axis, parts.drop_last(), ctx) {
            Err(e) => Err(e),
            Ok(acc) => match parts.last().size_spec(axis, ctx) {
                Err(e) => Err(e),
                Ok(size) => Ok(stacked(axis, acc, size)),
            },
        }
    }
}

/// Whether each part of `parts` is the part of `before` at its place, with at
/// most the pixel extents of some of its pictures stored since.
pub open spec fn parts_loaded_from(parts: Seq<SubPart>, before: Seq<SubPart>) -> bool
    decreases parts,
{
    &&& parts.len() == before.len()
    &&& forall|i: int| 0 <= i < parts.len() ==> (#[trigger] parts[i]).loaded_from(before[i])
}

impl Subdiv {
    /// The size under `ctx`: that of the parts along the axis, then the
    /// context's fixed dimensions imposed.
    pub open spec fn size_spec(self, ctx: SizingContext) -> Result<Size, SizeError>
        decreases self,
    {
        ctx.settle(parts_size(self.axis, self.parts@, ctx))
    }

    /// Whether this is `before`, with at most the pixel extents of some of
    /// its pictures stored since.
    pub open spec fn loaded_from(self, before: Subdiv) -> bool
        decreases self,
    {
        self.axis == before.axis && parts_loaded_from(self.parts@, before.parts@)
    }
}

/// What a node reports when its content measures `content`: see
/// `SizingContext::settle`.
fn settle(ctx: SizingContext, content: Result<Size, SizeError>) -> (r: Result<Size, SizeError>)
    ensures
        r == ctx.settle(content),
{
    match content {
        Ok(size) => Ok(
            Size {
                w: match ctx.div_w {
                    Some(w) => w,
                    None => size.w,
                },
                h: match ctx.div_h {
                    Some(h) => h,
                    None => size.h,
                },
            },
        ),
        Err(e) => match (ctx.div_w, ctx.div_h) {
            (Some(w), Some(h)) => Ok(Size { w, h }),
            _ => Err(e),
        },
    }
}

/// `acc` with one more part of size `part`: see `stacked`.
fn stack(axis: Axis, acc: Size, part: Size) -> (r: Size)
    ensures
        r == stacked(axis, acc, part),
{
    match axis {
        Axis::Horizontal => Size {
            w: acc.w.saturating_add(part.w),
            h: if part.h > acc.h { part.h } else { acc.h },
        },
        Axis::Vertical => Size {
            w: if part.w > acc.w { part.w } else { acc.w },
            h: acc.h.saturating_add(part.h),
        },
    }
}

/// The rule that every node's measurement obeys. A region fixed in both
/// dimensions has that size, and `measure` is not run. Else `measure` is run:
/// its error stands, and on its size the fixed dimension, if any, is imposed.
pub fn auto_size_invariants<F: FnOnce() -> Result<Size, SizeError>>(
    ctx: SizingContext,
    measure: F,
) -> (r: Result<Size, SizeError>)
    requires
        ctx.div_w is None || ctx.div_h is None ==> measure.requires(()),
    ensures
        ctx.div_w is Some && ctx.div_h is Some ==> r == Ok::<Size, SizeError>(
            Size { w: ctx.div_w.unwrap(), h: ctx.div_h.unwrap() },
        ),
        ctx.div_w is None || ctx.div_h is None ==> exists|content: Result<Size, SizeError>|
            measure.ensures((), content) && r == ctx.settle(content),
{
    match (ctx.div_w, ctx.div_h) {
        (Some(w), Some(h)) => Ok(Size { w, h }),
        _ => {
            let content = measure();
            settle(ctx, content)
        },
    }
}

impl Tui {
    /// The size of the whole frame under `ctx`.
    pub fn calc_size(&mut self, ctx: SizingContext) -> (r: Result<Size, SizeError>)
        ensures
            r == old(self).root.size_spec(ctx),
            final(self).root.loaded_from(old(self).root),
            ctx.div_w is Some && ctx.div_h is Some ==> *final(self) == *old(self),
    {
        self.root.calc_auto_size(ctx)
    }
}

impl Element {
    /// The element's size under `ctx`. Pictures that had to be decoded keep
    /// their pixel extent; nothing else in the tree changes.
    pub fn calc_auto_size(&mut self, ctx: SizingContext) -> (r: Result<Size, SizeError>)
        ensures
            r == old(self).size_spec(ctx),
            final(self).loaded_from(*old(self)),
            ctx.div_w is Some && ctx.div_h is Some ==> *final(self) == *old(self),
        decreases *old(self),
    {
        self.kind.calc_auto_size(ctx)
    }
}

impl ElementKind {
    /// The size under `ctx` of what an element shows. Pictures that had to be
    /// decoded keep their pixel extent; nothing else in the tree changes.
    pub fn calc_auto_size(&mut self, ctx: SizingContext) -> (r: Result<Size, SizeError>)
        ensures
            r == old(self).size_spec(ctx),
            final(self).loaded_from(*old(self)),
            ctx.div_w is Some && ctx.div_h is Some ==> *final(self) == *old(self),
        decreases *old(self),
    {
        if let (Some(w), Some(h)) = (ctx.div_w, ctx.div_h) {
            proof {
                lemma_kind_loaded_from_self(*self);
            }
            return Ok(Size { w, h });
        }
        let content = match self {
            ElementKind::Subdivide(subdiv) => subdiv.calc_auto_size(ctx),
            ElementKind::PlainText(text) => Ok(measure_text(text.as_str())),
            ElementKind::Image(image) => image.calc_auto_size(ctx),
            ElementKind::Block(block) => block.calc_auto_size(ctx),
            ElementKind::Empty => Ok(Size { w: 0, h: 0 }),
        };
        settle(ctx, content)
    }
}

impl Block {
    /// The size under `ctx` of the box with its borders.
    pub fn calc_auto_size(&mut self, ctx: SizingContext) -> (r: Result<Size, SizeError>)
        ensures
            r == old(self).size_spec(ctx),
            final(self).loaded_from(*old(self)),
            ctx.div_w is Some && ctx.div_h is Some ==> *final(self) == *old(self),
        decreases *old(self),
    {
        if let (Some(w), Some(h)) = (ctx.div_w, ctx.div_h) {
            proof {
                lemma_block_loaded_from_self(*self);
            }
            return Ok(Size { w, h });
        }
        let inner = match &mut self.inner {
            Some(inner) => inner.calc_auto_size(ctx),
            None => Ok(Size { w: 0, h: 0 }),
        };
        let content = match inner {
            Ok(size) => {
                let extra_w: u16 = (if self.borders.left { 1u16 } else { 0u16 }) + (if self.borders.right { 1u16 } else { 0u16 });
                let extra_h: u16 = (if self.borders.top { 1u16 } else { 0u16 }) + (if self.borders.bottom { 1u16 } else { 0u16 });
                Ok(Size { w: size.w.saturating_add(extra_w), h: size.h.saturating_add(extra_h) })
            },
            Err(e) => Err(e),
        };
        settle(ctx, content)
    }
}

impl SubPart {
    /// What the part adds to a subdivision along `axis` under `ctx`.
    pub fn calc_auto_size(&mut self, axis: Axis, ctx: SizingContext) -> (r: Result<Size, SizeError>)
        ensures
            r == old(self).size_spec(axis, ctx),
            final(self).loaded_from(*old(self)),
        decreases *old(self),
    {
        match self.constr {
            Constraint::Length(l) => {
                let inner = match axis {
                    Axis::Horizontal => SizingContext { div_w: Some(l), ..ctx },
                    Axis::Vertical => SizingContext { div_h: Some(l), ..ctx },
                };
                self.elem.calc_auto_size(inner)
            },
            Constraint::Fill(_) => {
                let inner = match axis {
                    Axis::Horizontal => SizingContext { div_w: None, ..ctx },
                    Axis::Vertical => SizingContext { div_h: None, ..ctx },
                };
                match self.elem.calc_auto_size(inner) {
                    Ok(size) => Ok(
                        match axis {
                            Axis::Horizontal => Size { w: 0, h: size.h },
                            Axis::Vertical => Size { w: size.w, h: 0 },
                        },
                    ),
                    Err(e) => Err(e),
                }
            },
            Constraint::Auto => self.elem.calc_auto_size(ctx),
        }
    }
}

impl Subdiv {
    /// The size under `ctx` of the parts laid out along the axis. Measuring
    /// stops at the first part that has an error.
    pub fn calc_auto_size(&mut self, ctx: SizingContext) -> (r: Result<Size, SizeError>)
        ensures
            r == old(self).size_spec(ctx),
            final(self).loaded_from(*old(self)),
            ctx.div_w is Some && ctx.div_h is Some ==> *final(self) == *old(self),
        decreases *old(self),
    {
        if let (Some(w), Some(h)) = (ctx.div_w, ctx.div_h) {
            proof {
                lemma_parts_loaded_from_self(self.parts@);
            }
            return Ok(Size { w, h });
        }
        let axis = self.axis;
        let n = self.parts.len();
        let mut size = Size { w: 0, h: 0 };
        let mut i: usize = 0;
        proof {
            lemma_parts_loaded_from_self(self.parts@);
        }
        while i < n
            invariant
                i <= n,
                n == self.parts@.len(),
                self.axis == axis,
                axis == old(self).axis,
                ctx.div_w is None || ctx.div_h is None,
                parts_loaded_from(self.parts@, old(self).parts@),
                forall|j: int| i <= j < n ==> self.parts@[j] == old(self).parts@[j],
                parts_size(axis, old(self).parts@.take(i as int), ctx) == Ok::<Size, SizeError>(size),
            decreases n - i,
        {
            let ghost before = self.parts@;
            let part = &mut self.parts[i];
            let measured = part.calc_auto_size(axis, ctx);
            proof {
                let all = old(self).parts@;
                assert(all.take(i + 1).drop_last() =~= all.take(i as int));
                assert(all.take(i + 1).last() == all[i as int]);
                assert(before[i as int] == all[i as int]);
                assert forall|j: int| 0 <= j < n implies (#[trigger] self.parts@[j]).loaded_from(
                    all[j],
                ) by {
                    if j != i {
                        assert(self.parts@[j] == before[j]);
                    }
                }
            }
            match measured {
                Ok(share) => {
                    size = stack(axis, size, share);
                },
                Err(e) => {
                    proof {
                        let all = old(self).parts@;
                        assert(parts_size(axis, all.take(i + 1), ctx) == Err::<Size, SizeError>(e));
                        lemma_parts_error_stays(axis, all, ctx, i + 1);
                    }
                    return Err(e);
                },
            }
            i = i + 1;
        }
        proof {
            assert(old(self).parts@.take(n as int) =~= old(self).parts@);
        }
        settle(ctx, Ok(size))
    }
}

/// Every tree is itself with nothing stored since.
pub proof fn lemma_loaded_from_self(e: Element)
    ensures
        e.loaded_from(e),
    decreases e,
{
    lemma_kind_loaded_from_self(e.kind);
}

/// `lemma_loaded_from_self`, for what an element shows.
pub proof fn lemma_kind_loaded_from_self(k: ElementKind)
    ensures
        k.loaded_from(k),
    decreases k,
{
    match k {
        ElementKind::Subdivide(a) => {
            lemma_parts_loaded_from_self(a.parts@);
        },
        ElementKind::Block(a) => {
            lemma_block_loaded_from_self(a);
        },
        _ => {},
    }
}

/// `lemma_loaded_from_self`, for a block.
pub proof fn lemma_block_loaded_from_self(b: Block)
    ensures
        b.loaded_from(b),
    decreases b,
{
    match b.inner {
        Some(x) => {
            lemma_loaded_from_self(*x);
        },
        None => {},
    }
}

/// `lemma_loaded_from_self`, for the parts of a subdivision.
pub proof fn lemma_parts_loaded_from_self(parts: Seq<SubPart>)
    ensures
        parts_loaded_from(parts, parts),
    decreases parts,
{
    assert forall|i: int| 0 <= i < parts.len() implies (#[trigger] parts[i]).loaded_from(
        parts[i],
    ) by {
        lemma_loaded_from_self(parts[i].elem);
    }
}

/// Measuring is repeatable: the tree that a measurement leaves behind, with
/// the pixel extents of some pictures stored, measures as the tree did
/// before, under every context.
pub proof fn lemma_loaded_same_size(after: Element, before: Element, ctx: SizingContext)
    requires
        after.loaded_from(before),
    ensures
        after.size_spec(ctx) == before.size_spec(ctx),
    decreases after,
{
    lemma_kind_loaded_same_size(after.kind, before.kind, ctx);
}

/// `lemma_loaded_same_size`, for what an element shows.
pub proof fn lemma_kind_loaded_same_size(after: ElementKind, before: ElementKind, ctx: SizingContext)
    requires
        after.loaded_from(before),
    ensures
        after.size_spec(ctx) == before.size_spec(ctx),
        after.content_size(ctx) == before.content_size(ctx),
    decreases after,
{
    match (after, before) {
        (ElementKind::Subdivide(a), ElementKind::Subdivide(b)) => {
            lemma_parts_loaded_same_size(a.axis, a.parts@, b.parts@, ctx);
        },
        (ElementKind::Block(a), ElementKind::Block(b)) => {
            match (a.inner, b.inner) {
                (Some(x), Some(y)) => {
                    lemma_loaded_same_size(*x, *y, ctx);
                },
                _ => {},
            }
        },
        _ => {},
    }
}

/// `lemma_loaded_same_size`, for the parts of a subdivision.
pub proof fn lemma_parts_loaded_same_size(
    axis: Axis,
    after: Seq<SubPart>,
    before: Seq<SubPart>,
    ctx: SizingContext,
)
    requires
        parts_loaded_from(after, before),
    ensures
        parts_size(axis, after, ctx) == parts_size(axis, before, ctx),
    decreases after,
{
    if after.len() > 0 {
        lemma_parts_loaded_same_size(axis, after.drop_last(), before.drop_last(), ctx);
        let a = after.last();
        let b = before.last();
        assert(a.loaded_from(b));
        lemma_loaded_same_size(a.elem, b.elem, part_context(a.constr, axis, ctx));
        assert(a.size_spec(axis, ctx) == b.size_spec(axis, ctx));
    } else {
        assert(before.len() == 0);
    }
}

/// The first part that cannot be measured decides: once the parts up to some
/// place give an error, all the parts give that error.
pub proof fn lemma_parts_error_stays(
    axis: Axis,
    parts: Seq<SubPart>,
    ctx: SizingContext,
    upto: int,
)
    requires
        0 <= upto <= parts.len(),
        parts_size(axis, parts.take(upto), ctx) is Err,
    ensures
        parts_size(axis, parts, ctx) == parts_size(axis, parts.take(upto), ctx),
    decreases parts.len() - upto,
{
    if upto < parts.len() {
        assert(parts.take(upto + 1).drop_last() =~= parts.take(upto));
        lemma_parts_error_stays(axis, parts, ctx, upto + 1);
    } else {
        assert(parts.take(upto) =~= parts);
    }
}

/// A region fixed in both dimensions has that size whatever it holds: the
/// content is not measured, and cannot fail.
pub proof fn lemma_fixed_region(e: Element, ctx: SizingContext)
    requires
        ctx.div_w is Some,
        ctx.div_h is Some,
    ensures
        e.size_spec(ctx) == Ok::<Size, SizeError>(
            Size { w: ctx.div_w.unwrap(), h: ctx.div_h.unwrap() },
        ),
{
}

/// A dimension that the context fixes is the dimension of the result,
/// whatever the content measures.
pub proof fn lemma_fixed_dimension_stands(e: Element, ctx: SizingContext)
    requires
        e.size_spec(ctx) is Ok,
    ensures
        ctx.div_w is Some ==> e.size_spec(ctx).unwrap().w == ctx.div_w.unwrap(),
        ctx.div_h is Some ==> e.size_spec(ctx).unwrap().h == ctx.div_h.unwrap(),
{
}

/// A fill part does not bear on the extent of its subdivision along the axis:
/// with it or without it, that extent is the same.
pub proof fn lemma_fill_adds_nothing(
    axis: Axis,
    parts: Seq<SubPart>,
    fill: SubPart,
    ctx: SizingContext,
)
    requires
        fill.constr is Fill,
        parts_size(axis, parts.push(fill), ctx) is Ok,
    ensures
        parts_size(axis, parts, ctx) is Ok,
        parts_size(axis, parts.push(fill), ctx).unwrap().along(axis) == parts_size(
            axis,
            parts,
            ctx,
        ).unwrap().along(axis),
{
    assert(parts.push(fill).drop_last() =~= parts);
    assert(parts.push(fill).last() == fill);
    let share = fill.size_spec(axis, ctx);
    assert(share is Ok);
    assert(share.unwrap().along(axis) == 0);
}

} // verus!
