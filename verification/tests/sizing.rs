use term_bar::tui::layout::{Axis, Size};
use term_bar::tui::{
    auto_size_invariants, fit_cells, measure_text, Block, Borders, Constraint, Element,
    ElementKind, Image, LineSet, PixelSize, SizeError, SizingContext, Style, SubPart, Subdiv, Tui,
};

const FONT: Size = Size { w: 8, h: 16 };

fn free() -> SizingContext {
    SizingContext { font_size: FONT, div_w: None, div_h: None }
}

fn fixed(w: Option<u16>, h: Option<u16>) -> SizingContext {
    SizingContext { font_size: FONT, div_w: w, div_h: h }
}

fn text(s: &str) -> Element {
    Element { tag: None, kind: ElementKind::PlainText(s.to_string()) }
}

fn part(constr: Constraint, elem: Element) -> SubPart {
    SubPart { constr, elem }
}

fn row(parts: Vec<SubPart>) -> Element {
    Element { tag: None, kind: ElementKind::Subdivide(Subdiv { axis: Axis::Horizontal, parts }) }
}

fn column(parts: Vec<SubPart>) -> Element {
    Element { tag: None, kind: ElementKind::Subdivide(Subdiv { axis: Axis::Vertical, parts }) }
}

fn block(borders: Borders, inner: Option<Element>) -> Element {
    Element {
        tag: None,
        kind: ElementKind::Block(Block {
            borders,
            border_style: Style::default(),
            border_set: LineSet::normal(),
            inner: inner.map(Box::new),
        }),
    }
}

fn png(width: u32, height: u32) -> Vec<u8> {
    let picture = image::RgbImage::new(width, height);
    let mut bytes = std::io::Cursor::new(Vec::new());
    picture.write_to(&mut bytes, image::ImageFormat::Png).unwrap();
    bytes.into_inner()
}

fn picture(data: Vec<u8>) -> Image {
    Image { data, format: image::ImageFormat::Png, cached: None }
}

fn picture_element(data: Vec<u8>) -> Element {
    Element { tag: None, kind: ElementKind::Image(picture(data)) }
}

#[test]
fn two_lengths_in_a_row_add_up() {
    let mut tree = row(vec![
        part(Constraint::Length(3), text("abc")),
        part(Constraint::Length(5), text("hello")),
    ]);
    assert_eq!(tree.calc_auto_size(free()), Ok(Size { w: 8, h: 1 }));
}

#[test]
fn a_length_overrides_what_the_text_measures() {
    let mut tree = row(vec![
        part(Constraint::Length(3), text("a much longer text\nin two lines")),
        part(Constraint::Length(5), text("x")),
    ]);
    assert_eq!(tree.calc_auto_size(free()), Ok(Size { w: 8, h: 2 }));
}

#[test]
fn two_lengths_in_a_column_add_up_the_other_way() {
    let mut tree = column(vec![
        part(Constraint::Length(3), text("abc")),
        part(Constraint::Length(5), text("hello")),
    ]);
    assert_eq!(tree.calc_auto_size(free()), Ok(Size { w: 5, h: 8 }));
}

#[test]
fn a_fill_adds_nothing_along_the_axis() {
    let mut tree = row(vec![
        part(Constraint::Auto, text("abc")),
        part(Constraint::Fill(1), text("wide filler\nsecond\nthird")),
    ]);
    assert_eq!(tree.calc_auto_size(free()), Ok(Size { w: 3, h: 3 }));
    let mut tree = column(vec![
        part(Constraint::Auto, text("abc")),
        part(Constraint::Fill(2), text("wide filler\nsecond\nthird")),
    ]);
    assert_eq!(tree.calc_auto_size(free()), Ok(Size { w: 11, h: 1 }));
}

#[test]
fn a_fill_frees_the_dimension_its_parent_fixed() {
    // The row's width is fixed from above; the fill part is measured without it.
    let mut tree = row(vec![part(Constraint::Fill(1), text("abc\ndef"))]);
    assert_eq!(tree.calc_auto_size(fixed(Some(40), None)), Ok(Size { w: 40, h: 2 }));
}

#[test]
fn an_automatic_part_is_measured_as_its_parent() {
    let mut tree = row(vec![part(Constraint::Auto, text("abc")), part(Constraint::Auto, text("de\nf"))]);
    assert_eq!(tree.calc_auto_size(free()), Ok(Size { w: 5, h: 2 }));
}

#[test]
fn an_empty_subdivision_has_no_size() {
    assert_eq!(row(vec![]).calc_auto_size(free()), Ok(Size { w: 0, h: 0 }));
    assert_eq!(SubPart::spacing(Constraint::Length(4)).calc_auto_size(Axis::Horizontal, free()), Ok(Size { w: 4, h: 0 }));
}

#[test]
fn spacing_shows_nothing() {
    let gap = SubPart::spacing(Constraint::Fill(3));
    assert_eq!(gap.constr, Constraint::Fill(3));
    assert!(gap.elem.tag.is_none());
    assert!(matches!(gap.elem.kind, ElementKind::Empty));
}

#[test]
fn the_sum_along_the_axis_stops_at_the_largest_size() {
    let mut tree = row(vec![
        part(Constraint::Length(60000), text("")),
        part(Constraint::Length(60000), text("")),
    ]);
    assert_eq!(tree.calc_auto_size(free()), Ok(Size { w: u16::MAX, h: 0 }));
}

#[test]
fn a_region_fixed_in_both_dimensions_is_not_measured() {
    let ctx = fixed(Some(12), Some(3));
    assert_eq!(text("a very long line of text").calc_auto_size(ctx), Ok(Size { w: 12, h: 3 }));
    // Not even a picture that cannot be decoded is looked at.
    let mut broken = picture_element(vec![1, 2, 3]);
    assert_eq!(broken.calc_auto_size(ctx), Ok(Size { w: 12, h: 3 }));
    let mut nested = row(vec![part(Constraint::Auto, picture_element(vec![]))]);
    assert_eq!(nested.calc_auto_size(ctx), Ok(Size { w: 12, h: 3 }));
    assert_eq!(Element { tag: None, kind: ElementKind::Empty }.calc_auto_size(ctx), Ok(Size { w: 12, h: 3 }));
}

#[test]
fn one_fixed_dimension_is_imposed_on_the_content() {
    assert_eq!(text("abc\nde").calc_auto_size(fixed(Some(10), None)), Ok(Size { w: 10, h: 2 }));
    assert_eq!(text("abc\nde").calc_auto_size(fixed(None, Some(7))), Ok(Size { w: 3, h: 7 }));
}

#[test]
fn measuring_twice_gives_the_same() {
    let mut tree = row(vec![
        part(Constraint::Length(5), picture_element(png(100, 50))),
        part(Constraint::Auto, block(Borders::all(), Some(text("abc\ndef")))),
        part(Constraint::Fill(1), text("filler")),
    ]);
    let ctx = fixed(None, None);
    let first = tree.calc_auto_size(ctx);
    let second = tree.calc_auto_size(ctx);
    assert_eq!(first, second);
    // picture: 5 wide gives ceil(5 * (50 / 100) * (8 / 16)) = 2 rows; block: 5 by 4
    assert_eq!(first, Ok(Size { w: 10, h: 4 }));
}

#[test]
fn a_picture_with_its_height_fixed_keeps_its_aspect() {
    let mut image = picture(png(100, 50));
    assert_eq!(image.calc_auto_size(fixed(None, Some(5))), Ok(Size { w: 20, h: 5 }));
    assert_eq!(image.cached, Some(PixelSize { width: 100, height: 50 }));
}

#[test]
fn a_picture_with_its_width_fixed_keeps_its_aspect() {
    let mut image = picture(png(100, 50));
    // ceil(20 * (50 / 100) * (8 / 16)) = 5
    assert_eq!(image.calc_auto_size(fixed(Some(20), None)), Ok(Size { w: 20, h: 5 }));
    // ceil(7 * 50 * 8 / (100 * 16)) = ceil(1.75) = 2
    assert_eq!(image.calc_auto_size(fixed(Some(7), None)), Ok(Size { w: 7, h: 2 }));
}

#[test]
fn a_picture_with_nothing_fixed_cannot_be_sized() {
    let mut image = picture(png(4, 4));
    assert_eq!(image.calc_auto_size(free()), Err(SizeError::NoFixedDimension));
    // It was not decoded for that.
    assert_eq!(image.cached, None);
}

#[test]
fn a_picture_that_does_not_decode_is_an_error() {
    let mut image = picture(vec![0, 1, 2, 3]);
    assert_eq!(image.calc_auto_size(fixed(None, Some(5))), Err(SizeError::ImageDecode));
    assert_eq!(image.cached, None);
    assert_eq!(image.load(), Err(SizeError::ImageDecode));
}

#[test]
fn loading_a_picture_stores_its_pixel_size() {
    let mut image = picture(png(3, 7));
    assert_eq!(image.load(), Ok(PixelSize { width: 3, height: 7 }));
    assert_eq!(image.cached, Some(PixelSize { width: 3, height: 7 }));
    assert_eq!(image.load(), Ok(PixelSize { width: 3, height: 7 }));
}

#[test]
fn a_stored_pixel_size_is_used_without_decoding() {
    let mut image = Image {
        data: vec![],
        format: image::ImageFormat::Png,
        cached: Some(PixelSize { width: 100, height: 50 }),
    };
    assert_eq!(image.load(), Ok(PixelSize { width: 100, height: 50 }));
    assert_eq!(image.calc_auto_size(fixed(None, Some(5))), Ok(Size { w: 20, h: 5 }));
}

#[test]
fn the_first_part_with_an_error_decides() {
    let mut tree = row(vec![
        part(Constraint::Auto, text("fine")),
        part(Constraint::Auto, picture_element(png(2, 2))),
        part(Constraint::Length(3), picture_element(vec![9, 9])),
    ]);
    assert_eq!(tree.calc_auto_size(free()), Err(SizeError::NoFixedDimension));
    let mut tree = column(vec![
        part(Constraint::Length(3), picture_element(vec![9, 9])),
        part(Constraint::Auto, picture_element(png(2, 2))),
    ]);
    assert_eq!(tree.calc_auto_size(fixed(None, None)), Err(SizeError::ImageDecode));
}

#[test]
fn fit_cells_by_the_formula() {
    let pixels = PixelSize { width: 100, height: 50 };
    assert_eq!(fit_cells(Axis::Horizontal, 5, pixels, FONT), 20);
    assert_eq!(fit_cells(Axis::Vertical, 20, pixels, FONT), 5);
    assert_eq!(fit_cells(Axis::Vertical, 21, pixels, FONT), 6);
    assert_eq!(fit_cells(Axis::Horizontal, 0, pixels, FONT), 0);
    // a third of a cell counts as a cell
    assert_eq!(fit_cells(Axis::Horizontal, 1, PixelSize { width: 1, height: 3 }, Size { w: 1, h: 1 }), 1);
    assert_eq!(fit_cells(Axis::Horizontal, 3, PixelSize { width: 1, height: 3 }, Size { w: 1, h: 1 }), 1);
    assert_eq!(fit_cells(Axis::Horizontal, 4, PixelSize { width: 1, height: 3 }, Size { w: 1, h: 1 }), 2);
}

#[test]
fn fit_cells_is_held_to_the_u16_range() {
    let wide = PixelSize { width: u32::MAX, height: 1 };
    assert_eq!(fit_cells(Axis::Horizontal, u16::MAX, wide, Size { w: 1, h: u16::MAX }), u16::MAX);
    assert_eq!(fit_cells(Axis::Horizontal, 1, PixelSize { width: 65536, height: 1 }, Size { w: 1, h: 1 }), u16::MAX);
    assert_eq!(fit_cells(Axis::Horizontal, 1, PixelSize { width: 65535, height: 1 }, Size { w: 1, h: 1 }), u16::MAX);
    assert_eq!(fit_cells(Axis::Horizontal, 1, PixelSize { width: 65534, height: 1 }, Size { w: 1, h: 1 }), 65534);
}

#[test]
fn fit_cells_with_a_zero_divisor() {
    let flat = PixelSize { width: 10, height: 0 };
    assert_eq!(fit_cells(Axis::Horizontal, 5, flat, FONT), u16::MAX);
    assert_eq!(fit_cells(Axis::Horizontal, 0, flat, FONT), 0);
    assert_eq!(fit_cells(Axis::Vertical, 5, flat, FONT), 0);
    let nothing = PixelSize { width: 0, height: 0 };
    assert_eq!(fit_cells(Axis::Horizontal, 5, nothing, FONT), 0);
    assert_eq!(fit_cells(Axis::Vertical, 5, nothing, FONT), 0);
    assert_eq!(fit_cells(Axis::Horizontal, 5, PixelSize { width: 10, height: 10 }, Size { w: 0, h: 16 }), u16::MAX);
    assert_eq!(fit_cells(Axis::Vertical, 5, PixelSize { width: 10, height: 10 }, Size { w: 8, h: 0 }), u16::MAX);
}

#[test]
fn text_is_as_wide_as_its_widest_line() {
    assert_eq!(measure_text(""), Size { w: 0, h: 0 });
    assert_eq!(measure_text("abc"), Size { w: 3, h: 1 });
    assert_eq!(measure_text("a\nbcd\nef"), Size { w: 3, h: 3 });
    assert_eq!(measure_text("a\n\nb"), Size { w: 1, h: 3 });
}

#[test]
fn a_final_line_ending_adds_no_line() {
    assert_eq!(measure_text("abc\n"), Size { w: 3, h: 1 });
    assert_eq!(measure_text("\n"), Size { w: 0, h: 1 });
    assert_eq!(measure_text("\n\n"), Size { w: 0, h: 2 });
    assert_eq!(measure_text("a\nbcd\n"), Size { w: 3, h: 2 });
}

#[test]
fn a_carriage_return_before_a_line_feed_is_not_counted() {
    assert_eq!(measure_text("abc\r\nd"), Size { w: 3, h: 2 });
    assert_eq!(measure_text("abc\r\n"), Size { w: 3, h: 1 });
    assert_eq!(measure_text("\r\n"), Size { w: 0, h: 1 });
    // alone, or at the end of the text, it is a character like any other
    assert_eq!(measure_text("abc\r"), Size { w: 4, h: 1 });
    assert_eq!(measure_text("a\rb\n"), Size { w: 3, h: 1 });
    assert_eq!(measure_text("ab\r\r\n"), Size { w: 3, h: 1 });
}

#[test]
fn text_is_measured_in_characters_not_bytes() {
    assert_eq!(measure_text("héllo"), Size { w: 5, h: 1 });
    assert_eq!(measure_text("│─│\n日本"), Size { w: 3, h: 2 });
}

#[test]
fn text_agrees_with_the_lines_of_the_standard_library() {
    for s in ["", "a", "a\n", "\n", "a\r\n", "a\r", "\r", "a\n\r\nb\r", "one\ntwo two\n\nthree\r\n"] {
        let w = s.lines().map(|l| l.chars().count()).max().unwrap_or(0);
        let h = s.lines().count();
        assert_eq!(measure_text(s), Size { w: w as u16, h: h as u16 });
    }
}

#[test]
fn very_long_text_is_held_to_the_u16_range() {
    let line = "x".repeat(70000);
    assert_eq!(measure_text(&line), Size { w: u16::MAX, h: 1 });
    let with_cr = format!("{}\r\n", "x".repeat(65536));
    assert_eq!(measure_text(&with_cr), Size { w: u16::MAX, h: 1 });
    let exact = format!("{}\r\n", "x".repeat(65534));
    assert_eq!(measure_text(&exact), Size { w: 65534, h: 1 });
    let many = "\n".repeat(70000);
    assert_eq!(measure_text(&many), Size { w: 0, h: u16::MAX });
}

#[test]
fn a_block_adds_a_cell_for_each_border() {
    assert_eq!(block(Borders::all(), Some(text("abc"))).calc_auto_size(free()), Ok(Size { w: 5, h: 3 }));
    let left_top = Borders { top: true, bottom: false, left: true, right: false };
    assert_eq!(block(left_top, Some(text("abc"))).calc_auto_size(free()), Ok(Size { w: 4, h: 2 }));
    assert_eq!(block(Borders::default(), Some(text("abc"))).calc_auto_size(free()), Ok(Size { w: 3, h: 1 }));
}

#[test]
fn a_block_without_content_is_its_borders() {
    assert_eq!(block(Borders::all(), None).calc_auto_size(free()), Ok(Size { w: 2, h: 2 }));
    assert_eq!(block(Borders::default(), None).calc_auto_size(free()), Ok(Size { w: 0, h: 0 }));
}

#[test]
fn a_block_passes_on_the_error_of_its_content() {
    let mut tree = block(Borders::all(), Some(picture_element(png(2, 2))));
    assert_eq!(tree.calc_auto_size(free()), Err(SizeError::NoFixedDimension));
}

#[test]
fn a_block_under_a_fixed_width_has_that_width() {
    // The inner picture is 10 wide, hence ceil(10 * (50 / 100) * (8 / 16)) = 3 high;
    // the borders add 2 to the height, and the width stays as fixed.
    let mut tree = block(Borders::all(), Some(picture_element(png(100, 50))));
    assert_eq!(tree.calc_auto_size(fixed(Some(10), None)), Ok(Size { w: 10, h: 5 }));
}

#[test]
fn the_borders_of_a_block_stop_at_the_largest_size() {
    let tall = "\n".repeat(70000);
    assert_eq!(block(Borders::all(), Some(text(&tall))).calc_auto_size(free()), Ok(Size { w: 2, h: u16::MAX }));
}

#[test]
fn an_empty_element_has_no_size() {
    assert_eq!(Element { tag: None, kind: ElementKind::Empty }.calc_auto_size(free()), Ok(Size { w: 0, h: 0 }));
    assert_eq!(ElementKind::Empty.calc_auto_size(fixed(Some(4), None)), Ok(Size { w: 4, h: 0 }));
}

#[test]
fn a_frame_is_measured_at_its_root() {
    let mut tui = Tui { root: text("abc\nde") };
    assert_eq!(tui.calc_size(free()), Ok(Size { w: 3, h: 2 }));
}

#[test]
fn the_rule_of_fixed_dimensions() {
    let measured = || Ok(Size { w: 3, h: 4 });
    assert_eq!(auto_size_invariants(free(), measured), Ok(Size { w: 3, h: 4 }));
    assert_eq!(auto_size_invariants(fixed(Some(9), None), measured), Ok(Size { w: 9, h: 4 }));
    assert_eq!(auto_size_invariants(fixed(None, Some(9)), measured), Ok(Size { w: 3, h: 9 }));
    let failing = || Err(SizeError::ImageDecode);
    assert_eq!(auto_size_invariants(fixed(Some(9), None), failing), Err(SizeError::ImageDecode));
    let mut ran = false;
    let watched = || {
        ran = true;
        Err(SizeError::ImageDecode)
    };
    assert_eq!(auto_size_invariants(fixed(Some(1), Some(2)), watched), Ok(Size { w: 1, h: 2 }));
    assert!(!ran);
}

#[test]
fn all_borders() {
    assert_eq!(Borders::all(), Borders { top: true, bottom: true, left: true, right: true });
    assert_eq!(Borders::default(), Borders { top: false, bottom: false, left: false, right: false });
}

#[test]
fn the_line_sets() {
    let normal = LineSet::normal();
    assert_eq!(
        [
            normal.vertical.as_str(),
            normal.horizontal.as_str(),
            normal.top_right.as_str(),
            normal.top_left.as_str(),
            normal.bottom_right.as_str(),
            normal.bottom_left.as_str(),
            normal.vertical_left.as_str(),
            normal.vertical_right.as_str(),
            normal.horizontal_down.as_str(),
            normal.horizontal_up.as_str(),
            normal.cross.as_str(),
        ],
        ["│", "─", "┐", "┌", "┘", "└", "┤", "├", "┬", "┴", "┼"]
    );
    let rounded = LineSet::rounded();
    assert_eq!(rounded.top_right, "╮");
    assert_eq!(rounded.top_left, "╭");
    assert_eq!(rounded.bottom_right, "╯");
    assert_eq!(rounded.bottom_left, "╰");
    assert_eq!(rounded.vertical, "│");
    assert_eq!(rounded.cross, "┼");
    let double = LineSet::double();
    assert_eq!(double.vertical, "║");
    assert_eq!(double.horizontal, "═");
    assert_eq!(double.cross, "╬");
    assert_eq!(double.horizontal_up, "╩");
    let thick = LineSet::thick();
    assert_eq!(thick.vertical, "┃");
    assert_eq!(thick.horizontal, "━");
    assert_eq!(thick.top_left, "┏");
    assert_eq!(thick.vertical_right, "┣");
}

#[test]
fn the_dashed_line_sets_differ_in_their_lines_only() {
    let light = [
        (LineSet::light_double_dashed(), "╎", "╌"),
        (LineSet::light_triple_dashed(), "┆", "┄"),
        (LineSet::light_quadruple_dashed(), "┊", "┈"),
    ];
    for (set, vertical, horizontal) in light {
        assert_eq!(set.vertical, vertical);
        assert_eq!(set.horizontal, horizontal);
        assert_eq!(set.top_right, LineSet::normal().top_right);
        assert_eq!(set.cross, LineSet::normal().cross);
    }
    let heavy = [
        (LineSet::heavy_double_dashed(), "╏", "╍"),
        (LineSet::heavy_triple_dashed(), "┇", "┅"),
        (LineSet::heavy_quadruple_dashed(), "┋", "┉"),
    ];
    for (set, vertical, horizontal) in heavy {
        assert_eq!(set.vertical, vertical);
        assert_eq!(set.horizontal, horizontal);
        assert_eq!(set.bottom_left, LineSet::thick().bottom_left);
        assert_eq!(set.cross, LineSet::thick().cross);
    }
}

#[test]
fn the_aspect_ratio_is_kept_exactly() {
    // 27 * (7 / 3) * (16 / 8) is 126 and no more
    assert_eq!(fit_cells(Axis::Horizontal, 27, PixelSize { width: 7, height: 3 }, FONT), 126);
    assert_eq!(fit_cells(Axis::Horizontal, 49, PixelSize { width: 1, height: 49 }, Size { w: 1, h: 1 }), 1);
    assert_eq!(fit_cells(Axis::Vertical, 1, PixelSize { width: 3, height: 1 }, Size { w: 1, h: 1 }), 1);
}

#[test]
fn a_copy_of_a_tree_holds_the_same() {
    let mut tree = row(vec![
        part(Constraint::Length(5), picture_element(png(100, 50))),
        part(Constraint::Auto, block(Borders::all(), Some(text("abc\ndef")))),
        part(Constraint::Fill(1), Element { tag: Some(term_bar::tui::InteractTag::from_bytes(b"tag")), kind: ElementKind::Empty }),
    ]);
    let mut copy = tree.clone();
    assert_eq!(copy.calc_auto_size(free()), tree.calc_auto_size(free()));
    match (&tree.kind, &copy.kind) {
        (ElementKind::Subdivide(a), ElementKind::Subdivide(b)) => {
            assert_eq!(a.axis, b.axis);
            assert_eq!(a.parts.len(), b.parts.len());
            assert_eq!(a.parts[2].constr, b.parts[2].constr);
            assert_eq!(a.parts[2].elem.tag, b.parts[2].elem.tag);
            match (&a.parts[0].elem.kind, &b.parts[0].elem.kind) {
                (ElementKind::Image(x), ElementKind::Image(y)) => {
                    assert_eq!(x.data, y.data);
                    assert_eq!(x.cached, y.cached);
                }
                _ => panic!("the first part is a picture"),
            }
            match (&a.parts[1].elem.kind, &b.parts[1].elem.kind) {
                (ElementKind::Block(x), ElementKind::Block(y)) => {
                    assert_eq!(x.borders, y.borders);
                    assert_eq!(x.border_set.cross, y.border_set.cross);
                    assert!(matches!(&y.inner.as_ref().unwrap().kind, ElementKind::PlainText(t) if t == "abc\ndef"));
                }
                _ => panic!("the second part is a block"),
            }
        }
        _ => panic!("the root is a subdivision"),
    }
}

#[test]
fn a_copy_keeps_what_was_stored() {
    let mut image = picture(png(3, 7));
    image.load().unwrap();
    let copy = image.clone();
    assert_eq!(copy.cached, Some(PixelSize { width: 3, height: 7 }));
    assert_eq!(copy.data, image.data);
    assert_eq!(copy.format, image::ImageFormat::Png);
    let tui = Tui { root: text("x") };
    assert!(matches!(tui.clone().root.kind, ElementKind::PlainText(t) if t == "x"));
    assert_eq!(LineSet::thick().clone().top_left, "┏");
}

#[test]
fn the_defaults_of_the_tree() {
    assert!(matches!(ElementKind::default(), ElementKind::Empty));
    let element = Element::default();
    assert!(element.tag.is_none());
    assert!(matches!(element.kind, ElementKind::Empty));
    assert_eq!(LineSet::default().cross, "");
    assert_eq!(LineSet::default().vertical, "");
    assert_eq!(Constraint::default(), Constraint::Auto);
    assert_eq!(Style::default().fg, None);
    assert!(!Style::default().modifier.bold);
}

#[test]
fn the_parts_of_a_tree_become_what_an_element_shows() {
    assert!(matches!(ElementKind::from(picture(vec![1])), ElementKind::Image(i) if i.data == vec![1]));
    let subdiv = Subdiv { axis: Axis::Vertical, parts: vec![] };
    assert!(matches!(ElementKind::from(subdiv), ElementKind::Subdivide(s) if s.axis == Axis::Vertical));
    let inner = Block { borders: Borders::all(), border_style: Style::default(), border_set: LineSet::normal(), inner: None };
    assert!(matches!(ElementKind::from(inner), ElementKind::Block(b) if b.borders == Borders::all()));
}
