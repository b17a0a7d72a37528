use text_batch::Color;
use text_batch::FontId;
use text_batch::HorizontalAlign;
use text_batch::HorizontalShift;
use text_batch::PixelRect;
use text_batch::Point;
use text_batch::Scalar;
use text_batch::Scale;
use text_batch::TextCached;
use text_batch::TextFragment;
use text_batch::TextLayout;
use text_batch::VerticalAlign;

fn scalar(v: f32) -> Scalar {
    Scalar::from_bits(v.to_bits())
}

fn red() -> Color {
    Color::new(scalar(1.0), scalar(0.0), scalar(0.0), scalar(1.0))
}

fn blue() -> Color {
    Color::new(scalar(0.0), scalar(0.0), scalar(1.0), scalar(1.0))
}

fn green() -> Color {
    Color::new(scalar(0.0), scalar(1.0), scalar(0.0), scalar(1.0))
}

fn wrap(h_align: HorizontalAlign) -> TextLayout {
    TextLayout::Wrap { h_align, v_align: VerticalAlign::Top }
}

/// The numeric shift the renderer adds to the section's x-position.
fn shift_pixels(shift: HorizontalShift, bounds_x: Scalar) -> f32 {
    let b = f32::from_bits(bounds_x.bits);
    match shift {
        HorizontalShift::NoShift => 0.0,
        HorizontalShift::HalfBoundsX => b * 0.5,
        HorizontalShift::FullBoundsX => b,
    }
}

#[test]
fn center_alignment_shifts_by_half_the_bound() {
    let mut t = TextCached::new(TextFragment::new("x".to_string()));
    t.set_bounds(Point::new(scalar(100.0), scalar(50.0)), Some(wrap(HorizontalAlign::Center)));
    let s = t.generate_section(blue(), Point::new(scalar(30.0), scalar(7.0)), None);
    assert_eq!(s.h_shift, HorizontalShift::HalfBoundsX);
    let x = f32::from_bits(s.screen_position.x.bits) + shift_pixels(s.h_shift, s.bounds.x);
    assert_eq!(x, 30.0 + 50.0);
    // The vertical position is never adjusted.
    assert_eq!(s.screen_position.y, scalar(7.0));
}

#[test]
fn right_alignment_shifts_by_the_whole_bound() {
    let mut t = TextCached::new(TextFragment::new("x".to_string()));
    t.set_bounds(Point::new(scalar(100.0), scalar(50.0)), Some(wrap(HorizontalAlign::Right)));
    let s = t.generate_section(blue(), Point::new(scalar(30.0), scalar(7.0)), None);
    assert_eq!(s.h_shift, HorizontalShift::FullBoundsX);
    let x = f32::from_bits(s.screen_position.x.bits) + shift_pixels(s.h_shift, s.bounds.x);
    assert_eq!(x, 30.0 + 100.0);
}

#[test]
fn left_alignment_does_not_shift() {
    let mut t = TextCached::new(TextFragment::new("x".to_string()));
    t.set_bounds(Point::new(scalar(100.0), scalar(50.0)), Some(wrap(HorizontalAlign::Left)));
    let s = t.generate_section(blue(), Point::new(scalar(30.0), scalar(7.0)), None);
    assert_eq!(s.h_shift, HorizontalShift::NoShift);
    let x = f32::from_bits(s.screen_position.x.bits) + shift_pixels(s.h_shift, s.bounds.x);
    assert_eq!(x, 30.0);
}

#[test]
fn infinite_bounds_never_shift() {
    let t = TextCached::new(TextFragment::new("x".to_string()));
    let s = t.generate_section(blue(), Point::new(scalar(30.0), scalar(7.0)), None);
    assert_eq!(s.h_shift, HorizontalShift::NoShift);
}

#[test]
fn color_resolution_is_three_tier() {
    // Two fragments, one unstyled and one red, against a blue context
    // default: the first run resolves blue, the second red.
    let mut t = TextCached::new(TextFragment::new("Hi, ".to_string()));
    t.add_fragment(TextFragment::with_color("World".to_string(), red()));
    assert_eq!(t.contents(), "Hi, World");
    let s = t.generate_section(blue(), Point::new(scalar(0.0), scalar(0.0)), None);
    assert_eq!(s.runs.len(), 2);
    assert_eq!(s.runs[0].text, "Hi, ");
    assert_eq!(s.runs[0].color, blue());
    assert_eq!(s.runs[1].text, "World");
    assert_eq!(s.runs[1].color, red());

    // A caller override beats the context default but not a fragment color.
    let s = t.generate_section(blue(), Point::new(scalar(0.0), scalar(0.0)), Some(green()));
    assert_eq!(s.runs[0].color, green());
    assert_eq!(s.runs[1].color, red());
}

#[test]
fn font_and_scale_resolution_is_two_tier() {
    let mut t = TextCached::new(TextFragment::new("plain".to_string()));
    t.add_fragment(TextFragment::with_font(
        "fancy".to_string(),
        FontId(7),
        Scale::uniform(scalar(32.0)),
    ));
    t.set_font(FontId(2), Scale::uniform(scalar(20.0)));
    let s = t.generate_section(blue(), Point::new(scalar(0.0), scalar(0.0)), None);
    assert_eq!(s.runs[0].font_id, FontId(2));
    assert_eq!(s.runs[0].scale, Scale::uniform(scalar(20.0)));
    assert_eq!(s.runs[1].font_id, FontId(7));
    assert_eq!(s.runs[1].scale, Scale::uniform(scalar(32.0)));
}

#[test]
fn empty_aggregate_yields_section_with_no_runs() {
    let t = TextCached::new_empty();
    let s = t.generate_section(blue(), Point::new(scalar(1.0), scalar(2.0)), None);
    assert_eq!(s.runs.len(), 0);
    assert_eq!(s.screen_position, Point::new(scalar(1.0), scalar(2.0)));
    assert!(s.bounds.x.is_pos_infinity());
}

#[test]
fn measurement_takes_the_largest_edges() {
    let mut t = TextCached::new(TextFragment::new("hi".to_string()));
    let boxes = vec![
        Some(PixelRect { min_x: 1, min_y: 2, max_x: 10, max_y: 20 }),
        None,
        Some(PixelRect { min_x: -5, min_y: -5, max_x: 7, max_y: 30 }),
    ];
    assert_eq!(t.width(&boxes), 10);
    assert_eq!(t.height(&boxes), 30);
}

#[test]
fn measurement_of_invisible_glyphs_is_zero() {
    let mut t = TextCached::new(TextFragment::new("   ".to_string()));
    let boxes = vec![None, None, None];
    assert_eq!(t.width(&boxes), 0);
    assert_eq!(t.height(&boxes), 0);
}

#[test]
fn measurement_clamps_negative_edges_to_zero() {
    let mut t = TextCached::new(TextFragment::new("x".to_string()));
    let boxes = vec![Some(PixelRect { min_x: -9, min_y: -9, max_x: -3, max_y: -1 })];
    assert_eq!(t.width(&boxes), 0);
    assert_eq!(t.height(&boxes), 0);
}

#[test]
fn one_measurement_pass_fills_both_caches() {
    let mut t = TextCached::new(TextFragment::new("hi".to_string()));
    let first = vec![Some(PixelRect { min_x: 0, min_y: 0, max_x: 10, max_y: 20 })];
    // Boxes that would measure differently: a later height query must not
    // trigger a second pass.
    let second = vec![Some(PixelRect { min_x: 0, min_y: 0, max_x: 99, max_y: 99 })];
    assert_eq!(t.width(&first), 10);
    assert!(t.cached_height.is_some());
    assert_eq!(t.height(&second), 20);
    assert_eq!(t.width(&second), 10);
}

#[test]
fn mutation_invalidates_measurements() {
    let mut t = TextCached::new(TextFragment::new("hi".to_string()));
    let first = vec![Some(PixelRect { min_x: 0, min_y: 0, max_x: 10, max_y: 20 })];
    let second = vec![Some(PixelRect { min_x: 0, min_y: 0, max_x: 42, max_y: 7 })];
    assert_eq!(t.width(&first), 10);
    t.add_fragment(TextFragment::new("!".to_string()));
    assert_eq!(t.width(&second), 42);
    assert_eq!(t.height(&second), 7);
}
