use text_batch::Color;
use text_batch::DrawParam;
use text_batch::GlyphQueue;
use text_batch::Point;
use text_batch::Scalar;
use text_batch::TextCached;
use text_batch::TextFragment;

fn scalar(v: f32) -> Scalar {
    Scalar::from_bits(v.to_bits())
}

fn white() -> Color {
    Color::new(scalar(1.0), scalar(1.0), scalar(1.0), scalar(1.0))
}

#[test]
fn queue_accumulates_sections_in_order() {
    let mut q = GlyphQueue::new();
    assert!(q.is_empty());
    let a = TextCached::new(TextFragment::new("first".to_string()));
    let b = TextCached::new(TextFragment::new("second".to_string()));
    a.queue(&mut q, white(), Point::new(scalar(0.0), scalar(0.0)), None);
    b.queue(&mut q, white(), Point::new(scalar(5.0), scalar(5.0)), None);
    assert_eq!(q.len(), 2);
    assert_eq!(q.sections[0].runs[0].text, "first");
    assert_eq!(q.sections[1].runs[0].text, "second");
    assert_eq!(q.sections[1].screen_position, Point::new(scalar(5.0), scalar(5.0)));
}

#[test]
fn draw_queued_drains_the_whole_queue() {
    let mut q = GlyphQueue::new();
    let a = TextCached::new(TextFragment::new("first".to_string()));
    a.queue(&mut q, white(), Point::new(scalar(0.0), scalar(0.0)), None);
    let batch = TextCached::draw_queued(&mut q, DrawParam::default());
    assert!(q.is_empty());
    assert_eq!(batch.sections.len(), 1);
    assert_eq!(batch.sections[0].runs[0].text, "first");
}

#[test]
fn draw_through_one_aggregate_flushes_every_queued_aggregate() {
    // The queue is shared: drawing an aggregate that was never queued still
    // drains everything the other aggregates queued.
    let mut q = GlyphQueue::new();
    let a = TextCached::new(TextFragment::new("queued earlier".to_string()));
    a.queue(&mut q, white(), Point::new(scalar(0.0), scalar(0.0)), None);
    let b = TextCached::new(TextFragment::new("drawn now".to_string()));
    let batch = b.draw_ex(&mut q, white(), DrawParam::default());
    assert!(q.is_empty());
    assert_eq!(batch.sections.len(), 2);
    assert_eq!(batch.sections[0].runs[0].text, "queued earlier");
    assert_eq!(batch.sections[1].runs[0].text, "drawn now");
}

#[test]
fn draw_ex_queues_at_param_offset_with_param_color() {
    let mut q = GlyphQueue::new();
    let b = TextCached::new(TextFragment::new("x".to_string()));
    let param = DrawParam {
        offset: Point::new(scalar(3.0), scalar(4.0)),
        color: Some(white()),
        ..DrawParam::default()
    };
    let batch = b.draw_ex(&mut q, Color::new(scalar(0.0), scalar(0.0), scalar(0.0), scalar(1.0)), param);
    assert_eq!(batch.sections[0].screen_position, Point::new(scalar(3.0), scalar(4.0)));
    assert_eq!(batch.sections[0].runs[0].color, white());
    assert_eq!(batch.param, param);
}

#[test]
fn draw_param_defaults_are_neutral() {
    let p = DrawParam::default();
    assert_eq!(f32::from_bits(p.dest.x.bits), 0.0);
    assert_eq!(f32::from_bits(p.dest.y.bits), 0.0);
    assert_eq!(f32::from_bits(p.rotation.bits), 0.0);
    assert_eq!(f32::from_bits(p.scale.x.bits), 1.0);
    assert_eq!(f32::from_bits(p.scale.y.bits), 1.0);
    assert_eq!(f32::from_bits(p.shear.x.bits), 0.0);
    assert_eq!(f32::from_bits(p.shear.y.bits), 0.0);
    assert_eq!(p.color, None);
}

#[test]
fn draw_param_from_destination_and_rotation() {
    let p = DrawParam::from((Point::new(scalar(2.0), scalar(3.0)), scalar(0.5)));
    assert_eq!(p.dest, Point::new(scalar(2.0), scalar(3.0)));
    assert_eq!(p.rotation, scalar(0.5));
    assert_eq!(p.scale, DrawParam::default().scale);
    assert_eq!(p.color, None);
}
