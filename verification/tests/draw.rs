use sprite_engine::draw::{byte_len, format_lives, format_score, push_decimal};
use sprite_engine::{BitmapSize, BoundsAction, DrawCommand, Entity, Point, PointF, Rect};

fn wide_arena() -> Rect {
    Rect::new(-100_000, -100_000, 100_000, 100_000)
}

fn entity_at(x: i64, y: i64, height: i32) -> Entity {
    Entity::new(
        1,
        BitmapSize { width: 10, height },
        PointF::new(x, y),
        PointF::new(0, 0),
        0,
        wide_arena(),
        BoundsAction::Stop,
    )
}

fn style(color: &str) -> DrawCommand {
    DrawCommand::FillStyle { color: String::from(color) }
}

fn font() -> DrawCommand {
    DrawCommand::Font { font: String::from("16px 微软雅黑") }
}

fn text(text: &str, x: i32, y: i32) -> DrawCommand {
    DrawCommand::FillText { text: String::from(text), at: Point { x, y } }
}

#[test]
fn a_plain_entity_draws_its_bitmap_and_an_empty_lives_row() {
    let e = entity_at(12_345, 6_789, 10);
    assert_eq!(
        e.draw(),
        vec![
            DrawCommand::ImageAt { at: Point { x: 12, y: 6 } },
            style("#ccccff"),
            font(),
            style("#ff0000"),
            text("", 12, 56),
        ]
    );
}

#[test]
fn a_hidden_entity_draws_nothing() {
    let mut e = entity_at(12_345, 6_789, 10);
    e.set_name(String::from("tank"));
    e.set_lives(2);
    e.set_hidden(true);
    assert_eq!(e.draw(), Vec::new());
    e.set_hidden(false);
    assert_eq!(e.draw().len(), 6);
}

#[test]
fn draw_does_not_change_the_entity() {
    let mut e = entity_at(12_345, 6_789, 10);
    e.set_name(String::from("tank"));
    let first = e.draw();
    let second = e.draw();
    assert_eq!(first, second);
    assert_eq!(*e.position(), Rect::new(12_345, 6_789, 22_345, 16_789));
}

#[test]
fn a_named_entity_draws_a_centred_label() {
    let mut e = entity_at(12_345, 6_789, 10);
    e.set_name(String::from("tank"));
    e.set_score(123);
    e.set_lives(5);
    assert_eq!(
        e.draw(),
        vec![
            DrawCommand::ImageAt { at: Point { x: 12, y: 6 } },
            style("#ccccff"),
            font(),
            text("tank(123分)", -13, -14),
            style("#ffff00"),
            text("♡♡♡♡♡", 12, 56),
        ]
    );
}

#[test]
fn the_label_width_counts_bytes_not_characters() {
    let mut e = entity_at(50_000, 0, 10);
    e.set_name(String::from("坦克"));
    e.set_score(0);
    let plan = e.draw();
    assert_eq!(plan[3], text("坦克(0分)", 25, -20));
}

#[test]
fn the_label_is_above_the_box_and_the_lives_row_below() {
    let mut e = entity_at(40_000, 30_000, 10);
    e.set_name(String::from("a"));
    e.set_lives(1);
    let plan = e.draw();
    assert_eq!(plan[0], DrawCommand::ImageAt { at: Point { x: 40, y: 30 } });
    assert_eq!(plan[3], text("a(0分)", 28, 10));
    assert_eq!(plan[5], text("♡", 40, 80));
}

#[test]
fn a_frame_count_of_zero_draws_the_whole_height_as_a_frame() {
    let mut e = entity_at(20_000, 30_000, 30);
    e.set_num_frames(0, false);
    e.set_cur_frame(2);
    let plan = e.draw();
    assert_eq!(
        plan[0],
        DrawCommand::Image {
            source: Point { x: 0, y: 60 },
            width: 10,
            height: 30,
            at: Point { x: 20, y: 30 },
        }
    );
}

#[test]
fn a_negative_score_hides_the_label() {
    let mut e = entity_at(0, 0, 10);
    e.set_name(String::from("tank"));
    e.set_score(-1);
    assert_eq!(e.draw().len(), 5);
    e.set_score(0);
    assert_eq!(e.draw().len(), 6);
}

#[test]
fn the_lives_row_changes_colour_above_three() {
    let mut e = entity_at(0, 0, 10);
    e.set_lives(3);
    let few = e.draw();
    assert_eq!(few[3], style("#ff0000"));
    assert_eq!(few[4], text("♡♡♡", 0, 50));
    e.set_lives(4);
    let many = e.draw();
    assert_eq!(many[3], style("#ffff00"));
    assert_eq!(many[4], text("♡♡♡♡", 0, 50));
}

#[test]
fn pixels_are_counted_toward_zero() {
    let e = entity_at(-500, -1_500, 10);
    let plan = e.draw();
    assert_eq!(plan[0], DrawCommand::ImageAt { at: Point { x: 0, y: -1 } });
    assert_eq!(plan[4], text("", 0, 48));
}

#[test]
fn an_animated_entity_draws_the_current_frame() {
    let mut e = entity_at(20_000, 30_000, 30);
    e.set_frame_delay(0);
    e.set_num_frames(3, false);
    let first = e.draw();
    assert_eq!(
        first[0],
        DrawCommand::Image {
            source: Point { x: 0, y: 0 },
            width: 10,
            height: 10,
            at: Point { x: 20, y: 30 },
        }
    );
    e.update(16);
    e.update(16);
    let third = e.draw();
    assert_eq!(
        third[0],
        DrawCommand::Image {
            source: Point { x: 0, y: 20 },
            width: 10,
            height: 10,
            at: Point { x: 20, y: 30 },
        }
    );
    assert_eq!(third[4], text("", 20, 80));
}

#[test]
fn format_score_brackets_the_numeral() {
    assert_eq!(format_score(0).as_str(), "(0分)");
    assert_eq!(format_score(7).as_str(), "(7分)");
    assert_eq!(format_score(10).as_str(), "(10分)");
    assert_eq!(format_score(123).as_str(), "(123分)");
    assert_eq!(format_score(2_147_483_647).as_str(), "(2147483647分)");
    assert_eq!(format_score(4_294_967_295).as_str(), "(4294967295分)");
}

#[test]
fn push_decimal_appends() {
    let mut s = String::from("n=");
    push_decimal(&mut s, 9);
    push_decimal(&mut s, 100);
    push_decimal(&mut s, 0);
    push_decimal(&mut s, 1_234_567_890);
    assert_eq!(s.as_str(), "n=910001234567890");
}

#[test]
fn format_lives_repeats_the_heart() {
    assert_eq!(format_lives(0).as_str(), "");
    assert_eq!(format_lives(1).as_str(), "♡");
    assert_eq!(format_lives(6).as_str(), "♡♡♡♡♡♡");
}

#[test]
fn byte_len_is_the_utf8_length() {
    assert_eq!(byte_len(""), 0);
    assert_eq!(byte_len("tank"), 4);
    assert_eq!(byte_len("坦克"), 6);
    assert_eq!(byte_len("(123分)"), 8);
    assert_eq!(byte_len("♡"), 3);
}
