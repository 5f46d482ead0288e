use sprite_engine::{BitmapSize, BoundsAction, Entity, PointF, Rect, SpriteAction};

fn strip(frames: i32, one_cycle: bool, delay: i32) -> Entity {
    let mut e = Entity::new(
        1,
        BitmapSize { width: 10, height: 30 },
        PointF::new(0, 0),
        PointF::new(0, 0),
        0,
        Rect::new(0, 0, 100_000, 100_000),
        BoundsAction::Stop,
    );
    e.set_frame_delay(delay);
    e.set_num_frames(frames, one_cycle);
    e
}

#[test]
fn three_frames_with_delay_two_over_six_ticks() {
    let mut e = strip(3, false, 2);
    let mut seen: Vec<i32> = Vec::new();
    let mut tick: i32 = 0;
    while tick < 6 {
        assert_eq!(e.update(16), SpriteAction::NoAction);
        seen.push(e.cur_frame());
        tick += 1;
    }
    assert_eq!(seen, vec![1, 1, 2, 2, 0, 0]);
    assert!(!e.dying());
}

#[test]
fn update_frame_alone_runs_the_same_cycle() {
    let mut e = strip(3, false, 2);
    let mut seen: Vec<i32> = Vec::new();
    let mut tick: i32 = 0;
    while tick < 7 {
        e.update_frame();
        seen.push(e.cur_frame());
        tick += 1;
    }
    assert_eq!(seen, vec![1, 1, 2, 2, 0, 0, 1]);
}

#[test]
fn delay_zero_advances_every_tick() {
    let mut e = strip(3, false, 0);
    let mut seen: Vec<i32> = Vec::new();
    let mut tick: i32 = 0;
    while tick < 5 {
        e.update(16);
        seen.push(e.cur_frame());
        tick += 1;
    }
    assert_eq!(seen, vec![1, 2, 0, 1, 2]);
}

#[test]
fn negative_delay_turns_the_animation_off() {
    let mut e = strip(3, false, -1);
    let mut tick: i32 = 0;
    while tick < 10 {
        assert_eq!(e.update(16), SpriteAction::NoAction);
        assert_eq!(e.cur_frame(), 0);
        tick += 1;
    }
}

#[test]
fn animation_resumes_at_once_when_the_delay_is_set_again() {
    let mut e = strip(3, false, -1);
    e.update(16);
    e.update(16);
    e.set_frame_delay(4);
    e.update(16);
    assert_eq!(e.cur_frame(), 1);
    e.update(16);
    e.update(16);
    e.update(16);
    assert_eq!(e.cur_frame(), 1);
    e.update(16);
    assert_eq!(e.cur_frame(), 2);
}

#[test]
fn a_single_frame_stays_on_frame_zero() {
    let mut e = strip(1, false, 0);
    let mut tick: i32 = 0;
    while tick < 4 {
        e.update(16);
        assert_eq!(e.cur_frame(), 0);
        assert!(!e.dying());
        tick += 1;
    }
}

#[test]
fn one_cycle_marks_dying_and_the_next_update_kills() {
    let mut e = strip(2, true, 0);
    assert_eq!(e.update(16), SpriteAction::NoAction);
    assert_eq!(e.cur_frame(), 1);
    assert!(!e.dying());
    assert_eq!(e.update(16), SpriteAction::NoAction);
    assert!(e.dying());
    assert_eq!(e.cur_frame(), 2);
    assert_eq!(e.update(16), SpriteAction::Kill);
    assert_eq!(e.cur_frame(), 2);
}

#[test]
fn one_cycle_still_moves_on_the_tick_that_marks_it() {
    let mut e = strip(1, true, 0);
    e.set_velocity(1, 1);
    assert_eq!(e.update(1_000), SpriteAction::NoAction);
    assert!(e.dying());
    assert_eq!(*e.position(), Rect::new(1_000, 1_000, 11_000, 31_000));
    assert_eq!(e.update(1_000), SpriteAction::Kill);
    assert_eq!(*e.position(), Rect::new(1_000, 1_000, 11_000, 31_000));
}

#[test]
fn frames_at_or_below_zero_restart_at_once() {
    let mut e = strip(-2, false, 0);
    e.update(16);
    assert_eq!(e.cur_frame(), 0);
    e.update(16);
    assert_eq!(e.cur_frame(), 0);
    assert!(!e.dying());
}

#[test]
fn frames_change_once_every_delay_ticks() {
    let mut e = strip(100, false, 4);
    e.update(16);
    assert_eq!(e.cur_frame(), 1);
    let mut frame: i32 = 1;
    while frame < 5 {
        let mut tick: i32 = 0;
        while tick < 3 {
            e.update(16);
            assert_eq!(e.cur_frame(), frame);
            tick += 1;
        }
        e.update(16);
        frame += 1;
        assert_eq!(e.cur_frame(), frame);
    }
}

#[test]
fn update_frame_with_the_animation_off_only_counts_down() {
    let mut e = strip(3, true, -1);
    e.set_cur_frame(2);
    let mut tick: i32 = 0;
    while tick < 5 {
        e.update_frame();
        assert_eq!(e.cur_frame(), 2);
        assert!(!e.dying());
        tick += 1;
    }
}
