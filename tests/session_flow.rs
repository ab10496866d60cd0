use screen_pds::{
    Action, ActionMailbox, DragMailbox, Effect, Region, Session, action_code, action_from_code,
    capture_delay_ms,
};

fn open_session(width: u32, height: u32) -> Session {
    let mut s = Session::new();
    assert_eq!(s.handle(Action::New), Effect::Capture);
    assert!(s.capture_done(width, height));
    s
}

#[test]
fn capture_crop_undo_redo_save() {
    let mut s = Session::new();
    let mut flag = ActionMailbox::new();
    let mut drags = DragMailbox::new();
    flag.post(Action::New);
    assert_eq!(capture_delay_ms(0), 0);
    assert_eq!(s.handle(flag.take().unwrap()), Effect::Capture);
    assert!(flag.take().is_none());
    assert!(s.capture_done(200, 100));
    assert!(s.is_active());

    drags.drag_begin(10, 10);
    drags.drag_end(50, 30);
    let e = s.crop_step(&mut drags);
    assert_eq!(
        e,
        Effect::Crop { source: 0, target: 1, region: Region { x: 10, y: 10, width: 50, height: 30 } }
    );
    assert_eq!(s.current_index(), Some(1));
    assert_eq!(s.last_index(), Some(1));
    assert_eq!(s.frame_size(0), Some((200, 100)));
    assert_eq!(s.frame_size(1), Some((50, 30)));
    assert_eq!(s.frame_size(2), None);
    assert!(drags.start.is_none() && drags.offset.is_none());

    assert_eq!(s.handle(Action::Undo), Effect::Show { index: 0 });
    assert_eq!(s.current_index(), Some(0));
    assert_eq!(s.last_index(), Some(1));
    assert_eq!(s.handle(Action::Redo), Effect::Show { index: 1 });
    assert_eq!(s.current_index(), Some(1));

    assert_eq!(s.handle(Action::Save), Effect::Export { index: 1 });
    assert!(s.is_active());
    assert_eq!(s.export_done(true), Effect::Close);
    assert!(!s.is_active());
}

#[test]
fn undo_at_first_frame_does_nothing() {
    let mut s = open_session(100, 100);
    assert_eq!(s.handle(Action::Undo), Effect::Nothing);
    assert_eq!(s.current_index(), Some(0));
    assert_eq!(s.last_index(), Some(0));
}

#[test]
fn redo_at_furthest_frame_does_nothing() {
    let mut s = open_session(100, 100);
    let mut drags = DragMailbox::new();
    drags.drag_begin(5, 5);
    drags.drag_end(10, 10);
    assert!(matches!(s.crop_step(&mut drags), Effect::Crop { .. }));
    assert_eq!(s.handle(Action::Redo), Effect::Nothing);
    assert_eq!(s.current_index(), Some(1));
}

#[test]
fn crop_after_undo_drops_later_frames() {
    let mut s = open_session(100, 80);
    let mut drags = DragMailbox::new();
    drags.drag_begin(0, 0);
    drags.drag_end(60, 60);
    assert!(matches!(s.crop_step(&mut drags), Effect::Crop { .. }));
    drags.drag_begin(0, 0);
    drags.drag_end(30, 30);
    assert!(matches!(s.crop_step(&mut drags), Effect::Crop { source: 1, target: 2, .. }));
    assert_eq!(s.handle(Action::Undo), Effect::Show { index: 1 });
    assert_eq!(s.handle(Action::Undo), Effect::Show { index: 0 });
    drags.drag_begin(10, 10);
    drags.drag_end(5, 5);
    assert_eq!(
        s.crop_step(&mut drags),
        Effect::Crop { source: 0, target: 1, region: Region { x: 10, y: 10, width: 5, height: 5 } }
    );
    assert_eq!(s.last_index(), Some(1));
    assert_eq!(s.frame_size(1), Some((5, 5)));
    assert_eq!(s.frame_size(2), None);
    assert_eq!(s.handle(Action::Redo), Effect::Nothing);
}

#[test]
fn out_of_bounds_drag_is_discarded() {
    let mut s = open_session(100, 50);
    let mut drags = DragMailbox::new();
    drags.drag_begin(100, 10);
    drags.drag_end(20, 20);
    assert_eq!(s.crop_step(&mut drags), Effect::Nothing);
    assert_eq!(s.current_index(), Some(0));
    assert_eq!(s.last_index(), Some(0));
    assert!(drags.start.is_none() && drags.offset.is_none());

    drags.drag_begin(10, 50);
    drags.drag_end(5, 5);
    assert_eq!(s.crop_step(&mut drags), Effect::Nothing);
    assert_eq!(s.last_index(), Some(0));

    drags.drag_begin(5, 5);
    drags.drag_end(-10, 5);
    assert_eq!(s.crop_step(&mut drags), Effect::Nothing);
    assert_eq!(s.last_index(), Some(0));
}

#[test]
fn negative_drag_crops_the_normalized_rectangle() {
    let mut s = open_session(300, 300);
    let mut drags = DragMailbox::new();
    drags.drag_begin(100, 100);
    drags.drag_end(-40, 20);
    assert_eq!(
        s.crop_step(&mut drags),
        Effect::Crop { source: 0, target: 1, region: Region { x: 60, y: 100, width: 40, height: 20 } }
    );
}

#[test]
fn crop_is_clipped_to_the_frame() {
    let mut s = open_session(100, 100);
    let mut drags = DragMailbox::new();
    drags.drag_begin(90, 95);
    drags.drag_end(50, 50);
    assert_eq!(
        s.crop_step(&mut drags),
        Effect::Crop { source: 0, target: 1, region: Region { x: 90, y: 95, width: 10, height: 5 } }
    );
}

#[test]
fn new_capture_while_active_is_rejected() {
    let mut s = open_session(100, 100);
    let mut drags = DragMailbox::new();
    drags.drag_begin(0, 0);
    drags.drag_end(10, 10);
    assert!(matches!(s.crop_step(&mut drags), Effect::Crop { .. }));
    assert_eq!(s.handle(Action::New), Effect::Nothing);
    assert!(!s.capture_done(640, 480));
    assert_eq!(s.current_index(), Some(1));
    assert_eq!(s.last_index(), Some(1));
    assert_eq!(s.frame_size(0), Some((100, 100)));
}

#[test]
fn cancel_closes_and_new_starts_over() {
    let mut s = open_session(100, 100);
    let mut drags = DragMailbox::new();
    drags.drag_begin(0, 0);
    drags.drag_end(10, 10);
    assert!(matches!(s.crop_step(&mut drags), Effect::Crop { .. }));
    assert_eq!(s.handle(Action::Cancel), Effect::Close);
    assert!(!s.is_active());
    assert_eq!(s.handle(Action::Cancel), Effect::Nothing);
    assert_eq!(s.handle(Action::Undo), Effect::Nothing);
    assert_eq!(s.handle(Action::Save), Effect::Nothing);
    assert_eq!(s.handle(Action::New), Effect::Capture);
    assert!(s.capture_done(640, 480));
    assert_eq!(s.current_index(), Some(0));
    assert_eq!(s.last_index(), Some(0));
    assert_eq!(s.frame_size(0), Some((640, 480)));
}

#[test]
fn cancelled_export_keeps_session_open() {
    let mut s = open_session(100, 100);
    assert_eq!(s.handle(Action::Save), Effect::Export { index: 0 });
    assert_eq!(s.export_done(false), Effect::Nothing);
    assert!(s.is_active());
}

#[test]
fn drag_outside_session_stays_pending() {
    let mut s = Session::new();
    let mut drags = DragMailbox::new();
    drags.drag_begin(1, 1);
    drags.drag_end(5, 5);
    assert_eq!(s.crop_step(&mut drags), Effect::Nothing);
    assert_eq!(drags.offset, Some((5, 5)));
}

#[test]
fn zero_drag_is_not_ready() {
    let mut drags = DragMailbox::new();
    drags.drag_begin(3, 4);
    assert!(drags.take_ready().is_none());
    drags.drag_end(0, 0);
    assert!(drags.take_ready().is_none());
    assert_eq!(drags.start, Some((3, 4)));
    drags.drag_end(0, 7);
    let d = drags.take_ready().unwrap();
    assert_eq!((d.start_x, d.start_y, d.offset_x, d.offset_y), (3, 4, 0, 7));
}

#[test]
fn second_drag_replaces_first() {
    let mut drags = DragMailbox::new();
    drags.drag_begin(1, 2);
    drags.drag_end(3, 4);
    drags.drag_begin(10, 20);
    drags.drag_end(30, 40);
    let d = drags.take_ready().unwrap();
    assert_eq!((d.start_x, d.start_y, d.offset_x, d.offset_y), (10, 20, 30, 40));
    assert!(drags.take_ready().is_none());
}

#[test]
fn action_flag_keeps_latest() {
    let mut flag = ActionMailbox::new();
    assert!(flag.take().is_none());
    flag.post(Action::Undo);
    flag.post(Action::Redo);
    assert_eq!(flag.take(), Some(Action::Redo));
    assert_eq!(flag.take(), None);
    assert!(flag.post_code(5));
    assert!(!flag.post_code(9));
    assert_eq!(flag.take(), Some(Action::Cancel));
}

#[test]
fn action_codes() {
    assert_eq!(action_code(Action::New), 1);
    assert_eq!(action_code(Action::Save), 2);
    assert_eq!(action_code(Action::Undo), 3);
    assert_eq!(action_code(Action::Redo), 4);
    assert_eq!(action_code(Action::Cancel), 5);
    assert_eq!(action_from_code(0), None);
    assert_eq!(action_from_code(3), Some(Action::Undo));
    assert_eq!(action_from_code(6), None);
}

#[test]
fn drag_with_a_zero_side_adds_no_frame() {
    let mut s = open_session(100, 100);
    let mut drags = DragMailbox::new();
    drags.drag_begin(10, 10);
    drags.drag_end(0, 30);
    assert_eq!(s.crop_step(&mut drags), Effect::Nothing);
    assert_eq!(s.current_index(), Some(0));
    assert_eq!(s.last_index(), Some(0));
    assert!(drags.start.is_none() && drags.offset.is_none());
}

#[test]
fn drag_begin_keeps_the_offset() {
    let mut drags = DragMailbox::new();
    drags.drag_begin(1, 2);
    drags.drag_end(3, 4);
    drags.drag_begin(10, 20);
    assert_eq!(drags.start, Some((10, 20)));
    assert_eq!(drags.offset, Some((3, 4)));
    let d = drags.take_ready().unwrap();
    assert_eq!((d.start_x, d.start_y, d.offset_x, d.offset_y), (10, 20, 3, 4));
}
