use ime_cursor_indicator::config::{AppConfig, Opacity, OverlayStyle};
use ime_cursor_indicator::overlay::{centered_start, clamp_to_area, Follow, LabelUpdate, OverlayModel, Size};

fn config() -> AppConfig {
    AppConfig {
        poll_ms: 0,
        on_style: OverlayStyle { offset_x: 5, offset_y: 6, width: 40, height: 30, opacity: Opacity::Integer(1) },
        off_style: OverlayStyle { offset_x: 20, offset_y: 18, width: 34, height: 34, opacity: Opacity::FloatBits(0.5f64.to_bits()) },
    }
}

#[test]
fn starts_latin_in_off_style() {
    let m = OverlayModel::new(&config());
    assert_eq!(m.label, "A");
    assert_eq!((m.width, m.height, m.offset_x, m.offset_y), (34, 34, 20, 18));
    assert!(!m.caret_known && !m.pointer_poll_active);
    assert_eq!((m.last_window_x, m.last_window_y), (i32::MIN, i32::MIN));
}

#[test]
fn label_change_takes_on_style_and_follows_pointer() {
    let mut m = OverlayModel::new(&config());
    assert_eq!(m.update_label("A"), LabelUpdate::Unchanged);
    let r = m.update_label("\u{3042}");
    assert_eq!(r, LabelUpdate::Changed { resize: Some(Size { width: 40, height: 30 }), follow: Follow::Pointer, show: true });
    assert_eq!((m.width, m.height, m.offset_x, m.offset_y), (40, 30, 5, 6));
    assert_eq!(m.opacity, Opacity::Integer(1));
    assert_eq!(m.update_label("\u{3042}"), LabelUpdate::Unchanged);
}

#[test]
fn label_change_follows_known_caret() {
    let mut m = OverlayModel::new(&config());
    let mv = m.move_to_caret(100, 200, 16);
    assert_eq!((mv.anchor_x, mv.anchor_y, mv.target_x, mv.target_y), (100, 200, 120, 234));
    assert!(!mv.stop_poll);
    let r = m.update_label("\u{3042}");
    assert_eq!(r, LabelUpdate::Changed { resize: Some(Size { width: 40, height: 30 }), follow: Follow::Caret { x: 100, y: 200, h: 16 }, show: true });
    let mv = m.move_to_caret(100, 200, 16);
    assert_eq!((mv.target_x, mv.target_y), (105, 222));
}

#[test]
fn same_size_styles_do_not_resize() {
    let mut cfg = config();
    cfg.on_style.width = 34;
    cfg.on_style.height = 34;
    let mut m = OverlayModel::new(&cfg);
    assert!(m.commit_position(1, 2));
    let r = m.update_label("\u{3042}");
    assert_eq!(r, LabelUpdate::Changed { resize: None, follow: Follow::Pointer, show: true });
    assert_eq!((m.last_window_x, m.last_window_y), (1, 2));
}

#[test]
fn resize_forgets_window_position() {
    let mut m = OverlayModel::new(&config());
    assert!(m.commit_position(1, 2));
    assert!(!m.commit_position(1, 2));
    m.update_label("\u{3042}");
    assert!(m.commit_position(1, 2));
}

#[test]
fn pointer_polling_only_while_caret_unknown() {
    let mut m = OverlayModel::new(&config());
    assert_eq!(m.start_pointer_poll(), Some(1));
    assert_eq!(m.start_pointer_poll(), None);
    assert!(m.poll_tick());
    assert_eq!(m.pointer_target(10, 10), (30, 28));
    let mv = m.move_to_caret(1, 1, 1);
    assert!(mv.stop_poll);
    assert!(!m.pointer_poll_active);
    assert_eq!(m.start_pointer_poll(), None);
    assert!(!m.poll_tick());
    m.mark_caret_unknown();
    assert_eq!(m.start_pointer_poll(), Some(1));
}

#[test]
fn clamping_and_centering() {
    assert_eq!(clamp_to_area(-50, 5000, 0, 0, 1920, 1080, 34, 34), (0, 1046));
    assert_eq!(clamp_to_area(100, 100, 1920, 0, 1280, 1024, 34, 34), (1920, 100));
    assert_eq!(clamp_to_area(500, 500, 0, 0, 1920, 1080, 34, 34), (500, 500));
    assert_eq!(centered_start(0, 1920, 34), 943);
    assert_eq!(centered_start(0, 34, 37), -1);
    assert_eq!(centered_start(-2, 34, 20), 5);
}

#[test]
fn visible_only_for_japanese_input() {
    let mut m = OverlayModel::new(&config());
    assert!(!m.is_shown());
    m.update_label("\u{3042}");
    assert!(m.is_shown());
    let r = m.update_label("A");
    assert_eq!(r, LabelUpdate::Changed { resize: Some(Size { width: 34, height: 34 }), follow: Follow::Pointer, show: false });
    assert!(!m.is_shown());
}
