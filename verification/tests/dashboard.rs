use memdash::app::App;
use memdash::event::{Event, KeyCode, KeyEvent};
use memdash::render::{layout_region, u64_to_decimal, Rect};

fn key(code: KeyCode, modifiers: u8) -> Event {
    Event::Input(KeyEvent { code, modifiers })
}

fn area() -> Rect {
    Rect { x: 0, y: 0, width: 80, height: 24 }
}

#[test]
fn new_starts_running_with_no_sample() {
    let app = App::new();
    assert!(app.running);
    assert_eq!(app.latest_mem, None);
}

#[test]
fn last_write_wins_within_a_batch() {
    let mut app = App::new();
    app.apply_events(&vec![Event::Memory(5), Event::Memory(9)]);
    assert_eq!(app.latest_mem, Some(9));
    assert!(app.running);
}

#[test]
fn esc_quits_with_any_modifier_set() {
    for modifiers in [0u8, 1, 2, 4, 0xff] {
        let mut app = App::new();
        app.apply_events(&vec![key(KeyCode::Esc, modifiers)]);
        assert!(!app.running);
    }
}

#[test]
fn lowercase_q_quits() {
    let mut app = App::new();
    app.apply_events(&vec![key(KeyCode::Char('q'), 0)]);
    assert!(!app.running);
}

#[test]
fn uppercase_q_does_not_quit() {
    let mut app = App::new();
    app.apply_events(&vec![key(KeyCode::Char('Q'), 0)]);
    assert!(app.running);
    app.apply_events(&vec![key(KeyCode::Char('Q'), 1)]);
    assert!(app.running);
}

#[test]
fn other_keys_have_no_effect() {
    let mut app = App::new();
    app.apply_events(&vec![
        key(KeyCode::Char('a'), 0),
        key(KeyCode::Other, 0),
        key(KeyCode::Char('x'), 3),
    ]);
    assert!(app.running);
    assert_eq!(app.latest_mem, None);
}

#[test]
fn stopped_state_ignores_further_events() {
    let mut app = App::new();
    app.apply_events(&vec![Event::Memory(11)]);
    app.quit();
    assert!(!app.running);
    app.apply_events(&vec![
        Event::Memory(7),
        key(KeyCode::Char('a'), 0),
        key(KeyCode::Esc, 0),
    ]);
    assert!(!app.running);
    assert_eq!(app.latest_mem, Some(11));
}

#[test]
fn quit_fires_even_mid_batch_and_later_samples_are_dropped() {
    let mut app = App::new();
    app.apply_events(&vec![Event::Memory(1), key(KeyCode::Esc, 0), Event::Memory(2)]);
    assert!(!app.running);
    assert_eq!(app.latest_mem, Some(1));
}

#[test]
fn render_without_sample_paints_no_panel() {
    let mut app = App::new();
    let painted = app.render(&Vec::new(), area());
    assert!(painted.is_none());
}

#[test]
fn render_with_sample_paints_its_decimal_string() {
    let mut app = App::new();
    let painted = app.render(&vec![Event::Memory(1048576)], area());
    let panel = painted.expect("a sample has arrived, so a panel is painted");
    assert_eq!(panel.title, "Memory Info");
    assert_eq!(panel.content, "1048576");
    assert_eq!(panel.area, area());
}

#[test]
fn end_to_end_sample_then_escape() {
    let mut app = App::new();
    let painted = app.render(&vec![Event::Memory(2048)], area());
    assert_eq!(painted.expect("panel").content, "2048");
    assert!(app.is_running());
    let painted = app.render(&vec![key(KeyCode::Esc, 0)], area());
    assert!(!app.is_running());
    assert_eq!(painted.expect("panel").content, "2048");
}

#[test]
fn decimal_strings_are_exact() {
    assert_eq!(u64_to_decimal(0), "0");
    assert_eq!(u64_to_decimal(7), "7");
    assert_eq!(u64_to_decimal(10), "10");
    assert_eq!(u64_to_decimal(2048), "2048");
    assert_eq!(u64_to_decimal(1048576), "1048576");
    assert_eq!(u64_to_decimal(u64::MAX), "18446744073709551615");
}

#[test]
fn layout_is_the_full_area() {
    let a = Rect { x: 2, y: 3, width: 40, height: 10 };
    assert_eq!(layout_region(a), a);
}

#[test]
fn tick_is_faster_than_sampling() {
    assert!(memdash::TICK_MILLIS < memdash::SAMPLE_MILLIS);
}
