use missile_launcher::dashboard::rotate_last_to_front;
use missile_launcher::dashboard::walk_power;
use missile_launcher::dashboard::App;
use missile_launcher::dashboard::Key;
use missile_launcher::dashboard::Launcher;
use missile_launcher::dashboard::POWER_FULL;

fn launchers() -> Vec<Launcher<'static>> {
    vec![
        Launcher { name: "Asia-1", location: "TPE", coords: (250094715, 1215370432), status: "Up" },
        Launcher { name: "USA-2", location: "JFK", coords: (406413111, -737781391), status: "Down" },
    ]
}

fn sample_app(code: &str) -> App<'static> {
    App::with_seed(
        "Console",
        String::from(code),
        vec!["Item1", "Item2", "Item3", "Item4"],
        vec![("first", "INFO"), ("second", "WARNING"), ("third", "ERROR")],
        vec![("TPE", 9), ("LAX", 5), ("JFK", 8), ("SFO", 3)],
        launchers(),
        2024,
    )
}

fn press(app: &mut App<'static>, text: &str) {
    for c in text.chars() {
        app.on_key(Key::Char(c));
    }
}

#[test]
fn new_dashboard_starts_idle() {
    let app = App::new(
        "Console",
        String::from("NTNUCSIE"),
        vec!["Item1"],
        vec![("first", "INFO")],
        vec![("TPE", 9)],
        launchers(),
    );
    assert_eq!(app.title, "Console");
    assert_eq!(app.correct_code, "NTNUCSIE");
    assert!(!app.should_quit);
    assert!(!app.typing);
    assert!(!app.missile_launched);
    assert_eq!(app.code, "");
    assert_eq!(app.progress, 0);
    assert_eq!(app.power, 50_000);
    assert_eq!(app.tabs.titles, vec!["System Monitor", "Launch Missile"]);
    assert_eq!(app.tabs.index, 0);
    assert_eq!(app.tasks.selected, None);
    assert_eq!(app.logs.selected, None);
    assert_eq!(app.sparkline.points().len(), 300);
    assert_eq!(app.sparkline.tick_rate(), 1);
    assert!(app.sparkline.points().iter().all(|v| *v < 100));
    assert_eq!(app.signals.sin1.points().len(), 100);
    assert_eq!(app.signals.sin1.tick_rate(), 5);
    assert_eq!(app.signals.sin1.source().interval(), 200);
    assert_eq!(app.signals.sin1.source().period(), 3000);
    assert_eq!(app.signals.sin1.source().scale(), 16000);
    assert_eq!(app.signals.sin2.points().len(), 200);
    assert_eq!(app.signals.sin2.tick_rate(), 10);
    assert_eq!(app.signals.sin2.source().interval(), 100);
    assert_eq!(app.signals.sin2.source().period(), 2000);
    assert_eq!(app.signals.sin2.source().scale(), 8000);
    assert_eq!(app.signals.window, [0, 20]);
    for i in 0..100usize {
        assert_eq!(app.signals.sin1.points()[i].x, 200 * i as u64);
    }
    for i in 0..200usize {
        assert_eq!(app.signals.sin2.points()[i].x, 100 * i as u64);
    }
    assert_eq!(app.launchers.len(), 2);
    assert_eq!(app.launchers[1].coords, (406413111, -737781391));
}

#[test]
fn right_code_launches() {
    let mut app = sample_app("NTNUCSIE");
    app.on_key(Key::Char('t'));
    assert!(app.typing);
    press(&mut app, "NTNUCSIE");
    assert_eq!(app.code, "NTNUCSIE");
    assert!(!app.missile_launched);
    app.on_key(Key::Enter);
    assert!(app.missile_launched);
    assert!(!app.typing);
}

#[test]
fn wrong_code_does_not_launch() {
    let mut app = sample_app("NTNUCSIE");
    app.on_key(Key::Char('t'));
    app.on_key(Key::Char('X'));
    app.on_key(Key::Enter);
    assert!(!app.missile_launched);
    assert!(app.typing);
    assert_eq!(app.code, "X");
}

#[test]
fn escape_clears_the_code() {
    let mut app = sample_app("NTNUCSIE");
    app.on_key(Key::Char('t'));
    press(&mut app, "NTNU");
    app.on_key(Key::Esc);
    assert!(!app.typing);
    assert_eq!(app.code, "");
    assert!(!app.missile_launched);
}

#[test]
fn backspace_and_delete_remove_last_character() {
    let mut app = sample_app("AB");
    app.on_key(Key::Char('t'));
    app.on_key(Key::Backspace);
    assert_eq!(app.code, "");
    press(&mut app, "ABC");
    app.on_key(Key::Backspace);
    assert_eq!(app.code, "AB");
    app.on_key(Key::Delete);
    assert_eq!(app.code, "A");
    app.on_key(Key::Delete);
    app.on_key(Key::Delete);
    assert_eq!(app.code, "");
    assert!(app.typing);
}

#[test]
fn code_mode_takes_q_and_t_as_characters() {
    let mut app = sample_app("qt");
    app.on_key(Key::Char('t'));
    press(&mut app, "qt");
    assert!(!app.should_quit);
    assert_eq!(app.code, "qt");
    app.on_key(Key::Enter);
    assert!(app.missile_launched);
}

#[test]
fn code_mode_ignores_arrows() {
    let mut app = sample_app("A");
    app.on_key(Key::Char('t'));
    app.on_key(Key::Down);
    app.on_key(Key::Right);
    app.on_key(Key::Other);
    assert_eq!(app.tasks.selected, None);
    assert_eq!(app.tabs.index, 0);
    assert_eq!(app.code, "");
    assert!(app.typing);
}

#[test]
fn entering_code_mode_keeps_earlier_code() {
    let mut app = sample_app("AB");
    app.on_key(Key::Char('t'));
    press(&mut app, "AB");
    app.on_key(Key::Enter);
    assert!(app.missile_launched);
    assert_eq!(app.code, "AB");
    app.on_key(Key::Char('t'));
    assert!(app.typing);
    assert_eq!(app.code, "AB");
    press(&mut app, "AB");
    app.on_key(Key::Enter);
    assert!(app.typing);
    assert!(app.missile_launched);
}

#[test]
fn launch_is_never_undone() {
    let mut app = sample_app("");
    app.on_key(Key::Char('t'));
    app.on_key(Key::Enter);
    assert!(app.missile_launched);
    let keys = [
        Key::Char('t'),
        Key::Char('x'),
        Key::Enter,
        Key::Esc,
        Key::Up,
        Key::Left,
        Key::Backspace,
        Key::Other,
    ];
    for key in keys {
        app.on_key(key);
        assert!(app.missile_launched);
    }
    for _ in 0..20 {
        app.on_tick();
        assert!(app.missile_launched);
    }
}

#[test]
fn q_asks_to_quit() {
    let mut app = sample_app("A");
    app.on_key(Key::Enter);
    app.on_key(Key::Esc);
    app.on_key(Key::Char('x'));
    app.on_key(Key::Other);
    assert!(!app.should_quit);
    assert!(!app.typing);
    assert_eq!(app.code, "");
    app.on_key(Key::Char('q'));
    assert!(app.should_quit);
}

#[test]
fn arrows_move_cursor_and_tab() {
    let mut app = sample_app("A");
    app.on_key(Key::Down);
    assert_eq!(app.tasks.selected, Some(0));
    app.on_key(Key::Down);
    assert_eq!(app.tasks.selected, Some(1));
    app.on_key(Key::Up);
    app.on_key(Key::Up);
    assert_eq!(app.tasks.selected, Some(3));
    app.on_key(Key::Right);
    assert_eq!(app.tabs.index, 1);
    app.on_key(Key::Right);
    assert_eq!(app.tabs.index, 0);
    app.on_key(Key::Left);
    assert_eq!(app.tabs.index, 1);
    app.on_up();
    assert_eq!(app.tasks.selected, Some(2));
    app.on_down();
    assert_eq!(app.tasks.selected, Some(3));
    app.on_left();
    assert_eq!(app.tabs.index, 0);
    app.on_right();
    assert_eq!(app.tabs.index, 1);
}

#[test]
fn rotation_moves_last_to_front() {
    let mut feed = vec![1, 2, 3, 4];
    rotate_last_to_front(&mut feed);
    assert_eq!(feed, vec![4, 1, 2, 3]);
    rotate_last_to_front(&mut feed);
    assert_eq!(feed, vec![3, 4, 1, 2]);
    let mut one = vec!["a"];
    rotate_last_to_front(&mut one);
    assert_eq!(one, vec!["a"]);
    let mut none: Vec<u8> = Vec::new();
    rotate_last_to_front(&mut none);
    assert!(none.is_empty());
}

#[test]
fn power_walk_adds_and_clamps() {
    assert_eq!(walk_power(50_000, 25_000), 50_000);
    assert_eq!(walk_power(50_000, 0), 25_000);
    assert_eq!(walk_power(50_000, 49_999), 74_999);
    assert_eq!(walk_power(10_000, 0), 0);
    assert_eq!(walk_power(0, 24_999), 0);
    assert_eq!(walk_power(0, 25_001), 1);
    assert_eq!(walk_power(90_000, 49_999), 100_000);
    assert_eq!(walk_power(100_000, 25_000), 100_000);
    assert_eq!(walk_power(110_000, 0), 85_000);
    assert_eq!(walk_power(124_999, 49_999), 100_000);
    assert_eq!(walk_power(u64::MAX, 0), 100_000);
    assert_eq!(walk_power(u64::MAX, u64::MAX), 100_000);
    assert_eq!(walk_power(0, u64::MAX), 100_000);
    assert_eq!(walk_power(7, 25_000 + 93), 100);
}

#[test]
fn tick_advances_progress_and_wraps() {
    let mut app = sample_app("A");
    app.on_tick();
    assert_eq!(app.progress, 1);
    for _ in 1..1000 {
        app.on_tick();
    }
    assert_eq!(app.progress, 1000);
    app.on_tick();
    assert_eq!(app.progress, 0);
    app.on_tick();
    assert_eq!(app.progress, 1);
}

#[test]
fn tick_rotates_feeds_on_their_periods() {
    let mut app = sample_app("A");
    app.on_tick();
    app.on_tick();
    assert_eq!(app.packets, vec![("TPE", 9), ("LAX", 5), ("JFK", 8), ("SFO", 3)]);
    app.on_tick();
    assert_eq!(app.packets, vec![("SFO", 3), ("TPE", 9), ("LAX", 5), ("JFK", 8)]);
    app.on_tick();
    assert_eq!(
        app.logs.items,
        vec![("first", "INFO"), ("second", "WARNING"), ("third", "ERROR")]
    );
    app.on_tick();
    assert_eq!(
        app.logs.items,
        vec![("third", "ERROR"), ("first", "INFO"), ("second", "WARNING")]
    );
    app.on_tick();
    assert_eq!(app.packets, vec![("JFK", 8), ("SFO", 3), ("TPE", 9), ("LAX", 5)]);
    assert_eq!(app.logs.selected, None);
}

#[test]
fn tick_walks_power_on_its_period_only() {
    let mut app = sample_app("A");
    let mut moved = false;
    for _ in 0..400 {
        let before = app.power;
        app.on_tick();
        assert!(app.power <= POWER_FULL);
        if app.progress % 10 != 0 {
            assert_eq!(app.power, before);
        } else {
            let low = before.saturating_sub(25_000);
            let high = (before + 24_999).min(POWER_FULL);
            assert!(low <= app.power && app.power <= high);
            if app.power != before {
                moved = true;
            }
        }
    }
    assert!(moved);
}

#[test]
fn tick_moves_windows_and_axis() {
    let mut app = sample_app("A");
    let strength = app.sparkline.points().clone();
    app.on_tick();
    assert_eq!(app.sparkline.points().len(), 300);
    assert_eq!(&app.sparkline.points()[..299], &strength[1..]);
    assert_eq!(app.signals.sin1.points().len(), 100);
    assert_eq!(app.signals.sin1.points()[0].x, 5 * 200);
    assert_eq!(app.signals.sin1.points()[99].x, 104 * 200);
    assert_eq!(app.signals.sin2.points().len(), 200);
    assert_eq!(app.signals.sin2.points()[0].x, 10 * 100);
    assert_eq!(app.signals.sin2.points()[199].x, 209 * 100);
    assert_eq!(app.signals.window, [1, 21]);
    for _ in 0..50 {
        app.on_tick();
    }
    assert_eq!(app.signals.window, [51, 71]);
    assert_eq!(app.sparkline.points().len(), 300);
    assert!(app.sparkline.points().iter().all(|v| *v < 100));
}

#[test]
fn tick_leaves_keys_state_alone() {
    let mut app = sample_app("AB");
    app.on_key(Key::Down);
    app.on_key(Key::Right);
    app.on_key(Key::Char('t'));
    press(&mut app, "A");
    for _ in 0..30 {
        app.on_tick();
    }
    assert!(app.typing);
    assert_eq!(app.code, "A");
    assert_eq!(app.correct_code, "AB");
    assert_eq!(app.tasks.selected, Some(0));
    assert_eq!(app.tabs.index, 1);
    assert!(!app.should_quit);
    assert!(!app.missile_launched);
}

#[test]
fn ticks_on_empty_feeds_leave_them_empty() {
    let mut app = App::with_seed(
        "Console",
        String::from("NTNUCSIE"),
        Vec::new(),
        Vec::new(),
        Vec::new(),
        Vec::new(),
        5,
    );
    for _ in 0..1000 {
        app.on_tick();
        assert!(app.logs.items.is_empty());
        assert!(app.packets.is_empty());
    }
    assert_eq!(app.logs.selected, None);
    app.on_key(Key::Down);
    app.on_key(Key::Up);
    assert_eq!(app.tasks.selected, None);
}

#[test]
fn same_seed_gives_same_dashboard() {
    let mut a = sample_app("A");
    let mut b = sample_app("A");
    for _ in 0..100 {
        a.on_tick();
        b.on_tick();
    }
    assert_eq!(a.sparkline.points(), b.sparkline.points());
    assert_eq!(a.signals.sin1.points(), b.signals.sin1.points());
    assert_eq!(a.signals.sin2.points(), b.signals.sin2.points());
    assert_eq!(a.power, b.power);
}
