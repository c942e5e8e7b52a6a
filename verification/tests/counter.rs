use input_bridge::app::counter_line;
use input_bridge::app::App;
use input_bridge::app::Startup;
use input_bridge::decimal::append_decimal;
use input_bridge::decimal::to_decimal;

#[test]
fn new_app_has_counted_nothing() {
    let app = App::new();
    assert_eq!(app.counter(), 0);
    assert_eq!(App::default().counter(), 0);
}

#[test]
fn two_clicks_from_zero() {
    let mut app = App::new();
    assert_eq!(app.counter(), 0);
    let shown = app.handle_actions(true);
    assert_eq!(app.counter(), 1);
    assert_eq!(shown, Some(String::from("Counter: 1")));
    let shown = app.handle_actions(true);
    assert_eq!(app.counter(), 2);
    assert_eq!(shown, Some(String::from("Counter: 2")));
}

#[test]
fn tick_without_click_changes_nothing() {
    let mut app = App::new();
    assert_eq!(app.handle_actions(false), None);
    assert_eq!(app.counter(), 0);
    app.handle_actions(true);
    assert_eq!(app.handle_actions(false), None);
    assert_eq!(app.counter(), 1);
}

#[test]
fn many_clicks_add_up() {
    let mut app = App::new();
    let before = app.counter();
    let clicks: usize = 1234;
    let mut k: usize = 1;
    while k <= clicks {
        let shown = app.handle_actions(true);
        assert_eq!(app.counter(), before + k);
        assert_eq!(shown, Some(format!("Counter: {}", before + k)));
        k += 1;
    }
    assert_eq!(app.counter(), before + clicks);
}

#[test]
fn clicks_interleaved_with_idle_ticks() {
    let mut app = App::new();
    let pattern = vec![true, false, false, true, true, false, true];
    let mut expected: usize = 0;
    for clicked in pattern {
        let shown = app.handle_actions(clicked);
        if clicked {
            expected += 1;
            assert_eq!(shown, Some(format!("Counter: {}", expected)));
        } else {
            assert_eq!(shown, None);
        }
        assert_eq!(app.counter(), expected);
    }
    assert_eq!(app.counter(), 4);
}

#[test]
fn startup_logs_and_starts_the_listener_once() {
    let mut app = App::new();
    assert!(!app.is_listening());
    let startup = app.handle_startup();
    assert_eq!(startup, Startup { line: String::from("App started"), start_listener: true });
    assert!(app.is_listening());
    assert_eq!(app.counter(), 0);
    let again = app.handle_startup();
    assert_eq!(again, Startup { line: String::from("App started"), start_listener: false });
    assert!(app.is_listening());
    app.handle_actions(true);
    assert!(app.is_listening());
    assert_eq!(app.counter(), 1);
}

#[test]
fn counter_line_exact_values() {
    assert_eq!(counter_line(0), "Counter: 0");
    assert_eq!(counter_line(7), "Counter: 7");
    assert_eq!(counter_line(10), "Counter: 10");
    assert_eq!(counter_line(1090), "Counter: 1090");
    assert_eq!(counter_line(usize::MAX), format!("Counter: {}", usize::MAX));
}

#[test]
fn decimal_exact_values() {
    assert_eq!(to_decimal(0), "0");
    assert_eq!(to_decimal(9), "9");
    assert_eq!(to_decimal(10), "10");
    assert_eq!(to_decimal(99), "99");
    assert_eq!(to_decimal(100), "100");
    assert_eq!(to_decimal(1234567890), "1234567890");
    assert_eq!(to_decimal(4294967295), "4294967295");
    assert_eq!(to_decimal(usize::MAX), usize::MAX.to_string());
}

#[test]
fn decimal_agrees_with_std_on_a_range() {
    let mut n: usize = 0;
    while n < 3000 {
        assert_eq!(to_decimal(n), n.to_string());
        n += 1;
    }
    let mut p: usize = 1;
    loop {
        assert_eq!(to_decimal(p), p.to_string());
        assert_eq!(to_decimal(p - 1), (p - 1).to_string());
        match p.checked_mul(10) {
            Some(q) => p = q,
            None => break,
        }
    }
}

#[test]
fn decimal_reads_back() {
    let values = vec![0usize, 5, 10, 42, 1000, 65535, 10_000_001];
    for n in values {
        let text = to_decimal(n);
        assert!(!text.is_empty());
        assert!(n == 0 || !text.starts_with('0'));
        assert_eq!(text.parse::<usize>().ok(), Some(n));
    }
}

#[test]
fn append_decimal_keeps_what_was_there() {
    let mut text = String::from("n = ");
    append_decimal(&mut text, 305);
    assert_eq!(text, "n = 305");
    append_decimal(&mut text, 0);
    assert_eq!(text, "n = 3050");
}
