use price_estimator::app::App;
use price_estimator::ui::app::App as UiApp;

#[test]
fn new_form_has_defaults() {
    let a = App::new();
    assert_eq!(a.selected, 0);
    assert_eq!(a.fields.len(), 6);
    let expected = [
        ("RAM (GB)", "8"),
        ("Player Slots", "20"),
        ("Worlds", "1"),
        ("Plugins", "10"),
        ("Mods", "0"),
        ("Servers", "1"),
    ];
    for (i, (label, value)) in expected.iter().enumerate() {
        assert_eq!(a.fields[i].0, *label);
        assert_eq!(a.fields[i].1, *value);
    }
}

#[test]
fn new_ui_form_is_empty() {
    let a = UiApp::new();
    assert_eq!(a.selected, 0);
    assert_eq!(a.fields.len(), 6);
    let labels = [
        "Num Players",
        "World Size (GB)",
        "RAM (GB)",
        "CPU Cores",
        "Plugins",
        "Bandwidth (Mbps)",
    ];
    for (i, label) in labels.iter().enumerate() {
        assert_eq!(a.fields[i].0, *label);
        assert_eq!(a.fields[i].1, "");
    }
}

#[test]
fn selection_stays_in_bounds() {
    let mut a = App::new();
    a.move_up();
    assert_eq!(a.selected, 0);
    for _ in 0..10 {
        a.move_down();
        assert!(a.selected < a.fields.len());
    }
    assert_eq!(a.selected, 5);
    a.move_down();
    assert_eq!(a.selected, 5);
    for _ in 0..10 {
        a.move_up();
        assert!(a.selected < a.fields.len());
    }
    assert_eq!(a.selected, 0);
}

#[test]
fn selection_stays_in_bounds_mixed_walk() {
    let mut a = UiApp::new();
    let moves = [true, true, false, true, true, true, true, true, false, false, true, false];
    for &down in moves.iter() {
        if down {
            a.move_down();
        } else {
            a.move_up();
        }
        assert!(a.selected < a.fields.len());
    }
}

#[test]
fn append_non_digit_changes_nothing() {
    let mut a = App::new();
    let before: Vec<(&str, String)> = a.fields.clone();
    let sel = a.selected;
    a.append_digit('a');
    a.append_digit(' ');
    a.append_digit('-');
    a.append_digit('\n');
    assert_eq!(a.fields, before);
    assert_eq!(a.selected, sel);
}

#[test]
fn append_digit_extends_selected_value() {
    let mut a = UiApp::new();
    a.append_digit('1');
    a.append_digit('2');
    assert_eq!(a.fields[0].1, "12");
    a.append_digit('5');
    assert_eq!(a.fields[0].1, "125");
    // only the selected field changes
    for i in 1..6 {
        assert_eq!(a.fields[i].1, "");
    }
}

#[test]
fn append_digit_on_prefilled_value() {
    let mut a = App::new();
    a.append_digit('5');
    assert_eq!(a.fields[0].1, "85");
}

#[test]
fn backspace_removes_last_char() {
    let mut a = App::new();
    a.move_down();
    assert_eq!(a.fields[1].1, "20");
    a.backspace();
    assert_eq!(a.fields[1].1, "2");
    a.backspace();
    assert_eq!(a.fields[1].1, "");
}

#[test]
fn backspace_on_empty_is_noop() {
    let mut a = UiApp::new();
    a.backspace();
    assert_eq!(a.fields[0].1, "");
    a.backspace();
    a.backspace();
    assert_eq!(a.fields[0].1, "");
    assert_eq!(a.selected, 0);
    for i in 0..6 {
        assert_eq!(a.fields[i].1, "");
    }
}

#[test]
fn value_round_trips_through_digits() {
    for n in [0u32, 7, 42, 305, 999_999, 4_294_967_295] {
        let mut a = UiApp::new();
        for c in n.to_string().chars() {
            a.append_digit(c);
        }
        assert_eq!(a.current_value_as_u32(0), n);
    }
}

#[test]
fn empty_value_reads_as_zero() {
    let a = UiApp::new();
    for i in 0..6 {
        assert_eq!(a.current_value_as_u32(i), 0);
    }
}

#[test]
fn out_of_range_index_reads_as_zero() {
    let a = App::new();
    assert_eq!(a.current_value_as_u32(6), 0);
    assert_eq!(a.current_value_as_u32(1000), 0);
}

#[test]
fn default_values_read_back() {
    let a = App::new();
    let expected = [8u32, 20, 1, 10, 0, 1];
    for (i, v) in expected.iter().enumerate() {
        assert_eq!(a.current_value_as_u32(i), *v);
    }
}
