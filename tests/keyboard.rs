use typing_keyboard::app::{Message, TypingApp};
use typing_keyboard::ui::keyboard::{
    key_colour, text_colour, ButtonColour, Colour, KeyboardButton, KeyboardStructure, KeyboardUI,
    VisualKey, KEY_HEIGHT, KEY_WIDTH,
};

fn labels(row: &[KeyboardButton]) -> Vec<String> {
    row.iter().map(|k| k.text.clone()).collect()
}

fn rows(s: &KeyboardStructure) -> Vec<&Vec<KeyboardButton>> {
    vec![&s.number_row, &s.top_row, &s.middle_row, &s.bottom_row, &s.space_row]
}

const GRAY: Colour = Colour { r: 213, g: 213, b: 213 };

#[test]
fn qwerty_row_sizes() {
    let s = KeyboardStructure::build_qwerty();
    let sizes: Vec<usize> = rows(&s).iter().map(|r| r.len()).collect();
    assert_eq!(sizes, vec![14, 14, 13, 12, 10]);
}

#[test]
fn qwerty_labels_in_order() {
    let s = KeyboardStructure::default();
    let all: Vec<String> = rows(&s).iter().flat_map(|r| labels(r)).collect();
    let expected = [
        "~", "1", "2", "3", "4", "5", "6", "7", "8", "9", "0", "-", "=", "BACKSPACE",
        "TAB", "Q", "W", "E", "R", "T", "Y", "U", "I", "O", "P", "[", "]", "\\",
        "CAPS", "A", "S", "D", "F", "G", "H", "J", "K", "L", ";", "\"", "ENTER",
        "SHIFT", "Z", "X", "C", "V", "B", "N", "M", ",", ".", "/", "SHIFT",
        "CTRL", "fn", "WIN", "ALT", "SPACE", "ALT", "CTRL", "<", "^", ">",
    ];
    assert_eq!(all, expected.iter().map(|l| l.to_string()).collect::<Vec<_>>());
}

#[test]
fn only_space_is_wide() {
    let ui = KeyboardUI::default();
    let tree = ui.build();
    assert_eq!(tree.len(), 5);
    for row in &tree {
        for key in row {
            let extra = if key.label == "SPACE" { 30 } else { 0 };
            assert_eq!(key.width, 30 + extra);
            assert_eq!(key.height, 30);
            assert_eq!(key.fill, GRAY);
        }
    }
    assert_eq!(tree.iter().flatten().filter(|k| k.label == "SPACE").count(), 1);
}

#[test]
fn colour_resolution() {
    let custom = Colour { r: 1, g: 2, b: 3 };
    assert_eq!(ButtonColour::Other(custom).colour(), custom);
    assert_eq!(ButtonColour::Other(custom).colour(), ButtonColour::Other(custom).colour());
    for role in [
        ButtonColour::Standard,
        ButtonColour::Index,
        ButtonColour::Middle,
        ButtonColour::Ring,
        ButtonColour::Pinky,
    ] {
        assert_eq!(role.colour(), GRAY);
        assert_eq!(role.colour(), role.colour());
    }
    assert_eq!(key_colour(), GRAY);
    assert_eq!(text_colour(), Colour { r: 40, g: 44, b: 52 });
}

fn summary(tree: &[Vec<VisualKey>]) -> Vec<Vec<(String, u64, u32, Colour)>> {
    tree.iter()
        .map(|row| row.iter().map(|k| (k.label.clone(), k.width, k.height, k.fill)).collect())
        .collect()
}

#[test]
fn building_twice_is_the_same() {
    let ui = KeyboardUI::default();
    let first = ui.build_();
    let second = ui.build();
    assert_eq!(summary(&first), summary(&second));
    let sizes: Vec<usize> = first.iter().map(|r| r.len()).collect();
    assert_eq!(sizes, vec![14, 14, 13, 12, 10]);
}

#[test]
fn space_row_scenario() {
    let ui = KeyboardUI::default();
    let row = ui.build_row(4);
    let names: Vec<&str> = row.iter().map(|k| k.label.as_str()).collect();
    assert_eq!(names, vec!["CTRL", "fn", "WIN", "ALT", "SPACE", "ALT", "CTRL", "<", "^", ">"]);
    for (j, key) in row.iter().enumerate() {
        let expected = if j == 4 { KEY_WIDTH as u64 + 30 } else { KEY_WIDTH as u64 };
        assert_eq!(key.width, expected);
    }
}

#[test]
fn key_descriptors() {
    let k = KeyboardButton::new("BACKSPACE");
    assert_eq!(k.text, "BACKSPACE");
    assert_eq!(k.extra_width, 0);
    let w = KeyboardButton::with_extra_width("SPACE", 30);
    assert_eq!(w.text, "SPACE");
    assert_eq!(w.extra_width, 30);
    let mut m = KeyboardButton::new("Q");
    m.set_extra_width(7);
    assert_eq!(m.extra_width, 7);
    assert_eq!(m.text, "Q");
    let d = KeyboardButton::default();
    assert_eq!(d.text, "A");
    assert_eq!(d.extra_width, 0);
}

#[test]
fn key_rendering() {
    let k = KeyboardButton::with_extra_width("ENTER", 12);
    let custom = Colour { r: 255, g: 0, b: 10 };
    let v = k.build_coloured(ButtonColour::Other(custom));
    assert_eq!(v.label, "ENTER");
    assert_eq!(v.width, 42);
    assert_eq!(v.height, KEY_HEIGHT);
    assert_eq!(v.fill, custom);
    let plain = KeyboardButton::new("Z").build();
    assert_eq!(plain.label, "Z");
    assert_eq!(plain.width, 30);
    assert_eq!(plain.fill, GRAY);
    let wide = KeyboardButton::with_extra_width("X", u32::MAX).build();
    assert_eq!(wide.width, 30 + u32::MAX as u64);
}

#[test]
fn custom_layout_rows() {
    let mut ui = KeyboardUI::default();
    ui.structure.top_row = vec![KeyboardButton::new("'"), KeyboardButton::with_extra_width(",", 5)];
    let row = ui.structure.row(1);
    assert_eq!(labels(row), vec!["'".to_string(), ",".to_string()]);
    let tree = ui.build();
    assert_eq!(tree[1].len(), 2);
    assert_eq!(tree[1][1].width, 35);
    assert_eq!(tree[0][13].label, "BACKSPACE");
}

#[test]
fn application_shows_keyboard() {
    let mut app = TypingApp::default();
    app.update(Message::Idle);
    let shown = app.view();
    assert_eq!(summary(&shown), summary(&KeyboardUI::default().build()));
    assert_eq!(shown[4][4].label, "SPACE");
}
