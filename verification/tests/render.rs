use scaffolder::language::ProjectLanguage;
use scaffolder::menu::{Menu, MenuItem, MAX_MENU_ITEMS};
use scaffolder::render::{render_menu, render_text, Color, Frame, ScreenLine};

fn line(row: u16, text: &str, color: Color) -> ScreenLine {
    ScreenLine { row, text: text.to_string(), color }
}

fn item(label: &str, language: ProjectLanguage) -> MenuItem {
    MenuItem { label: label.to_string(), language }
}

#[test]
fn the_language_menu_offers_every_language_in_order() {
    let menu = Menu::languages();
    assert_eq!(menu.len(), 5);
    assert_eq!(menu.get(0), Some(&item("rust", ProjectLanguage::Rust)));
    assert_eq!(menu.get(1), Some(&item("web", ProjectLanguage::Web)));
    assert_eq!(menu.get(2), Some(&item("cpp", ProjectLanguage::Cpp)));
    assert_eq!(menu.get(3), Some(&item("ocaml", ProjectLanguage::Ocaml)));
    assert_eq!(menu.get(4), Some(&item("haskell", ProjectLanguage::Haskell)));
    assert_eq!(menu.get(5), None);
}

#[test]
fn an_empty_list_is_no_menu() {
    assert_eq!(Menu::new(Vec::new()), None);
}

#[test]
fn a_list_longer_than_the_screen_can_number_is_no_menu() {
    let entry = item("x", ProjectLanguage::Web);
    assert!(Menu::new(vec![entry.clone(); MAX_MENU_ITEMS]).is_some());
    assert!(Menu::new(vec![entry; MAX_MENU_ITEMS + 1]).is_none());
}

#[test]
fn a_menu_keeps_the_order_it_was_given() {
    let entries = vec![item("second", ProjectLanguage::Cpp), item("first", ProjectLanguage::Rust)];
    let menu = Menu::new(entries.clone()).unwrap();
    assert_eq!(menu.len(), 2);
    assert_eq!(menu.get(0), Some(&entries[0]));
    assert_eq!(menu.get(1), Some(&entries[1]));
}

#[test]
fn text_is_shown_white_at_the_origin() {
    assert_eq!(
        render_text("demo"),
        Frame { lines: vec![line(0, "demo", Color::White)], cursor_visible: true }
    );
}

#[test]
fn empty_text_is_shown_as_an_empty_line() {
    assert_eq!(
        render_text(""),
        Frame { lines: vec![line(0, "", Color::White)], cursor_visible: true }
    );
}

#[test]
fn the_menu_marks_the_selected_entry() {
    assert_eq!(
        render_menu(&Menu::languages(), 2),
        Frame {
            lines: vec![
                line(0, "What language do you want to use?", Color::Default),
                line(1, "  rust\n", Color::Magenta),
                line(2, "  web\n", Color::Magenta),
                line(3, "> cpp\n", Color::Yellow),
                line(4, "  ocaml\n", Color::Magenta),
                line(5, "  haskell\n", Color::Magenta),
            ],
            cursor_visible: false,
        }
    );
}

#[test]
fn the_menu_marks_the_first_and_the_last_entry() {
    let first = render_menu(&Menu::languages(), 0);
    assert_eq!(first.lines[1], line(1, "> rust\n", Color::Yellow));
    assert_eq!(first.lines[5], line(5, "  haskell\n", Color::Magenta));
    let last = render_menu(&Menu::languages(), 4);
    assert_eq!(last.lines[1], line(1, "  rust\n", Color::Magenta));
    assert_eq!(last.lines[5], line(5, "> haskell\n", Color::Yellow));
}

#[test]
fn an_index_outside_the_menu_marks_nothing() {
    let frame = render_menu(&Menu::languages(), 5);
    assert_eq!(frame.lines.len(), 6);
    assert!(frame.lines[1..].iter().all(|entry| entry.color == Color::Magenta));
    assert!(frame.lines[1..].iter().all(|entry| entry.text.starts_with("  ")));
}

#[test]
fn rendering_twice_gives_the_same_frame() {
    let menu = Menu::languages();
    assert_eq!(render_menu(&menu, 3), render_menu(&menu, 3));
    assert_eq!(render_text("same"), render_text("same"));
}

#[test]
fn the_longest_menu_numbers_its_last_row() {
    let menu = Menu::new(vec![item("x", ProjectLanguage::Web); MAX_MENU_ITEMS]).unwrap();
    let frame = render_menu(&menu, MAX_MENU_ITEMS - 1);
    assert_eq!(frame.lines.len(), MAX_MENU_ITEMS + 1);
    assert_eq!(frame.lines[MAX_MENU_ITEMS], line(u16::MAX, "> x\n", Color::Yellow));
    assert_eq!(frame.lines[1], line(1, "  x\n", Color::Magenta));
}
