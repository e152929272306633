//! The render driver: from what is to be shown to a screen layout.
//!
//! A frame says all there is on the screen. Drawing one means clearing the
//! screen and writing each of its lines at the start of its row, so drawing
//! the same frame twice shows the same thing.

use crate::menu::{Menu, MenuItemModel};
use vstd::prelude::*;
use vstd::string::StringExecFns;

verus! {

/// The colour a line is written in.
#[derive(Clone, Copy, Debug, PartialEq, Eq, Structural)]
pub enum Color {
    /// The terminal's own foreground colour.
    Default,
    White,
    Yellow,
    Magenta,
}

/// One line of a frame: text written from the first column of a row.
#[derive(Clone, Debug, PartialEq, Eq)]
pub struct ScreenLine {
    pub row: u16,
    pub text: String,
    pub color: Color,
}

/// The mathematical value of a [`ScreenLine`].
pub struct LineModel {
    pub row: int,
    pub text: Seq<char>,
    pub color: Color,
}

/// Everything on the screen at one moment.
#[derive(Clone, Debug, PartialEq, Eq)]
pub struct Frame {
    /// The lines, in the order in which they are written.
    pub lines: Vec<ScreenLine>,
    pub cursor_visible: bool,
}

/// The mathematical value of a [`Frame`].
pub struct FrameModel {
    pub lines: Seq<LineModel>,
    pub cursor_visible: bool,
}

impl View for ScreenLine {
    type V = LineModel;

    open spec fn view(&self) -> LineModel {
        LineModel { row: self.row as int, text: self.text@, color: self.color }
    }
}

impl DeepView for ScreenLine {
    type V = LineModel;

    open spec fn deep_view(&self) -> LineModel {
        self@
    }
}

impl View for Frame {
    type V = FrameModel;

    open spec fn view(&self) -> FrameModel {
        FrameModel { lines: self.lines.deep_view(), cursor_visible: self.cursor_visible }
    }
}

/// The question above the menu.
pub open spec fn prompt_text() -> Seq<char> {
    "What language do you want to use?"@
}

/// What stands before the label of the selected entry.
pub open spec fn selected_marker() -> Seq<char> {
    "> "@
}

/// What stands before the label of every other entry.
pub open spec fn unselected_marker() -> Seq<char> {
    "  "@
}

/// What ends the line of an entry.
pub open spec fn line_end() -> Seq<char> {
    "\n"@
}

/// The frame that shows a line of text under edit: the text alone, in white,
/// at the origin.
pub open spec fn text_frame(buffer: Seq<char>) -> FrameModel {
    FrameModel {
        lines: seq![LineModel { row: 0, text: buffer, color: Color::White }],
        cursor_visible: true,
    }
}

/// The line of the menu entry at `index`. The selected entry is marked and
/// yellow, every other entry is indented and magenta.
pub open spec fn menu_line(item: MenuItemModel, index: int, selected: int) -> LineModel {
    if index == selected {
        LineModel {
            row: index + 1,
            text: selected_marker() + item.label + line_end(),
            color: Color::Yellow,
        }
    } else {
        LineModel {
            row: index + 1,
            text: unselected_marker() + item.label + line_end(),
            color: Color::Magenta,
        }
    }
}

/// The line of the prompt: the first row, in the terminal's own colour.
pub open spec fn prompt_line() -> LineModel {
    LineModel { row: 0, text: prompt_text(), color: Color::Default }
}

/// The frame that shows a menu: the prompt on the first row and one row for
/// each entry below it, in menu order.
pub open spec fn menu_frame(menu: Seq<MenuItemModel>, selected: int) -> FrameModel {
    FrameModel {
        lines: seq![prompt_line()] + Seq::new(
            menu.len(),
            |i: int| menu_line(menu[i], i, selected),
        ),
        cursor_visible: false,
    }
}

/// Lays out a line of text under edit.
pub fn render_text(buffer: &str) -> (frame: Frame)
    ensures
        frame@ == text_frame(buffer@),
{
    let mut lines: Vec<ScreenLine> = Vec::new();
    lines.push(ScreenLine { row: 0, text: buffer.to_owned(), color: Color::White });
    assert(lines.deep_view() =~= text_frame(buffer@).lines);
    Frame { lines, cursor_visible: true }
}

/// Lays out a menu with the entry at `selected` marked. Where `selected` is
/// no index of the menu, no entry is marked.
pub fn render_menu(menu: &Menu, selected: usize) -> (frame: Frame)
    ensures
        frame@ == menu_frame(menu@, selected as int),
{
    let mut lines: Vec<ScreenLine> = Vec::new();
    lines.push(
        ScreenLine {
            row: 0,
            text: "What language do you want to use?".to_owned(),
            color: Color::Default,
        },
    );
    let len = menu.len();
    let mut i: usize = 0;
    while i < len
        invariant
            i <= len,
            len == menu@.len(),
            len <= 65535,
            lines.len() == i + 1,
            lines[0]@ == prompt_line(),
            forall|k: int|
                0 <= k < i ==> (#[trigger] lines[k + 1])@ == menu_line(menu@[k], k, selected as int),
        decreases len - i,
    {
        match menu.get(i) {
            Some(item) => {
                let marked = i == selected;
                let mut text = if marked {
                    "> ".to_owned()
                } else {
                    "  ".to_owned()
                };
                text.append(item.label.as_str());
                text.append("\n");
                let color = if marked {
                    Color::Yellow
                } else {
                    Color::Magenta
                };
                let ghost before = lines@;
                lines.push(ScreenLine { row: (i + 1) as u16, text, color });
                assert(forall|k: int| 0 <= k < i + 1 ==> lines[k] == before[k]);
            },
            None => {},
        }
        i += 1;
    }
    assert(lines.deep_view() =~= menu_frame(menu@, selected as int).lines);
    Frame { lines, cursor_visible: false }
}

} // verus!
