use vstd::prelude::*;
use crate::data::base::{Position, Size};
use crate::game::Input;
use crate::ui::button::Button;
use crate::ui::dialog::Dialog;
use crate::ui::drawable::Drawable;
use crate::ui::label::Label;
use crate::ui::ui_container::{Component, UiContainer};
use crate::ui::update_result::Answer;
use crate::util::tcod::TextAlignment;
use crate::util::text::{first_lowercase, spec_lowercase, text_of, to_chars};

verus! {

/// How many characters of the message stand in one line.
pub const MAX_TEXT_LINE_LENGTH: usize = 50;

/// The width of a button of a message box.
pub const BUTTON_WIDTH: i32 = 15;

/// The width of a message box.
pub const MESSAGE_BOX_WIDTH: i32 = 54;

/// Which button of a message box was pressed.
#[derive(Copy, Clone, Debug, PartialEq, Eq, Structural)]
pub enum MessageBoxResult {
    First,
    Second,
}

/// A dialog with a message and one or two buttons.
pub struct MessageBox {
    pub dialog: Dialog<UiContainer>,
    pub first_button_text: String,
    pub second_button_text: Option<String>,
}

/// How many lines a message of the given length takes: one for every
/// fifty characters, and one more, which is empty where the length is a
/// multiple of fifty.
pub open spec fn line_count(length: int) -> int {
    length / 50 + 1
}

/// The line with the number `k`, from 0, of the message `text`.
pub open spec fn spec_line(text: Seq<char>, k: int) -> Seq<char> {
    text.subrange(
        50 * k,
        if 50 * k + 50 < text.len() {
            50 * k + 50
        } else {
            text.len() as int
        },
    )
}

/// Whether `component` is the label for line `k` of the message `text`.
pub open spec fn is_line_label(component: Component, text: Seq<char>, k: int) -> bool {
    &&& component matches Component::Label(label)
    &&& label.text@ == spec_line(text, k)
    &&& label.position == (Position { x: 27, y: (2 + k) as i32 })
    &&& label.alignment == TextAlignment::Center
}

/// Whether `component` is a button of a message box with the given text
/// in the column `x` of the row `y`: its key is the first character of the
/// text, as a small letter, and pressing it ends the dialog.
pub open spec fn is_box_button(component: Component, text: Seq<char>, x: int, y: int) -> bool {
    &&& component matches Component::Button(button)
    &&& button.text@ == text
    &&& button.position == (Position { x: x as i32, y: y as i32 })
    &&& button.size.width == BUTTON_WIDTH
    &&& button.dismiss
    &&& button.shortcut == (if text.len() > 0 {
        Some(spec_lowercase(text[0]))
    } else {
        None
    })
}

impl MessageBox {
    /// Whether the box shows `text` and the buttons as it should: the
    /// message in lines of fifty characters, below them one button in the
    /// middle or two side by side.
    pub open spec fn laid_out(&self, text: Seq<char>, first: Seq<char>, second: Option<Seq<char>>) -> bool {
        let lines = line_count(text.len() as int);
        let parts = self.dialog.contents.components@;
        &&& self.dialog.size == (Size { width: MESSAGE_BOX_WIDTH, height: (text.len() / 50 + 8) as i32 })
        &&& self.dialog.title.is_none()
        &&& self.dialog.contents.position == (Position { x: 0, y: 0 })
        &&& self.dialog.contents.size == self.dialog.size
        &&& self.first_button_text@ == first
        &&& parts.len() == lines + (if second.is_some() {
            2int
        } else {
            1int
        })
        &&& forall|k: int| 0 <= k < lines ==> is_line_label(#[trigger] parts[k], text, k)
        &&& match second {
            None => {
                &&& self.second_button_text.is_none()
                &&& is_box_button(parts[lines], first, 22, lines + 3)
            },
            Some(other) => {
                &&& self.second_button_text.is_some()
                &&& self.second_button_text.unwrap()@ == other
                &&& is_box_button(parts[lines], first, 8, lines + 3)
                &&& is_box_button(parts[lines + 1], other, 31, lines + 3)
            },
        }
    }

    /// A message box in the middle of a screen of the size `screen`. The
    /// message is so short that the height of the box, eight rows more
    /// than the message has full lines, is a number of rows a box can
    /// have.
    pub fn create_message_box(
        screen: Size,
        text: &str,
        first_button_text: &str,
        second_button_text: Option<&str>,
    ) -> (r: Self)
        requires
            text@.len() / 50 + 8 <= i32::MAX,
        ensures
            r.laid_out(
                text@,
                first_button_text@,
                match second_button_text {
                    Some(other) => Some(other@),
                    None => None,
                },
            ),
            r.dialog.position.x == crate::ui::dialog::spec_centered(screen.width, MESSAGE_BOX_WIDTH),
    {
        let chars = to_chars(text);
        let length = chars.len();
        let size = Size { width: MESSAGE_BOX_WIDTH, height: (length / MAX_TEXT_LINE_LENGTH + 8) as i32 };
        let mut contents = UiContainer::new(Position { x: 0, y: 0 }, size);
        let lines = length / MAX_TEXT_LINE_LENGTH + 1;
        let mut k: usize = 0;
        while k < lines
            invariant
                k <= lines,
                lines == length / MAX_TEXT_LINE_LENGTH + 1,
                length == chars.len(),
                length / 50 + 8 <= i32::MAX,
                chars@ == text@,
                contents.position == (Position { x: 0, y: 0 }),
                contents.size == size,
                contents.visibility.is_none(),
                contents.components@.len() == k,
                forall|j: int| 0 <= j < k ==> is_line_label(#[trigger] contents.components@[j], text@, j),
            decreases lines - k,
        {
            let from = k * MAX_TEXT_LINE_LENGTH;
            let to = if length - from > MAX_TEXT_LINE_LENGTH {
                from + MAX_TEXT_LINE_LENGTH
            } else {
                length
            };
            let line = text_of(&chars, from, to);
            let label = Label::new_with_alignment(
                line.as_str(),
                Position { x: 27, y: (2 + k) as i32 },
                TextAlignment::Center,
            );
            let ghost before = contents.components@;
            contents.add_component(Component::Label(label));
            assert(forall|j: int| 0 <= j < k ==> contents.components@[j] == before[j]);
            k += 1;
        }
        let row = (lines + 3) as i32;
        let shortcut = first_lowercase(first_button_text);
        let ghost labels = contents.components@;
        match second_button_text {
            None => {
                contents.add_component(
                    Component::Button(
                        Button::new(first_button_text, Position { x: 22, y: row }, BUTTON_WIDTH, shortcut, true),
                    ),
                );
                assert(forall|j: int| 0 <= j < lines ==> contents.components@[j] == labels[j]);
            },
            Some(other) => {
                contents.add_component(
                    Component::Button(
                        Button::new(first_button_text, Position { x: 8, y: row }, BUTTON_WIDTH, shortcut, true),
                    ),
                );
                let other_shortcut = first_lowercase(other);
                contents.add_component(
                    Component::Button(Button::new(other, Position { x: 31, y: row }, BUTTON_WIDTH, other_shortcut, true)),
                );
                assert(forall|j: int| 0 <= j < lines ==> contents.components@[j] == labels[j]);
            },
        }
        Self {
            dialog: Dialog::new(screen, contents, None, size),
            first_button_text: first_button_text.to_owned(),
            second_button_text: match second_button_text {
                Some(other) => Some(other.to_owned()),
                None => None,
            },
        }
    }

    /// Which button an answer of the dialog stands for: the first one if
    /// the answer comes from a part with the text of the first button,
    /// else the second one if it comes from a part with its text.
    pub open spec fn result_of(&self, answer: Answer) -> Option<MessageBoxResult> {
        if answer.kind.is_some() && answer.data.is_some() {
            if answer.data.unwrap() == self.first_button_text@ {
                Some(MessageBoxResult::First)
            } else if self.second_button_text.is_some() && answer.data.unwrap() == self.second_button_text.unwrap()@ {
                Some(MessageBoxResult::Second)
            } else {
                None
            }
        } else {
            None
        }
    }

    /// Shows the input to the box and says which button was pressed, if
    /// one was.
    pub fn update(&mut self, input: &Input) -> (r: Option<MessageBoxResult>)
        ensures
            final(self).first_button_text == old(self).first_button_text,
            final(self).second_button_text == old(self).second_button_text,
            final(self).dialog.position == old(self).dialog.position,
            final(self).dialog.size == old(self).dialog.size,
            r == old(self).result_of(old(self).dialog.spec_answer(Position { x: 0, y: 0 }, input)),
    {
        let result = self.dialog.update(Position { x: 0, y: 0 }, input);
        if result.kind.is_some() {
            match result.data {
                Some(button) => {
                    if button == self.first_button_text {
                        return Some(MessageBoxResult::First);
                    }
                    match &self.second_button_text {
                        Some(second) => {
                            if button == *second {
                                return Some(MessageBoxResult::Second);
                            }
                        },
                        None => {},
                    }
                },
                None => {},
            }
        }
        None
    }
}

} // verus!
