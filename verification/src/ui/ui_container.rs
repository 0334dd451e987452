use vstd::prelude::*;
use crate::data::base::{Position, Size};
use crate::game::Input;
use crate::ui::button::Button;
use crate::ui::checkbox::CheckBox;
use crate::ui::drawable::{
    covers, offset_by, shown, spec_covers, spec_offset_by, spec_shown, Drawable, Positioned, Sized, VisibilityFn,
};
use crate::ui::label::Label;
use crate::ui::originals::{HoldingOriginals, IndexedOriginal};
use crate::ui::textbox::TextBox;
use crate::ui::update_result::{Answer, HitResult, UpdateResult};

verus! {

/// A part that a container can hold.
pub enum Component {
    Label(Label),
    Button(Button),
    TextBox(TextBox),
    CheckBox(CheckBox),
}

impl Positioned for Component {
    open spec fn spec_position(&self) -> Position {
        match self {
            Component::Label(part) => part.position,
            Component::Button(part) => part.position,
            Component::TextBox(part) => part.position,
            Component::CheckBox(part) => part.position,
        }
    }

    fn position(&self) -> (r: Position) {
        match self {
            Component::Label(part) => part.position,
            Component::Button(part) => part.position,
            Component::TextBox(part) => part.position,
            Component::CheckBox(part) => part.position,
        }
    }
}

impl Sized for Component {
    open spec fn spec_size(&self) -> Size {
        match self {
            Component::Label(part) => part.size,
            Component::Button(part) => part.size,
            Component::TextBox(part) => part.size,
            Component::CheckBox(part) => part.size,
        }
    }

    fn size(&self) -> (r: Size) {
        match self {
            Component::Label(part) => part.size,
            Component::Button(part) => part.size,
            Component::TextBox(part) => part.size,
            Component::CheckBox(part) => part.size,
        }
    }
}

impl VisibilityFn for Component {
    open spec fn spec_visibility(&self) -> Option<bool> {
        match self {
            Component::Label(part) => part.visibility,
            Component::Button(part) => part.visibility,
            Component::TextBox(part) => part.visibility,
            Component::CheckBox(part) => part.visibility,
        }
    }

    fn visibility_fn(&self) -> (r: Option<bool>) {
        match self {
            Component::Label(part) => part.visibility,
            Component::Button(part) => part.visibility,
            Component::TextBox(part) => part.visibility,
            Component::CheckBox(part) => part.visibility,
        }
    }
}

impl Drawable for Component {
    open spec fn spec_answer(&self, origin: Position, input: &Input) -> Answer {
        match self {
            Component::Label(part) => part.spec_answer(origin, input),
            Component::Button(part) => part.spec_answer(origin, input),
            Component::TextBox(part) => part.spec_answer(origin, input),
            Component::CheckBox(part) => part.spec_answer(origin, input),
        }
    }

    fn update(&mut self, relative_position: Position, input: &Input) -> (r: UpdateResult)
        ensures
            *old(self) is Label <==> *final(self) is Label,
            *old(self) is Button <==> *final(self) is Button,
            *old(self) is TextBox <==> *final(self) is TextBox,
            *old(self) is CheckBox <==> *final(self) is CheckBox,
    {
        match self {
            Component::Label(part) => part.update(relative_position, input),
            Component::Button(part) => part.update(relative_position, input),
            Component::TextBox(part) => part.update(relative_position, input),
            Component::CheckBox(part) => part.update(relative_position, input),
        }
    }

    fn visible(&self) -> (r: bool) {
        shown(self.visibility_fn())
    }
}

/// Parts that stand together: the input goes to each of them.
pub struct UiContainer {
    pub position: Position,
    pub size: Size,
    pub visibility: Option<bool>,
    pub components: Vec<Component>,
}

impl UiContainer {
    /// A container with the given parts.
    pub fn new_with_components(components: Vec<Component>, position: Position, size: Size) -> (r: Self)
        ensures
            r.components == components,
            r.position == position,
            r.size == size,
            r.visibility.is_none(),
    {
        Self { position, size, components, visibility: None }
    }

    /// An empty container.
    pub fn new(position: Position, size: Size) -> (r: Self)
        ensures
            r.components@.len() == 0,
            r.position == position,
            r.size == size,
            r.visibility.is_none(),
    {
        Self::new_with_components(Vec::new(), position, size)
    }

    /// Puts `component` in, after the parts that are there, and says
    /// where it is.
    pub fn add_component(&mut self, component: Component) -> (r: IndexedOriginal<Component>)
        ensures
            final(self).components@ == old(self).components@.push(component),
            final(self).position == old(self).position,
            final(self).size == old(self).size,
            final(self).visibility == old(self).visibility,
            r.spec_index() == old(self).components@.len(),
    {
        self.components.push(component);
        IndexedOriginal::new(self.components.len() - 1)
    }

    /// Whether the part at `i` is shown and met by the input.
    pub open spec fn part_met(&self, origin: Position, input: &Input, i: int) -> bool {
        &&& 0 <= i < self.components@.len()
        &&& spec_shown(self.components@[i].spec_visibility())
        &&& self.components@[i].spec_answer(spec_offset_by(origin, self.position), input).hit == HitResult::Hit
    }

    /// The answer of the first part, from `from` on, that is shown and met
    /// by the input; where there is none, the answer of the container
    /// itself, which notices the mouse over it and takes its own position
    /// as counted from the corner of the screen.
    pub open spec fn answer_from(&self, origin: Position, input: &Input, from: int) -> Answer
        decreases self.components@.len() - from,
    {
        if from < 0 || from >= self.components@.len() {
            Answer::plain(
                spec_covers(
                    Position { x: 0, y: 0 },
                    self.position,
                    self.size,
                    input.mouse_event.character_position,
                ),
            )
        } else if self.part_met(origin, input, from) {
            self.components@[from].spec_answer(spec_offset_by(origin, self.position), input)
        } else {
            self.answer_from(origin, input, from + 1)
        }
    }
}

impl Positioned for UiContainer {
    open spec fn spec_position(&self) -> Position {
        self.position
    }

    fn position(&self) -> (r: Position) {
        self.position
    }
}

impl Sized for UiContainer {
    open spec fn spec_size(&self) -> Size {
        self.size
    }

    fn size(&self) -> (r: Size) {
        self.size
    }
}

impl VisibilityFn for UiContainer {
    open spec fn spec_visibility(&self) -> Option<bool> {
        self.visibility
    }

    fn visibility_fn(&self) -> (r: Option<bool>) {
        self.visibility
    }
}

impl Drawable for UiContainer {
    open spec fn spec_answer(&self, origin: Position, input: &Input) -> Answer {
        self.answer_from(origin, input, 0)
    }

    /// Shows the input to the parts that are shown, one after the other,
    /// until one of them is met; its answer is the answer of the
    /// container.
    fn update(&mut self, relative_position: Position, input: &Input) -> (r: UpdateResult)
        ensures
            final(self).components@.len() == old(self).components@.len(),
    {
        let origin = offset_by(relative_position, self.position);
        let mut i: usize = 0;
        while i < self.components.len()
            invariant
                i <= self.components.len(),
                self.position == old(self).position,
                self.size == old(self).size,
                self.visibility == old(self).visibility,
                self.components@.len() == old(self).components@.len(),
                origin == spec_offset_by(relative_position, self.position),
                old(self).answer_from(relative_position, input, 0) == old(self).answer_from(
                    relative_position,
                    input,
                    i as int,
                ),
                forall|j: int| i <= j < self.components@.len() ==> self.components@[j] == old(self).components@[j],
            decreases self.components.len() - i,
        {
            if self.components[i].visible() {
                let ghost before = self.components@;
                let result = self.components[i].update(origin, input);
                proof {
                    assert(forall|j: int| i < j < self.components@.len() ==> self.components@[j] == before[j]);
                }
                if result.hit == HitResult::Hit {
                    proof {
                        assert(old(self).part_met(relative_position, input, i as int));
                    }
                    return result;
                }
            }
            i += 1;
        }
        if covers(Position { x: 0, y: 0 }, self.position, self.size, input.mouse_event.character_position) {
            UpdateResult::hit(HitResult::Hit)
        } else {
            UpdateResult::hit(HitResult::NoHit)
        }
    }

    fn visible(&self) -> (r: bool) {
        shown(self.visibility)
    }
}

impl HoldingOriginals<usize> for UiContainer {
    type Held = Component;

    open spec fn holds(&self, token: &usize) -> bool {
        *token < self.components@.len()
    }

    fn get_component(&mut self, token: &usize) -> (r: &mut Component)
        ensures
            *r == old(self).components@[*token as int],
            final(self).components@ == old(self).components@.update(*token as int, *final(r)),
            final(self).position == old(self).position,
            final(self).size == old(self).size,
            final(self).visibility == old(self).visibility,
    {
        &mut self.components[*token]
    }
}

} // verus!
