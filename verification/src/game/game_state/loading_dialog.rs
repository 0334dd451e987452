use vstd::prelude::*;

verus! {

/// The number of pictures of the spinner.
pub const SPINNER_FRAMES: usize = 4;

/// What stands for "the map is made" among the messages of the states
/// below.
pub open spec fn done_message() -> Seq<char> {
    "DoneLoading"@
}

/// The dialog that is shown while the map is made.
#[derive(Copy, Clone, Debug, PartialEq, Eq, Structural)]
pub struct LoadingDialog {
    pub current_spinner: usize,
    pub x: i32,
    pub y: i32,
}

impl Default for LoadingDialog {
    fn default() -> (r: Self)
        ensures
            r == (LoadingDialog { current_spinner: 0, x: 0, y: 0 }),
    {
        LoadingDialog { current_spinner: 0, x: 0, y: 0 }
    }
}

impl LoadingDialog {
    /// Takes note of the size of the screen.
    pub fn activate(&mut self, screen_width: i32, screen_height: i32)
        ensures
            *final(self) == (LoadingDialog { x: screen_width, y: screen_height, ..*old(self) }),
    {
        self.x = screen_width;
        self.y = screen_height;
    }

    /// Turns the spinner on and says whether the dialog is done with: it
    /// is once one of `messages` says that the map is made.
    pub fn update(&mut self, messages: &Vec<String>) -> (done: bool)
        ensures
            final(self).current_spinner == (if old(self).current_spinner == usize::MAX {
                0
            } else {
                old(self).current_spinner + 1
            }),
            final(self).x == old(self).x,
            final(self).y == old(self).y,
            done == (exists|i: int| 0 <= i < messages@.len() && (#[trigger] messages@[i])@ == done_message()),
    {
        self.current_spinner = if self.current_spinner == usize::MAX {
            0
        } else {
            self.current_spinner + 1
        };
        let done = "DoneLoading".to_owned();
        let mut i: usize = 0;
        while i < messages.len()
            invariant
                i <= messages.len(),
                done@ == done_message(),
                self.x == old(self).x,
                self.y == old(self).y,
                self.current_spinner == (if old(self).current_spinner == usize::MAX {
                    0
                } else {
                    old(self).current_spinner + 1
                }),
                forall|j: int| 0 <= j < i ==> (#[trigger] messages@[j])@ != done_message(),
            decreases messages.len() - i,
        {
            if messages[i] == done {
                return true;
            }
            i += 1;
        }
        false
    }

    /// The picture of the spinner to show.
    pub fn frame(&self) -> (r: usize)
        ensures
            r == self.current_spinner % SPINNER_FRAMES,
    {
        self.current_spinner % SPINNER_FRAMES
    }

    /// The text with the given picture of the spinner.
    pub fn frame_text(frame: usize) -> (r: &'static str)
        requires
            frame < SPINNER_FRAMES,
        ensures
            r@ == (if frame == 0 {
                "\\ Loading..."@
            } else if frame == 1 {
                "| Loading..."@
            } else if frame == 2 {
                "/ Loading..."@
            } else {
                "- Loading..."@
            }),
    {
        if frame == 0 {
            "\\ Loading..."
        } else if frame == 1 {
            "| Loading..."
        } else if frame == 2 {
            "/ Loading..."
        } else {
            "- Loading..."
        }
    }

    /// The cell at which the text is centred.
    pub fn text_position(&self) -> (r: (i32, i32))
        ensures
            r.0 == crate::data::base::quotient_towards_zero(self.x as int, 2),
            r.1 == crate::data::base::quotient_towards_zero(self.y as int, 2),
    {
        (self.x / 2, self.y / 2)
    }
}

} // verus!
