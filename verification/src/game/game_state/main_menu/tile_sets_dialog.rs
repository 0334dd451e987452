use vstd::prelude::*;
use crate::data::base::{Position, Size};
use crate::data::settings::Settings;
use crate::data::tile_sets::TileSets;
use crate::game::{Input, KeyCode};

verus! {

/// What the player has done with the dialog.
#[derive(Copy, Clone, Debug, PartialEq, Eq, Structural)]
pub enum TileSetsDialogOutcome {
    /// The dialog stays.
    Stay,
    /// The dialog goes and the tile set is the one it was before.
    Discard,
    /// The dialog goes and the settings, with the tile set that was
    /// chosen, are to be saved.
    Save,
}

/// What a click on a cell of the dialog means.
#[derive(Copy, Clone, Debug, PartialEq, Eq, Structural)]
pub enum Click {
    Nothing,
    ScrollUp,
    ScrollDown,
    /// The line of the list, counted from the top of what is shown.
    Line(i32),
    Confirm,
    Cancel,
}

/// The dialog in which the player chooses a tile set.
pub struct TileSetsDialog {
    pub tile_sets: TileSets,
    pub original_tile_set: Option<String>,
    pub selected_tile_set: usize,
    pub screen_width: i32,
    pub screen_height: i32,
    pub list_width: i32,
    pub scroll: i32,
    pub sub_h: i32,
}

/// `a` held between `low` and `high`.
pub open spec fn held_between(a: int, low: int, high: int) -> int {
    if a < low {
        low
    } else if a > high {
        high
    } else {
        a
    }
}

impl TileSetsDialog {
    /// A dialog that has not come up yet.
    pub fn new() -> (r: Self)
        ensures
            r.tile_sets.sets@.len() == 0,
            r.original_tile_set.is_none(),
            r.selected_tile_set == 0,
            r.screen_width == 0,
            r.screen_height == 0,
            r.list_width == 0,
            r.scroll == 0,
            r.sub_h == 0,
    {
        Self {
            tile_sets: TileSets::new(),
            original_tile_set: None,
            selected_tile_set: 0,
            screen_width: 0,
            screen_height: 0,
            list_width: 0,
            scroll: 0,
            sub_h: 0,
        }
    }

    /// Brings the dialog up on a screen of the size `screen`, with the
    /// tile sets `tile_sets` to choose from. The tile set of the settings
    /// is selected, the one called "default" where the settings name none,
    /// and the first one where there is none of that name.
    pub fn activate(&mut self, screen: Size, tile_sets: TileSets, settings: &Settings)
        ensures
            final(self).tile_sets == tile_sets,
            final(self).screen_width == screen.width,
            final(self).screen_height == screen.height,
            final(self).list_width == crate::data::base::quotient_towards_zero(screen.width as int, 3),
            final(self).scroll == 0,
            final(self).original_tile_set == settings.tile_set,
            final(self).selected_tile_set == (match tile_sets.place_of(
                match settings.tile_set {
                    Some(name) => name@,
                    None => "default"@,
                },
                0,
            ) {
                Some(place) => place as usize,
                None => 0,
            }),
    {
        self.screen_width = screen.width;
        self.screen_height = screen.height;
        self.list_width = screen.width / 3;
        self.sub_h = if tile_sets.sets.len() > i32::MAX as usize {
            i32::MAX
        } else {
            tile_sets.sets.len() as i32
        };
        self.original_tile_set = match &settings.tile_set {
            Some(name) => Some(name.clone()),
            None => None,
        };
        let found = match &settings.tile_set {
            Some(name) => tile_sets.find(name.as_str()),
            None => tile_sets.find("default"),
        };
        self.selected_tile_set = match found {
            Some(place) => place,
            None => 0,
        };
        self.tile_sets = tile_sets;
        self.scroll = 0;
    }

    /// How far apart the two buttons stand.
    pub open spec fn button_distance(&self) -> int {
        crate::data::base::quotient_towards_zero(self.screen_width - self.list_width, 3)
    }

    /// What a click on `cell` means. The scroll bar stands in the column
    /// before the right edge of the list, with an arrow at each end; the
    /// list fills the rows between the frame; the two buttons stand in
    /// the three rows above the lower frame.
    pub open spec fn spec_click(&self, cell: Position) -> Click {
        let distance = self.button_distance();
        let ok = self.list_width + distance;
        let cancel = self.list_width + 2 * distance;
        if cell.x == self.list_width - 2 {
            if cell.y == 1 {
                Click::ScrollUp
            } else if cell.y == self.screen_height - 2 {
                Click::ScrollDown
            } else {
                Click::Nothing
            }
        } else if 1 < cell.x < self.list_width - 2 && 1 < cell.y < self.screen_height - 2 && 0 <= cell.y - 2
            + self.scroll < self.tile_sets.sets@.len() {
            Click::Line((cell.y - 2) as i32)
        } else if self.screen_height - 6 <= cell.y < self.screen_height - 3 {
            if ok - 4 <= cell.x < ok + 4 {
                Click::Confirm
            } else if cancel - 4 <= cell.x < cancel + 4 {
                Click::Cancel
            } else {
                Click::Nothing
            }
        } else {
            Click::Nothing
        }
    }

    /// What a click on `cell` means.
    pub fn click(&self, cell: Position) -> (r: Click)
        ensures
            r == self.spec_click(cell),
    {
        let list_width = self.list_width as i64;
        let height = self.screen_height as i64;
        let distance = (self.screen_width as i64 - list_width) / 3;
        let ok = list_width + distance;
        let cancel = list_width + 2 * distance;
        let x = cell.x as i64;
        let y = cell.y as i64;
        if x == list_width - 2 {
            if y == 1 {
                Click::ScrollUp
            } else if y == height - 2 {
                Click::ScrollDown
            } else {
                Click::Nothing
            }
        } else if 1 < x && x < list_width - 2 && 1 < y && y < height - 2 && 0 <= y - 2 + (self.scroll as i64) && ((y
            - 2 + (self.scroll as i64)) as u64) < self.tile_sets.sets.len() as u64 {
            Click::Line((y - 2) as i32)
        } else if height - 6 <= y && y < height - 3 {
            if ok - 4 <= x && x < ok + 4 {
                Click::Confirm
            } else if cancel - 4 <= x && x < cancel + 4 {
                Click::Cancel
            } else {
                Click::Nothing
            }
        } else {
            Click::Nothing
        }
    }

    /// How far the list is scrolled after a step of `step` lines: not
    /// above its top, and no further down than to show its last lines.
    pub open spec fn spec_scrolled(&self, step: int) -> int {
        if step < 0 {
            if self.scroll + step < 0 {
                0
            } else {
                self.scroll + step
            }
        } else {
            let most = self.sub_h - self.screen_height + 3;
            let down = if self.scroll + step < most {
                self.scroll + step
            } else {
                most
            };
            held_between(down, 0, i32::MAX as int)
        }
    }

    /// Shows the input to the dialog. Escape and the button to cancel end
    /// it and bring the tile set of the settings back; the button to
    /// confirm ends it with the selected tile set in the settings; a
    /// click on the list selects a tile set, and one on an arrow scrolls
    /// the list.
    pub fn update(&mut self, input: &Input, settings: &mut Settings) -> (outcome: TileSetsDialogOutcome)
        ensures
            final(self).screen_width == old(self).screen_width,
            final(self).screen_height == old(self).screen_height,
            final(self).list_width == old(self).list_width,
            final(self).sub_h == old(self).sub_h,
            final(self).tile_sets == old(self).tile_sets,
            ({
                let escape = input.release_key_event.raw.code == KeyCode::Escape;
                let click = if input.mouse_event.clicked {
                    old(self).spec_click(input.mouse_event.character_position)
                } else {
                    Click::Nothing
                };
                let chosen = old(self).selected_tile_set < old(self).tile_sets.sets@.len();
                &&& outcome == (if escape || click == Click::Cancel {
                    TileSetsDialogOutcome::Discard
                } else if click == Click::Confirm && chosen {
                    TileSetsDialogOutcome::Save
                } else {
                    TileSetsDialogOutcome::Stay
                })
                &&& outcome == TileSetsDialogOutcome::Discard ==> final(settings).tile_set == old(self).original_tile_set && final(self).original_tile_set.is_none()
                &&& outcome == TileSetsDialogOutcome::Save ==> final(settings).tile_set.is_some() && final(settings).tile_set.unwrap()@ == crate::data::tile_sets::spec_last_part(
                    old(self).tile_sets.sets@[old(self).selected_tile_set as int].dir@,
                )
                &&& outcome == TileSetsDialogOutcome::Stay ==> final(settings).tile_set == old(settings).tile_set
                &&& !escape && click == Click::ScrollUp ==> final(self).scroll == old(self).spec_scrolled(-1)
                &&& !escape && click == Click::ScrollDown ==> final(self).scroll == old(self).spec_scrolled(1)
                &&& !escape && (click matches Click::Line(line)) ==> final(self).selected_tile_set == old(self).scroll + click->Line_0
            }),
    {
        if input.release_key_event.raw.code == KeyCode::Escape {
            settings.tile_set = self.original_tile_set.take();
            return TileSetsDialogOutcome::Discard;
        }
        if input.mouse_event.clicked {
            match self.click(input.mouse_event.character_position) {
                Click::ScrollUp => {
                    self.scroll = if self.scroll as i64 - 1 < 0 {
                        0
                    } else {
                        self.scroll - 1
                    };
                },
                Click::ScrollDown => {
                    let most = self.sub_h as i64 - self.screen_height as i64 + 3;
                    let down = if (self.scroll as i64 + 1) < most {
                        self.scroll as i64 + 1
                    } else {
                        most
                    };
                    self.scroll = if down < 0 {
                        0
                    } else if down > i32::MAX as i64 {
                        i32::MAX
                    } else {
                        down as i32
                    };
                },
                Click::Line(line) => {
                    self.selected_tile_set = (self.scroll as i64 + line as i64) as usize;
                    assert(self.selected_tile_set == old(self).scroll + line);
                },
                Click::Confirm => {
                    if self.selected_tile_set < self.tile_sets.sets.len() {
                        settings.tile_set = Some(self.tile_sets.sets[self.selected_tile_set].dir_name());
                        return TileSetsDialogOutcome::Save;
                    }
                },
                Click::Cancel => {
                    settings.tile_set = self.original_tile_set.take();
                    return TileSetsDialogOutcome::Discard;
                },
                Click::Nothing => {},
            }
        }
        TileSetsDialogOutcome::Stay
    }
}

} // verus!
