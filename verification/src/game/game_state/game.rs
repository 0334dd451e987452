use vstd::prelude::*;
use crate::data::base::Position;
use crate::data::random::Generator;
use crate::data::settings::Settings;
use crate::game::game_data::{GameData, MapGenerationStage, MapGenerationState, TerrainWork};

verus! {

/// What the state that asks before a new game begins does next.
#[derive(Copy, Clone, Debug, PartialEq, Eq, Structural)]
pub enum ConfirmOutcome {
    /// Ask the player whether the game that runs is to end.
    Ask,
    /// Begin the new game.
    Begin,
}

/// The state that asks before a new game begins.
#[derive(Copy, Clone, Debug, PartialEq, Eq, Structural)]
pub struct ConfirmNewGame;

impl ConfirmNewGame {
    /// The question that is put to the player.
    pub fn question() -> (r: &'static str)
        ensures
            r@ == "A game is already running, are you sure you want  to start a new one?"@,
    {
        "A game is already running, are you sure you want  to start a new one?"
    }

    /// A new game begins at once unless a game runs; then the player is
    /// asked first.
    pub fn update(running: bool) -> (r: ConfirmOutcome)
        ensures
            r == (if running {
                ConfirmOutcome::Ask
            } else {
                ConfirmOutcome::Begin
            }),
    {
        if running {
            ConfirmOutcome::Ask
        } else {
            ConfirmOutcome::Begin
        }
    }
}

/// What the game asks to be done to the stack of states.
#[derive(Copy, Clone, Debug, PartialEq, Eq, Structural)]
pub enum GameUpdate {
    /// Show the dialog for the time in which the map is made.
    ShowLoading,
    /// Nothing.
    NoOp,
}

/// The state in which the game is played. It begins with making the map,
/// one stage for each update in the background.
pub struct Game {
    first_run: bool,
    map_generation_state: Option<MapGenerationState>,
    camera: Position,
}

impl Game {
    /// Whether the map is still to be made.
    pub closed spec fn spec_first_run(&self) -> bool {
        self.first_run
    }

    /// Where the making of the map has got to.
    pub closed spec fn spec_state(&self) -> Option<MapGenerationState> {
        self.map_generation_state
    }

    /// The cell that the camera looks at.
    pub closed spec fn spec_camera(&self) -> Position {
        self.camera
    }

    /// A game whose map is still to be made.
    pub fn new() -> (r: Self)
        ensures
            r.spec_first_run(),
            r.spec_state().is_none(),
            r.spec_camera() == (Position { x: 110, y: 75 }),
    {
        Self { first_run: true, map_generation_state: None, camera: Position { x: 110, y: 75 } }
    }

    pub fn first_run(&self) -> (r: bool)
        ensures
            r == self.spec_first_run(),
    {
        self.first_run
    }

    pub fn camera(&self) -> (r: Position)
        ensures
            r == self.spec_camera(),
    {
        self.camera
    }

    /// The stage of making the map that runs next, while the map is
    /// made.
    pub fn stage(&self) -> (r: Option<MapGenerationStage>)
        ensures
            r == (match self.spec_state() {
                Some(state) => Some(state.spec_stage()),
                None => None,
            }),
    {
        match &self.map_generation_state {
            Some(state) => Some(state.stage()),
            None => None,
        }
    }

    /// The work on the ground that has to be done before the next update
    /// in the background.
    pub fn pending_work(&self) -> (r: Option<&TerrainWork>)
        ensures
            r == (match self.spec_state() {
                Some(state) => Some(&state.spec_work()),
                None => None,
            }),
    {
        match &self.map_generation_state {
            Some(state) => Some(state.work()),
            None => None,
        }
    }

    /// What stands for "the map is made" among the messages of the
    /// states.
    pub fn done_message() -> (r: String)
        ensures
            r@ == "DoneLoading"@,
    {
        "DoneLoading".to_owned()
    }

    /// Goes on with making the map while a dialog covers the game. The
    /// first update puts a blank map in the place of the world and gets
    /// the state before the first stage; each update after it runs one
    /// stage; and the update after the last stage says that the map is
    /// made. After that an update does nothing.
    pub fn background_update<G: Generator>(&mut self, data: &mut GameData, generator: &mut G, settings: &Settings) -> (message:
        Option<String>)
        requires
            old(data).wf(),
        ensures
            final(data).wf(),
            final(self).spec_camera() == old(self).spec_camera(),
            !old(self).spec_first_run() ==> {
                &&& message.is_none()
                &&& !final(self).spec_first_run()
                &&& final(self).spec_state() == old(self).spec_state()
                &&& final(data).spec_running() == old(data).spec_running()
                &&& final(data).spec_map().unchanged(&old(data).spec_map())
            },
            old(self).spec_first_run() ==> match old(self).spec_state() {
                None => {
                    &&& message.is_none()
                    &&& final(self).spec_first_run()
                    &&& final(self).spec_state() matches Some(state)
                    &&& state.spec_stage() == MapGenerationStage::HeightMapClear
                    &&& state.spec_work() is Nothing
                    &&& final(data).spec_map().is_blank()
                    &&& final(data).spec_map().spec_extent() == old(data).spec_map().spec_extent()
                },
                Some(state) => if state.spec_stage() == MapGenerationStage::Done {
                    &&& message.is_some()
                    &&& message.unwrap()@ == "DoneLoading"@
                    &&& !final(self).spec_first_run()
                    &&& final(self).spec_state().is_none()
                    &&& final(data).spec_running() == old(data).spec_running()
                    &&& final(data).spec_map().unchanged(&old(data).spec_map())
                } else {
                    &&& message.is_none()
                    &&& final(self).spec_first_run()
                    &&& final(self).spec_state() matches Some(after)
                    &&& GameData::state_moved(&state, &after)
                    &&& final(data).stage_done(old(data), &state, &after, settings)
                },
            },
    {
        if !self.first_run {
            return None;
        }
        match self.map_generation_state.take() {
            None => {
                data.reset();
                let ghost blank = data.spec_map();
                self.map_generation_state = data.generate_map(generator, settings, None);
                proof {
                    data.spec_map().lemma_blank_kept(&blank);
                }
                None
            },
            Some(state) => {
                if !state.is_done() {
                    let mut state = state;
                    data.generate_map(generator, settings, Some(&mut state));
                    self.map_generation_state = Some(state);
                    None
                } else {
                    self.first_run = false;
                    Some(Self::done_message())
                }
            },
        }
    }

    /// While the map is made, the game asks for the dialog that covers
    /// it; after that it asks for nothing.
    pub fn update(&self) -> (r: GameUpdate)
        ensures
            r == (if self.spec_first_run() {
                GameUpdate::ShowLoading
            } else {
                GameUpdate::NoOp
            }),
    {
        if self.first_run {
            GameUpdate::ShowLoading
        } else {
            GameUpdate::NoOp
        }
    }
}

} // verus!
