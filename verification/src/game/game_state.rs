//! The stack of states of the game: menus, dialogs, the game itself.

pub mod game;
pub mod keys_dialog;
pub mod loading_dialog;
pub mod main_menu;

use vstd::prelude::*;

verus! {

/// What a state asks to be done to the stack of states once it has been
/// updated.
pub enum GameStateChange<S> {
    /// Put the state in the place of all states.
    Replace(S),
    /// Put the state on top.
    Push(S),
    /// Put the state in the place of the one on top.
    PopPush(S),
    /// Take the state on top away.
    Pop,
    /// Leave the stack as it is.
    NoOp,
    /// Take all states away, which ends the game.
    EndGame,
}

impl<S> GameStateChange<S> {
    /// Whether the stack stays as it is.
    pub fn is_none(&self) -> (r: bool)
        ensures
            r == (*self is NoOp),
    {
        match self {
            GameStateChange::NoOp => true,
            _ => false,
        }
    }

    /// The stack after the change.
    pub open spec fn applied_to(self, stack: Seq<S>) -> Seq<S> {
        match self {
            GameStateChange::Replace(next) => seq![next],
            GameStateChange::Push(next) => stack.push(next),
            GameStateChange::PopPush(next) => if stack.len() > 0 {
                stack.drop_last().push(next)
            } else {
                seq![next]
            },
            GameStateChange::Pop => if stack.len() > 0 {
                stack.drop_last()
            } else {
                stack
            },
            GameStateChange::NoOp => stack,
            GameStateChange::EndGame => Seq::<S>::empty(),
        }
    }
}

/// Does to the stack of states what `change` asks for.
pub fn update_game_state<S>(game_states: &mut Vec<S>, change: GameStateChange<S>)
    ensures
        final(game_states)@ == change.applied_to(old(game_states)@),
{
    match change {
        GameStateChange::Replace(next) => {
            game_states.clear();
            game_states.push(next);
            assert(game_states@ =~= seq![next]);
        },
        GameStateChange::Push(next) => {
            game_states.push(next);
        },
        GameStateChange::PopPush(next) => {
            game_states.pop();
            game_states.push(next);
            assert(old(game_states)@.len() == 0 ==> game_states@ =~= seq![next]);
        },
        GameStateChange::Pop => {
            game_states.pop();
        },
        GameStateChange::EndGame => {
            game_states.clear();
        },
        GameStateChange::NoOp => {},
    }
}

/// Which of the states on the stack is updated in which way: the one on
/// top in full, the ones below it in the background, from the bottom up.
pub open spec fn is_foreground(level: int, depth: int) -> bool {
    level == depth - 1
}

/// Whether the state at `level` of a stack of `depth` states is the one
/// on top.
pub fn runs_in_foreground(level: usize, depth: usize) -> (r: bool)
    requires
        level < depth,
    ensures
        r == is_foreground(level as int, depth as int),
{
    level == depth - 1
}

} // verus!
