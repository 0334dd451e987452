use vstd::prelude::*;
use crate::data::base::Position;

verus! {

/// Whether the mouse or a key met a part.
#[derive(Copy, Clone, Debug, Eq, PartialEq, Structural)]
pub enum HitResult {
    Hit,
    NoHit,
}

/// What a part answers to.
#[derive(Copy, Clone, Debug, Eq, PartialEq, Structural)]
pub enum RespondKind {
    /// The key with this character.
    Key(char),
    /// A click at this cell.
    Mouse(Position),
}

/// What came of showing the input to a part.
#[derive(Clone, Debug)]
pub struct UpdateResult {
    pub hit: HitResult,
    /// What the part answered to, if it answered.
    pub kind: Option<RespondKind>,
    /// Whether the dialog around the part is done with.
    pub dismiss: bool,
    /// The text of the part that answered.
    pub data: Option<String>,
}

/// What a part answers, as a value to reason about.
pub struct Answer {
    pub hit: HitResult,
    pub kind: Option<RespondKind>,
    pub dismiss: bool,
    pub data: Option<Seq<char>>,
}

impl Answer {
    /// The answer of a part that does no more than notice whether it was
    /// met.
    pub open spec fn plain(met: bool) -> Answer {
        Answer {
            hit: if met {
                HitResult::Hit
            } else {
                HitResult::NoHit
            },
            kind: None,
            dismiss: false,
            data: None,
        }
    }
}

impl UpdateResult {
    /// The result as a value to reason about.
    pub open spec fn answer(&self) -> Answer {
        Answer {
            hit: self.hit,
            kind: self.kind,
            dismiss: self.dismiss,
            data: match self.data {
                Some(text) => Some(text@),
                None => None,
            },
        }
    }

    pub fn new(hit: HitResult, kind: Option<RespondKind>, dismiss: bool, data: Option<String>) -> (r: Self)
        ensures
            r.hit == hit,
            r.kind == kind,
            r.dismiss == dismiss,
            r.data == data,
    {
        Self { hit, kind, dismiss, data }
    }

    /// A result that says no more than whether the part was met.
    pub fn hit(hit: HitResult) -> (r: Self)
        ensures
            r.hit == hit,
            r.kind.is_none(),
            !r.dismiss,
            r.data.is_none(),
    {
        Self::new(hit, None, false, None)
    }
}

} // verus!
