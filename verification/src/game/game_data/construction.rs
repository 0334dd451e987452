use vstd::prelude::*;

verus! {

/// What a construction is or does.
#[derive(Copy, Clone, Debug, PartialEq, Eq, Structural)]
pub enum Tag {
    Stockpile,
    FarmPlot,
    Door,
    Wall,
    Bed,
    Workshop,
    Furniture,
    CenterScamp,
    SpawningPool,
    Bridge,
    Trap,
    RangedAdvantage,
    Permanent,
}

/// Something built on the map.
pub struct Construction {
    tags: Vec<Tag>,
    move_speed_modifier: i32,
}

impl Construction {
    /// The tags of the construction.
    pub closed spec fn spec_tags(&self) -> Seq<Tag> {
        self.tags@
    }

    /// By how much the construction changes the speed of what moves over
    /// it.
    pub closed spec fn spec_move_speed_modifier(&self) -> i32 {
        self.move_speed_modifier
    }

    /// A construction with the given tags and speed modifier.
    pub fn new(tags: Vec<Tag>, move_speed_modifier: i32) -> (r: Self)
        ensures
            r.spec_tags() == tags@,
            r.spec_move_speed_modifier() == move_speed_modifier,
    {
        Self { tags, move_speed_modifier }
    }

    /// Whether the construction carries `tag`.
    pub fn has_tag(&self, tag: Tag) -> (r: bool)
        ensures
            r == self.spec_tags().contains(tag),
    {
        let mut i: usize = 0;
        while i < self.tags.len()
            invariant
                i <= self.tags.len(),
                forall|j: int| 0 <= j < i ==> self.tags@[j] != tag,
            decreases self.tags.len() - i,
        {
            if self.tags[i] == tag {
                return true;
            }
            i += 1;
        }
        false
    }

    pub fn get_move_speed_modifier(&self) -> (r: i32)
        ensures
            r == self.spec_move_speed_modifier(),
    {
        self.move_speed_modifier
    }
}

} // verus!
