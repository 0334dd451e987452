use vstd::prelude::*;
use crate::data::base::Size;
use crate::util::text::{text_of, to_chars};

verus! {

/// What a tile set says about itself.
pub trait TilesetMetadata {
    /// The directory of the tile set.
    fn dir(&self) -> &str;

    fn name(&self) -> &str;

    fn author(&self) -> &str;

    fn version(&self) -> &str;

    fn description(&self) -> &str;

    /// The size of one tile, in pixels.
    fn size(&self) -> Size;
}

/// Where the last part of the path `path` begins: after its last slash,
/// looking at the first `until` characters, and at the start where there
/// is none.
pub open spec fn last_part_start(path: Seq<char>, until: int) -> int
    decreases until,
{
    if until <= 0 {
        0
    } else if path[until - 1] == '/' {
        until
    } else {
        last_part_start(path, until - 1)
    }
}

/// The last part of the path `path`: what follows its last slash.
pub open spec fn spec_last_part(path: Seq<char>) -> Seq<char> {
    path.subrange(last_part_start(path, path.len() as int), path.len() as int)
}

/// The last part of the path `path`: what follows its last slash.
pub fn last_part(path: &str) -> (r: String)
    ensures
        r@ == spec_last_part(path@),
{
    let chars = to_chars(path);
    let mut start = chars.len();
    while start > 0 && chars[start - 1] != '/'
        invariant
            start <= chars.len(),
            last_part_start(chars@, chars@.len() as int) == last_part_start(chars@, start as int),
        decreases start,
    {
        start -= 1;
    }
    text_of(&chars, start, chars.len())
}

/// What a tile set says about itself, as it was read from its file.
#[derive(Debug)]
pub struct TileSetInfo {
    pub dir: String,
    pub instance_name: String,
    pub description: String,
    pub author: String,
    pub version: String,
    pub tile_width: i32,
    pub tile_height: i32,
}

impl TileSetInfo {
    /// The name of the directory of the tile set, by which the settings
    /// name the tile set.
    pub fn dir_name(&self) -> (r: String)
        ensures
            r@ == spec_last_part(self.dir@),
    {
        last_part(self.dir.as_str())
    }
}

impl TilesetMetadata for TileSetInfo {
    fn dir(&self) -> (r: &str)
        ensures
            r@ == self.dir@,
    {
        self.dir.as_str()
    }

    fn name(&self) -> (r: &str)
        ensures
            r@ == self.instance_name@,
    {
        self.instance_name.as_str()
    }

    fn author(&self) -> (r: &str)
        ensures
            r@ == self.author@,
    {
        self.author.as_str()
    }

    fn version(&self) -> (r: &str)
        ensures
            r@ == self.version@,
    {
        self.version.as_str()
    }

    fn description(&self) -> (r: &str)
        ensures
            r@ == self.description@,
    {
        self.description.as_str()
    }

    fn size(&self) -> (r: Size)
        ensures
            r == (Size { width: self.tile_width, height: self.tile_height }),
    {
        Size { width: self.tile_width, height: self.tile_height }
    }
}

/// Reads tile sets in the first format.
#[derive(Debug)]
pub struct TileSetParserV1 {
    pub path: String,
}

impl TileSetParserV1 {
    /// The name of the file of a tile set in the first format.
    pub fn file_name() -> (r: &'static str)
        ensures
            r@ == "tileset.dat"@,
    {
        "tileset.dat"
    }

    pub fn new(path: String) -> (r: Self)
        ensures
            r.path == path,
    {
        Self { path }
    }
}

/// Reads tile sets in the second format.
#[derive(Debug)]
pub struct TileSetParserV2 {
    pub path: String,
}

impl TileSetParserV2 {
    /// The name of the file of a tile set in the second format.
    pub fn file_name() -> (r: &'static str)
        ensures
            r@ == "tilesetV2.dat"@,
    {
        "tilesetV2.dat"
    }

    pub fn new(path: String) -> (r: Self)
        ensures
            r.path == path,
    {
        Self { path }
    }
}

/// Something that reads the file of a tile set.
pub trait TileSetParser {
    /// The file that is read.
    fn path(&self) -> &str;
}

impl TileSetParser for TileSetParserV1 {
    fn path(&self) -> (r: &str)
        ensures
            r@ == self.path@,
    {
        self.path.as_str()
    }
}

impl TileSetParser for TileSetParserV2 {
    fn path(&self) -> (r: &str)
        ensures
            r@ == self.path@,
    {
        self.path.as_str()
    }
}

/// The parser for a tile set.
#[derive(Debug)]
pub enum ChosenParser {
    V1(TileSetParserV1),
    V2(TileSetParserV2),
}

/// Finds the parser for a tile set.
pub struct TileSetLoader;

impl TileSetLoader {
    /// The parser for the tile set in the directory `tile_set_path`, given
    /// which of the files of the two formats are there: the second
    /// format comes first.
    pub fn get_parser(tile_set_path: &str, has_v2_file: bool, has_v1_file: bool) -> (r: Option<ChosenParser>)
        ensures
            has_v2_file ==> (r matches Some(ChosenParser::V2(parser)) && parser.path@
                == crate::data::paths::spec_join(tile_set_path@, "tilesetV2.dat"@)),
            !has_v2_file && has_v1_file ==> (r matches Some(ChosenParser::V1(parser)) && parser.path@
                == crate::data::paths::spec_join(tile_set_path@, "tileset.dat"@)),
            !has_v2_file && !has_v1_file ==> r.is_none(),
    {
        if has_v2_file {
            Some(
                ChosenParser::V2(
                    TileSetParserV2::new(crate::data::paths::join(tile_set_path, TileSetParserV2::file_name())),
                ),
            )
        } else if has_v1_file {
            Some(
                ChosenParser::V1(
                    TileSetParserV1::new(crate::data::paths::join(tile_set_path, TileSetParserV1::file_name())),
                ),
            )
        } else {
            None
        }
    }
}

/// The tile sets that are there to choose from.
pub struct TileSets {
    pub sets: Vec<TileSetInfo>,
}

impl TileSets {
    /// No tile sets.
    pub fn new() -> (r: Self)
        ensures
            r.sets@.len() == 0,
    {
        Self { sets: Vec::new() }
    }

    /// Takes `loaded` in if a tile set was read, after those that are
    /// there. Says whether one was taken in.
    pub fn load_tile_set_metadata_entry(&mut self, loaded: Option<TileSetInfo>) -> (taken: bool)
        ensures
            taken == loaded.is_some(),
            final(self).sets@ == (match loaded {
                Some(info) => old(self).sets@.push(info),
                None => old(self).sets@,
            }),
    {
        match loaded {
            Some(info) => {
                self.sets.push(info);
                true
            },
            None => false,
        }
    }

    /// The place of the first tile set whose directory is called
    /// `dir_name`, from `from` on.
    pub open spec fn place_of(&self, dir_name: Seq<char>, from: int) -> Option<int>
        decreases self.sets@.len() - from,
    {
        if from < 0 || from >= self.sets@.len() {
            None
        } else if spec_last_part(self.sets@[from].dir@) == dir_name {
            Some(from)
        } else {
            self.place_of(dir_name, from + 1)
        }
    }

    /// The place of the first tile set whose directory is called
    /// `dir_name`.
    pub fn find(&self, dir_name: &str) -> (r: Option<usize>)
        ensures
            match r {
                Some(i) => self.place_of(dir_name@, 0) == Some(i as int),
                None => self.place_of(dir_name@, 0).is_none(),
            },
    {
        let wanted = dir_name.to_owned();
        let mut i: usize = 0;
        while i < self.sets.len()
            invariant
                i <= self.sets.len(),
                wanted@ == dir_name@,
                self.place_of(dir_name@, 0) == self.place_of(dir_name@, i as int),
            decreases self.sets.len() - i,
        {
            if self.sets[i].dir_name() == wanted {
                return Some(i);
            }
            i += 1;
        }
        None
    }
}

} // verus!
