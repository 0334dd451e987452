use vstd::prelude::*;
use crate::util::text::to_chars;

verus! {

/// Where the files of the game lie.
pub trait PathProvider {
    fn executable_file(&self) -> &str;

    fn executable_directory(&self) -> &str;

    fn core_tile_sets_directory(&self) -> &str;

    fn saves_directory(&self) -> &str;

    fn screenshots_directory(&self) -> &str;

    fn mods_directory(&self) -> &str;

    fn user_tile_sets_directory(&self) -> &str;

    fn settings_file(&self) -> &str;

    fn font_file(&self) -> &str;
}

/// The paths of the files of the game.
#[derive(Debug)]
pub struct Paths {
    pub executable_file: String,
    pub executable_directory: String,
    pub core_tile_sets_directory: String,
    pub saves_directory: String,
    pub screenshots_directory: String,
    pub mods_directory: String,
    pub user_tile_sets_directory: String,
    pub settings_file: String,
    pub font_file: String,
}

/// The path of what is called `name` in the directory `directory`.
pub open spec fn spec_join(directory: Seq<char>, name: Seq<char>) -> Seq<char> {
    directory + seq!['/'] + name
}

/// The path of what is called `name` in the directory `directory`.
pub fn join(directory: &str, name: &str) -> (r: String)
    ensures
        r@ == spec_join(directory@, name@),
{
    let first = to_chars(directory);
    let second = to_chars(name);
    let mut r = String::new();
    let mut i: usize = 0;
    while i < first.len()
        invariant
            i <= first.len(),
            r@ == first@.subrange(0, i as int),
        decreases first.len() - i,
    {
        r.push(first[i]);
        assert(first@.subrange(0, i + 1) =~= first@.subrange(0, i as int).push(first@[i as int]));
        i += 1;
    }
    r.push('/');
    let mut j: usize = 0;
    while j < second.len()
        invariant
            j <= second.len(),
            r@ == first@ + seq!['/'] + second@.subrange(0, j as int),
        decreases second.len() - j,
    {
        r.push(second[j]);
        assert(second@.subrange(0, j + 1) =~= second@.subrange(0, j as int).push(second@[j as int]));
        assert((first@ + seq!['/'] + second@.subrange(0, j as int)).push(second@[j as int]) =~= first@
            + seq!['/'] + second@.subrange(0, j + 1));
        j += 1;
    }
    proof {
        assert(first@.subrange(0, first@.len() as int) =~= first@);
        assert(second@.subrange(0, second@.len() as int) =~= second@);
    }
    r
}

impl Paths {
    /// The paths of the game, given where its program lies, where the
    /// tile sets lie that come with it, and the directories that the
    /// system gives it for its data and for its settings.
    pub fn new(
        executable_file: String,
        executable_directory: String,
        core_tile_sets_directory: String,
        data_directory: &str,
        config_directory: &str,
    ) -> (r: Self)
        ensures
            r.executable_file == executable_file,
            r.executable_directory == executable_directory,
            r.core_tile_sets_directory == core_tile_sets_directory,
            r.saves_directory@ == spec_join(data_directory@, "saves"@),
            r.screenshots_directory@ == spec_join(data_directory@, "screenshots"@),
            r.mods_directory@ == spec_join(data_directory@, "mods"@),
            r.user_tile_sets_directory@ == spec_join(data_directory@, "tilesets"@),
            r.settings_file@ == spec_join(config_directory@, "settings.toml"@),
            r.font_file@ == spec_join(data_directory@, "terminal.png"@),
    {
        Self {
            executable_file,
            executable_directory,
            core_tile_sets_directory,
            saves_directory: join(data_directory, "saves"),
            screenshots_directory: join(data_directory, "screenshots"),
            mods_directory: join(data_directory, "mods"),
            user_tile_sets_directory: join(data_directory, "tilesets"),
            settings_file: join(config_directory, "settings.toml"),
            font_file: join(data_directory, "terminal.png"),
        }
    }
}

impl PathProvider for Paths {
    fn executable_file(&self) -> (r: &str)
        ensures
            r@ == self.executable_file@,
    {
        self.executable_file.as_str()
    }

    fn executable_directory(&self) -> (r: &str)
        ensures
            r@ == self.executable_directory@,
    {
        self.executable_directory.as_str()
    }

    fn core_tile_sets_directory(&self) -> (r: &str)
        ensures
            r@ == self.core_tile_sets_directory@,
    {
        self.core_tile_sets_directory.as_str()
    }

    fn saves_directory(&self) -> (r: &str)
        ensures
            r@ == self.saves_directory@,
    {
        self.saves_directory.as_str()
    }

    fn screenshots_directory(&self) -> (r: &str)
        ensures
            r@ == self.screenshots_directory@,
    {
        self.screenshots_directory.as_str()
    }

    fn mods_directory(&self) -> (r: &str)
        ensures
            r@ == self.mods_directory@,
    {
        self.mods_directory.as_str()
    }

    fn user_tile_sets_directory(&self) -> (r: &str)
        ensures
            r@ == self.user_tile_sets_directory@,
    {
        self.user_tile_sets_directory.as_str()
    }

    fn settings_file(&self) -> (r: &str)
        ensures
            r@ == self.settings_file@,
    {
        self.settings_file.as_str()
    }

    fn font_file(&self) -> (r: &str)
        ensures
            r@ == self.font_file@,
    {
        self.font_file.as_str()
    }
}

} // verus!
