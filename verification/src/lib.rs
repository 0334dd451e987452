//! Terrain generation for a colony simulation: a staged map generator,
//! an eight-way flow field, and an incrementally refreshed tile cache,
//! with the rules of the menus and dialogs around them.

pub mod coordinate;
pub mod data;
pub mod game;
pub mod ui;
pub mod util;

use vstd::prelude::*;

verus! {

/// How much the game writes into its log.
#[derive(Copy, Clone, Debug, PartialEq, Eq, Structural)]
pub enum LoggingLevel {
    Info,
    Debug,
    Trace,
}

/// What was asked for on the command line.
#[derive(Copy, Clone, Debug, PartialEq, Eq, Structural)]
pub struct Config {
    boot_test: bool,
    dev_mode: bool,
    no_dumps: bool,
    verbosity: u64,
}

impl Config {
    pub closed spec fn spec_boot_test(&self) -> bool {
        self.boot_test
    }

    pub closed spec fn spec_dev_mode(&self) -> bool {
        self.dev_mode
    }

    pub closed spec fn spec_no_dumps(&self) -> bool {
        self.no_dumps
    }

    pub closed spec fn spec_verbosity(&self) -> u64 {
        self.verbosity
    }

    /// The configuration for the given switches; `verbosity` counts how
    /// often more output was asked for.
    pub fn new(boot_test: bool, dev_mode: bool, no_dumps: bool, verbosity: u64) -> (r: Result<Self, String>)
        ensures
            r matches Ok(config) && config.spec_boot_test() == boot_test && config.spec_dev_mode() == dev_mode
                && config.spec_no_dumps() == no_dumps && config.spec_verbosity() == verbosity,
    {
        Ok(Self { boot_test, dev_mode, no_dumps, verbosity })
    }

    pub fn boot_test(&self) -> (r: bool)
        ensures
            r == self.spec_boot_test(),
    {
        self.boot_test
    }

    pub fn dev_mode(&self) -> (r: bool)
        ensures
            r == self.spec_dev_mode(),
    {
        self.dev_mode
    }

    pub fn no_dumps(&self) -> (r: bool)
        ensures
            r == self.spec_no_dumps(),
    {
        self.no_dumps
    }

    /// How much is logged: the more the more often it was asked for.
    pub fn logging_level(&self) -> (r: LoggingLevel)
        ensures
            r == (if self.spec_verbosity() == 0 {
                LoggingLevel::Info
            } else if self.spec_verbosity() == 1 {
                LoggingLevel::Debug
            } else {
                LoggingLevel::Trace
            }),
    {
        if self.verbosity == 0 {
            LoggingLevel::Info
        } else if self.verbosity == 1 {
            LoggingLevel::Debug
        } else {
            LoggingLevel::Trace
        }
    }
}

/// At what the game failed before it could run, or while it ran.
#[derive(Copy, Clone, Debug, PartialEq, Eq, Structural)]
pub enum InitializationError {
    ArgumentParsing,
    PathInitialization,
    SettingsLoad,
    GameRun,
}

impl InitializationError {
    /// The code with which the program ends after the failure.
    pub fn exit_code(&self) -> (r: i32)
        ensures
            r == (match self {
                InitializationError::ArgumentParsing => 1i32,
                InitializationError::PathInitialization => 2i32,
                InitializationError::SettingsLoad => 3i32,
                InitializationError::GameRun => 4i32,
            }),
    {
        match self {
            InitializationError::ArgumentParsing => 1,
            InitializationError::PathInitialization => 2,
            InitializationError::SettingsLoad => 3,
            InitializationError::GameRun => 4,
        }
    }

    /// What the game was doing when it failed.
    pub fn cause(&self) -> (r: &'static str)
        ensures
            r@ == (match self {
                InitializationError::ArgumentParsing => "parsing arguments"@,
                InitializationError::PathInitialization => "initializing paths"@,
                InitializationError::SettingsLoad => "loading settings"@,
                InitializationError::GameRun => "running the game"@,
            }),
    {
        match self {
            InitializationError::ArgumentParsing => "parsing arguments",
            InitializationError::PathInitialization => "initializing paths",
            InitializationError::SettingsLoad => "loading settings",
            InitializationError::GameRun => "running the game",
        }
    }
}

} // verus!
