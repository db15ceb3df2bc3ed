use vstd::prelude::*;

verus! {

/// The subcommands of the command line.
#[derive(Debug, Clone, PartialEq, Eq, Structural)]
pub enum CliCommand {
    /// Print the current brightness.
    Get(GetOptions),
    /// Set a new brightness.
    Put(SetOptions),
    /// Print today's sunrise and sunset.
    SunInfo(SunInfoOptions),
}

/// Options of the `get` subcommand.
#[derive(Debug, Clone, Copy, PartialEq, Eq, Structural)]
pub struct GetOptions {}

/// Options of the `set` subcommand.
#[derive(Debug, Clone, Copy, PartialEq, Eq, Structural)]
pub struct SetOptions {
    /// Move in steps rather than at once.
    pub smooth: bool,
    /// The new brightness.
    pub value: u8,
}

/// Options of the `suninfo` subcommand.
#[derive(Debug, Clone, Copy, PartialEq, Eq, Structural)]
pub struct SunInfoOptions {}

/// The parsed command line; without a subcommand the brightness follows the sun.
#[derive(Debug, Clone)]
pub struct Arguments {
    /// Path of the configuration file.
    pub config: String,
    pub cli: Option<CliCommand>,
    /// Log at debug level.
    pub verbose: bool,
}

} // verus!
