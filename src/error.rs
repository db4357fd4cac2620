use vstd::prelude::*;

verus! {

/// The stage at which reading a rollback report failed.
#[derive(Debug, Clone, PartialEq, Eq, Structural)]
pub enum RollbackError {
    /// The report does not hold the phrase that announces the height.
    PhraseNotFound,
    /// Nothing follows the phrase.
    MissingHeight,
    /// What follows the phrase is not an unsigned integer.
    InvalidHeight,
}


/// Why the genesis document could not be patched.
#[derive(Debug, Clone, Copy, PartialEq, Eq, Structural)]
pub enum GenesisError {
    /// The chain identifier is empty or longer than the engine accepts.
    InvalidChainId,
    /// The genesis time lies outside the years that the engine represents.
    TimeOutOfRange,
}


/// The failures of running and administering the engine.
#[derive(Debug, Clone)]
pub enum Error {
    /// The engine's init command could not be run.
    Init(String),
    /// The engine's configuration could not be read.
    LoadConfig(String),
    /// The configuration file could not be opened for writing.
    OpenWriteConfig(String),
    /// The configuration could not be serialized.
    ConfigSerializeToml(String),
    /// The configuration could not be written.
    WriteConfig(String),
    /// The genesis document could not be patched.
    Genesis(GenesisError),
    /// The engine could not be started.
    StartUp(String),
    /// The engine stopped with a failure, or waiting on it failed.
    Runtime(String),
    /// The rollback command could not be run, or its output was not text.
    RollBack(String),
    /// The rollback command's report did not give a height.
    RollBackOutput(RollbackError),
    /// The variable that locates the engine binary is not valid Unicode.
    TendermintPath(String),
}

} // verus!
