//! The commands of the command-line tool. Each is a stateless handle; what
//! a command runs lives with the program that dispatches it.
use vstd::prelude::*;

verus! {

/// Generates the artifacts of entity schemas.
#[derive(Debug, Clone, Copy, PartialEq, Eq, Structural)]
pub struct ApiCommand;

impl ApiCommand {
    pub fn new() -> (r: Self)
        ensures
            r == ApiCommand,
    {
        ApiCommand
    }
}

/// Builds the frontend, the backend or both.
#[derive(Debug, Clone, Copy, PartialEq, Eq, Structural)]
pub struct BuildCommand;

impl BuildCommand {
    pub fn new() -> (r: Self)
        ensures
            r == BuildCommand,
    {
        BuildCommand
    }
}

/// Runs lint and type checks.
#[derive(Debug, Clone, Copy, PartialEq, Eq, Structural)]
pub struct CheckCommand;

impl CheckCommand {
    pub fn new() -> (r: Self)
        ensures
            r == CheckCommand,
    {
        CheckCommand
    }
}

/// Pushes, creates and inspects migrations.
#[derive(Debug, Clone, Copy, PartialEq, Eq, Structural)]
pub struct DbCommand;

impl DbCommand {
    pub fn new() -> (r: Self)
        ensures
            r == DbCommand,
    {
        DbCommand
    }
}

/// Deploys the frontend, the backend or both.
#[derive(Debug, Clone, Copy, PartialEq, Eq, Structural)]
pub struct DeployCommand;

impl DeployCommand {
    pub fn new() -> (r: Self)
        ensures
            r == DeployCommand,
    {
        DeployCommand
    }
}

/// Creates and publishes design documents.
#[derive(Debug, Clone, Copy, PartialEq, Eq, Structural)]
pub struct DesignCommand;

impl DesignCommand {
    pub fn new() -> (r: Self)
        ensures
            r == DesignCommand,
    {
        DesignCommand
    }
}

/// Runs the development servers.
#[derive(Debug, Clone, Copy, PartialEq, Eq, Structural)]
pub struct DevCommand;

impl DevCommand {
    pub fn new() -> (r: Self)
        ensures
            r == DevCommand,
    {
        DevCommand
    }
}

/// Formats the code bases.
#[derive(Debug, Clone, Copy, PartialEq, Eq, Structural)]
pub struct FmtCommand;

impl FmtCommand {
    pub fn new() -> (r: Self)
        ensures
            r == FmtCommand,
    {
        FmtCommand
    }
}

/// Creates and deploys edge functions.
#[derive(Debug, Clone, Copy, PartialEq, Eq, Structural)]
pub struct FunctionCommand;

impl FunctionCommand {
    pub fn new() -> (r: Self)
        ensures
            r == FunctionCommand,
    {
        FunctionCommand
    }
}

/// Lints the code bases.
#[derive(Debug, Clone, Copy, PartialEq, Eq, Structural)]
pub struct LintCommand;

impl LintCommand {
    pub fn new() -> (r: Self)
        ensures
            r == LintCommand,
    {
        LintCommand
    }
}

/// Runs every check before a release.
#[derive(Debug, Clone, Copy, PartialEq, Eq, Structural)]
pub struct PreflightCommand;

impl PreflightCommand {
    pub fn new() -> (r: Self)
        ensures
            r == PreflightCommand,
    {
        PreflightCommand
    }
}

/// Checks the development setup.
#[derive(Debug, Clone, Copy, PartialEq, Eq, Structural)]
pub struct SetupCommand;

impl SetupCommand {
    pub fn new() -> (r: Self)
        ensures
            r == SetupCommand,
    {
        SetupCommand
    }
}

/// Runs the test suites.
#[derive(Debug, Clone, Copy, PartialEq, Eq, Structural)]
pub struct TestCommand;

impl TestCommand {
    pub fn new() -> (r: Self)
        ensures
            r == TestCommand,
    {
        TestCommand
    }
}

} // verus!
