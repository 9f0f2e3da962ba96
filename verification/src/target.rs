//! The server flavours that BuildTools can be asked to compile.

use vstd::prelude::*;
use vstd::string::StringExecFns;

verus! {

/// One value of the `--compile` option.
#[derive(Clone, Copy, Debug, PartialEq, Eq, Structural)]
pub enum CompilationTarget {
    Nothing,
    CraftBukkit,
    Spigot,
}

impl CompilationTarget {
    /// The target that a token stands for: the match is exact and
    /// case-sensitive, and every unknown token stands for `Nothing`.
    pub open spec fn parse(token: Seq<char>) -> CompilationTarget {
        if token == "SPIGOT"@ {
            CompilationTarget::Spigot
        } else if token == "CRAFTBUKKIT"@ {
            CompilationTarget::CraftBukkit
        } else {
            CompilationTarget::Nothing
        }
    }

    /// The upper-case name under which BuildTools knows the target.
    pub open spec fn name(self) -> Seq<char> {
        match self {
            CompilationTarget::Nothing => "NONE"@,
            CompilationTarget::CraftBukkit => "CRAFTBUKKIT"@,
            CompilationTarget::Spigot => "SPIGOT"@,
        }
    }

    /// Reads a target from its upper-case name; anything else is `Nothing`.
    pub fn from_string(input: String) -> (target: Self)
        ensures
            target == Self::parse(input@),
    {
        if input == String::from_str("SPIGOT") {
            CompilationTarget::Spigot
        } else if input == String::from_str("CRAFTBUKKIT") {
            CompilationTarget::CraftBukkit
        } else {
            CompilationTarget::Nothing
        }
    }

    /// The target's upper-case name.
    pub fn as_str(&self) -> (name: &'static str)
        ensures
            name@ == self.name(),
    {
        match self {
            CompilationTarget::Nothing => "NONE",
            CompilationTarget::CraftBukkit => "CRAFTBUKKIT",
            CompilationTarget::Spigot => "SPIGOT",
        }
    }
}

} // verus!
