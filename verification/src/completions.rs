//! The `completions` command and the shells it generates completions for.

use vstd::prelude::*;

verus! {

/// A shell to generate completions for.
#[derive(Debug, Clone, Copy, PartialEq, Eq, Structural)]
pub enum Shell {
    /// Generate completions for bash
    Bash,
    /// Generate completions for fish
    Fish,
    /// Generate completions for zsh
    Zsh,
    /// Generate completions for elvish
    Elvish,
    /// Generate completions for powershell
    PowerShell,
}

/// The `completions` command.
#[derive(Debug, Clone, Copy, PartialEq, Eq, Structural)]
pub struct CompletionsCommand {
    /// The shell to generate completions for
    pub shell: Shell,
}

} // verus!
