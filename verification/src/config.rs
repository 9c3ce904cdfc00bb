//! Output-mode configuration consumed by the pipeline.

use vstd::prelude::*;

verus! {

/// What the caller wants printed for each processed link.
#[derive(Clone, Copy, PartialEq, Eq, Structural, Debug)]
pub enum OutputMode {
    /// Only the reconstructed question titles and their links.
    LinksOnly,
    /// Only the first code block of the first answer.
    CodeOnly,
    /// The first answer's full prose-and-code region.
    Detailed,
}

/// Resolved configuration values handed in by the surrounding program.
#[derive(Clone, Copy, PartialEq, Eq, Structural, Debug)]
pub struct Config {
    /// Which region of each page is extracted and how it is rendered.
    pub mode: OutputMode,
    /// Upper bound on how many candidate links are considered.
    pub numbers: usize,
    /// Whether code is rendered with ANSI color escapes.
    pub colorize: bool,
}

} // verus!
