//! The error taxonomy of the box engine.

use crate::fourcc::FourCC;
use vstd::prelude::*;

verus! {

/// Why a box parse failed. Every variant is fatal to the current
/// composite's parse and bubbles up unchanged: there is no local
/// recovery and no partial tree.
#[derive(Debug, Clone, Copy, PartialEq, Eq, Structural)]
pub enum BmffError {
    /// Fewer bytes were available than a header requires.
    Truncated,
    /// A child's declared span escapes its parent's declared span, or the
    /// parse position would not advance.
    Corrupt,
    /// A mandatory child of a composite was absent; carries the missing
    /// child's type so corruption is reported by name.
    MissingChild(FourCC),
    /// A seek moved past the end of the byte source.
    Io,
}

impl BmffError {
    /// A short description, in place of a `Display` impl.
    pub fn describe(&self) -> &'static str {
        match self {
            BmffError::Truncated => "stream exhausted before a full box header",
            BmffError::Corrupt => "child box escapes its parent or does not advance",
            BmffError::MissingChild(_) => "mandatory child box not found, corrupt file?",
            BmffError::Io => "seek past the end of the byte source",
        }
    }
}

} // verus!
