//! How the data player is to read its bytes.

use vstd::prelude::*;

verus! {

/// The width of the words that bytes are read in. The feed plays one byte
/// per sample whatever the mode; the wider modes are kept for later.
#[derive(Clone, Copy, Debug, PartialEq, Eq, Structural)]
pub enum DataReadMode {
    Bit8,
    Bit16,
    Bit32,
}

impl DataReadMode {
    /// The name that the mode is stored under.
    pub open spec fn id_text(self) -> Seq<char> {
        match self {
            DataReadMode::Bit8 => "bit8"@,
            DataReadMode::Bit16 => "bit16"@,
            DataReadMode::Bit32 => "bit32"@,
        }
    }

    /// The name that the mode is stored under.
    pub fn id(&self) -> (name: &'static str)
        ensures
            name@ == self.id_text(),
    {
        match self {
            DataReadMode::Bit8 => "bit8",
            DataReadMode::Bit16 => "bit16",
            DataReadMode::Bit32 => "bit32",
        }
    }
}

} // verus!
