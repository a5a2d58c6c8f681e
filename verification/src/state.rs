//! The launch mode of the daemon.

use vstd::prelude::*;
use vstd::string::StringExecFns;

verus! {

/// Which fixed group of arguments the daemon is started with.
#[derive(Clone, Copy, Debug, PartialEq, Eq, Structural)]
pub enum ArgMode {
    /// No arguments beyond those passed through.
    Plain,
    /// Interface and target files for a Picoprobe.
    Picoprobe,
    /// Target file only, for any adapter on an RP2040.
    GeneralRp2040,
}

impl ArgMode {
    /// The text by which a mode is shown to the user.
    pub open spec fn label(self) -> Seq<char> {
        match self {
            ArgMode::Picoprobe => "ArgMode::Picoprobe"@,
            ArgMode::Plain => "ArgMode::None"@,
            ArgMode::GeneralRp2040 => "ArgMode::GeneralRp2040"@,
        }
    }

    /// Renders the mode as text.
    pub fn describe(&self) -> (text: String)
        ensures
            text@ == self.label(),
    {
        match self {
            ArgMode::Picoprobe => String::from_str("ArgMode::Picoprobe"),
            ArgMode::Plain => String::from_str("ArgMode::None"),
            ArgMode::GeneralRp2040 => String::from_str("ArgMode::GeneralRp2040"),
        }
    }
}

} // verus!
