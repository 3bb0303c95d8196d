//! Character devices, as options such as `-serial` name them.
use vstd::prelude::*;

verus! {

/// A character device: the host's standard streams, one named by its id, or
/// the list of those available.
#[derive(Debug, Clone, Eq, PartialEq, Hash)]
pub enum QemuCharDevice {
    Stdio,
    Id(String),
    Help,
}

impl QemuCharDevice {
    /// The device's name on the command line.
    pub open spec fn spec_name(self) -> Seq<char> {
        match self {
            QemuCharDevice::Stdio => "stdio"@,
            QemuCharDevice::Id(id) => id@,
            QemuCharDevice::Help => "help"@,
        }
    }

    /// Renders the device as the single token that names it.
    pub fn format(&self) -> (r: String)
        ensures
            r@ == self.spec_name(),
    {
        match self {
            Self::Stdio => String::from_str("stdio"),
            QemuCharDevice::Id(id) => id.clone(),
            QemuCharDevice::Help => String::from_str("help"),
        }
    }
}

} // verus!
