//! Options that are a bare flag, or a flag and one value.
use crate::args::QemuArgument;
use crate::chardev::QemuCharDevice;
use crate::text::{pair, single, strings_view};
use vstd::prelude::*;

verus! {

/// `--no-reboot`: exit instead of rebooting the guest.
#[derive(Default, Debug, Eq, PartialEq, Hash)]
pub struct NoReboot;

impl QemuArgument for NoReboot {
    open spec fn tokens(&self) -> Seq<Seq<char>> {
        seq!["--no-reboot"@]
    }

    fn format(&self) -> (r: Vec<String>) {
        single(String::from_str("--no-reboot"))
    }
}

/// `--help`: print the help text and exit.
#[derive(Default, Debug, Eq, PartialEq, Hash)]
pub struct Help;

impl QemuArgument for Help {
    open spec fn tokens(&self) -> Seq<Seq<char>> {
        seq!["--help"@]
    }

    fn format(&self) -> (r: Vec<String>) {
        single(String::from_str("--help"))
    }
}

/// `--version`: print the version and exit.
#[derive(Default, Debug, Eq, PartialEq, Hash)]
pub struct Version;

impl QemuArgument for Version {
    open spec fn tokens(&self) -> Seq<Seq<char>> {
        seq!["--version"@]
    }

    fn format(&self) -> (r: Vec<String>) {
        single(String::from_str("--version"))
    }
}

/// `-bios <path>`: the firmware image, its path rendered as it is written.
#[derive(Default, Debug, Clone, Eq, PartialEq, Hash)]
pub struct Bios(pub String);

impl QemuArgument for Bios {
    open spec fn tokens(&self) -> Seq<Seq<char>> {
        seq!["-bios"@, self.0@]
    }

    fn format(&self) -> (r: Vec<String>) {
        pair(String::from_str("-bios"), self.0.clone())
    }
}

/// `-fullscreen`: start in full screen.
#[derive(Default, Debug, Eq, PartialEq, Hash)]
pub struct Fullscreen;

impl QemuArgument for Fullscreen {
    open spec fn tokens(&self) -> Seq<Seq<char>> {
        seq!["-fullscreen"@]
    }

    fn format(&self) -> (r: Vec<String>) {
        single(String::from_str("-fullscreen"))
    }
}

/// `-S`: freeze the cpu on startup.
#[derive(Default, Debug, Eq, PartialEq, Hash)]
pub struct FreezeOnStartup;

impl QemuArgument for FreezeOnStartup {
    open spec fn tokens(&self) -> Seq<Seq<char>> {
        seq!["-S"@]
    }

    fn format(&self) -> (r: Vec<String>) {
        single(String::from_str("-S"))
    }
}

/// `-gdb <dev>`: accept a gdb connection on a device.
#[derive(Default, Debug, Clone, Eq, PartialEq, Hash)]
pub struct Gdb(pub String);

impl QemuArgument for Gdb {
    open spec fn tokens(&self) -> Seq<Seq<char>> {
        seq!["-gdb"@, self.0@]
    }

    fn format(&self) -> (r: Vec<String>) {
        pair(String::from_str("-gdb"), self.0.clone())
    }
}

/// `-serial <dev>`: the character device of the serial port.
#[derive(Debug, Clone, Eq, PartialEq, Hash)]
pub struct Serial(pub QemuCharDevice);

impl QemuArgument for Serial {
    open spec fn tokens(&self) -> Seq<Seq<char>> {
        seq!["-serial"@, self.0.spec_name()]
    }

    fn format(&self) -> (r: Vec<String>) {
        pair(String::from_str("-serial"), self.0.format())
    }
}

} // verus!
