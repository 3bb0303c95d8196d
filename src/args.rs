//! The option values, each of which renders to its own tokens.
mod accel;
mod drive;
mod log_item;
mod simple;

pub use accel::{
    lemma_accelerator_only, lemma_one_optional_setting, Accel, Accelerator, IdgPassthru,
    KernelIrqchip, NotifyVmexit, SplitWx, Thread,
};
pub use drive::{lemma_drive_shape, Cache, Drive, Format, Snapshot};
pub use log_item::{
    join_names, lemma_join_names_concat, lemma_join_names_order, LogItem, LogItems,
};
pub use simple::{Bios, FreezeOnStartup, Fullscreen, Gdb, Help, NoReboot, Serial, Version};

use crate::text::strings_view;
use vstd::prelude::*;

verus! {

/// An option value that renders to the tokens of one command-line option.
pub trait QemuArgument {
    /// The tokens that this value renders to.
    spec fn tokens(&self) -> Seq<Seq<char>>;

    /// Renders this value: the option's name, then its value if it takes one.
    fn format(&self) -> (r: Vec<String>)
        ensures
            strings_view(r@) == self.tokens(),
    ;
}

} // verus!
