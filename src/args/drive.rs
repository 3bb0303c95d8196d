//! The `-drive` option: one disk image and how it is accessed.
use crate::args::QemuArgument;
use crate::text::{pair, push_setting, setting, strings_view};
use vstd::prelude::*;

verus! {

/// The settings of one `-drive` option.
///
/// The file always comes first; each other setting is rendered only when it
/// is set, and nothing stands in for one that is not.
#[derive(Debug, Clone, Eq, PartialEq, Hash)]
pub struct Drive {
    /// The path of the image, rendered as it is written.
    pub file: String,
    pub format: Option<Format>,
    pub cache: Option<Cache>,
    pub snapshot: Option<Snapshot>,
}

impl Drive {
    pub open spec fn spec_format(self) -> Seq<char> {
        match self.format {
            Some(f) => setting("format"@, f.spec_name()),
            None => Seq::empty(),
        }
    }

    pub open spec fn spec_cache(self) -> Seq<char> {
        match self.cache {
            Some(c) => setting("cache"@, c.spec_name()),
            None => Seq::empty(),
        }
    }

    pub open spec fn spec_snapshot(self) -> Seq<char> {
        match self.snapshot {
            Some(s) => setting("snapshot"@, s.spec_name()),
            None => Seq::empty(),
        }
    }

    /// The value token of `-drive`: `file=<path>`, then the settings that are set.
    pub open spec fn spec_value(self) -> Seq<char> {
        "file="@ + self.file@ + self.spec_format() + self.spec_cache() + self.spec_snapshot()
    }
}

impl Default for Drive {
    /// A drive with an empty path and no other setting.
    fn default() -> (r: Self)
        ensures
            r.file@ == Seq::<char>::empty(),
            r.format is None,
            r.cache is None,
            r.snapshot is None,
    {
        Drive { file: String::new(), format: None, cache: None, snapshot: None }
    }
}

impl QemuArgument for Drive {
    open spec fn tokens(&self) -> Seq<Seq<char>> {
        seq!["-drive"@, self.spec_value()]
    }

    fn format(&self) -> (r: Vec<String>) {
        let mut arg = String::from_str("file=");
        arg.append(self.file.as_str());
        let ghost acc = arg@;
        if let Some(format) = self.format {
            push_setting(&mut arg, "format", format.name());
        }
        assert(arg@ =~= acc + self.spec_format());
        let ghost acc = arg@;
        if let Some(cache) = self.cache {
            push_setting(&mut arg, "cache", cache.name());
        }
        assert(arg@ =~= acc + self.spec_cache());
        let ghost acc = arg@;
        if let Some(snapshot) = self.snapshot {
            push_setting(&mut arg, "snapshot", snapshot.name());
        }
        assert(arg@ =~= acc + self.spec_snapshot());
        pair(String::from_str("-drive"), arg)
    }
}

/// A drive's value begins with `file=<path>`, and a setting that is not set
/// adds nothing to it: with none set, the value is `file=<path>` alone.
pub proof fn lemma_drive_shape(d: Drive)
    ensures
        ("file="@ + d.file@).is_prefix_of(d.spec_value()),
        d.spec_value() == "file="@ + d.file@ + d.spec_format() + d.spec_cache() + d.spec_snapshot(),
        d.format is None ==> d.spec_format() == Seq::<char>::empty(),
        d.cache is None ==> d.spec_cache() == Seq::<char>::empty(),
        d.snapshot is None ==> d.spec_snapshot() == Seq::<char>::empty(),
        d.format is None && d.cache is None && d.snapshot is None ==> d.spec_value() == "file="@
            + d.file@,
{
    let prefix = "file="@ + d.file@;
    let v = d.spec_value();
    assert(v.subrange(0, prefix.len() as int) =~= prefix);
    if d.format is None && d.cache is None && d.snapshot is None {
        assert(v =~= prefix);
    }
}

/// The image format.
#[derive(Debug, Copy, Clone, Eq, PartialEq, Hash)]
pub enum Format {
    Raw,
}

impl Format {
    pub open spec fn spec_name(self) -> Seq<char> {
        match self {
            Format::Raw => "raw"@,
        }
    }

    fn name(&self) -> (r: &'static str)
        ensures
            r@ == self.spec_name(),
    {
        match self {
            Self::Raw => "raw",
        }
    }
}

/// The host's cache policy for the image.
#[derive(Debug, Copy, Clone, Eq, PartialEq, Hash)]
pub enum Cache {
    Writethrough,
    Writeback,
    /// No host cache: `none`.
    NoCache,
    Directsync,
    Unsafe,
}

impl Cache {
    pub open spec fn spec_name(self) -> Seq<char> {
        match self {
            Cache::Writethrough => "writethrough"@,
            Cache::Writeback => "writeback"@,
            Cache::NoCache => "none"@,
            Cache::Directsync => "directsync"@,
            Cache::Unsafe => "unsafe"@,
        }
    }

    fn name(&self) -> (r: &'static str)
        ensures
            r@ == self.spec_name(),
    {
        match self {
            Self::Writethrough => "writethrough",
            Self::Writeback => "writeback",
            Self::NoCache => "none",
            Self::Directsync => "directsync",
            Self::Unsafe => "unsafe",
        }
    }
}

/// Whether writes go to a temporary snapshot instead of the image.
#[derive(Debug, Copy, Clone, Eq, PartialEq, Hash)]
pub enum Snapshot {
    On,
    Off,
}

impl Snapshot {
    pub open spec fn spec_name(self) -> Seq<char> {
        match self {
            Snapshot::On => "on"@,
            Snapshot::Off => "off"@,
        }
    }

    fn name(&self) -> (r: &'static str)
        ensures
            r@ == self.spec_name(),
    {
        match self {
            Self::On => "on",
            Self::Off => "off",
        }
    }
}

} // verus!
