//! Typed options for the QEMU launcher, rendered into the exact argument
//! list that the `qemu-system-*` executables expect.
//!
//! A [`Qemu`] builder holds at most one value of each option, and any number
//! of drives. [`Qemu::args`] renders them in a fixed order, whatever the
//! order in which they were set.
//!
//! `--no-reboot`, `--help` and `--version` are written with two dashes; every
//! other option with one, as QEMU documents it.
pub mod args;
pub mod chardev;
pub mod text;

use crate::args::{
    Accel, Bios, Drive, FreezeOnStartup, Fullscreen, Gdb, Help, LogItem, LogItems, NoReboot,
    QemuArgument, Serial, Version,
};
use crate::chardev::QemuCharDevice;
use crate::text::strings_view;
use std::marker::PhantomData;
use vstd::prelude::*;

verus! {

/// A target of QEMU, which names the executable that emulates it.
pub trait QemuSystem {
    spec fn spec_command() -> Seq<char>;

    /// The name of the executable.
    fn command() -> (r: &'static str)
        ensures
            r@ == Self::spec_command(),
    ;
}

/// A stand-in target, for trying the builder out.
#[derive(Default, Debug, Eq, PartialEq, Hash)]
pub struct Generic;

impl QemuSystem for Generic {
    open spec fn spec_command() -> Seq<char> {
        "qemu-generic"@
    }

    fn command() -> (r: &'static str) {
        "qemu-generic"
    }
}

/// The 64-bit x86 system emulator.
#[derive(Default, Debug, Eq, PartialEq, Hash)]
pub struct X86_64;

impl QemuSystem for X86_64 {
    open spec fn spec_command() -> Seq<char> {
        "qemu-system-x86_64"@
    }

    fn command() -> (r: &'static str) {
        "qemu-system-x86_64"
    }
}

/// The 64-bit ARM system emulator.
#[derive(Default, Debug, Eq, PartialEq, Hash)]
pub struct Aarch64;

impl QemuSystem for Aarch64 {
    open spec fn spec_command() -> Seq<char> {
        "qemu-system-aarch64"@
    }

    fn command() -> (r: &'static str) {
        "qemu-system-aarch64"
    }
}

/// The tokens of an option that may be absent: none when it is.
pub open spec fn opt_tokens<A: QemuArgument>(arg: Option<A>) -> Seq<Seq<char>> {
    match arg {
        Some(a) => a.tokens(),
        None => Seq::empty(),
    }
}

/// The tokens of each of `args`, one after the other, in order.
pub open spec fn many_tokens<A: QemuArgument>(args: Seq<A>) -> Seq<Seq<char>>
    decreases args.len(),
{
    if args.len() == 0 {
        Seq::empty()
    } else {
        many_tokens(args.drop_last()) + args.last().tokens()
    }
}

/// The one token `flag` when `on`, nothing otherwise.
pub open spec fn flag_tokens(on: bool, flag: Seq<char>) -> Seq<Seq<char>> {
    if on {
        seq![flag]
    } else {
        Seq::empty()
    }
}

/// The two tokens `flag value` when a value is there, nothing otherwise.
pub open spec fn value_tokens(flag: Seq<char>, value: Option<Seq<char>>) -> Seq<Seq<char>> {
    match value {
        Some(v) => seq![flag, v],
        None => Seq::empty(),
    }
}

/// What a [`Qemu`] builder holds: which flags are on, and the value of each
/// option that is set.
pub struct QemuView {
    pub no_reboot: bool,
    pub help: bool,
    pub version: bool,
    pub fullscreen: bool,
    pub accel: Option<Accel>,
    pub drives: Seq<Drive>,
    pub bios: Option<Seq<char>>,
    pub serial: Option<QemuCharDevice>,
    pub log_items: Option<Seq<LogItem>>,
    pub freeze_on_startup: bool,
    pub gdb: Option<Seq<char>>,
}

/// One call of a setter of [`Qemu`], with its argument.
pub enum Setting {
    NoReboot,
    Help,
    Version,
    Fullscreen,
    Accel(Accel),
    Drive(Drive),
    Bios(Seq<char>),
    Serial(QemuCharDevice),
    LogItems(Seq<LogItem>),
    FreezeOnStartup,
    Gdb(Seq<char>),
}

impl Setting {
    /// The option that the setting sets.
    pub open spec fn slot(self) -> nat {
        match self {
            Setting::NoReboot => 0,
            Setting::Help => 1,
            Setting::Version => 2,
            Setting::Fullscreen => 3,
            Setting::Accel(_) => 4,
            Setting::Drive(_) => 5,
            Setting::Bios(_) => 6,
            Setting::Serial(_) => 7,
            Setting::LogItems(_) => 8,
            Setting::FreezeOnStartup => 9,
            Setting::Gdb(_) => 10,
        }
    }
}

impl QemuView {
    /// Nothing set.
    pub open spec fn empty() -> QemuView {
        QemuView {
            no_reboot: false,
            help: false,
            version: false,
            fullscreen: false,
            accel: None,
            drives: Seq::empty(),
            bios: None,
            serial: None,
            log_items: None,
            freeze_on_startup: false,
            gdb: None,
        }
    }

    /// The state after the setting: a drive is added after the others, any
    /// other option takes the new value in place of the old one.
    pub open spec fn set(self, s: Setting) -> QemuView {
        match s {
            Setting::NoReboot => QemuView { no_reboot: true, ..self },
            Setting::Help => QemuView { help: true, ..self },
            Setting::Version => QemuView { version: true, ..self },
            Setting::Fullscreen => QemuView { fullscreen: true, ..self },
            Setting::Accel(a) => QemuView { accel: Some(a), ..self },
            Setting::Drive(d) => QemuView { drives: self.drives.push(d), ..self },
            Setting::Bios(b) => QemuView { bios: Some(b), ..self },
            Setting::Serial(c) => QemuView { serial: Some(c), ..self },
            Setting::LogItems(l) => QemuView { log_items: Some(l), ..self },
            Setting::FreezeOnStartup => QemuView { freeze_on_startup: true, ..self },
            Setting::Gdb(g) => QemuView { gdb: Some(g), ..self },
        }
    }

    /// The argument list: the options that are set, in the fixed order
    /// no-reboot, help, version, fullscreen, accel, the drives in the order
    /// they were added, bios, serial, log items, freeze on startup, gdb.
    pub open spec fn spec_args(self) -> Seq<Seq<char>> {
        flag_tokens(self.no_reboot, "--no-reboot"@) + flag_tokens(self.help, "--help"@)
            + flag_tokens(self.version, "--version"@) + flag_tokens(self.fullscreen, "-fullscreen"@)
            + opt_tokens(self.accel) + many_tokens(self.drives) + value_tokens(
            "-bios"@,
            self.bios,
        ) + value_tokens(
            "-serial"@,
            match self.serial {
                Some(c) => Some(c.spec_name()),
                None => None,
            },
        ) + value_tokens(
            "-d"@,
            match self.log_items {
                Some(l) => Some(args::join_names(l)),
                None => None,
            },
        ) + flag_tokens(self.freeze_on_startup, "-S"@) + value_tokens("-gdb"@, self.gdb)
    }
}

/// A command line of QEMU for the target `S`, built up option by option.
#[derive(Default, Debug, Eq, PartialEq, Hash)]
pub struct Qemu<S> {
    no_reboot: Option<NoReboot>,
    help: Option<Help>,
    version: Option<Version>,
    fullscreen: Option<Fullscreen>,
    accel: Option<Accel>,
    drives: Vec<Drive>,
    bios: Option<Bios>,
    serial: Option<Serial>,
    log_items: Option<LogItems>,
    freeze_on_startup: Option<FreezeOnStartup>,
    gdb: Option<Gdb>,
    _system: PhantomData<S>,
}

impl<S> View for Qemu<S> {
    type V = QemuView;

    closed spec fn view(&self) -> QemuView {
        QemuView {
            no_reboot: self.no_reboot is Some,
            help: self.help is Some,
            version: self.version is Some,
            fullscreen: self.fullscreen is Some,
            accel: self.accel,
            drives: self.drives@,
            bios: match self.bios {
                Some(b) => Some(b.0@),
                None => None,
            },
            serial: match self.serial {
                Some(s) => Some(s.0),
                None => None,
            },
            log_items: match self.log_items {
                Some(l) => Some(l.items@),
                None => None,
            },
            freeze_on_startup: self.freeze_on_startup is Some,
            gdb: match self.gdb {
                Some(g) => Some(g.0@),
                None => None,
            },
        }
    }
}

impl<S> Qemu<S> where S: QemuSystem + Default {
    /// A builder with no option set, which renders to no tokens at all.
    pub fn new() -> (r: Self)
        ensures
            r@ == QemuView::empty(),
            r@.spec_args() == Seq::<Seq<char>>::empty(),
    {
        let r = Qemu {
            no_reboot: None,
            help: None,
            version: None,
            fullscreen: None,
            accel: None,
            drives: Vec::new(),
            bios: None,
            serial: None,
            log_items: None,
            freeze_on_startup: None,
            gdb: None,
            _system: PhantomData,
        };
        assert(r@ =~= QemuView::empty());
        assert(r@.spec_args() =~= Seq::<Seq<char>>::empty());
        r
    }
}

impl<S> Qemu<S> where S: QemuSystem {
    /// The argument list, in the fixed order of [`QemuView::spec_args`].
    pub fn into_args(self) -> (r: Vec<String>)
        ensures
            strings_view(r@) == self@.spec_args(),
    {
        self.args()
    }

    /// The argument list, in the fixed order of [`QemuView::spec_args`].
    pub fn args(self) -> (r: Vec<String>)
        ensures
            strings_view(r@) == self@.spec_args(),
    {
        let ghost v = self@;
        let mut args: Vec<String> = Vec::new();
        push_if_exists(&mut args, self.no_reboot);
        push_if_exists(&mut args, self.help);
        push_if_exists(&mut args, self.version);
        push_if_exists(&mut args, self.fullscreen);
        push_if_exists(&mut args, self.accel);
        push_many_if_exists(&mut args, self.drives);
        push_if_exists(&mut args, self.bios);
        push_if_exists(&mut args, self.serial);
        push_if_exists(&mut args, self.log_items);
        push_if_exists(&mut args, self.freeze_on_startup);
        push_if_exists(&mut args, self.gdb);
        assert(strings_view(args@) =~= v.spec_args());
        args
    }

    /// Activates the `--no-reboot` option.
    ///
    /// This makes QEMU exit instead of rebooting (for example after the
    /// guest triple faulted).
    pub fn no_reboot(&mut self) -> (r: &mut Self)
        ensures
            (*r)@ == old(self)@.set(Setting::NoReboot),
            *final(self) == *final(r),
    {
        self.no_reboot = Some(NoReboot);
        self
    }

    /// Activates the `--help` option: print the help text and exit.
    pub fn help(&mut self) -> (r: &mut Self)
        ensures
            (*r)@ == old(self)@.set(Setting::Help),
            *final(self) == *final(r),
    {
        self.help = Some(Help);
        self
    }

    /// Activates the `--version` option: print the version and exit.
    pub fn version(&mut self) -> (r: &mut Self)
        ensures
            (*r)@ == old(self)@.set(Setting::Version),
            *final(self) == *final(r),
    {
        self.version = Some(Version);
        self
    }

    /// Activates the `-fullscreen` option: start in full screen.
    pub fn fullscreen(&mut self) -> (r: &mut Self)
        ensures
            (*r)@ == old(self)@.set(Setting::Fullscreen),
            *final(self) == *final(r),
    {
        self.fullscreen = Some(Fullscreen);
        self
    }

    /// Selects an accelerator through the `-accel` option.
    ///
    /// [`args::Accelerator::Help`] lists the accelerators of the host. One
    /// that the host lacks makes the QEMU command fail.
    pub fn accel(&mut self, accel: Accel) -> (r: &mut Self)
        ensures
            (*r)@ == old(self)@.set(Setting::Accel(accel)),
            *final(self) == *final(r),
    {
        self.accel = Some(accel);
        self
    }

    /// Adds a drive through the `-drive` option, after those added before.
    pub fn drive(&mut self, drive: Drive) -> (r: &mut Self)
        ensures
            (*r)@ == old(self)@.set(Setting::Drive(drive)),
            *final(self) == *final(r),
    {
        self.drives.push(drive);
        self
    }

    /// Sets the firmware file through the `-bios` option.
    pub fn bios(&mut self, bios: String) -> (r: &mut Self)
        ensures
            (*r)@ == old(self)@.set(Setting::Bios(bios@)),
            *final(self) == *final(r),
    {
        self.bios = Some(Bios(bios));
        self
    }

    /// Sets the character device of the serial port through `-serial`.
    pub fn serial(&mut self, serial_device: QemuCharDevice) -> (r: &mut Self)
        ensures
            (*r)@ == old(self)@.set(Setting::Serial(serial_device)),
            *final(self) == *final(r),
    {
        self.serial = Some(Serial(serial_device));
        self
    }

    /// Sets the items to log through the `-d` option; the same as
    /// [`Self::log_items`], which reads better.
    pub fn d(&mut self, log_items: Vec<LogItem>) -> (r: &mut Self)
        ensures
            (*r)@ == old(self)@.set(Setting::LogItems(log_items@)),
            *final(self) == *final(r),
    {
        self.log_items(log_items)
    }

    /// Sets the items to log through the `-d` option, in the order given.
    pub fn log_items(&mut self, log_items: Vec<LogItem>) -> (r: &mut Self)
        ensures
            (*r)@ == old(self)@.set(Setting::LogItems(log_items@)),
            *final(self) == *final(r),
    {
        let items = LogItems::from(log_items);
        self.log_items = Some(items);
        self
    }

    /// Activates the `-S` option, which freezes the cpu on startup; the same
    /// as [`Self::freeze_on_startup`], which reads better.
    #[allow(non_snake_case)]
    pub fn S(&mut self) -> (r: &mut Self)
        ensures
            (*r)@ == old(self)@.set(Setting::FreezeOnStartup),
            *final(self) == *final(r),
    {
        self.freeze_on_startup()
    }

    /// Activates the `-S` option, which freezes the cpu on startup.
    pub fn freeze_on_startup(&mut self) -> (r: &mut Self)
        ensures
            (*r)@ == old(self)@.set(Setting::FreezeOnStartup),
            *final(self) == *final(r),
    {
        self.freeze_on_startup = Some(FreezeOnStartup);
        self
    }

    /// Accepts a gdb connection on `tcp::1234`, as `-s` does, through the
    /// `-gdb` option.
    pub fn s(&mut self) -> (r: &mut Self)
        ensures
            (*r)@ == old(self)@.set(Setting::Gdb("tcp::1234"@)),
            *final(self) == *final(r),
    {
        self.gdb("tcp::1234")
    }

    /// Activates the `-gdb` option: accept a gdb connection on the device
    /// `dev`. QEMU does not wait for one; [`Self::freeze_on_startup`] makes
    /// the guest wait.
    pub fn gdb(&mut self, dev: &str) -> (r: &mut Self)
        ensures
            (*r)@ == old(self)@.set(Setting::Gdb(dev@)),
            *final(self) == *final(r),
    {
        self.gdb = Some(Gdb(String::from_str(dev)));
        self
    }
}

/// The text of each string of `a` followed by `b` is that of `a`, then that of `b`.
proof fn lemma_strings_view_append(a: Seq<String>, b: Seq<String>)
    ensures
        strings_view(a + b) == strings_view(a) + strings_view(b),
{
    assert(strings_view(a + b) =~= strings_view(a) + strings_view(b));
}

/// Appends the tokens of `arg` to `vec`, if it is there.
fn push_if_exists<A>(vec: &mut Vec<String>, arg: Option<A>) where A: QemuArgument
    ensures
        strings_view(final(vec)@) == strings_view(old(vec)@) + opt_tokens(arg),
{
    if let Some(arg) = arg {
        let mut tokens = arg.format();
        let ghost before = vec@;
        let ghost added = tokens@;
        vec.append(&mut tokens);
        proof {
            lemma_strings_view_append(before, added);
        }
    } else {
        assert(strings_view(vec@) =~= strings_view(vec@) + opt_tokens(arg));
    }
}

/// Appends the tokens of each of `args` to `vec`, in order.
fn push_many_if_exists<A>(vec: &mut Vec<String>, args: Vec<A>) where A: QemuArgument
    ensures
        strings_view(final(vec)@) == strings_view(old(vec)@) + many_tokens(args@),
{
    let ghost start = vec@;
    let n = args.len();
    let mut i: usize = 0;
    assert(many_tokens(args@.subrange(0, 0)) =~= Seq::<Seq<char>>::empty());
    assert(strings_view(start) + Seq::<Seq<char>>::empty() =~= strings_view(start));
    while i < n
        invariant
            n == args@.len(),
            i <= n,
            strings_view(vec@) == strings_view(start) + many_tokens(args@.subrange(0, i as int)),
        decreases n - i,
    {
        let mut tokens = args[i].format();
        let ghost before = vec@;
        let ghost added = tokens@;
        vec.append(&mut tokens);
        proof {
            lemma_strings_view_append(before, added);
            let next = args@.subrange(0, i + 1);
            assert(next.drop_last() =~= args@.subrange(0, i as int));
            assert(strings_view(vec@) =~= strings_view(start) + many_tokens(next));
        }
        i = i + 1;
    }
    assert(args@.subrange(0, n as int) =~= args@);
}

/// Two setters of different options give the same builder, and so the same
/// argument list, in either order: where each option's tokens stand is fixed
/// by the rendering order, not by the order of the calls.
pub proof fn lemma_settings_commute(q: QemuView, s: Setting, t: Setting)
    requires
        s.slot() != t.slot(),
    ensures
        q.set(s).set(t) == q.set(t).set(s),
        q.set(s).set(t).spec_args() == q.set(t).set(s).spec_args(),
{
    let a = q.set(s).set(t);
    let b = q.set(t).set(s);
    assert(a.no_reboot == b.no_reboot);
    assert(a.help == b.help);
    assert(a.version == b.version);
    assert(a.fullscreen == b.fullscreen);
    assert(a.accel == b.accel);
    assert(a.drives == b.drives);
    assert(a.bios == b.bios);
    assert(a.serial == b.serial);
    assert(a.log_items == b.log_items);
    assert(a.freeze_on_startup == b.freeze_on_startup);
    assert(a.gdb == b.gdb);
}

/// The state after the settings `ss`, made in their order, starting from `q`.
pub open spec fn set_all(q: QemuView, ss: Seq<Setting>) -> QemuView
    decreases ss.len(),
{
    if ss.len() == 0 {
        q
    } else {
        set_all(q, ss.drop_last()).set(ss.last())
    }
}

/// No two of the settings `ss` set the same option.
pub open spec fn distinct_slots(ss: Seq<Setting>) -> bool {
    forall|i: int, j: int| 0 <= i < j < ss.len() ==> ss[i].slot() != ss[j].slot()
}

/// Among settings of different options, any one can be made last.
proof fn lemma_set_all_moved_last(q: QemuView, ss: Seq<Setting>, i: int)
    requires
        distinct_slots(ss),
        0 <= i < ss.len(),
    ensures
        set_all(q, ss) == set_all(q, ss.remove(i)).set(ss[i]),
    decreases ss.len(),
{
    let dl = ss.drop_last();
    if i == ss.len() - 1 {
        assert(ss.remove(i) =~= dl);
    } else {
        lemma_set_all_moved_last(q, dl, i);
        lemma_settings_commute(set_all(q, dl.remove(i)), ss[i], ss.last());
        assert(ss.remove(i).drop_last() =~= dl.remove(i));
        assert(ss.remove(i).last() == ss.last());
    }
}

/// Settings of different options, made in any order, give the same builder
/// and so the same argument list: `b` holds the settings of `a`, reordered.
pub proof fn lemma_settings_in_any_order(q: QemuView, a: Seq<Setting>, b: Seq<Setting>)
    requires
        distinct_slots(a),
        a.to_multiset() == b.to_multiset(),
    ensures
        set_all(q, a) == set_all(q, b),
        set_all(q, a).spec_args() == set_all(q, b).spec_args(),
    decreases b.len(),
{
    broadcast use vstd::seq_lib::group_to_multiset_ensures;

    if b.len() == 0 {
        a.to_multiset_ensures();
        b.to_multiset_ensures();
        assert(a =~= b);
    } else {
        let s = b.last();
        let rest = b.drop_last();
        assert(b =~= rest.push(s));
        assert(b.to_multiset() =~= rest.to_multiset().insert(s));
        assert(a.to_multiset().count(s) > 0);
        assert(a.contains(s));
        let i = choose|i: int| 0 <= i < a.len() && a[i] == s;
        let ar = a.remove(i);
        assert(ar.to_multiset() =~= a.to_multiset().remove(s));
        assert(ar.to_multiset() =~= rest.to_multiset());
        assert forall|x: int, y: int| 0 <= x < y < ar.len() implies ar[x].slot() != ar[y].slot() by {
            let xa = if x < i { x } else { x + 1 };
            let ya = if y < i { y } else { y + 1 };
            assert(ar[x] == a[xa]);
            assert(ar[y] == a[ya]);
        }
        lemma_settings_in_any_order(q, ar, rest);
        lemma_set_all_moved_last(q, a, i);
    }
}

} // verus!
