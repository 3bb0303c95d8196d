//! The `-accel` option: which accelerator runs the guest, and how it is tuned.
use crate::args::QemuArgument;
use crate::text::{decimal, pair, push_number_setting, push_setting, setting, strings_view};
use vstd::prelude::*;

verus! {

/// The settings of the `-accel` option.
///
/// The accelerator, `idg-passthru` and `kernel-irqchip` are always rendered
/// (the latter two with their defaults when left alone); each of the other
/// settings only when it is set. Numbers are `usize`.
#[derive(Debug, Copy, Clone, Eq, PartialEq, Hash)]
pub struct Accel {
    pub accelerator: Accelerator,
    pub idg_passthru: IdgPassthru,
    pub kernel_irqchip: KernelIrqchip,
    pub split_wx: Option<SplitWx>,
    pub thread: Option<Thread>,
    pub kvm_shadow_mem: Option<usize>,
    pub tb_size: Option<usize>,
    /// Left out unless set: it only applies to kvm.
    pub dirty_ring_size: Option<usize>,
    pub notify_vmexit: Option<NotifyVmexit>,
}

impl Accel {
    /// The value with the given accelerator and every other setting at its default.
    pub open spec fn spec_with(accelerator: Accelerator) -> Accel {
        Accel {
            accelerator,
            idg_passthru: IdgPassthru::Off,
            kernel_irqchip: KernelIrqchip::On,
            split_wx: None,
            thread: None,
            kvm_shadow_mem: None,
            tb_size: None,
            dirty_ring_size: None,
            notify_vmexit: None,
        }
    }

    /// The three settings that are always there.
    pub open spec fn spec_head(self) -> Seq<char> {
        "accel="@ + self.accelerator.spec_name() + setting("idg-passthru"@, self.idg_passthru.spec_name())
            + setting("kernel-irqchip"@, self.kernel_irqchip.spec_name())
    }

    pub open spec fn spec_split_wx(self) -> Seq<char> {
        match self.split_wx {
            Some(w) => setting("split-wx"@, w.spec_name()),
            None => Seq::empty(),
        }
    }

    pub open spec fn spec_thread(self) -> Seq<char> {
        match self.thread {
            Some(t) => setting("thread"@, t.spec_name()),
            None => Seq::empty(),
        }
    }

    pub open spec fn spec_kvm_shadow_mem(self) -> Seq<char> {
        match self.kvm_shadow_mem {
            Some(n) => setting("kvm-shadow-mem"@, decimal(n as nat)),
            None => Seq::empty(),
        }
    }

    pub open spec fn spec_tb_size(self) -> Seq<char> {
        match self.tb_size {
            Some(n) => setting("tb-size"@, decimal(n as nat)),
            None => Seq::empty(),
        }
    }

    pub open spec fn spec_dirty_ring_size(self) -> Seq<char> {
        match self.dirty_ring_size {
            Some(n) => setting("dirty-ring-size"@, decimal(n as nat)),
            None => Seq::empty(),
        }
    }

    pub open spec fn spec_notify_vmexit(self) -> Seq<char> {
        match self.notify_vmexit {
            Some(v) => setting("notify-vmexit"@, v.spec_text()),
            None => Seq::empty(),
        }
    }

    /// The value token of `-accel`: the three settings that are always
    /// there, then each of the others that is set, in this fixed order.
    pub open spec fn spec_value(self) -> Seq<char> {
        self.spec_head() + self.spec_split_wx() + self.spec_thread() + self.spec_kvm_shadow_mem()
            + self.spec_tb_size() + self.spec_dirty_ring_size() + self.spec_notify_vmexit()
    }
}

impl Default for Accel {
    /// The help accelerator, with every setting at its default.
    fn default() -> (r: Self)
        ensures
            r == Accel::spec_with(Accelerator::Help),
    {
        Accel {
            accelerator: Accelerator::Help,
            idg_passthru: IdgPassthru::Off,
            kernel_irqchip: KernelIrqchip::On,
            split_wx: None,
            thread: None,
            kvm_shadow_mem: None,
            tb_size: None,
            dirty_ring_size: None,
            notify_vmexit: None,
        }
    }
}

impl QemuArgument for Accel {
    open spec fn tokens(&self) -> Seq<Seq<char>> {
        seq!["-accel"@, self.spec_value()]
    }

    fn format(&self) -> (r: Vec<String>) {
        let mut res = String::from_str("accel=");
        res.append(self.accelerator.as_str());
        push_setting(&mut res, "idg-passthru", self.idg_passthru.as_str());
        push_setting(&mut res, "kernel-irqchip", self.kernel_irqchip.as_str());
        let ghost head = res@;
        if let Some(split_wx) = self.split_wx {
            push_setting(&mut res, "split-wx", split_wx.as_str());
        }
        assert(res@ =~= head + self.spec_split_wx());
        let ghost acc = res@;
        if let Some(thread) = self.thread {
            push_setting(&mut res, "thread", thread.as_str());
        }
        assert(res@ =~= acc + self.spec_thread());
        let ghost acc = res@;
        if let Some(kvm_shadow_mem) = self.kvm_shadow_mem {
            push_number_setting(&mut res, "kvm-shadow-mem", kvm_shadow_mem);
        }
        assert(res@ =~= acc + self.spec_kvm_shadow_mem());
        let ghost acc = res@;
        if let Some(tb_size) = self.tb_size {
            push_number_setting(&mut res, "tb-size", tb_size);
        }
        assert(res@ =~= acc + self.spec_tb_size());
        let ghost acc = res@;
        if let Some(dirty_ring_size) = self.dirty_ring_size {
            push_number_setting(&mut res, "dirty-ring-size", dirty_ring_size);
        }
        assert(res@ =~= acc + self.spec_dirty_ring_size());
        let ghost acc = res@;
        if let Some(notify_vmexit) = self.notify_vmexit {
            let text = notify_vmexit.format();
            push_setting(&mut res, "notify-vmexit", text.as_str());
        }
        assert(res@ =~= acc + self.spec_notify_vmexit());
        pair(String::from_str("-accel"), res)
    }
}

/// With only the accelerator chosen, the value is the accelerator followed by
/// the defaults `idg-passthru=off` and `kernel-irqchip=on`, and nothing else.
pub proof fn lemma_accelerator_only(accelerator: Accelerator)
    ensures
        Accel::spec_with(accelerator).tokens() == seq![
            "-accel"@,
            "accel="@ + accelerator.spec_name() + ",idg-passthru=off,kernel-irqchip=on"@,
        ],
{
    reveal_strlit("idg-passthru");
    reveal_strlit("off");
    reveal_strlit("kernel-irqchip");
    reveal_strlit("on");
    reveal_strlit(",idg-passthru=off,kernel-irqchip=on");
    let a = Accel::spec_with(accelerator);
    assert(a.spec_value() =~= "accel="@ + accelerator.spec_name()
        + ",idg-passthru=off,kernel-irqchip=on"@);
}

/// Setting one optional setting, with everything else at its default, appends
/// exactly that one `,key=value` to the default value.
pub proof fn lemma_one_optional_setting(
    accelerator: Accelerator,
    split_wx: SplitWx,
    thread: Thread,
    kvm_shadow_mem: usize,
    tb_size: usize,
    dirty_ring_size: usize,
    notify_vmexit: NotifyVmexit,
)
    ensures
        (Accel { split_wx: Some(split_wx), ..Accel::spec_with(accelerator) }).spec_value()
            == Accel::spec_with(accelerator).spec_value() + ",split-wx="@ + split_wx.spec_name(),
        (Accel { thread: Some(thread), ..Accel::spec_with(accelerator) }).spec_value()
            == Accel::spec_with(accelerator).spec_value() + ",thread="@ + thread.spec_name(),
        (Accel { kvm_shadow_mem: Some(kvm_shadow_mem), ..Accel::spec_with(accelerator) }).spec_value()
            == Accel::spec_with(accelerator).spec_value() + ",kvm-shadow-mem="@ + decimal(
            kvm_shadow_mem as nat,
        ),
        (Accel { tb_size: Some(tb_size), ..Accel::spec_with(accelerator) }).spec_value()
            == Accel::spec_with(accelerator).spec_value() + ",tb-size="@ + decimal(tb_size as nat),
        (Accel { dirty_ring_size: Some(dirty_ring_size), ..Accel::spec_with(accelerator) }).spec_value()
            == Accel::spec_with(accelerator).spec_value() + ",dirty-ring-size="@ + decimal(
            dirty_ring_size as nat,
        ),
        (Accel { notify_vmexit: Some(notify_vmexit), ..Accel::spec_with(accelerator) }).spec_value()
            == Accel::spec_with(accelerator).spec_value() + ",notify-vmexit="@
            + notify_vmexit.spec_text(),
{
    reveal_strlit("split-wx");
    reveal_strlit(",split-wx=");
    reveal_strlit("thread");
    reveal_strlit(",thread=");
    reveal_strlit("kvm-shadow-mem");
    reveal_strlit(",kvm-shadow-mem=");
    reveal_strlit("tb-size");
    reveal_strlit(",tb-size=");
    reveal_strlit("dirty-ring-size");
    reveal_strlit(",dirty-ring-size=");
    reveal_strlit("notify-vmexit");
    reveal_strlit(",notify-vmexit=");
    let base = Accel::spec_with(accelerator);
    let head = base.spec_head();
    assert(base.spec_value() =~= head);
    assert((Accel { split_wx: Some(split_wx), ..base }).spec_value() =~= head + ",split-wx="@
        + split_wx.spec_name());
    assert((Accel { thread: Some(thread), ..base }).spec_value() =~= head + ",thread="@
        + thread.spec_name());
    assert((Accel { kvm_shadow_mem: Some(kvm_shadow_mem), ..base }).spec_value() =~= head
        + ",kvm-shadow-mem="@ + decimal(kvm_shadow_mem as nat));
    assert((Accel { tb_size: Some(tb_size), ..base }).spec_value() =~= head + ",tb-size="@
        + decimal(tb_size as nat));
    assert((Accel { dirty_ring_size: Some(dirty_ring_size), ..base }).spec_value() =~= head
        + ",dirty-ring-size="@ + decimal(dirty_ring_size as nat));
    assert((Accel { notify_vmexit: Some(notify_vmexit), ..base }).spec_value() =~= head
        + ",notify-vmexit="@ + notify_vmexit.spec_text());
}

/// The accelerator that runs the guest; `Help` lists those of the host.
#[derive(Debug, Copy, Clone, Eq, PartialEq, Hash)]
pub enum Accelerator {
    Kvm,
    Xen,
    Hax,
    Hvf,
    Nvmm,
    Whpx,
    Tcg,
    Help,
}

impl Accelerator {
    /// The accelerator's name on the command line.
    pub open spec fn spec_name(self) -> Seq<char> {
        match self {
            Accelerator::Kvm => "kvm"@,
            Accelerator::Xen => "xen"@,
            Accelerator::Hax => "hax"@,
            Accelerator::Hvf => "hvf"@,
            Accelerator::Nvmm => "nvmm"@,
            Accelerator::Whpx => "whpx"@,
            Accelerator::Tcg => "tcg"@,
            Accelerator::Help => "help"@,
        }
    }

    fn as_str(&self) -> (r: &'static str)
        ensures
            r@ == self.spec_name(),
    {
        match self {
            Self::Kvm => "kvm",
            Self::Xen => "xen",
            Self::Hax => "hax",
            Self::Hvf => "hvf",
            Self::Nvmm => "nvmm",
            Self::Whpx => "whpx",
            Self::Tcg => "tcg",
            Self::Help => "help",
        }
    }
}

impl Default for Accelerator {
    fn default() -> (r: Self)
        ensures
            r == Accelerator::Help,
    {
        Accelerator::Help
    }
}

/// The `idg-passthru` setting; off unless chosen.
#[derive(Debug, Copy, Clone, Eq, PartialEq, Hash)]
pub enum IdgPassthru {
    On,
    Off,
}

impl IdgPassthru {
    pub open spec fn spec_name(self) -> Seq<char> {
        match self {
            IdgPassthru::On => "on"@,
            IdgPassthru::Off => "off"@,
        }
    }

    fn as_str(&self) -> (r: &'static str)
        ensures
            r@ == self.spec_name(),
    {
        match self {
            Self::On => "on",
            Self::Off => "off",
        }
    }
}

impl Default for IdgPassthru {
    fn default() -> (r: Self)
        ensures
            r == IdgPassthru::Off,
    {
        IdgPassthru::Off
    }
}

/// The `kernel-irqchip` setting; on unless chosen.
#[derive(Debug, Copy, Clone, Eq, PartialEq, Hash)]
pub enum KernelIrqchip {
    On,
    Off,
    Split,
}

impl KernelIrqchip {
    pub open spec fn spec_name(self) -> Seq<char> {
        match self {
            KernelIrqchip::On => "on"@,
            KernelIrqchip::Off => "off"@,
            KernelIrqchip::Split => "split"@,
        }
    }

    fn as_str(&self) -> (r: &'static str)
        ensures
            r@ == self.spec_name(),
    {
        match self {
            Self::On => "on",
            Self::Off => "off",
            Self::Split => "split",
        }
    }
}

impl Default for KernelIrqchip {
    fn default() -> (r: Self)
        ensures
            r == KernelIrqchip::On,
    {
        KernelIrqchip::On
    }
}

/// The `split-wx` setting.
#[derive(Debug, Copy, Clone, Eq, PartialEq, Hash)]
pub enum SplitWx {
    On,
    Off,
}

impl SplitWx {
    pub open spec fn spec_name(self) -> Seq<char> {
        match self {
            SplitWx::On => "on"@,
            SplitWx::Off => "off"@,
        }
    }

    fn as_str(&self) -> (r: &'static str)
        ensures
            r@ == self.spec_name(),
    {
        match self {
            Self::On => "on",
            Self::Off => "off",
        }
    }
}

/// The `thread` setting of the tcg accelerator.
#[derive(Debug, Copy, Clone, Eq, PartialEq, Hash)]
pub enum Thread {
    Single,
    Multi,
}

impl Thread {
    pub open spec fn spec_name(self) -> Seq<char> {
        match self {
            Thread::Single => "single"@,
            Thread::Multi => "multi"@,
        }
    }

    fn as_str(&self) -> (r: &'static str)
        ensures
            r@ == self.spec_name(),
    {
        match self {
            Self::Single => "single",
            Self::Multi => "multi",
        }
    }
}

/// The `notify-vmexit` setting. Disabling it takes the notify window along.
#[derive(Debug, Copy, Clone, Eq, PartialEq, Hash)]
pub enum NotifyVmexit {
    Run,
    InternalError,
    DisableAndNotifyWindow(usize),
}

impl NotifyVmexit {
    /// The setting's text, `disable,notify-window=<n>` for the window `n`.
    pub open spec fn spec_text(self) -> Seq<char> {
        match self {
            NotifyVmexit::Run => "run"@,
            NotifyVmexit::InternalError => "internal-error"@,
            NotifyVmexit::DisableAndNotifyWindow(window) => "disable"@ + setting(
                "notify-window"@,
                decimal(window as nat),
            ),
        }
    }

    fn format(&self) -> (r: String)
        ensures
            r@ == self.spec_text(),
    {
        match self {
            Self::Run => String::from_str("run"),
            Self::InternalError => String::from_str("internal-error"),
            Self::DisableAndNotifyWindow(window) => {
                let mut s = String::from_str("disable");
                push_number_setting(&mut s, "notify-window", *window);
                s
            },
        }
    }
}

} // verus!
