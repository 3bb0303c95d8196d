use qemu_api::args::{
    Accel, Accelerator, Cache, Drive, Format, KernelIrqchip, LogItem, NotifyVmexit, Snapshot,
    SplitWx, Thread,
};
use qemu_api::chardev::QemuCharDevice;
use qemu_api::{Aarch64, Generic, Qemu, QemuSystem, X86_64};

fn kvm() -> Accel {
    Accel {
        accelerator: Accelerator::Kvm,
        ..Default::default()
    }
}

#[test]
fn end_to_end_accel_bios_two_drives() {
    let mut qemu = Qemu::<X86_64>::new();
    qemu.accel(kvm());
    qemu.bios(String::from("hello/world"));
    qemu.drive(Drive {
        file: String::from("other/path.img"),
        format: Some(Format::Raw),
        ..Default::default()
    });
    qemu.drive(Drive {
        file: String::from("yet/another/path.img"),
        format: Some(Format::Raw),
        cache: Some(Cache::Directsync),
        ..Default::default()
    });
    assert_eq!(
        &[
            "-accel",
            "accel=kvm,idg-passthru=off,kernel-irqchip=on",
            "-drive",
            "file=other/path.img,format=raw",
            "-drive",
            "file=yet/another/path.img,format=raw,cache=directsync",
            "-bios",
            "hello/world"
        ],
        qemu.into_args().as_slice()
    );
}

#[test]
fn call_order_does_not_change_the_arguments() {
    let mut first = Qemu::<Generic>::new();
    first
        .bios(String::from("fw.bin"))
        .accel(kvm())
        .gdb(&"tcp::9000")
        .no_reboot()
        .freeze_on_startup();
    let mut second = Qemu::<Generic>::new();
    second
        .freeze_on_startup()
        .no_reboot()
        .gdb(&"tcp::9000")
        .accel(kvm())
        .bios(String::from("fw.bin"));
    let expected = [
        "--no-reboot",
        "-accel",
        "accel=kvm,idg-passthru=off,kernel-irqchip=on",
        "-bios",
        "fw.bin",
        "-S",
        "-gdb",
        "tcp::9000",
    ];
    assert_eq!(&expected, first.args().as_slice());
    assert_eq!(&expected, second.args().as_slice());
}

#[test]
fn every_option_in_the_fixed_order() {
    let mut qemu = Qemu::<Generic>::new();
    qemu.gdb(&"tcp::1")
        .freeze_on_startup()
        .log_items(vec![LogItem::Int])
        .serial(QemuCharDevice::Help)
        .bios(String::from("b"))
        .drive(Drive {
            file: String::from("d"),
            ..Default::default()
        })
        .accel(kvm())
        .fullscreen()
        .version()
        .help()
        .no_reboot();
    assert_eq!(
        &[
            "--no-reboot",
            "--help",
            "--version",
            "-fullscreen",
            "-accel",
            "accel=kvm,idg-passthru=off,kernel-irqchip=on",
            "-drive",
            "file=d",
            "-bios",
            "b",
            "-serial",
            "help",
            "-d",
            "int",
            "-S",
            "-gdb",
            "tcp::1"
        ],
        qemu.args().as_slice()
    );
}

#[test]
fn a_second_value_replaces_the_first() {
    let mut qemu = Qemu::<Generic>::new();
    qemu.bios(String::from("old")).bios(String::from("new"));
    qemu.serial(QemuCharDevice::Stdio);
    qemu.serial(QemuCharDevice::Id(String::from("char0")));
    assert_eq!(&["-bios", "new", "-serial", "char0"], qemu.args().as_slice());
}

#[test]
fn drives_keep_their_order() {
    let mut qemu = Qemu::<Generic>::new();
    for name in ["c.img", "a.img", "b.img"] {
        qemu.drive(Drive {
            file: String::from(name),
            ..Default::default()
        });
    }
    assert_eq!(
        &["-drive", "file=c.img", "-drive", "file=a.img", "-drive", "file=b.img"],
        qemu.args().as_slice()
    );
}

#[test]
fn drive_with_every_setting() {
    let mut qemu = Qemu::<Generic>::new();
    qemu.drive(Drive {
        file: String::from("disk.img"),
        format: Some(Format::Raw),
        cache: Some(Cache::NoCache),
        snapshot: Some(Snapshot::On),
    });
    assert_eq!(
        &["-drive", "file=disk.img,format=raw,cache=none,snapshot=on"],
        qemu.args().as_slice()
    );
}

#[test]
fn drive_settings_that_are_absent_are_left_out() {
    let mut qemu = Qemu::<Generic>::new();
    qemu.drive(Drive {
        file: String::from("disk.img"),
        snapshot: Some(Snapshot::Off),
        ..Default::default()
    });
    qemu.drive(Drive {
        file: String::from("x"),
        cache: Some(Cache::Writeback),
        ..Default::default()
    });
    assert_eq!(
        &["-drive", "file=disk.img,snapshot=off", "-drive", "file=x,cache=writeback"],
        qemu.args().as_slice()
    );
}

#[test]
fn cache_policy_names() {
    let policies = [
        (Cache::Writethrough, "writethrough"),
        (Cache::Writeback, "writeback"),
        (Cache::NoCache, "none"),
        (Cache::Directsync, "directsync"),
        (Cache::Unsafe, "unsafe"),
    ];
    for (cache, name) in policies {
        let mut qemu = Qemu::<Generic>::new();
        qemu.drive(Drive {
            file: String::from("f"),
            cache: Some(cache),
            ..Default::default()
        });
        assert_eq!(vec![String::from("-drive"), format!("file=f,cache={}", name)], qemu.args());
    }
}

#[test]
fn log_items_keep_their_order_and_trace_patterns() {
    let mut qemu = Qemu::<Generic>::new();
    qemu.log_items(vec![
        LogItem::GuestErrors,
        LogItem::Trace(String::from("foo*")),
        LogItem::Page,
        LogItem::CpuReset,
    ]);
    assert_eq!(
        &["-d", "guest_errors,trace:foo*,page,cpu_reset"],
        qemu.args().as_slice()
    );
}

#[test]
fn trace_pattern_is_copied_verbatim() {
    let mut qemu = Qemu::<Generic>::new();
    qemu.d(vec![LogItem::Trace(String::from("a,b=c *"))]);
    assert_eq!(&["-d", "trace:a,b=c *"], qemu.args().as_slice());
}

#[test]
fn empty_log_items_render_an_empty_value() {
    let mut qemu = Qemu::<Generic>::new();
    qemu.log_items(Vec::new());
    assert_eq!(&["-d", ""], qemu.args().as_slice());
}

#[test]
fn every_log_item_name() {
    let items = vec![
        LogItem::OutAsm,
        LogItem::InAsm,
        LogItem::Op,
        LogItem::OpOpt,
        LogItem::OpInd,
        LogItem::Int,
        LogItem::Exec,
        LogItem::Cpu,
        LogItem::Fpu,
        LogItem::Mmu,
        LogItem::Pcall,
        LogItem::CpuReset,
        LogItem::Unimp,
        LogItem::GuestErrors,
        LogItem::Page,
        LogItem::Nochain,
        LogItem::Plugin,
        LogItem::Strace,
        LogItem::Tid,
        LogItem::Help,
    ];
    let mut qemu = Qemu::<Generic>::new();
    qemu.d(items);
    assert_eq!(
        &[
            "-d",
            "out_asm,in_asm,op,op_opt,op_ind,int,exec,cpu,fpu,mmu,pcall,cpu_reset,unimp,guest_errors,page,nochain,plugin,strace,tid,help"
        ],
        qemu.args().as_slice()
    );
}

#[test]
fn serial_devices() {
    assert_eq!("stdio", QemuCharDevice::Stdio.format());
    assert_eq!("help", QemuCharDevice::Help.format());
    assert_eq!("mon0", QemuCharDevice::Id(String::from("mon0")).format());
}

#[test]
fn gdb_shorthand_and_freeze_alias() {
    let mut qemu = Qemu::<Generic>::new();
    qemu.s().S();
    assert_eq!(&["-S", "-gdb", "tcp::1234"], qemu.args().as_slice());
}

#[test]
fn every_accelerator_name() {
    let names = [
        (Accelerator::Kvm, "kvm"),
        (Accelerator::Xen, "xen"),
        (Accelerator::Hax, "hax"),
        (Accelerator::Hvf, "hvf"),
        (Accelerator::Nvmm, "nvmm"),
        (Accelerator::Whpx, "whpx"),
        (Accelerator::Tcg, "tcg"),
        (Accelerator::Help, "help"),
    ];
    for (accelerator, name) in names {
        let mut qemu = Qemu::<Generic>::new();
        qemu.accel(Accel {
            accelerator,
            ..Default::default()
        });
        assert_eq!(
            vec![
                String::from("-accel"),
                format!("accel={},idg-passthru=off,kernel-irqchip=on", name)
            ],
            qemu.args()
        );
    }
}

#[test]
fn default_accel_is_help() {
    let mut qemu = Qemu::<Generic>::new();
    qemu.accel(Accel::default());
    assert_eq!(
        &["-accel", "accel=help,idg-passthru=off,kernel-irqchip=on"],
        qemu.args().as_slice()
    );
}

#[test]
fn every_accel_setting_in_the_fixed_order() {
    let mut qemu = Qemu::<Generic>::new();
    qemu.accel(Accel {
        accelerator: Accelerator::Tcg,
        kernel_irqchip: KernelIrqchip::Split,
        notify_vmexit: Some(NotifyVmexit::Run),
        dirty_ring_size: Some(0),
        tb_size: Some(10),
        kvm_shadow_mem: Some(9),
        thread: Some(Thread::Multi),
        split_wx: Some(SplitWx::On),
        ..Default::default()
    });
    assert_eq!(
        &[
            "-accel",
            "accel=tcg,idg-passthru=off,kernel-irqchip=split,split-wx=on,thread=multi,kvm-shadow-mem=9,tb-size=10,dirty-ring-size=0,notify-vmexit=run"
        ],
        qemu.args().as_slice()
    );
}

#[test]
fn largest_numbers_are_rendered_in_full() {
    let mut qemu = Qemu::<Generic>::new();
    qemu.accel(Accel {
        accelerator: Accelerator::Kvm,
        tb_size: Some(usize::MAX),
        notify_vmexit: Some(NotifyVmexit::DisableAndNotifyWindow(0)),
        ..Default::default()
    });
    assert_eq!(
        vec![
            String::from("-accel"),
            format!(
                "accel=kvm,idg-passthru=off,kernel-irqchip=on,tb-size={},notify-vmexit=disable,notify-window=0",
                usize::MAX
            )
        ],
        qemu.args()
    );
}

#[test]
fn target_commands() {
    assert_eq!("qemu-system-x86_64", X86_64::command());
    assert_eq!("qemu-system-aarch64", Aarch64::command());
    assert_eq!("qemu-generic", Generic::command());
}
