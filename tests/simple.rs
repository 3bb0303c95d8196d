use qemu_api::chardev::QemuCharDevice;
use qemu_api::{Generic, Qemu};

#[test]
fn test_empty_args() {
    let qemu = Qemu::<Generic>::new();
    let args = qemu.args();
    assert!(args.is_empty());
}

#[test]
fn test_no_reboot() {
    let mut qemu = Qemu::<Generic>::new();
    qemu.no_reboot();

    let args = qemu.args();
    assert_eq!(&["--no-reboot"], args.as_slice());
}

#[test]
fn test_help() {
    let mut qemu = Qemu::<Generic>::new();
    qemu.help();

    let args = qemu.args();
    assert_eq!(&["--help"], args.as_slice());
}

#[test]
fn test_version() {
    let mut qemu = Qemu::<Generic>::new();
    qemu.version();

    let args = qemu.args();
    assert_eq!(&["--version"], args.as_slice());
}

#[test]
fn test_fullscreen() {
    let mut qemu = Qemu::<Generic>::new();
    qemu.fullscreen();

    let args = qemu.args();
    assert_eq!(&["-fullscreen"], args.as_slice());
}

#[test]
fn test_freeze_on_startup() {
    let mut qemu = Qemu::<Generic>::new();
    qemu.freeze_on_startup();

    let args = qemu.args();
    assert_eq!(&["-S"], args.as_slice());
}

#[test]
fn test_gdb() {
    let mut qemu = Qemu::<Generic>::new();
    qemu.gdb(&"tcp:1235");

    let args = qemu.args();
    assert_eq!(&["-gdb", "tcp:1235"], args.as_slice());
}

#[test]
fn test_serial() {
    let mut qemu = Qemu::<Generic>::new();
    qemu.serial(QemuCharDevice::Stdio);

    let args = qemu.args();
    assert_eq!(&["-serial", "stdio"], args.as_slice());
}
