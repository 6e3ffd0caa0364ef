use krun_boot::mount::{has_dax, mount_filesystems, shm_steps, MountStep};
use krun_boot::text::{chars_of, contains_chars, push_decimal};

#[test]
fn base_steps_in_order() {
    let steps = mount_filesystems(false);
    assert_eq!(
        steps,
        vec![
            MountStep::Tmpfs { target: "/var/run" },
            MountStep::CreateFile { path: "/tmp/resolv.conf" },
            MountStep::Graft { source: "/tmp/resolv.conf", target: "/etc/resolv.conf" },
            MountStep::BinfmtMisc { target: "/proc/sys/fs/binfmt_misc" },
            MountStep::CreateDir { path: "/run/krun-host" },
            MountStep::Bind { source: "/", target: "/run/krun-host" },
        ]
    );
}

#[test]
fn x11_directory_gets_a_tmpfs() {
    let steps = mount_filesystems(true);
    assert_eq!(steps.len(), 7);
    assert_eq!(steps[6], MountStep::Tmpfs { target: "/tmp/.X11-unix" });
}

#[test]
fn dax_on_first_line_remounts_shm() {
    let table = "/dev/root / virtiofs rw,relatime,dax=always 0 0\nproc /proc proc rw 0 0\n";
    assert!(has_dax(table));
    assert_eq!(
        shm_steps(table),
        vec![
            MountStep::Unmount { target: "/dev/shm" },
            MountStep::Bind { source: "/run/krun-host/dev/shm", target: "/dev/shm" },
        ]
    );
}

#[test]
fn dax_elsewhere_is_ignored() {
    let table = "/dev/root / virtiofs rw,relatime 0 0\nother /mnt virtiofs rw,dax=always 0 0\n";
    assert!(!has_dax(table));
    assert!(shm_steps(table).is_empty());
    assert!(!has_dax(""));
    assert!(!has_dax("dax=alway"));
    assert!(has_dax("dax=always"));
}

#[test]
fn substring_search() {
    let s = chars_of("abcabd");
    assert!(contains_chars(&s, &chars_of("abd")));
    assert!(contains_chars(&s, &chars_of("")));
    assert!(!contains_chars(&s, &chars_of("abe")));
    assert!(!contains_chars(&chars_of("ab"), &chars_of("abc")));
}

#[test]
fn decimal_text() {
    for (n, want) in [(0u32, "0"), (7, "7"), (10, "10"), (255, "255"), (u32::MAX, "4294967295")] {
        let mut s = String::from("x=");
        push_decimal(&mut s, n);
        assert_eq!(s, format!("x={want}"));
    }
}

