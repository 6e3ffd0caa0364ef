use vstd::prelude::*;

use crate::text::{chars_of, contains, contains_chars, first_line, first_line_of, lemma_first_line_ignores_rest};

verus! {

/// One step of building the guest's mount topology.
#[derive(Clone, Copy, Debug, PartialEq, Eq)]
pub enum MountStep {
    /// A private tmpfs over `target`, without exec and set-uid.
    Tmpfs { target: &'static str },
    /// Create (or truncate) an empty file.
    CreateFile { path: &'static str },
    /// Clone `source` into a detached mount and attach it over `target`.
    Graft { source: &'static str, target: &'static str },
    /// A private binfmt_misc instance over `target`, without exec and set-uid.
    BinfmtMisc { target: &'static str },
    /// Create a directory and its parents.
    CreateDir { path: &'static str },
    /// Bind-mount `source` on `target`.
    Bind { source: &'static str, target: &'static str },
    /// Unmount `target`.
    Unmount { target: &'static str },
}

/// The mount table option that marks the root filesystem as mapped with DAX.
pub open spec fn dax_marker() -> Seq<char> {
    "dax=always"@
}

/// The fixed steps, in order, then a tmpfs over the X11 socket directory where
/// that directory exists.
pub open spec fn base_steps(x11_present: bool) -> Seq<MountStep> {
    let fixed = seq![
        MountStep::Tmpfs { target: "/var/run" },
        MountStep::CreateFile { path: "/tmp/resolv.conf" },
        MountStep::Graft { source: "/tmp/resolv.conf", target: "/etc/resolv.conf" },
        MountStep::BinfmtMisc { target: "/proc/sys/fs/binfmt_misc" },
        MountStep::CreateDir { path: "/run/krun-host" },
        MountStep::Bind { source: "/", target: "/run/krun-host" },
    ];
    if x11_present {
        fixed.push(MountStep::Tmpfs { target: "/tmp/.X11-unix" })
    } else {
        fixed
    }
}

/// The steps that give the guest the host's shared memory directory, reached
/// through the bind of the host root.
pub open spec fn shm_steps_spec() -> Seq<MountStep> {
    seq![
        MountStep::Unmount { target: "/dev/shm" },
        MountStep::Bind { source: "/run/krun-host/dev/shm", target: "/dev/shm" },
    ]
}

/// The steps that build the guest's mount topology, in the order in which they
/// are to be made; `x11_present` says whether `/tmp/.X11-unix` exists.
pub fn mount_filesystems(x11_present: bool) -> (r: Vec<MountStep>)
    ensures
        r@ == base_steps(x11_present),
{
    let mut v: Vec<MountStep> = Vec::new();
    v.push(MountStep::Tmpfs { target: "/var/run" });
    v.push(MountStep::CreateFile { path: "/tmp/resolv.conf" });
    v.push(MountStep::Graft { source: "/tmp/resolv.conf", target: "/etc/resolv.conf" });
    v.push(MountStep::BinfmtMisc { target: "/proc/sys/fs/binfmt_misc" });
    v.push(MountStep::CreateDir { path: "/run/krun-host" });
    v.push(MountStep::Bind { source: "/", target: "/run/krun-host" });
    if x11_present {
        v.push(MountStep::Tmpfs { target: "/tmp/.X11-unix" });
    }
    proof {
        assert(v@ =~= base_steps(x11_present));
    }
    v
}

/// Whether the mount table says that the root filesystem uses DAX: its first
/// line, taken to be the root's, holds `dax=always`.
pub fn has_dax(mount_table: &str) -> (r: bool)
    ensures
        r == contains(first_line(mount_table@), dax_marker()),
{
    let line = first_line_of(mount_table);
    let chars = chars_of(line.as_str());
    let marker = chars_of("dax=always");
    contains_chars(&chars, &marker)
}

/// The steps that follow once the mount table has been read: the shared memory
/// remount where the root uses DAX, nothing otherwise.
pub fn shm_steps(mount_table: &str) -> (r: Vec<MountStep>)
    ensures
        contains(first_line(mount_table@), dax_marker()) ==> r@ == shm_steps_spec(),
        !contains(first_line(mount_table@), dax_marker()) ==> r@.len() == 0,
{
    let mut v: Vec<MountStep> = Vec::new();
    if has_dax(mount_table) {
        v.push(MountStep::Unmount { target: "/dev/shm" });
        v.push(MountStep::Bind { source: "/run/krun-host/dev/shm", target: "/dev/shm" });
        proof {
            assert(v@ =~= shm_steps_spec());
        }
    }
    v
}

/// Only the first line of the mount table counts: where it lacks the DAX marker,
/// no remount follows, whatever the later lines hold.
pub proof fn lemma_dax_read_from_first_line_only(first: Seq<char>, rest: Seq<char>)
    requires
        forall|j: int| 0 <= j < first.len() ==> first[j] != '\n',
    ensures
        contains(first_line(first + seq!['\n'] + rest), dax_marker()) == contains(
            first,
            dax_marker(),
        ),
{
    lemma_first_line_ignores_rest(first, rest);
}

} // verus!
