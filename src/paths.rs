//! Filesystem layout: the data root, the template image directory, each
//! VM's working directory, and the sockets that belong to a running VM.

use vstd::prelude::*;
use crate::text::{decimal, push_decimal, starts_with, starts_with_str};

verus! {

/// `base` extended by `part` the way a path is pushed onto a path buffer:
/// an absolute `part` replaces `base`; otherwise a separator is put between
/// them unless `base` is empty or already ends with one.
pub open spec fn join(base: Seq<char>, part: Seq<char>) -> Seq<char> {
    if part.len() > 0 && part[0] == '/' {
        part
    } else if base.len() == 0 || base.last() == '/' {
        base + part
    } else {
        base + seq!['/'] + part
    }
}

/// Extends the path `base` by `part`.
pub fn join_path(base: &str, part: &str) -> (r: String)
    ensures
        r@ == join(base@, part@),
{
    let part_len = part.unicode_len();
    if part_len > 0 && part.get_char(0) == '/' {
        return String::from_str(part);
    }
    let base_len = base.unicode_len();
    if base_len == 0 || base.get_char(base_len - 1) == '/' {
        return String::from_str(base).concat(part);
    }
    let sep = "/";
    proof {
        reveal_strlit("/");
    }
    let r = String::from_str(base).concat(sep).concat(part);
    assert(r@ =~= base@ + seq!['/'] + part@);
    r
}

/// The data root: `$XDG_DATA_HOME/bubbles` when that variable is set,
/// otherwise `$HOME/.local/share/bubbles`.
pub open spec fn data_dir_spec(xdg_data_home: Option<Seq<char>>, home: Seq<char>) -> Seq<char> {
    let base = match xdg_data_home {
        Some(x) => x,
        None => join(home, ".local/share"@),
    };
    join(base, "bubbles"@)
}

/// The data root, from the values of `XDG_DATA_HOME` (if set) and `HOME`.
pub fn data_dir(xdg_data_home: Option<&str>, home: &str) -> (r: String)
    ensures
        r@ == data_dir_spec(
            match xdg_data_home {
                Some(x) => Some(x@),
                None => None,
            },
            home@,
        ),
{
    let base = match xdg_data_home {
        Some(x) => String::from_str(x),
        None => join_path(home, ".local/share"),
    };
    join_path(base.as_str(), "bubbles")
}

/// Directory holding every template image.
pub open spec fn images_dir_spec(data: Seq<char>) -> Seq<char> {
    join(data, "images"@)
}

/// Directory of the one supported template image.
pub open spec fn template_dir_spec(data: Seq<char>) -> Seq<char> {
    join(images_dir_spec(data), "debian-13"@)
}

/// Directory holding one working directory per VM.
pub open spec fn vms_dir_spec(data: Seq<char>) -> Seq<char> {
    join(data, "vms"@)
}

/// Working directory of the VM called `name`.
pub open spec fn vm_dir_spec(data: Seq<char>, name: Seq<char>) -> Seq<char> {
    join(vms_dir_spec(data), name)
}

pub fn images_dir(data: &str) -> (r: String)
    ensures
        r@ == images_dir_spec(data@),
{
    join_path(data, "images")
}

pub fn template_dir(data: &str) -> (r: String)
    ensures
        r@ == template_dir_spec(data@),
{
    let images = images_dir(data);
    join_path(images.as_str(), "debian-13")
}

pub fn vms_dir(data: &str) -> (r: String)
    ensures
        r@ == vms_dir_spec(data@),
{
    join_path(data, "vms")
}

pub fn vm_dir(data: &str, name: &str) -> (r: String)
    ensures
        r@ == vm_dir_spec(data@, name@),
{
    let vms = vms_dir(data);
    join_path(vms.as_str(), name)
}

/// The files inside an image or VM directory.
#[derive(Clone, Copy, Debug, PartialEq, Eq, Structural)]
pub enum ImageFile {
    /// Raw disk image.
    Disk,
    /// Kernel image.
    Kernel,
    /// Initial ramdisk.
    Initrd,
    /// Disk image as distributed, before conversion.
    Packed,
    /// Control-channel socket (VM directories only).
    Control,
    /// Hypervisor management socket (VM directories only).
    Management,
}

pub open spec fn file_name_spec(f: ImageFile) -> Seq<char> {
    match f {
        ImageFile::Disk => "disk.img"@,
        ImageFile::Kernel => "vmlinuz"@,
        ImageFile::Initrd => "initrd.img"@,
        ImageFile::Packed => "disk.qcow2"@,
        ImageFile::Control => "vsock"@,
        ImageFile::Management => "crosvm_socket"@,
    }
}

pub fn file_name(f: ImageFile) -> (r: &'static str)
    ensures
        r@ == file_name_spec(f),
{
    match f {
        ImageFile::Disk => "disk.img",
        ImageFile::Kernel => "vmlinuz",
        ImageFile::Initrd => "initrd.img",
        ImageFile::Packed => "disk.qcow2",
        ImageFile::Control => "vsock",
        ImageFile::Management => "crosvm_socket",
    }
}

/// The path of `f` inside the directory `dir`.
pub fn file_in(dir: &str, f: ImageFile) -> (r: String)
    ensures
        r@ == join(dir@, file_name_spec(f)),
{
    join_path(dir, file_name(f))
}

/// The network proxy's socket for the VM called `name`, under the shared
/// temporary directory.
pub open spec fn proxy_socket_spec(name: Seq<char>) -> Seq<char> {
    join("/tmp"@, "passt_socket_"@ + name)
}

pub fn proxy_socket_path(name: &str) -> (r: String)
    ensures
        r@ == proxy_socket_spec(name@),
{
    let file = String::from_str("passt_socket_").concat(name);
    join_path("/tmp", file.as_str())
}

/// The compositor socket handed to the hypervisor. Relayed into the host,
/// it is `/run/user/<uid>/<display>`; run directly, `<runtime_dir>/<display>`.
pub open spec fn display_socket_spec(
    relayed: bool,
    uid: nat,
    runtime_dir: Seq<char>,
    display: Seq<char>,
) -> Seq<char> {
    if relayed {
        "/run/user/"@ + decimal(uid) + seq!['/'] + display
    } else {
        join(runtime_dir, display)
    }
}

pub fn display_socket_path(relayed: bool, uid: u32, runtime_dir: &str, display: &str) -> (r: String)
    ensures
        r@ == display_socket_spec(relayed, uid as nat, runtime_dir@, display@),
{
    if relayed {
        let mut s = String::from_str("/run/user/");
        push_decimal(&mut s, uid as u128);
        let sep = "/";
        proof {
            reveal_strlit("/");
        }
        s.append(sep);
        s.append(display);
        assert(s@ =~= "/run/user/"@ + decimal(uid as nat) + seq!['/'] + display@);
        s
    } else {
        join_path(runtime_dir, display)
    }
}

/// Where the line that starts at `i` ends: at the next newline, or at the
/// end of `s`.
pub open spec fn line_end(s: Seq<char>, i: int) -> int
    decreases s.len() - i,
{
    if i < 0 || i >= s.len() {
        s.len() as int
    } else if s[i] == '\n' {
        i
    } else {
        line_end(s, i + 1)
    }
}

/// The line that starts at `i`, without its `\n` or `\r\n` terminator.
pub open spec fn line_at(s: Seq<char>, i: int) -> Seq<char> {
    let e = line_end(s, i);
    let raw = s.subrange(i, e);
    if e < s.len() && raw.len() > 0 && raw.last() == '\r' {
        raw.drop_last()
    } else {
        raw
    }
}

pub proof fn lemma_line_end_bounds(s: Seq<char>, i: int)
    requires
        0 <= i <= s.len(),
    ensures
        i <= line_end(s, i) <= s.len(),
        line_end(s, i) < s.len() ==> s[line_end(s, i)] == '\n',
        forall|j: int| i <= j < line_end(s, i) ==> s[j] != '\n',
    decreases s.len() - i,
{
    if i < s.len() && s[i] != '\n' {
        lemma_line_end_bounds(s, i + 1);
    }
}

/// The value of the first `app-path=` line of a sandbox manifest, looking
/// at the lines that start at or after `i`.
pub open spec fn app_path_from(s: Seq<char>, i: int) -> Option<Seq<char>>
    decreases s.len() - i
    via app_path_from_decreases
{
    if i < 0 || i >= s.len() {
        None
    } else if starts_with(line_at(s, i), "app-path="@) {
        Some(line_at(s, i).subrange("app-path="@.len() as int, line_at(s, i).len() as int))
    } else if line_end(s, i) < s.len() {
        app_path_from(s, line_end(s, i) + 1)
    } else {
        None
    }
}

#[via_fn]
proof fn app_path_from_decreases(s: Seq<char>, i: int) {
    if 0 <= i < s.len() {
        lemma_line_end_bounds(s, i);
    }
}

/// Where the sandboxed installation lives on the host, read from the
/// sandbox manifest's `app-path=` line.
pub open spec fn host_app_path_spec(manifest: Seq<char>) -> Option<Seq<char>> {
    app_path_from(manifest, 0)
}

/// The end of the line of `s` that starts at `i`.
fn find_line_end(s: &str, len: usize, i: usize) -> (r: usize)
    requires
        len == s@.len(),
        i <= len,
    ensures
        r as int == line_end(s@, i as int),
{
    let mut j: usize = i;
    while j < len
        invariant
            len == s@.len(),
            i <= j <= len,
            line_end(s@, i as int) == line_end(s@, j as int),
        decreases len - j,
    {
        if s.get_char(j) == '\n' {
            return j;
        }
        j = j + 1;
    }
    j
}

/// The installation's host path given in a sandbox manifest, if any line
/// gives one.
pub fn host_app_path(manifest: &str) -> (r: Option<String>)
    ensures
        match r {
            Some(p) => host_app_path_spec(manifest@) == Some(p@),
            None => host_app_path_spec(manifest@) is None,
        },
{
    let key = "app-path=";
    proof {
        reveal_strlit("app-path=");
    }
    assert(key@ == "app-path="@);
    let len = manifest.unicode_len();
    let mut i: usize = 0;
    while i < len
        invariant
            len == manifest@.len(),
            key@ == "app-path="@,
            i <= len,
            app_path_from(manifest@, 0) == app_path_from(manifest@, i as int),
        decreases len - i,
    {
        let e = find_line_end(manifest, len, i);
        proof {
            lemma_line_end_bounds(manifest@, i as int);
        }
        let stop: usize = if e < len && e > i && manifest.get_char(e - 1) == '\r' {
            e - 1
        } else {
            e
        };
        let line = manifest.substring_char(i, stop);
        assert(line@ =~= line_at(manifest@, i as int));
        if starts_with_str(line, key) {
            let line_len = line.unicode_len();
            let key_len = key.unicode_len();
            let value = line.substring_char(key_len, line_len);
            assert(app_path_from(manifest@, i as int) == Some(value@));
            return Some(String::from_str(value));
        }
        assert(!starts_with(line_at(manifest@, i as int), "app-path="@));
        if e == len {
            assert(app_path_from(manifest@, i as int) is None);
            return None;
        }
        assert(app_path_from(manifest@, i as int) == app_path_from(manifest@, e + 1));
        i = e + 1;
    }
    None
}

/// Host path of the helper program `name`: inside the installation's `bin`
/// directory when the manifest names the installation, `name` itself
/// (resolved through the search path) otherwise.
pub open spec fn host_bin_spec(app_path: Option<Seq<char>>, name: Seq<char>) -> Seq<char> {
    match app_path {
        Some(p) => join(join(p, "bin"@), name),
        None => name,
    }
}

pub fn host_bin(app_path: Option<&str>, name: &str) -> (r: String)
    ensures
        r@ == host_bin_spec(
            match app_path {
                Some(p) => Some(p@),
                None => None,
            },
            name@,
        ),
{
    match app_path {
        Some(p) => {
            let bin = join_path(p, "bin");
            join_path(bin.as_str(), name)
        },
        None => String::from_str(name),
    }
}

} // verus!
