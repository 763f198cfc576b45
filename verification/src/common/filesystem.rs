//! Kinds of file, and the options of an overlay mount.
use vstd::prelude::*;

use crate::text::{
    ends_lines, lemma_lines_append, lines, split_lines, split_whitespace, text_eq, views, words,
};

verus! {

broadcast use vstd::string::group_string_axioms;

/// The kind of a file, as copying tells them apart.
#[derive(Debug, Clone, Copy, PartialEq, Eq)]
pub enum FileType {
    Directory,
    Symlink,
    Device,
    File,
}

/// What the file system reports of a path that is not a symbolic link.
#[derive(Debug, Clone, Copy, PartialEq, Eq)]
pub struct FileMetadata {
    /// The path is a directory.
    pub is_dir: bool,
    /// The path is a character device.
    pub is_char_device: bool,
}

/// The error when a path's metadata cannot be read.
pub open spec fn metadata_error(path: Seq<char>, cause: Seq<char>) -> Seq<char> {
    "Failed to get metadata for "@ + path + ": "@ + cause
}

impl FileType {
    /// The kind of the file at `path`: a symbolic link first; otherwise,
    /// from its metadata, a directory, a character device or a plain file.
    /// `metadata` is what reading the metadata gave, or the error's text.
    pub fn from_path(path: &str, is_symlink: bool, metadata: Result<FileMetadata, String>) -> (r:
        Result<FileType, String>)
        ensures
            is_symlink ==> r == Ok::<FileType, String>(FileType::Symlink),
            !is_symlink ==> match metadata {
                Err(cause) => r matches Err(e) && e@ == metadata_error(path@, cause@),
                Ok(m) => r == Ok::<FileType, String>(
                    if m.is_dir {
                        FileType::Directory
                    } else if m.is_char_device {
                        FileType::Device
                    } else {
                        FileType::File
                    },
                ),
            },
    {
        if is_symlink {
            return Ok(FileType::Symlink);
        }
        match metadata {
            Err(cause) => {
                let mut message = String::from_str("Failed to get metadata for ");
                message.append(path);
                message.append(": ");
                message.append(cause.as_str());
                Err(message)
            },
            Ok(m) => {
                if m.is_dir {
                    Ok(FileType::Directory)
                } else if m.is_char_device {
                    Ok(FileType::Device)
                } else {
                    Ok(FileType::File)
                }
            },
        }
    }
}

/// The options of an overlay mount.
pub open spec fn overlay_options(lower: Seq<char>, upper: Seq<char>, work: Seq<char>) -> Seq<
    char,
> {
    "lowerdir="@ + lower + ",upperdir="@ + upper + ",workdir="@ + work
}

/// The options of an overlay mount:
/// `lowerdir=<lower>,upperdir=<upper>,workdir=<work>`.
pub fn overlay_mount_options(lower: &str, upper: &str, work: &str) -> (r: String)
    ensures
        r@ == overlay_options(lower@, upper@, work@),
{
    let mut r = String::from_str("lowerdir=");
    r.append(lower);
    r.append(",upperdir=");
    r.append(upper);
    r.append(",workdir=");
    r.append(work);
    r
}

/// Whether a line of `/proc/mounts` mounts something on `/proc`: its
/// second field is `/proc`.
pub open spec fn is_proc_mount_line(line: Seq<char>) -> bool {
    words(line).len() > 1 && words(line)[1] == "/proc"@
}

/// Whether the mount table `mounts` (the text of `/proc/mounts`) has a
/// line mounting something on `/proc`.
pub open spec fn proc_mounted(mounts: Seq<char>) -> bool {
    exists|i: int| 0 <= i < lines(mounts).len() && #[trigger] is_proc_mount_line(lines(mounts)[i])
}

/// Whether the mount table `mounts` mounts something on `/proc`.
pub fn is_proc_mounted(mounts: &str) -> (b: bool)
    ensures
        b == proc_mounted(mounts@),
{
    let ls = split_lines(mounts);
    let ghost all = views(ls@);
    for i in 0..ls.len()
        invariant
            all == views(ls@),
            all == lines(mounts@),
            forall|j: int| 0 <= j < i ==> !is_proc_mount_line(#[trigger] all[j]),
    {
        let parts = split_whitespace(ls[i].as_str());
        if parts.len() > 1 && text_eq(parts[1].as_str(), "/proc") {
            assert(is_proc_mount_line(all[i as int]));
            return true;
        }
    }
    false
}

/// Law: `/proc` counts as mounted exactly when some line of the mount
/// table, wherever it stands, has `/proc` as its second
/// whitespace-separated field.
pub proof fn law_proc_mounted_any_line(mounts: Seq<char>)
    ensures
        proc_mounted(mounts) <==> exists|i: int|
            0 <= i < lines(mounts).len() && words(#[trigger] lines(mounts)[i]).len() > 1 && words(
                lines(mounts)[i],
            )[1] == "/proc"@,
{
    if proc_mounted(mounts) {
        let i = choose|i: int|
            0 <= i < lines(mounts).len() && #[trigger] is_proc_mount_line(lines(mounts)[i]);
        assert(words(lines(mounts)[i]).len() > 1);
    }
    if exists|i: int|
        0 <= i < lines(mounts).len() && words(#[trigger] lines(mounts)[i]).len() > 1 && words(
            lines(mounts)[i],
        )[1] == "/proc"@ {
        let i = choose|i: int|
            0 <= i < lines(mounts).len() && words(#[trigger] lines(mounts)[i]).len() > 1 && words(
                lines(mounts)[i],
            )[1] == "/proc"@;
        assert(is_proc_mount_line(lines(mounts)[i]));
    }
}

/// Law: for a mount table made of whole lines followed by more lines,
/// `/proc` is mounted exactly when either part mounts it.
pub proof fn law_proc_mounted_concatenation(a: Seq<char>, b: Seq<char>)
    requires
        ends_lines(a),
    ensures
        proc_mounted(a + b) == (proc_mounted(a) || proc_mounted(b)),
{
    lemma_lines_append(a, b);
    let la = lines(a);
    let lb = lines(b);
    let l = lines(a + b);
    assert(l == la + lb);
    if proc_mounted(a + b) {
        let i = choose|i: int| 0 <= i < l.len() && #[trigger] is_proc_mount_line(l[i]);
        if i < la.len() {
            assert(l[i] == la[i]);
            assert(is_proc_mount_line(la[i]));
        } else {
            assert(l[i] == lb[i - la.len()]);
            assert(is_proc_mount_line(lb[i - la.len()]));
        }
    }
    if proc_mounted(a) {
        let i = choose|i: int| 0 <= i < la.len() && #[trigger] is_proc_mount_line(la[i]);
        assert(l[i] == la[i]);
        assert(is_proc_mount_line(l[i]));
    }
    if proc_mounted(b) {
        let i = choose|i: int| 0 <= i < lb.len() && #[trigger] is_proc_mount_line(lb[i]);
        assert(l[i + la.len()] == lb[i]);
        assert(is_proc_mount_line(l[i + la.len()]));
    }
}

} // verus!
