//! Decisions of the download of the mirroring program.

use vstd::prelude::*;
use crate::text::after_last;
use crate::text::chars_of;
use crate::text::find_after_last;
use crate::text::string_of;
use crate::device_monitor::strings_view;

verus! {

/// The file name of a download address: what follows its last `/`.
pub open spec fn file_name_text(url: Seq<char>) -> Seq<char> {
    url.subrange(after_last(url, '/', url.len() as int), url.len() as int)
}

/// Whether the program has to be downloaded: when no local version is
/// recorded, or when the recorded one differs from the remote one.
pub fn should_update_version(local_version: Option<&str>, remote_version: &str) -> (r: bool)
    ensures
        r == match local_version {
            Some(local) => local@ != remote_version@,
            None => true,
        },
{
    match local_version {
        Some(local) => {
            let a = chars_of(local);
            let b = chars_of(remote_version);
            !same_chars(&a, &b)
        },
        None => true,
    }
}

/// Whether two character lists are equal.
pub fn same_chars(a: &Vec<char>, b: &Vec<char>) -> (r: bool)
    ensures
        r == (a@ == b@),
{
    if a.len() != b.len() {
        return false;
    }
    let mut i: usize = 0;
    while i < a.len()
        invariant
            a@.len() == b@.len(),
            i <= a@.len(),
            a@.subrange(0, i as int) == b@.subrange(0, i as int),
        decreases a@.len() - i,
    {
        if a[i] != b[i] {
            return false;
        }
        i = i + 1;
        assert(a@.subrange(0, i as int) =~= a@.subrange(0, i - 1).push(a@[i - 1]));
        assert(b@.subrange(0, i as int) =~= b@.subrange(0, i - 1).push(b@[i - 1]));
    }
    assert(a@.subrange(0, a@.len() as int) == a@);
    assert(b@.subrange(0, b@.len() as int) == b@);
    true
}

/// The file name under which a download is stored.
pub fn download_file_name(url: &str) -> (name: String)
    ensures
        name@ == file_name_text(url@),
{
    let chars = chars_of(url);
    let start = find_after_last(&chars, '/');
    string_of(&chars, start, chars.len())
}

/// Whether an archive entry of this name is a directory: its name ends
/// with `/`.
pub fn is_directory_entry(name: &str) -> (r: bool)
    ensures
        r == (name@.len() > 0 && name@.last() == '/'),
{
    let chars = chars_of(name);
    chars.len() > 0 && chars[chars.len() - 1] == '/'
}

/// The path of an archive entry below the target directory: the entry's
/// path without its first component. An entry at the top level of the
/// archive has no place there.
pub fn strip_top_level(components: &Vec<String>) -> (r: Option<Vec<String>>)
    ensures
        components@.len() <= 1 ==> r is None,
        components@.len() > 1 ==> (r matches Some(rest) && strings_view(rest@) == strings_view(
            components@,
        ).subrange(1, components@.len() as int)),
{
    if components.len() <= 1 {
        return None;
    }
    let mut rest: Vec<String> = Vec::new();
    let mut i: usize = 1;
    while i < components.len()
        invariant
            1 <= i <= components@.len(),
            rest@.len() == i - 1,
            forall|k: int| 0 <= k < rest@.len() ==> rest@[k]@ == components@[k + 1]@,
        decreases components@.len() - i,
    {
        rest.push(components[i].clone());
        i = i + 1;
    }
    assert(strings_view(rest@) =~= strings_view(components@).subrange(
        1,
        components@.len() as int,
    ));
    Some(rest)
}

/// A place for the download.
#[derive(Debug, Clone, Copy, PartialEq, Eq, Structural)]
pub enum DownloadDirectory {
    /// The folder of the mirroring program.
    Configured,
    /// A folder below the system's temporary directory.
    Temporary,
    /// A folder below the user's documents.
    Documents,
}

/// What went wrong with a place for the download.
#[derive(Debug, Clone, Copy, PartialEq, Eq, Structural)]
pub enum DirectoryFailure {
    /// What was in the folder could not be cleared away.
    CleanupFailed,
    /// The folder could not be created.
    CreateFailed,
}

/// The place that is tried after a failure: the temporary folder when the
/// configured one cannot be cleared, the documents folder when a folder
/// cannot be created, and none after the documents folder.
pub fn fallback_directory(current: DownloadDirectory, failure: DirectoryFailure) -> (next: Option<
    DownloadDirectory,
>)
    ensures
        next == match (current, failure) {
            (DownloadDirectory::Documents, _) => None::<DownloadDirectory>,
            (_, DirectoryFailure::CreateFailed) => Some(DownloadDirectory::Documents),
            (DownloadDirectory::Configured, DirectoryFailure::CleanupFailed) => Some(
                DownloadDirectory::Temporary,
            ),
            (DownloadDirectory::Temporary, DirectoryFailure::CleanupFailed) => Some(
                DownloadDirectory::Temporary,
            ),
        },
{
    match (current, failure) {
        (DownloadDirectory::Documents, _) => None,
        (_, DirectoryFailure::CreateFailed) => Some(DownloadDirectory::Documents),
        (_, DirectoryFailure::CleanupFailed) => Some(DownloadDirectory::Temporary),
    }
}

} // verus!
