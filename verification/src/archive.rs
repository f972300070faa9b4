//! The zip container, as the `zip` crate reads it from bytes held in memory.
//!
//! Nothing in this module is proved: each item states what the rest of the
//! library takes on trust about the `zip` crate.

use vstd::prelude::*;

verus! {

#[verifier::external_type_specification]
#[verifier::external_body]
#[verifier::reject_recursive_types(R)]
pub struct ExZipArchive<R>(zip::ZipArchive<R>);

#[verifier::external_type_specification]
#[verifier::external_body]
#[verifier::reject_recursive_types(T)]
pub struct ExCursor<T>(std::io::Cursor<T>);

#[verifier::external_type_specification]
#[verifier::external_body]
pub struct ExZipError(zip::result::ZipError);

/// One entry of a container, as far as unpacking reads it.
pub struct StoredEntry {
    /// The name under which the entry is stored.
    pub name: Seq<char>,
    /// Whether the entry can be opened for reading.
    pub opens: bool,
    /// The decompressed data, where the entry can be opened and read to its end.
    pub data: Option<Seq<u8>>,
}

/// The entries that an open archive holds, in container order.
pub uninterp spec fn archive_entries(a: zip::ZipArchive<std::io::Cursor<Vec<u8>>>) -> Seq<
    StoredEntry,
>;

/// The entries that `zip::ZipArchive::new` finds in a container made of
/// `bytes`; `None` where it rejects the container.
pub uninterp spec fn zip_entries(bytes: Seq<u8>) -> Option<Seq<StoredEntry>>;

/// What `ZipFile::enclosed_name` makes of an entry stored under `name`: the
/// name as a path where the crate judges it safe, `None` where it does not.
/// The judgement follows the path syntax of the platform that the library is
/// built for.
pub uninterp spec fn enclosed_name(name: Seq<char>) -> Option<Seq<char>>;

/// Calls `zip::ZipArchive::new` on a cursor over `bytes`. Trusted: the call
/// succeeds exactly where `zip_entries` is defined, and the archive then
/// holds those entries.
#[verifier::external_body]
pub(crate) fn open_archive(bytes: Vec<u8>) -> (r: Result<
    zip::ZipArchive<std::io::Cursor<Vec<u8>>>,
    zip::result::ZipError,
>)
    ensures
        match r {
            Ok(a) => zip_entries(bytes@) == Some(archive_entries(a)),
            Err(_) => zip_entries(bytes@) is None,
        },
{
    zip::ZipArchive::new(std::io::Cursor::new(bytes))
}

/// Calls `ZipArchive::len`. Trusted: it is the number of entries.
#[verifier::external_body]
pub(crate) fn archive_len(a: &zip::ZipArchive<std::io::Cursor<Vec<u8>>>) -> (n: usize)
    ensures
        n == archive_entries(*a).len(),
{
    a.len()
}

/// Calls `ZipArchive::by_index` and, on the entry, `ZipFile::enclosed_name`.
/// Trusted: the archive holds the same entries afterwards; the call fails
/// exactly where there is no entry `i` or it cannot be opened; otherwise the
/// result is what `enclosed_name` names for the entry's stored name.
#[verifier::external_body]
pub(crate) fn entry_path(a: &mut zip::ZipArchive<std::io::Cursor<Vec<u8>>>, i: usize) -> (r: Result<
    Option<String>,
    zip::result::ZipError,
>)
    ensures
        archive_entries(*final(a)) == archive_entries(*old(a)),
        match r {
            Ok(p) => {
                &&& i < archive_entries(*old(a)).len()
                &&& archive_entries(*old(a))[i as int].opens
                &&& match p {
                    Some(path) => enclosed_name(archive_entries(*old(a))[i as int].name) == Some(
                        path@,
                    ),
                    None => enclosed_name(archive_entries(*old(a))[i as int].name) is None,
                }
            },
            Err(_) => i >= archive_entries(*old(a)).len() || !archive_entries(*old(a))[i as int].opens,
        },
{
    let file = a.by_index(i)?;
    match file.enclosed_name() {
        Some(path) => Ok(Some(path.to_string_lossy().into_owned())),
        None => Ok(None),
    }
}

/// Calls `ZipArchive::by_index` and reads the entry to its end. Trusted: the
/// archive holds the same entries afterwards; the call succeeds exactly
/// where entry `i` has data, and then returns that data.
#[verifier::external_body]
pub(crate) fn entry_data(a: &mut zip::ZipArchive<std::io::Cursor<Vec<u8>>>, i: usize) -> (r: Result<
    Vec<u8>,
    zip::result::ZipError,
>)
    ensures
        archive_entries(*final(a)) == archive_entries(*old(a)),
        match r {
            Ok(data) => {
                &&& i < archive_entries(*old(a)).len()
                &&& archive_entries(*old(a))[i as int].data == Some(data@)
            },
            Err(_) => i >= archive_entries(*old(a)).len() || archive_entries(*old(a))[i as int].data
                is None,
        },
{
    let mut file = a.by_index(i)?;
    let mut data = Vec::new();
    std::io::Read::read_to_end(&mut file, &mut data)?;
    Ok(data)
}

/// Calls `to_string` on a `ZipError`: the text that the `zip` crate gives
/// for the failure. Nothing is claimed of it.
#[verifier::external_body]
pub(crate) fn zip_error_text(e: &zip::result::ZipError) -> (text: String) {
    e.to_string()
}

} // verus!
