//! Paths of files.
//!
//! What a path means is a matter of the syntax of paths, which differs between platforms.  All that
//! is said of paths here is meant in the syntax of the platform that the crate is built for.

use crate::error::StorageError;
use std::path::{Path, PathBuf};
use vstd::prelude::*;

verus! {

/// Declares `std::path::PathBuf`, of which nothing is claimed but that it is a type.
#[verifier::external_type_specification]
#[verifier::external_body]
pub struct ExPathBuf(PathBuf);

/// The bytes that a path consists of, in the encoding that the platform uses for paths.
pub uninterp spec fn path_bytes(path: PathBuf) -> Seq<u8>;

/// Whether the path of these bytes is absolute.
pub uninterp spec fn path_is_absolute(path: Seq<u8>) -> bool;

/// The path of these bytes without its last component, if it has one to leave out.
pub uninterp spec fn path_parent(path: Seq<u8>) -> Option<Seq<u8>>;

/// The second path, seen from the first one.
pub uninterp spec fn path_join(base: Seq<u8>, path: Seq<u8>) -> Seq<u8>;

/// The path of these bytes, quoted and with its special characters escaped.
pub uninterp spec fn path_quoted(path: Seq<u8>) -> Seq<char>;

/// Calls `std::path::Path::is_absolute`.  In the syntax of the platform, what it returns
/// depends on nothing but the bytes of the path.
#[verifier::external_body]
fn is_absolute(path: &PathBuf) -> (r: bool)
    ensures
        r == path_is_absolute(path_bytes(*path)),
{
    path.is_absolute()
}

/// Calls `std::path::Path::parent`.  In the syntax of the platform, what it returns depends on
/// nothing but the bytes of the path; an empty path has no parent.
#[verifier::external_body]
fn parent(path: &PathBuf) -> (r: Option<PathBuf>)
    ensures
        match r {
            Some(p) => path_parent(path_bytes(*path)) == Some(path_bytes(p)),
            None => path_parent(path_bytes(*path)) is None,
        },
        path_bytes(*path).len() == 0 ==> r is None,
{
    path.parent().map(Path::to_path_buf)
}

/// Calls `std::path::Path::join`.  In the syntax of the platform, what it returns depends on
/// nothing but the bytes of the paths.
#[verifier::external_body]
fn join(base: &PathBuf, path: &PathBuf) -> (r: PathBuf)
    ensures
        path_bytes(r) == path_join(path_bytes(*base), path_bytes(*path)),
{
    base.join(path)
}

/// Formats a path by its `Debug` implementation.  What that gives depends on nothing but the bytes
/// of the path.
#[verifier::external_body]
fn quoted(path: &PathBuf) -> (r: String)
    ensures
        r@ == path_quoted(path_bytes(*path)),
{
    format!("{path:?}")
}

/// Tells what a path is to be resolved against: a directory, or nothing if it is absolute.
///
/// `base` is the parent of the file whose name the path is relative to, or `None` if that file has
/// no name.
pub fn base_directory(absolute: bool, base: Option<Option<PathBuf>>) -> (r: Result<
    Option<PathBuf>,
    StorageError,
>)
    ensures
        r == match (absolute, base) {
            (true, _) => Ok::<Option<PathBuf>, StorageError>(None),
            (false, None) => Err(StorageError::NoBaseFilename),
            (false, Some(None)) => Err(StorageError::InvalidBaseFilename),
            (false, Some(Some(directory))) => Ok(Some(directory)),
        },
{
    if absolute {
        return Ok(None);
    }
    match base {
        None => Err(StorageError::NoBaseFilename),
        Some(None) => Err(StorageError::InvalidBaseFilename),
        Some(Some(directory)) => Ok(Some(directory)),
    }
}

/// What the path of the bytes `relative` means to the file whose name has the bytes `filename`.
pub open spec fn resolved(relative: Seq<u8>, filename: Option<Seq<u8>>) -> Result<
    Seq<u8>,
    StorageError,
> {
    if path_is_absolute(relative) {
        Ok(relative)
    } else {
        match filename {
            None => Err(StorageError::NoBaseFilename),
            Some(name) => match path_parent(name) {
                None => Err(StorageError::InvalidBaseFilename),
                Some(directory) => Ok(path_join(directory, relative)),
            },
        }
    }
}

/// The bytes of the name of a file, if it has a name.
pub open spec fn name_bytes(filename: Option<PathBuf>) -> Option<Seq<u8>> {
    match filename {
        None => None,
        Some(name) => Some(path_bytes(name)),
    }
}

/// Resolves a path that is relative to the directory of the file of this name.
pub fn resolve(relative: PathBuf, filename: &Option<PathBuf>) -> (r: Result<PathBuf, StorageError>)
    ensures
        match r {
            Ok(path) => resolved(path_bytes(relative), name_bytes(*filename)) == Ok::<
                Seq<u8>,
                StorageError,
            >(path_bytes(path)),
            Err(e) => resolved(path_bytes(relative), name_bytes(*filename)) == Err::<
                Seq<u8>,
                StorageError,
            >(e),
        },
        name_bytes(*filename) matches Some(name) && name.len() == 0 && !path_is_absolute(
            path_bytes(relative),
        ) ==> r == Err::<PathBuf, StorageError>(StorageError::InvalidBaseFilename),
        path_is_absolute(path_bytes(relative)) ==> r == Ok::<PathBuf, StorageError>(relative),
        !path_is_absolute(path_bytes(relative)) ==> match *filename {
            None => r == Err::<PathBuf, StorageError>(StorageError::NoBaseFilename),
            Some(name) => match path_parent(path_bytes(name)) {
                None => r == Err::<PathBuf, StorageError>(StorageError::InvalidBaseFilename),
                Some(directory) => r matches Ok(path) && path_bytes(path) == path_join(
                    directory,
                    path_bytes(relative),
                ),
            },
        },
{
    let base = match filename {
        Some(name) => Some(parent(name)),
        None => None,
    };
    match base_directory(is_absolute(&relative), base) {
        Ok(Some(directory)) => Ok(join(&directory, &relative)),
        Ok(None) => Ok(relative),
        Err(e) => Err(e),
    }
}

/// An absolute path means the same to every file, whether that has a name or not; a relative path
/// means nothing to a file without a name.
pub proof fn law_absolute_path_is_kept(relative: Seq<u8>, filename: Option<Seq<u8>>)
    ensures
        path_is_absolute(relative) ==> resolved(relative, filename) == Ok::<Seq<u8>, StorageError>(
            relative,
        ),
        !path_is_absolute(relative) ==> resolved(relative, None) == Err::<Seq<u8>, StorageError>(
            StorageError::NoBaseFilename,
        ),
{
}

/// A relative path is seen from the directory that the file is in, and nothing else of the name of
/// the file matters; where there is no such directory, the path means nothing.
pub proof fn law_relative_path_is_seen_from_directory(
    relative: Seq<u8>,
    name: Seq<u8>,
    other_name: Seq<u8>,
    directory: Seq<u8>,
)
    requires
        !path_is_absolute(relative),
    ensures
        path_parent(name) == Some(directory) ==> resolved(relative, Some(name)) == Ok::<
            Seq<u8>,
            StorageError,
        >(path_join(directory, relative)),
        path_parent(name) is None <==> resolved(relative, Some(name)) == Err::<
            Seq<u8>,
            StorageError,
        >(StorageError::InvalidBaseFilename),
        path_parent(name) == path_parent(other_name) ==> resolved(relative, Some(name))
            == resolved(relative, Some(other_name)),
{
}

/// Resolving a path twice is the same as resolving it once, where the first result is absolute.
pub proof fn law_absolute_result_is_kept(relative: Seq<u8>, filename: Option<Seq<u8>>)
    requires
        resolved(relative, filename) matches Ok(path) && path_is_absolute(path),
    ensures
        resolved(resolved(relative, filename)->Ok_0, filename) == resolved(relative, filename),
{
}

/// How a file is called in messages, given its quoted name, if it has a name.
pub open spec fn description(quoted_name: Option<Seq<char>>) -> Seq<char> {
    match quoted_name {
        Some(text) => "file:"@ + text,
        None => "file:<unknown path>"@,
    }
}

/// How a file is called tells its quoted name, which follows a prefix that is the same for all
/// files, with a name or without.
pub proof fn law_description_tells_name(text: Seq<char>)
    ensures
        description(Some(text)).take(5) == seq!['f', 'i', 'l', 'e', ':'],
        description(Some(text)).skip(5) == text,
        description(None).take(5) == seq!['f', 'i', 'l', 'e', ':'],
        description(None).skip(5) == "<unknown path>"@,
{
    reveal_strlit("file:");
    reveal_strlit("file:<unknown path>");
    reveal_strlit("<unknown path>");
    assert(description(Some(text)).take(5) =~= seq!['f', 'i', 'l', 'e', ':']);
    assert(description(Some(text)).skip(5) =~= text);
    assert(description(None).take(5) =~= seq!['f', 'i', 'l', 'e', ':']);
    assert(description(None).skip(5) =~= "<unknown path>"@);
}

/// How to call a file in messages, given its quoted name, if it has a name.
pub fn describe_quoted(quoted_name: Option<String>) -> (r: String)
    ensures
        r@ == description(
            match quoted_name {
                Some(text) => Some(text@),
                None => None,
            },
        ),
{
    match quoted_name {
        Some(text) => {
            let mut r: String = String::from_str("file:");
            r.append(text.as_str());
            r
        },
        None => String::from_str("file:<unknown path>"),
    }
}

/// How to call the file of this name in messages.
pub fn describe(filename: &Option<PathBuf>) -> (r: String)
    ensures
        r@ == description(
            match name_bytes(*filename) {
                Some(name) => Some(path_quoted(name)),
                None => None,
            },
        ),
{
    match filename {
        Some(name) => describe_quoted(Some(quoted(name))),
        None => describe_quoted(None),
    }
}

} // verus!
