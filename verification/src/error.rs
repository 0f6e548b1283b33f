//! The error type of the filesystem API, and its construction from the
//! engine's return codes.

use crate::ll;
use crate::path;
use vstd::prelude::*;

verus! {

/// What can go wrong in a filesystem operation.
#[derive(Clone, Copy, Debug, PartialEq, Eq, Structural)]
pub enum Error {
    /// The return code was zero or more: the operation was successful.
    Success,
    /// Input / output error occurred.
    Io,
    /// File or filesystem was corrupt.
    Corruption,
    /// No entry found with that name.
    NoSuchEntry,
    /// File or directory already exists.
    EntryAlreadyExisted,
    /// Path name is not a directory.
    PathNotDir,
    /// Path specification is to a directory.
    PathIsDir,
    /// Directory was not empty.
    DirNotEmpty,
    /// Bad file descriptor.
    BadFileDescriptor,
    /// File is too big.
    FileTooBig,
    /// Incorrect value specified to function.
    Invalid,
    /// No space left available for operation.
    NoSpace,
    /// No memory available for completing request.
    NoMemory,
    /// No attribute or data available.
    NoAttribute,
    /// Filename too long.
    FilenameTooLong,
    /// Unknown error occurred, integer code specified. A translation gives
    /// this only for a negative code that names none of the failures above.
    Unknown(i32),
}

/// The error that a return code stands for.
///
/// Codes of zero and above are successes. Below zero, each code of the
/// engine has its variant, and every other value is kept in `Unknown`.
pub open spec fn error_of_code(code: i32) -> Error {
    if code >= 0 {
        Error::Success
    } else if code == ll::LFS_ERR_IO {
        Error::Io
    } else if code == ll::LFS_ERR_CORRUPT {
        Error::Corruption
    } else if code == ll::LFS_ERR_NOENT {
        Error::NoSuchEntry
    } else if code == ll::LFS_ERR_EXIST {
        Error::EntryAlreadyExisted
    } else if code == ll::LFS_ERR_NOTDIR {
        Error::PathNotDir
    } else if code == ll::LFS_ERR_ISDIR {
        Error::PathIsDir
    } else if code == ll::LFS_ERR_NOTEMPTY {
        Error::DirNotEmpty
    } else if code == ll::LFS_ERR_BADF {
        Error::BadFileDescriptor
    } else if code == ll::LFS_ERR_FBIG {
        Error::FileTooBig
    } else if code == ll::LFS_ERR_INVAL {
        Error::Invalid
    } else if code == ll::LFS_ERR_NOSPC {
        Error::NoSpace
    } else if code == ll::LFS_ERR_NOMEM {
        Error::NoMemory
    } else if code == ll::LFS_ERR_NOATTR {
        Error::NoAttribute
    } else if code == ll::LFS_ERR_NAMETOOLONG {
        Error::FilenameTooLong
    } else {
        Error::Unknown(code)
    }
}

/// Whether `code` is one of the failure codes that the engine defines.
pub open spec fn is_failure_code(code: i32) -> bool {
    ||| code == ll::LFS_ERR_IO
    ||| code == ll::LFS_ERR_CORRUPT
    ||| code == ll::LFS_ERR_NOENT
    ||| code == ll::LFS_ERR_EXIST
    ||| code == ll::LFS_ERR_NOTDIR
    ||| code == ll::LFS_ERR_ISDIR
    ||| code == ll::LFS_ERR_NOTEMPTY
    ||| code == ll::LFS_ERR_BADF
    ||| code == ll::LFS_ERR_FBIG
    ||| code == ll::LFS_ERR_INVAL
    ||| code == ll::LFS_ERR_NOSPC
    ||| code == ll::LFS_ERR_NOMEM
    ||| code == ll::LFS_ERR_NOATTR
    ||| code == ll::LFS_ERR_NAMETOOLONG
}

/// The return code that an error stands for: the engine's own code for a
/// named variant, and the code it carries for `Unknown`.
pub open spec fn code_of(error: Error) -> i32 {
    match error {
        Error::Success => ll::LFS_ERR_OK,
        Error::Io => ll::LFS_ERR_IO,
        Error::Corruption => ll::LFS_ERR_CORRUPT,
        Error::NoSuchEntry => ll::LFS_ERR_NOENT,
        Error::EntryAlreadyExisted => ll::LFS_ERR_EXIST,
        Error::PathNotDir => ll::LFS_ERR_NOTDIR,
        Error::PathIsDir => ll::LFS_ERR_ISDIR,
        Error::DirNotEmpty => ll::LFS_ERR_NOTEMPTY,
        Error::BadFileDescriptor => ll::LFS_ERR_BADF,
        Error::FileTooBig => ll::LFS_ERR_FBIG,
        Error::Invalid => ll::LFS_ERR_INVAL,
        Error::NoSpace => ll::LFS_ERR_NOSPC,
        Error::NoMemory => ll::LFS_ERR_NOMEM,
        Error::NoAttribute => ll::LFS_ERR_NOATTR,
        Error::FilenameTooLong => ll::LFS_ERR_NAMETOOLONG,
        Error::Unknown(code) => code,
    }
}

/// Whether translating some return code can give `error`: any variant but
/// an `Unknown` whose code has a meaning of its own.
pub open spec fn is_translation(error: Error) -> bool {
    error matches Error::Unknown(code) ==> code < 0 && !is_failure_code(code)
}

impl vstd::std_specs::convert::FromSpecImpl<i32> for Error {
    open spec fn obeys_from_spec() -> bool {
        true
    }

    open spec fn from_spec(error_code: i32) -> Error {
        error_of_code(error_code)
    }
}

impl From<i32> for Error {
    /// Translates a return code of the engine. Every `i32` has exactly one
    /// outcome, the one that [`error_of_code`] gives.
    fn from(error_code: i32) -> (error: Error)
        ensures
            error == error_of_code(error_code),
    {
        match error_code {
            n if n >= 0 => Error::Success,
            ll::LFS_ERR_IO => Error::Io,
            ll::LFS_ERR_CORRUPT => Error::Corruption,
            ll::LFS_ERR_NOENT => Error::NoSuchEntry,
            ll::LFS_ERR_EXIST => Error::EntryAlreadyExisted,
            ll::LFS_ERR_NOTDIR => Error::PathNotDir,
            ll::LFS_ERR_ISDIR => Error::PathIsDir,
            ll::LFS_ERR_NOTEMPTY => Error::DirNotEmpty,
            ll::LFS_ERR_BADF => Error::BadFileDescriptor,
            ll::LFS_ERR_FBIG => Error::FileTooBig,
            ll::LFS_ERR_INVAL => Error::Invalid,
            ll::LFS_ERR_NOSPC => Error::NoSpace,
            ll::LFS_ERR_NOMEM => Error::NoMemory,
            ll::LFS_ERR_NOATTR => Error::NoAttribute,
            ll::LFS_ERR_NAMETOOLONG => Error::FilenameTooLong,
            _ => Error::Unknown(error_code),
        }
    }
}

impl vstd::std_specs::convert::FromSpecImpl<path::Error> for Error {
    open spec fn obeys_from_spec() -> bool {
        true
    }

    open spec fn from_spec(error: path::Error) -> Error {
        Error::Io
    }
}

impl From<path::Error> for Error {
    /// Reports a rejected path as an input / output error, whatever the
    /// reason for the rejection was.
    fn from(_error: path::Error) -> (error: Error)
        ensures
            error == Error::Io,
    {
        Error::Io
    }
}

/// Pairs the value that an engine call produced with its return code.
///
/// The value is handed on exactly when the code reports success. Otherwise
/// it is dropped and the translated code is the error, which is then never
/// `Success`.
pub fn result_from<T>(return_value: T, error_code: i32) -> (result: Result<T, Error>)
    ensures
        error_code >= 0 ==> result == Ok::<T, Error>(return_value),
        error_code < 0 ==> result == Err::<T, Error>(error_of_code(error_code)),
        result matches Err(error) ==> error != Error::Success,
{
    let error: Error = error_code.into();
    match error {
        Error::Success => Ok(return_value),
        _ => Err(error),
    }
}

/// A return code translates to `Success` exactly when it is zero or more.
pub proof fn lemma_success_iff_non_negative(code: i32)
    ensures
        error_of_code(code) == Error::Success <==> code >= 0,
{
}

/// Every failure code of the engine is negative, and a return code
/// translates to a named failure exactly when it is one of them.
pub proof fn lemma_named_iff_failure_code(code: i32)
    ensures
        is_failure_code(code) ==> code < 0,
        is_failure_code(code) <==> error_of_code(code) != Error::Success && !(error_of_code(
            code,
        ) is Unknown),
{
}

/// A negative return code that the engine does not define translates to
/// `Unknown` with that very code, and nothing else translates to `Unknown`.
pub proof fn lemma_unknown_iff_unrecognised(code: i32)
    ensures
        code < 0 && !is_failure_code(code) ==> error_of_code(code) == Error::Unknown(code),
        error_of_code(code) is Unknown ==> code < 0 && !is_failure_code(code),
{
}

/// `Unknown` holds the code it was made with, unchanged, over the whole
/// range of `i32`.
pub proof fn lemma_unknown_keeps_code(code: i32)
    ensures
        Error::Unknown(code)->0 == code,
        code_of(Error::Unknown(code)) == code,
{
}

/// Each error that a translation can give is the translation of its own
/// code. For the named failures this says that each code of the engine
/// translates to the variant named after it.
pub proof fn lemma_error_of_its_code(error: Error)
    requires
        is_translation(error),
    ensures
        error_of_code(code_of(error)) == error,
{
}

/// A failure keeps its return code through translation: the code of the
/// translated error is the code that went in. All successes share the code
/// zero.
pub proof fn lemma_code_of_its_error(code: i32)
    ensures
        is_translation(error_of_code(code)),
        code < 0 ==> code_of(error_of_code(code)) == code,
        code >= 0 ==> code_of(error_of_code(code)) == ll::LFS_ERR_OK,
{
}

} // verus!
