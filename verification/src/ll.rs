//! Return codes of the storage engine.
//!
//! Every engine operation returns an `i32`. A value of zero or more reports
//! success; the negative values below each name one way of failing.

use vstd::prelude::*;

verus! {

/// The operation completed.
pub const LFS_ERR_OK: i32 = 0;

/// Error during a device operation.
pub const LFS_ERR_IO: i32 = -5;

/// On-medium data is corrupted.
pub const LFS_ERR_CORRUPT: i32 = -84;

/// No directory entry of that name.
pub const LFS_ERR_NOENT: i32 = -2;

/// The entry already exists.
pub const LFS_ERR_EXIST: i32 = -17;

/// The entry is not a directory.
pub const LFS_ERR_NOTDIR: i32 = -20;

/// The entry is a directory.
pub const LFS_ERR_ISDIR: i32 = -21;

/// The directory is not empty.
pub const LFS_ERR_NOTEMPTY: i32 = -39;

/// Bad file number.
pub const LFS_ERR_BADF: i32 = -9;

/// The file is too large.
pub const LFS_ERR_FBIG: i32 = -27;

/// Invalid parameter.
pub const LFS_ERR_INVAL: i32 = -22;

/// No space left on the device.
pub const LFS_ERR_NOSPC: i32 = -28;

/// No more memory available.
pub const LFS_ERR_NOMEM: i32 = -12;

/// No data or attribute available.
pub const LFS_ERR_NOATTR: i32 = -61;

/// The file name is too long.
pub const LFS_ERR_NAMETOOLONG: i32 = -36;

} // verus!
