//! Wire values of the RDPDR drive-redirection protocol ([MS-RDPEFS]) and the
//! NT status codes ([MS-ERREF]) this library decides between.

use vstd::prelude::*;

use crate::entry::FsError;

verus! {

/// `STATUS_SUCCESS`.
pub const SUCCESS: u32 = 0x0000_0000;
/// `STATUS_UNSUCCESSFUL`.
pub const UNSUCCESSFUL: u32 = 0xC000_0001;
/// `STATUS_NO_MORE_FILES`: a continued directory query has seen every entry.
pub const NO_MORE_FILES: u32 = 0x8000_0006;
/// `STATUS_INVALID_HANDLE`: the IRP names a `file_id` that isn't open.
pub const INVALID_HANDLE: u32 = 0xC000_0008;
/// `STATUS_INVALID_PARAMETER`: the IRP carries a value outside its range.
pub const INVALID_PARAMETER: u32 = 0xC000_000D;
/// `STATUS_NO_SUCH_FILE`.
pub const NO_SUCH_FILE: u32 = 0xC000_000F;
/// `STATUS_ACCESS_DENIED`.
pub const ACCESS_DENIED: u32 = 0xC000_0022;
/// `STATUS_FILE_IS_A_DIRECTORY`.
pub const FILE_IS_A_DIRECTORY: u32 = 0xC000_00BA;
/// `STATUS_NOT_SUPPORTED`.
pub const NOT_SUPPORTED: u32 = 0xC000_00BB;

/// `DesiredAccess` bits that can modify a file or directory:
/// `FILE_WRITE_DATA`, `FILE_APPEND_DATA`, `FILE_WRITE_EA`,
/// `FILE_WRITE_ATTRIBUTES`, `DELETE`, `GENERIC_WRITE` and `GENERIC_ALL`.
pub const WRITE_ACCESS_BITS: u32 = 0x5001_0116;

/// `CreateDisposition::FILE_SUPERSEDE`.
pub const FILE_SUPERSEDE: u32 = 0;
/// `CreateDisposition::FILE_OPEN`: open an existing entry, never create one.
pub const FILE_OPEN: u32 = 1;
/// `CreateDisposition::FILE_CREATE`.
pub const FILE_CREATE: u32 = 2;
/// `CreateDisposition::FILE_OPEN_IF`.
pub const FILE_OPEN_IF: u32 = 3;
/// `CreateDisposition::FILE_OVERWRITE`.
pub const FILE_OVERWRITE: u32 = 4;
/// `CreateDisposition::FILE_OVERWRITE_IF`.
pub const FILE_OVERWRITE_IF: u32 = 5;

/// `CreateOptions::FILE_DIRECTORY_FILE`.
pub const FILE_DIRECTORY_FILE: u32 = 0x0000_0001;
/// `CreateOptions::FILE_NON_DIRECTORY_FILE`.
pub const FILE_NON_DIRECTORY_FILE: u32 = 0x0000_0040;

/// The `Information` of a `DeviceCreateResponse` that failed.
pub const INFORMATION_NONE: u8 = 0;
/// `Information::FILE_OPENED`.
pub const FILE_OPENED: u8 = 1;
/// `Information::FILE_CREATED`.
pub const FILE_CREATED: u8 = 2;

/// `FILE_ATTRIBUTE_DIRECTORY`.
pub const FILE_ATTRIBUTE_DIRECTORY: u32 = 0x0000_0010;
/// `FILE_ATTRIBUTE_NORMAL`.
pub const FILE_ATTRIBUTE_NORMAL: u32 = 0x0000_0080;

/// `FileInformationClass` levels.
pub const FILE_DIRECTORY_INFORMATION: u32 = 1;
pub const FILE_FULL_DIRECTORY_INFORMATION: u32 = 2;
pub const FILE_BOTH_DIRECTORY_INFORMATION: u32 = 3;
pub const FILE_BASIC_INFORMATION: u32 = 4;
pub const FILE_STANDARD_INFORMATION: u32 = 5;
pub const FILE_NAMES_INFORMATION: u32 = 12;
pub const FILE_ATTRIBUTE_TAG_INFORMATION: u32 = 35;

/// `FileSystemInformationClass` levels.
pub const FILE_FS_VOLUME_INFORMATION: u32 = 1;
pub const FILE_FS_SIZE_INFORMATION: u32 = 3;
pub const FILE_FS_DEVICE_INFORMATION: u32 = 4;
pub const FILE_FS_ATTRIBUTE_INFORMATION: u32 = 5;
pub const FILE_FS_FULL_SIZE_INFORMATION: u32 = 7;

/// `FILE_UNICODE_ON_DISK | FILE_CASE_PRESERVED_NAMES`.
pub const SHARE_FILE_SYSTEM_ATTRIBUTES: u32 = 0x0000_0006;
/// `FILE_DEVICE_DISK` ([MS-FSCC] 2.5.10).
pub const FILE_DEVICE_DISK: u32 = 0x0000_0007;

/// The status a filesystem failure is reported with.
pub open spec fn status_for(err: FsError) -> u32 {
    match err {
        FsError::NotFound => NO_SUCH_FILE,
        FsError::AccessDenied => ACCESS_DENIED,
        FsError::Other(_) => UNSUCCESSFUL,
    }
}

/// Maps a filesystem failure to the NT status reported to the server.
pub fn nt_status_for(err: &FsError) -> (status: u32)
    ensures
        status == status_for(*err),
{
    match err {
        FsError::NotFound => NO_SUCH_FILE,
        FsError::AccessDenied => ACCESS_DENIED,
        FsError::Other(_) => UNSUCCESSFUL,
    }
}

/// Whether a `Create` IRP asks to modify: a write-capable `DesiredAccess`
/// bit, or a `CreateDisposition` that can create or overwrite (anything other
/// than `FILE_OPEN`).
pub open spec fn write_intent(desired_access: u32, create_disposition: u32) -> bool {
    (desired_access & WRITE_ACCESS_BITS) != 0 || create_disposition != FILE_OPEN
}

/// Executable form of [`write_intent`].
pub fn is_write_intent(desired_access: u32, create_disposition: u32) -> (b: bool)
    ensures
        b == write_intent(desired_access, create_disposition),
{
    (desired_access & WRITE_ACCESS_BITS) != 0 || create_disposition != FILE_OPEN
}

} // verus!
