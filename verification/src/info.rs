//! The information buffers a drive answers `QueryInformation`,
//! `QueryDirectory` and `QueryVolumeInformation` with.

use vstd::prelude::*;

use crate::entry::FsEntry;
use crate::protocol::{
    FILE_ATTRIBUTE_DIRECTORY, FILE_ATTRIBUTE_NORMAL, FILE_ATTRIBUTE_TAG_INFORMATION,
    FILE_BASIC_INFORMATION, FILE_BOTH_DIRECTORY_INFORMATION, FILE_DEVICE_DISK,
    FILE_DIRECTORY_INFORMATION, FILE_FS_ATTRIBUTE_INFORMATION, FILE_FS_DEVICE_INFORMATION,
    FILE_FS_FULL_SIZE_INFORMATION, FILE_FS_SIZE_INFORMATION, FILE_FS_VOLUME_INFORMATION,
    FILE_FULL_DIRECTORY_INFORMATION, FILE_STANDARD_INFORMATION, SHARE_FILE_SYSTEM_ATTRIBUTES,
};

verus! {

/// Milliseconds between the NT epoch (1601-01-01) and the Unix epoch
/// (1970-01-01).
pub const UNIX_TO_NT_EPOCH_OFFSET_MS: i64 = 11_644_473_600_000;

/// `x` clamped into the range of `i64`.
pub open spec fn clamp_i64(x: int) -> i64 {
    if x > i64::MAX {
        i64::MAX
    } else if x < i64::MIN {
        i64::MIN
    } else {
        x as i64
    }
}

/// An NT time (100 ns intervals since 1601-01-01) for a Unix millisecond
/// timestamp, saturating at each step.
pub open spec fn nt_time(unix_ms: i64) -> i64 {
    clamp_i64(clamp_i64(unix_ms + UNIX_TO_NT_EPOCH_OFFSET_MS) * 10_000)
}

fn saturating_add_i64(a: i64, b: i64) -> (r: i64)
    ensures
        r == clamp_i64(a + b),
{
    match a.checked_add(b) {
        Some(v) => v,
        None => if a > 0 {
            i64::MAX
        } else {
            i64::MIN
        },
    }
}

fn saturating_mul_i64(a: i64, b: i64) -> (r: i64)
    requires
        b > 0,
    ensures
        r == clamp_i64(a * b),
{
    match a.checked_mul(b) {
        Some(v) => v,
        None => {
            if a > 0 {
                assert(a * b > 0) by (nonlinear_arith)
                    requires
                        a > 0,
                        b > 0,
                ;
                i64::MAX
            } else {
                assert(a * b <= 0) by (nonlinear_arith)
                    requires
                        a <= 0,
                        b > 0,
                ;
                i64::MIN
            }
        },
    }
}

/// Converts a Unix-epoch millisecond timestamp into an NT time.
pub fn nt_time_from_unix_ms(unix_ms: i64) -> (t: i64)
    ensures
        t == nt_time(unix_ms),
        i64::MIN <= (unix_ms + 11_644_473_600_000) * 10_000 <= i64::MAX ==> t == (unix_ms
            + 11_644_473_600_000) * 10_000,
{
    saturating_mul_i64(saturating_add_i64(unix_ms, UNIX_TO_NT_EPOCH_OFFSET_MS), 10_000)
}

/// The four NT times (creation, access, write, change) reported for an
/// entry: all the same, since an entry carries one timestamp.
pub fn nt_times(entry: &FsEntry) -> (times: (i64, i64, i64, i64))
    ensures
        times == (
            nt_time(entry.last_modified_ms),
            nt_time(entry.last_modified_ms),
            nt_time(entry.last_modified_ms),
            nt_time(entry.last_modified_ms),
        ),
{
    let t = nt_time_from_unix_ms(entry.last_modified_ms);
    (t, t, t, t)
}

/// The file attributes of a directory or a plain file.
pub open spec fn attrs(is_dir: bool) -> u32 {
    if is_dir {
        FILE_ATTRIBUTE_DIRECTORY
    } else {
        FILE_ATTRIBUTE_NORMAL
    }
}

/// Executable form of [`attrs`].
pub fn attrs_for(is_dir: bool) -> (a: u32)
    ensures
        a == attrs(is_dir),
{
    if is_dir {
        FILE_ATTRIBUTE_DIRECTORY
    } else {
        FILE_ATTRIBUTE_NORMAL
    }
}

/// A byte count as a signed 64-bit integer: the count itself, or
/// `i64::MAX` for a count beyond it.
pub open spec fn saturated_size(size: u64) -> int {
    if size > i64::MAX {
        i64::MAX as int
    } else {
        size as int
    }
}

/// An entry's size as the signed 64-bit field the wire carries, saturating
/// at `i64::MAX`.
pub open spec fn size_i64(entry: FsEntry) -> i64 {
    if entry.size <= i64::MAX {
        entry.size as i64
    } else {
        i64::MAX
    }
}

/// Executable form of [`size_i64`].
pub fn entry_size_i64(entry: &FsEntry) -> (s: i64)
    ensures
        s == size_i64(*entry),
{
    if entry.size <= i64::MAX as u64 {
        entry.size as i64
    } else {
        i64::MAX
    }
}

/// A `QueryInformation` answer, in one of the three classes a drive supports.
#[derive(Debug, Clone, PartialEq, Eq)]
pub enum QueryInfo {
    Basic {
        creation_time: i64,
        last_access_time: i64,
        last_write_time: i64,
        change_time: i64,
        file_attributes: u32,
    },
    Standard {
        allocation_size: i64,
        end_of_file: i64,
        number_of_links: u32,
        delete_pending: bool,
        directory: bool,
    },
    AttributeTag { file_attributes: u32, reparse_tag: u32 },
}

/// The `QueryInformation` answer for `entry` at class `class_lvl`; `None`
/// for a class the drive does not support.
pub open spec fn query_info(class_lvl: u32, entry: FsEntry) -> Option<QueryInfo> {
    let t = nt_time(entry.last_modified_ms);
    if class_lvl == FILE_BASIC_INFORMATION {
        Some(
            QueryInfo::Basic {
                creation_time: t,
                last_access_time: t,
                last_write_time: t,
                change_time: t,
                file_attributes: attrs(entry.is_dir),
            },
        )
    } else if class_lvl == FILE_STANDARD_INFORMATION {
        Some(
            QueryInfo::Standard {
                allocation_size: size_i64(entry),
                end_of_file: size_i64(entry),
                number_of_links: 1,
                delete_pending: false,
                directory: entry.is_dir,
            },
        )
    } else if class_lvl == FILE_ATTRIBUTE_TAG_INFORMATION {
        Some(QueryInfo::AttributeTag { file_attributes: attrs(entry.is_dir), reparse_tag: 0 })
    } else {
        None
    }
}

/// Builds the `QueryInformation` buffer for the classes a drive supports
/// (Basic, Standard and AttributeTag — the three a Windows copy queries).
/// Reparse points are never exposed, so the reparse tag is always 0.
pub fn build_query_info(class_lvl: u32, entry: &FsEntry) -> (r: Option<QueryInfo>)
    ensures
        r == query_info(class_lvl, *entry),
        class_lvl == FILE_STANDARD_INFORMATION ==> (r matches Some(
            QueryInfo::Standard {
                allocation_size,
                end_of_file,
                number_of_links,
                delete_pending,
                directory,
            },
        ) && directory == entry.is_dir && end_of_file == saturated_size(entry.size)
            && allocation_size == end_of_file && number_of_links == 1 && !delete_pending),
        class_lvl == FILE_BASIC_INFORMATION ==> (r matches Some(
            QueryInfo::Basic { file_attributes, .. },
        ) && file_attributes == (if entry.is_dir {
            FILE_ATTRIBUTE_DIRECTORY
        } else {
            FILE_ATTRIBUTE_NORMAL
        })),
        class_lvl == FILE_ATTRIBUTE_TAG_INFORMATION ==> (r matches Some(
            QueryInfo::AttributeTag { file_attributes, reparse_tag },
        ) && reparse_tag == 0 && file_attributes == (if entry.is_dir {
            FILE_ATTRIBUTE_DIRECTORY
        } else {
            FILE_ATTRIBUTE_NORMAL
        })),
{
    if class_lvl == FILE_BASIC_INFORMATION {
        let (creation_time, last_access_time, last_write_time, change_time) = nt_times(entry);
        Some(
            QueryInfo::Basic {
                creation_time,
                last_access_time,
                last_write_time,
                change_time,
                file_attributes: attrs_for(entry.is_dir),
            },
        )
    } else if class_lvl == FILE_STANDARD_INFORMATION {
        let size = entry_size_i64(entry);
        Some(
            QueryInfo::Standard {
                allocation_size: size,
                end_of_file: size,
                number_of_links: 1,
                delete_pending: false,
                directory: entry.is_dir,
            },
        )
    } else if class_lvl == FILE_ATTRIBUTE_TAG_INFORMATION {
        Some(QueryInfo::AttributeTag { file_attributes: attrs_for(entry.is_dir), reparse_tag: 0 })
    } else {
        None
    }
}

/// The four directory-listing levels a `QueryDirectory` can ask for.
#[derive(Debug, Clone, Copy, PartialEq, Eq)]
pub enum DirInfoLevel {
    Both,
    Full,
    Directory,
    Names,
}

/// One directory-listing entry. The `Names` level carries only the name.
#[derive(Debug, Clone, PartialEq, Eq)]
pub struct DirInfo {
    pub level: DirInfoLevel,
    pub creation_time: i64,
    pub last_access_time: i64,
    pub last_write_time: i64,
    pub change_time: i64,
    pub end_of_file: i64,
    pub file_attributes: u32,
    pub file_name: String,
}

/// The listing level named by `class_lvl`; any level other than Both, Full
/// and Directory is answered at the Names level (the only other level a
/// decoded `QueryDirectory` can carry).
pub open spec fn dir_level(class_lvl: u32) -> DirInfoLevel {
    if class_lvl == FILE_BOTH_DIRECTORY_INFORMATION {
        DirInfoLevel::Both
    } else if class_lvl == FILE_FULL_DIRECTORY_INFORMATION {
        DirInfoLevel::Full
    } else if class_lvl == FILE_DIRECTORY_INFORMATION {
        DirInfoLevel::Directory
    } else {
        DirInfoLevel::Names
    }
}

/// The directory-listing entry for `entry` at `class_lvl`.
pub open spec fn dir_info(class_lvl: u32, entry: FsEntry) -> DirInfo {
    let t = nt_time(entry.last_modified_ms);
    DirInfo {
        level: dir_level(class_lvl),
        creation_time: t,
        last_access_time: t,
        last_write_time: t,
        change_time: t,
        end_of_file: size_i64(entry),
        file_attributes: attrs(entry.is_dir),
        file_name: entry.name,
    }
}

/// Builds a directory-listing entry at whichever level the server asked for.
pub fn build_dir_info(class_lvl: u32, entry: &FsEntry) -> (r: DirInfo)
    ensures
        r == dir_info(class_lvl, *entry),
        r.end_of_file == saturated_size(entry.size),
        r.file_name@ == entry.name@,
        r.file_attributes == (if entry.is_dir {
            FILE_ATTRIBUTE_DIRECTORY
        } else {
            FILE_ATTRIBUTE_NORMAL
        }),
{
    let (creation_time, last_access_time, last_write_time, change_time) = nt_times(entry);
    let level = if class_lvl == FILE_BOTH_DIRECTORY_INFORMATION {
        DirInfoLevel::Both
    } else if class_lvl == FILE_FULL_DIRECTORY_INFORMATION {
        DirInfoLevel::Full
    } else if class_lvl == FILE_DIRECTORY_INFORMATION {
        DirInfoLevel::Directory
    } else {
        DirInfoLevel::Names
    };
    DirInfo {
        level,
        creation_time,
        last_access_time,
        last_write_time,
        change_time,
        end_of_file: entry_size_i64(entry),
        file_attributes: attrs_for(entry.is_dir),
        file_name: entry.name.clone(),
    }
}

/// Bytes per sector of the reported volume.
pub const BYTES_PER_SECTOR: u32 = 512;
/// Sectors per allocation unit of the reported volume (4 KiB clusters).
pub const SECTORS_PER_ALLOC_UNIT: u32 = 8;
/// Total (and free) allocation units of the reported volume: `i64::MAX / 4096`.
pub const TOTAL_ALLOC_UNITS: i64 = 2_251_799_813_685_247;
/// Serial number of the reported volume.
pub const VOLUME_SERIAL_NUMBER: u32 = 0x0001_0000;
/// Longest file-name component the reported file system accepts.
pub const MAX_COMPONENT_NAME_LEN: u32 = 255;

/// A `QueryVolumeInformation` answer. The volume is a large fixed fake one:
/// a browser share has no free-space primitive, and refusing writes for an
/// apparent lack of space would be worse.
#[derive(Debug, Clone, PartialEq, Eq)]
pub enum VolumeInfo {
    Volume { volume_creation_time: i64, volume_serial_number: u32, supports_objects: bool, volume_label: String },
    Size { total_alloc_units: i64, available_alloc_units: i64, sectors_per_alloc_unit: u32, bytes_per_sector: u32 },
    FullSize {
        total_alloc_units: i64,
        caller_available_alloc_units: i64,
        actual_available_alloc_units: i64,
        sectors_per_alloc_unit: u32,
        bytes_per_sector: u32,
    },
    Attribute { file_system_attributes: u32, max_component_name_len: u32, file_system_name: String },
    Device { device_type: u32, characteristics: u32 },
}

/// Whether `r` is the `QueryVolumeInformation` answer for `fs_info_class_lvl`.
pub open spec fn volume_info_for(fs_info_class_lvl: u32, r: Option<VolumeInfo>) -> bool {
    &&& fs_info_class_lvl == FILE_FS_VOLUME_INFORMATION ==> (r matches Some(
            VolumeInfo::Volume { volume_creation_time, volume_serial_number, supports_objects, volume_label },
        ) && volume_creation_time == 0 && volume_serial_number == VOLUME_SERIAL_NUMBER
            && !supports_objects && volume_label@.len() == 0)
    &&& fs_info_class_lvl == FILE_FS_SIZE_INFORMATION ==> r == Some(
            VolumeInfo::Size {
                total_alloc_units: TOTAL_ALLOC_UNITS,
                available_alloc_units: TOTAL_ALLOC_UNITS,
                sectors_per_alloc_unit: SECTORS_PER_ALLOC_UNIT,
                bytes_per_sector: BYTES_PER_SECTOR,
            },
        )
    &&& fs_info_class_lvl == FILE_FS_FULL_SIZE_INFORMATION ==> r == Some(
            VolumeInfo::FullSize {
                total_alloc_units: TOTAL_ALLOC_UNITS,
                caller_available_alloc_units: TOTAL_ALLOC_UNITS,
                actual_available_alloc_units: TOTAL_ALLOC_UNITS,
                sectors_per_alloc_unit: SECTORS_PER_ALLOC_UNIT,
                bytes_per_sector: BYTES_PER_SECTOR,
            },
        )
    &&& fs_info_class_lvl == FILE_FS_ATTRIBUTE_INFORMATION ==> (r matches Some(
            VolumeInfo::Attribute { file_system_attributes, max_component_name_len, file_system_name },
        ) && file_system_attributes == SHARE_FILE_SYSTEM_ATTRIBUTES && max_component_name_len
            == MAX_COMPONENT_NAME_LEN && file_system_name@ == "WEBSHARE"@)
    &&& fs_info_class_lvl == FILE_FS_DEVICE_INFORMATION ==> r == Some(
            VolumeInfo::Device { device_type: FILE_DEVICE_DISK, characteristics: 0 },
        )
    &&& r is Some <==> (fs_info_class_lvl == FILE_FS_VOLUME_INFORMATION || fs_info_class_lvl
            == FILE_FS_SIZE_INFORMATION || fs_info_class_lvl == FILE_FS_FULL_SIZE_INFORMATION
            || fs_info_class_lvl == FILE_FS_ATTRIBUTE_INFORMATION || fs_info_class_lvl
            == FILE_FS_DEVICE_INFORMATION)
}

/// Builds the `QueryVolumeInformation` answer for the five levels a drive
/// supports; `None` for any other level.
pub fn build_volume_info(fs_info_class_lvl: u32) -> (r: Option<VolumeInfo>)
    ensures
        volume_info_for(fs_info_class_lvl, r),
{
    if fs_info_class_lvl == FILE_FS_VOLUME_INFORMATION {
        Some(
            VolumeInfo::Volume {
                volume_creation_time: 0,
                volume_serial_number: VOLUME_SERIAL_NUMBER,
                supports_objects: false,
                volume_label: String::new(),
            },
        )
    } else if fs_info_class_lvl == FILE_FS_SIZE_INFORMATION {
        Some(
            VolumeInfo::Size {
                total_alloc_units: TOTAL_ALLOC_UNITS,
                available_alloc_units: TOTAL_ALLOC_UNITS,
                sectors_per_alloc_unit: SECTORS_PER_ALLOC_UNIT,
                bytes_per_sector: BYTES_PER_SECTOR,
            },
        )
    } else if fs_info_class_lvl == FILE_FS_FULL_SIZE_INFORMATION {
        Some(
            VolumeInfo::FullSize {
                total_alloc_units: TOTAL_ALLOC_UNITS,
                caller_available_alloc_units: TOTAL_ALLOC_UNITS,
                actual_available_alloc_units: TOTAL_ALLOC_UNITS,
                sectors_per_alloc_unit: SECTORS_PER_ALLOC_UNIT,
                bytes_per_sector: BYTES_PER_SECTOR,
            },
        )
    } else if fs_info_class_lvl == FILE_FS_ATTRIBUTE_INFORMATION {
        Some(
            VolumeInfo::Attribute {
                file_system_attributes: SHARE_FILE_SYSTEM_ATTRIBUTES,
                max_component_name_len: MAX_COMPONENT_NAME_LEN,
                file_system_name: "WEBSHARE".to_owned(),
            },
        )
    } else if fs_info_class_lvl == FILE_FS_DEVICE_INFORMATION {
        Some(VolumeInfo::Device { device_type: FILE_DEVICE_DISK, characteristics: 0 })
    } else {
        None
    }
}

/// What the Standard information says of an entry: it is a directory exactly
/// when the entry is one, its end of file and allocation size are the
/// entry's size (saturated at `i64::MAX`), it has one link and no pending
/// delete. The Basic and AttributeTag classes give the directory or normal
/// attribute by the same test, and the tag is never a reparse tag.
pub proof fn lemma_query_info_describes_the_entry(entry: FsEntry)
    ensures
        query_info(FILE_STANDARD_INFORMATION, entry) matches Some(
            QueryInfo::Standard {
                allocation_size,
                end_of_file,
                number_of_links,
                delete_pending,
                directory,
            },
        ) && directory == entry.is_dir && end_of_file == saturated_size(entry.size)
            && allocation_size == end_of_file && number_of_links == 1 && !delete_pending,
        query_info(FILE_BASIC_INFORMATION, entry) matches Some(
            QueryInfo::Basic { file_attributes, .. },
        ) && (file_attributes == FILE_ATTRIBUTE_DIRECTORY <==> entry.is_dir)
            && (file_attributes == FILE_ATTRIBUTE_NORMAL <==> !entry.is_dir),
        query_info(FILE_ATTRIBUTE_TAG_INFORMATION, entry) matches Some(
            QueryInfo::AttributeTag { file_attributes, reparse_tag },
        ) && reparse_tag == 0 && (file_attributes == FILE_ATTRIBUTE_DIRECTORY <==> entry.is_dir)
            && (file_attributes == FILE_ATTRIBUTE_NORMAL <==> !entry.is_dir),
{
}

/// Every directory-listing entry, at every level, reports the listed
/// entry's name, its size (saturated at `i64::MAX`) as end of file, and the
/// directory attribute exactly when the entry is a directory; and it agrees
/// with the Standard information of the same entry on size and on being a
/// directory.
pub proof fn lemma_dir_info_describes_the_entry(class_lvl: u32, entry: FsEntry)
    ensures
        dir_info(class_lvl, entry).end_of_file == saturated_size(entry.size),
        dir_info(class_lvl, entry).file_name == entry.name,
        dir_info(class_lvl, entry).file_attributes == FILE_ATTRIBUTE_DIRECTORY <==> entry.is_dir,
        dir_info(class_lvl, entry).file_attributes == FILE_ATTRIBUTE_NORMAL <==> !entry.is_dir,
        query_info(FILE_STANDARD_INFORMATION, entry) matches Some(
            QueryInfo::Standard { end_of_file, directory, .. },
        ) && end_of_file == dir_info(class_lvl, entry).end_of_file && (directory <==> (
        dir_info(class_lvl, entry).file_attributes == FILE_ATTRIBUTE_DIRECTORY)),
{
}

/// An NT time counts 100 ns intervals from 1601-01-01: wherever it does not
/// saturate, it is the Unix millisecond timestamp shifted by the epochs'
/// distance and scaled by ten thousand; and later timestamps never give
/// earlier NT times.
pub proof fn lemma_nt_time_counts_from_1601(a: i64, b: i64)
    ensures
        i64::MIN <= (a + 11_644_473_600_000) * 10_000 <= i64::MAX ==> nt_time(a) == (a
            + 11_644_473_600_000) * 10_000,
        a <= b ==> nt_time(a) <= nt_time(b),
{
}

} // verus!
