use ironrdp_web_drive::backend::{
    create_status_for, filter_listing, open_or_create_directory, query_volume_information_response,
    resolve_create_outcome, wasm_heap_bytes, CreateOutcomeError, CreatePlan, CreateStep, Reply,
    MAX_DRIVE_READ_BYTES,
};
use ironrdp_web_drive::entry::{FsEntry, FsError};
use ironrdp_web_drive::info::{
    attrs_for, build_dir_info, build_query_info, build_volume_info, entry_size_i64,
    nt_time_from_unix_ms, nt_times, DirInfoLevel, QueryInfo, VolumeInfo, TOTAL_ALLOC_UNITS,
    UNIX_TO_NT_EPOCH_OFFSET_MS,
};
use ironrdp_web_drive::protocol::{
    is_write_intent, nt_status_for, ACCESS_DENIED, FILE_ATTRIBUTE_DIRECTORY, FILE_ATTRIBUTE_NORMAL,
    FILE_BASIC_INFORMATION, FILE_BOTH_DIRECTORY_INFORMATION, FILE_CREATE, FILE_DIRECTORY_INFORMATION,
    FILE_FS_ATTRIBUTE_INFORMATION, FILE_FS_DEVICE_INFORMATION, FILE_FS_FULL_SIZE_INFORMATION,
    FILE_FS_SIZE_INFORMATION, FILE_FS_VOLUME_INFORMATION, FILE_FULL_DIRECTORY_INFORMATION,
    FILE_IS_A_DIRECTORY, FILE_NAMES_INFORMATION, FILE_OPEN, FILE_OPEN_IF,
    FILE_STANDARD_INFORMATION, NOT_SUPPORTED, NO_SUCH_FILE, SUCCESS, UNSUCCESSFUL,
};
use ironrdp_web_drive::wildcard::dos_wildcard_match;

fn file(name: &str, size: u64) -> FsEntry {
    FsEntry { name: name.to_string(), is_dir: false, size, last_modified_ms: 0 }
}

fn dir(name: &str) -> FsEntry {
    FsEntry { name: name.to_string(), is_dir: true, size: 0, last_modified_ms: 0 }
}

fn plan(is_directory: bool, must_not_be_directory: bool, creates_new: bool) -> CreatePlan {
    CreatePlan { is_directory, must_not_be_directory, write: false, creates_new, truncates: false, information: 1 }
}

#[test]
fn wildcard_star_matches_everything() {
    for name in ["", "a", "a.txt", "*", "name with spaces"] {
        assert!(dos_wildcard_match("*", name));
    }
}

#[test]
fn wildcard_question_mark_matches_exactly_one_char() {
    assert!(dos_wildcard_match("a?c", "abc"));
    assert!(!dos_wildcard_match("a?c", "ac"));
    assert!(!dos_wildcard_match("a?c", "abbc"));
}

#[test]
fn wildcard_is_case_insensitive_for_ascii() {
    assert!(dos_wildcard_match("*.TXT", "readme.txt"));
    assert!(dos_wildcard_match("ReadMe.txt", "README.TXT"));
    assert!(!dos_wildcard_match("É", "é"));
}

#[test]
fn wildcard_literal_pattern_needs_the_whole_name() {
    assert!(dos_wildcard_match("a.txt", "a.txt"));
    assert!(!dos_wildcard_match("a.txt", "a.txt.bak"));
    assert!(!dos_wildcard_match("a.txt", "b.txt"));
    assert!(!dos_wildcard_match("", "a"));
    assert!(dos_wildcard_match("", ""));
}

#[test]
fn wildcard_backtracks_over_earlier_stars() {
    assert!(dos_wildcard_match("*a*b", "xxaxxb"));
    assert!(dos_wildcard_match("*.tar.gz", "a.tar.tar.gz"));
    assert!(!dos_wildcard_match("*.tar.gz", "a.tar.gzip"));
    assert!(dos_wildcard_match("*a", "*ba"));
}

#[test]
fn nt_time_of_unix_epoch_is_the_epoch_offset() {
    assert_eq!(nt_time_from_unix_ms(0), UNIX_TO_NT_EPOCH_OFFSET_MS * 10_000);
    assert_eq!(nt_time_from_unix_ms(0), 116_444_736_000_000_000);
    assert_eq!(nt_time_from_unix_ms(1_000), 116_444_736_010_000_000);
}

#[test]
fn nt_time_saturates_at_the_extremes() {
    assert_eq!(nt_time_from_unix_ms(i64::MAX), i64::MAX);
    assert_eq!(nt_time_from_unix_ms(i64::MIN), i64::MIN);
    assert_eq!(nt_time_from_unix_ms(-UNIX_TO_NT_EPOCH_OFFSET_MS), 0);
}

#[test]
fn nt_times_repeat_the_single_timestamp() {
    let e = FsEntry { name: "x".to_string(), is_dir: false, size: 1, last_modified_ms: 1_000 };
    let t = 116_444_736_010_000_000;
    assert_eq!(nt_times(&e), (t, t, t, t));
}

#[test]
fn attributes_and_sizes() {
    assert_eq!(attrs_for(true), FILE_ATTRIBUTE_DIRECTORY);
    assert_eq!(attrs_for(false), FILE_ATTRIBUTE_NORMAL);
    assert_eq!(entry_size_i64(&file("a", 42)), 42);
    assert_eq!(entry_size_i64(&file("a", u64::MAX)), i64::MAX);
}

#[test]
fn query_info_classes() {
    let e = file("a", 11);
    let t = 116_444_736_000_000_000;
    assert_eq!(
        build_query_info(FILE_BASIC_INFORMATION, &e),
        Some(QueryInfo::Basic {
            creation_time: t,
            last_access_time: t,
            last_write_time: t,
            change_time: t,
            file_attributes: FILE_ATTRIBUTE_NORMAL,
        })
    );
    assert_eq!(
        build_query_info(FILE_STANDARD_INFORMATION, &e),
        Some(QueryInfo::Standard {
            allocation_size: 11,
            end_of_file: 11,
            number_of_links: 1,
            delete_pending: false,
            directory: false,
        })
    );
    assert_eq!(build_query_info(FILE_NAMES_INFORMATION, &e), None);
}

#[test]
fn dir_info_levels() {
    let e = dir("sub");
    assert_eq!(build_dir_info(FILE_BOTH_DIRECTORY_INFORMATION, &e).level, DirInfoLevel::Both);
    assert_eq!(build_dir_info(FILE_FULL_DIRECTORY_INFORMATION, &e).level, DirInfoLevel::Full);
    assert_eq!(build_dir_info(FILE_DIRECTORY_INFORMATION, &e).level, DirInfoLevel::Directory);
    let names = build_dir_info(FILE_NAMES_INFORMATION, &e);
    assert_eq!(names.level, DirInfoLevel::Names);
    assert_eq!(names.file_name, "sub");
    assert_eq!(names.file_attributes, FILE_ATTRIBUTE_DIRECTORY);
}

#[test]
fn volume_information_levels() {
    assert_eq!(
        build_volume_info(FILE_FS_SIZE_INFORMATION),
        Some(VolumeInfo::Size {
            total_alloc_units: TOTAL_ALLOC_UNITS,
            available_alloc_units: TOTAL_ALLOC_UNITS,
            sectors_per_alloc_unit: 8,
            bytes_per_sector: 512,
        })
    );
    assert_eq!(TOTAL_ALLOC_UNITS, i64::MAX / 4096);
    assert!(matches!(
        build_volume_info(FILE_FS_ATTRIBUTE_INFORMATION),
        Some(VolumeInfo::Attribute { ref file_system_name, max_component_name_len: 255, .. }) if file_system_name == "WEBSHARE"
    ));
    assert!(matches!(build_volume_info(FILE_FS_VOLUME_INFORMATION), Some(VolumeInfo::Volume { .. })));
    assert!(matches!(build_volume_info(FILE_FS_FULL_SIZE_INFORMATION), Some(VolumeInfo::FullSize { .. })));
    assert_eq!(
        build_volume_info(FILE_FS_DEVICE_INFORMATION),
        Some(VolumeInfo::Device { device_type: 7, characteristics: 0 })
    );
    assert_eq!(build_volume_info(2), None);
}

#[test]
fn query_volume_information_response_status() {
    assert!(matches!(
        query_volume_information_response(FILE_FS_SIZE_INFORMATION),
        Reply::QueryVolumeInformation { status: SUCCESS, buffer: Some(_) }
    ));
    assert_eq!(
        query_volume_information_response(99),
        Reply::QueryVolumeInformation { status: NOT_SUPPORTED, buffer: None }
    );
}

#[test]
fn statuses_of_filesystem_errors() {
    assert_eq!(nt_status_for(&FsError::NotFound), NO_SUCH_FILE);
    assert_eq!(nt_status_for(&FsError::AccessDenied), ACCESS_DENIED);
    assert_eq!(nt_status_for(&FsError::Other("x".to_string())), UNSUCCESSFUL);
    assert_eq!(create_status_for(&CreateOutcomeError::IsADirectory), FILE_IS_A_DIRECTORY);
    assert_eq!(create_status_for(&CreateOutcomeError::Fs(FsError::NotFound)), NO_SUCH_FILE);
}

#[test]
fn write_intent_from_access_or_disposition() {
    assert!(!is_write_intent(0x1, FILE_OPEN));
    assert!(is_write_intent(0x2, FILE_OPEN));
    assert!(is_write_intent(0x1, FILE_CREATE));
    assert!(is_write_intent(0, FILE_OPEN_IF));
    assert!(is_write_intent(0x0001_0000, FILE_OPEN));
    assert!(!is_write_intent(0x0000_0080, FILE_OPEN));
}

#[test]
fn directory_create_outcomes() {
    assert_eq!(
        open_or_create_directory(false, Ok(dir("d"))),
        CreateStep::Opened { fs_handle: None, is_dir: true }
    );
    assert!(matches!(
        open_or_create_directory(false, Ok(file("f", 1))),
        CreateStep::Failed(CreateOutcomeError::Fs(FsError::Other(_)))
    ));
    assert_eq!(open_or_create_directory(true, Err(FsError::NotFound)), CreateStep::Mkdir);
    assert_eq!(
        open_or_create_directory(false, Err(FsError::NotFound)),
        CreateStep::Failed(CreateOutcomeError::Fs(FsError::NotFound))
    );
    assert_eq!(
        open_or_create_directory(true, Err(FsError::AccessDenied)),
        CreateStep::Failed(CreateOutcomeError::Fs(FsError::AccessDenied))
    );
}

#[test]
fn file_create_outcomes() {
    assert_eq!(resolve_create_outcome(&plan(false, false, false), Ok(file("f", 1))), CreateStep::OpenFile);
    assert_eq!(resolve_create_outcome(&plan(false, false, false), Err(FsError::NotFound)), CreateStep::OpenFile);
    assert_eq!(
        resolve_create_outcome(&plan(false, false, false), Ok(dir("d"))),
        CreateStep::Opened { fs_handle: None, is_dir: true }
    );
    assert_eq!(
        resolve_create_outcome(&plan(false, true, false), Ok(dir("d"))),
        CreateStep::Failed(CreateOutcomeError::IsADirectory)
    );
    assert_eq!(resolve_create_outcome(&plan(true, false, true), Err(FsError::NotFound)), CreateStep::Mkdir);
    assert_eq!(
        resolve_create_outcome(&plan(false, false, true), Err(FsError::AccessDenied)),
        CreateStep::Failed(CreateOutcomeError::Fs(FsError::AccessDenied))
    );
}

#[test]
fn listing_filter_keeps_matches_in_order() {
    let listing = vec![file("b.txt", 1), file("a.log", 2), file("C.TXT", 3), dir("sub")];
    let kept = filter_listing(listing.clone(), &Some("*.txt".to_string()));
    assert_eq!(kept, vec![file("b.txt", 1), file("C.TXT", 3)]);
    assert_eq!(filter_listing(listing.clone(), &None), listing);
    assert!(filter_listing(listing, &Some("none".to_string())).is_empty());
}

#[test]
fn read_ceiling_and_heap_diagnostic() {
    assert_eq!(MAX_DRIVE_READ_BYTES, 1024 * 1024);
    assert_eq!(wasm_heap_bytes(), 0);
}

#[test]
fn create_failures_carry_their_error() {
    assert_eq!(
        resolve_create_outcome(&plan(true, false, false), Ok(file("f", 1))),
        CreateStep::Failed(CreateOutcomeError::Fs(FsError::Other("path exists and is not a directory".to_string())))
    );
    assert_eq!(
        resolve_create_outcome(&plan(false, false, false), Err(FsError::Other("boom".to_string()))),
        CreateStep::Failed(CreateOutcomeError::Fs(FsError::Other("boom".to_string())))
    );
}
