use std::collections::{BTreeMap, HashMap};

use ironrdp_web_drive::backend::{
    CreateRequest, Dispatch, DriveRequest, FsOp, FsResult, Reply, SetInformation, Step, Task,
    WasmDriveBackend,
};
use ironrdp_web_drive::entry::{FsEntry, FsError};
use ironrdp_web_drive::info::{DirInfo, QueryInfo};
use ironrdp_web_drive::path::normalize_path;
use ironrdp_web_drive::protocol::{
    INVALID_PARAMETER, ACCESS_DENIED, FILE_ATTRIBUTE_DIRECTORY, FILE_ATTRIBUTE_NORMAL, FILE_ATTRIBUTE_TAG_INFORMATION,
    FILE_BASIC_INFORMATION, FILE_CREATE, FILE_DIRECTORY_FILE, FILE_IS_A_DIRECTORY,
    FILE_NAMES_INFORMATION, FILE_NON_DIRECTORY_FILE, FILE_OPEN, FILE_STANDARD_INFORMATION,
    INVALID_HANDLE, NOT_SUPPORTED, NO_MORE_FILES, NO_SUCH_FILE, SUCCESS,
};

const FILE_READ_DATA: u32 = 0x0000_0001;
const FILE_WRITE_DATA: u32 = 0x0000_0002;

#[derive(Debug, Clone)]
enum Node {
    File(Vec<u8>),
    Dir(BTreeMap<String, Node>),
}

struct OpenHandle {
    components: Vec<String>,
    write: bool,
}

/// In-memory filesystem that carries out the operations the backend names.
struct MockFs {
    root: Node,
    handles: HashMap<u32, OpenHandle>,
    next_handle: u32,
}

impl MockFs {
    fn new() -> Self {
        MockFs { root: Node::Dir(BTreeMap::new()), handles: HashMap::new(), next_handle: 1 }
    }

    fn make_path_mut<'a>(root: &'a mut Node, components: &[String]) -> &'a mut Node {
        let mut current = root;
        for component in components {
            let Node::Dir(children) = current else {
                panic!("path component traverses through a file");
            };
            current = children.entry(component.clone()).or_insert_with(|| Node::Dir(BTreeMap::new()));
        }
        current
    }

    fn find<'a>(root: &'a Node, components: &[String]) -> Option<&'a Node> {
        let mut current = root;
        for component in components {
            match current {
                Node::Dir(children) => current = children.get(component)?,
                Node::File(_) => return None,
            }
        }
        Some(current)
    }

    fn parent_children_mut<'a>(
        root: &'a mut Node,
        components: &'a [String],
    ) -> Result<(&'a mut BTreeMap<String, Node>, &'a str), FsError> {
        let (name, parent_components) = components.split_last().ok_or(FsError::AccessDenied)?;
        let mut current = root;
        for component in parent_components {
            match current {
                Node::Dir(children) => current = children.get_mut(component).ok_or(FsError::NotFound)?,
                Node::File(_) => return Err(FsError::NotFound),
            }
        }
        match current {
            Node::Dir(children) => Ok((children, name.as_str())),
            Node::File(_) => Err(FsError::NotFound),
        }
    }

    fn to_entry(name: String, node: &Node) -> FsEntry {
        match node {
            Node::Dir(_) => FsEntry { name, is_dir: true, size: 0, last_modified_ms: 0 },
            Node::File(data) => FsEntry { name, is_dir: false, size: data.len() as u64, last_modified_ms: 0 },
        }
    }

    fn seed_file(&mut self, path: &str, contents: &[u8]) {
        let components = normalize_path(path).expect("test fixture path must normalize");
        *Self::make_path_mut(&mut self.root, &components) = Node::File(contents.to_vec());
    }

    fn seed_dir(&mut self, path: &str) {
        let components = normalize_path(path).expect("test fixture path must normalize");
        let _ = Self::make_path_mut(&mut self.root, &components);
    }

    fn stat(&self, path: &str) -> Result<FsEntry, FsError> {
        let components = normalize_path(path)?;
        let node = Self::find(&self.root, &components).ok_or(FsError::NotFound)?;
        Ok(Self::to_entry(components.last().cloned().unwrap_or_default(), node))
    }

    fn list(&self, path: &str) -> Result<Vec<FsEntry>, FsError> {
        let components = normalize_path(path)?;
        match Self::find(&self.root, &components).ok_or(FsError::NotFound)? {
            Node::Dir(children) => {
                Ok(children.iter().map(|(name, child)| Self::to_entry(name.clone(), child)).collect())
            }
            Node::File(_) => Err(FsError::Other("not a directory".to_string())),
        }
    }

    fn open_file(&mut self, path: &str, write: bool, create: bool, truncate: bool) -> Result<u32, FsError> {
        let components = normalize_path(path)?;
        let exists = Self::find(&self.root, &components).is_some();
        if !exists {
            if !create {
                return Err(FsError::NotFound);
            }
            *Self::make_path_mut(&mut self.root, &components) = Node::File(Vec::new());
        } else if truncate {
            let node = Self::make_path_mut(&mut self.root, &components);
            if matches!(node, Node::Dir(_)) {
                return Err(FsError::Other("cannot truncate a directory".to_string()));
            }
            *node = Node::File(Vec::new());
        }
        let handle = self.next_handle;
        self.next_handle += 1;
        self.handles.insert(handle, OpenHandle { components, write });
        Ok(handle)
    }

    fn read(&self, handle: u32, offset: u64, len: u32) -> Result<Vec<u8>, FsError> {
        let open = self.handles.get(&handle).ok_or(FsError::NotFound)?;
        let Some(Node::File(data)) = Self::find(&self.root, &open.components) else {
            return Err(FsError::NotFound);
        };
        let offset = offset as usize;
        if offset >= data.len() {
            return Ok(Vec::new());
        }
        let end = offset.saturating_add(len as usize).min(data.len());
        Ok(data[offset..end].to_vec())
    }

    fn write(&mut self, handle: u32, offset: u64, data: Vec<u8>) -> Result<u32, FsError> {
        let open = self.handles.get(&handle).ok_or(FsError::NotFound)?;
        if !open.write {
            return Err(FsError::AccessDenied);
        }
        let components = open.components.clone();
        let Node::File(existing) = Self::make_path_mut(&mut self.root, &components) else {
            return Err(FsError::Other("handle refers to a directory".to_string()));
        };
        let offset = offset as usize;
        let end = offset + data.len();
        if existing.len() < end {
            existing.resize(end, 0);
        }
        existing[offset..end].copy_from_slice(&data);
        Ok(data.len() as u32)
    }

    fn close(&mut self, handle: u32) -> Result<(), FsError> {
        self.handles.remove(&handle).map(|_| ()).ok_or(FsError::NotFound)
    }

    fn set_len(&mut self, handle: u32, size: u64) -> Result<(), FsError> {
        let open = self.handles.get(&handle).ok_or(FsError::NotFound)?;
        if !open.write {
            return Err(FsError::AccessDenied);
        }
        let components = open.components.clone();
        let Node::File(existing) = Self::make_path_mut(&mut self.root, &components) else {
            return Err(FsError::Other("handle refers to a directory".to_string()));
        };
        existing.resize(size as usize, 0);
        Ok(())
    }

    fn rename(&mut self, from: &str, to: &str) -> Result<(), FsError> {
        let from_components = normalize_path(from)?;
        let to_components = normalize_path(to)?;
        let node = {
            let (parent, name) = Self::parent_children_mut(&mut self.root, &from_components)?;
            parent.remove(name).ok_or(FsError::NotFound)?
        };
        let (parent, name) = Self::parent_children_mut(&mut self.root, &to_components)?;
        parent.insert(name.to_string(), node);
        Ok(())
    }

    fn delete(&mut self, path: &str) -> Result<(), FsError> {
        let components = normalize_path(path)?;
        let (parent, name) = Self::parent_children_mut(&mut self.root, &components)?;
        parent.remove(name).map(|_| ()).ok_or(FsError::NotFound)
    }

    fn mkdir(&mut self, path: &str) -> Result<(), FsError> {
        let components = normalize_path(path)?;
        let (parent, name) = Self::parent_children_mut(&mut self.root, &components)?;
        if parent.contains_key(name) {
            return Err(FsError::Other("already exists".to_string()));
        }
        parent.insert(name.to_string(), Node::Dir(BTreeMap::new()));
        Ok(())
    }

    fn run(&mut self, op: FsOp) -> FsResult {
        match op {
            FsOp::Stat { path } => FsResult::Entry(self.stat(&path)),
            FsOp::List { path } => FsResult::Listing(self.list(&path)),
            FsOp::OpenFile { path, write, create, truncate } => {
                FsResult::Handle(self.open_file(&path, write, create, truncate))
            }
            FsOp::Read { handle, offset, len } => FsResult::Data(self.read(handle, offset, len)),
            FsOp::Write { handle, offset, data } => FsResult::Written(self.write(handle, offset, data)),
            FsOp::Close { handle } => FsResult::Done(self.close(handle)),
            FsOp::SetLen { handle, size } => FsResult::Done(self.set_len(handle, size)),
            FsOp::Rename { from, to } => FsResult::Done(self.rename(&from, &to)),
            FsOp::Delete { path } => FsResult::Done(self.delete(&path)),
            FsOp::Mkdir { path } => FsResult::Done(self.mkdir(&path)),
        }
    }

    fn read_all(&mut self, path: &str) -> Vec<u8> {
        let entry = self.stat(path).expect("path must exist");
        let handle = self.open_file(path, false, false, false).expect("path must open for read");
        let data = self.read(handle, 0, entry.size as u32).expect("read must succeed");
        self.close(handle).expect("close must succeed");
        data
    }
}

/// A backend and the filesystem its operations run against.
struct Harness {
    backend: WasmDriveBackend,
    fs: MockFs,
    ops_run: usize,
}

impl Harness {
    fn new(fs: MockFs, read_only: bool) -> Self {
        Harness { backend: WasmDriveBackend::new(read_only), fs, ops_run: 0 }
    }

    /// Runs a task to its end, returning the completion it produced, if any.
    fn complete(&mut self, mut task: Task, mut op: FsOp) -> Option<Reply> {
        loop {
            self.ops_run += 1;
            let result = self.fs.run(op);
            match self.backend.resume(task, result) {
                Step::Next(next_task, next_op) => {
                    task = next_task;
                    op = next_op;
                }
                Step::Done(reply) => return reply,
            }
        }
    }

    fn dispatch(&mut self, req: DriveRequest) -> Vec<Reply> {
        match self.backend.handle_drive_io_request(req) {
            Dispatch::Reply(reply) => vec![reply],
            Dispatch::Pending(task, op) => self.complete(task, op).into_iter().collect(),
            Dispatch::NoReply => Vec::new(),
        }
    }
}

fn only(mut replies: Vec<Reply>) -> Reply {
    assert_eq!(replies.len(), 1, "expected exactly one completion");
    replies.remove(0)
}

fn create_request(path: &str, desired_access: u32, create_disposition: u32) -> DriveRequest {
    DriveRequest::Create(CreateRequest {
        desired_access,
        create_disposition,
        create_options: 0,
        path: path.to_string(),
    })
}

fn open_request(path: &str) -> DriveRequest {
    create_request(path, FILE_READ_DATA, FILE_OPEN)
}

fn created_file_id(reply: &Reply) -> u32 {
    match reply {
        Reply::Create { status, file_id, .. } => {
            assert_eq!(*status, SUCCESS);
            *file_id
        }
        other => panic!("expected a create completion, got {other:?}"),
    }
}

fn status_of(reply: &Reply) -> u32 {
    match reply {
        Reply::Create { status, .. }
        | Reply::QueryInformation { status, .. }
        | Reply::Close { status }
        | Reply::QueryDirectory { status, .. }
        | Reply::Read { status, .. }
        | Reply::Write { status, .. }
        | Reply::SetInformation { status }
        | Reply::QueryVolumeInformation { status, .. }
        | Reply::DeviceControl { status }
        | Reply::FlushBuffers { status }
        | Reply::LockControl { status }
        | Reply::QuerySecurity { status }
        | Reply::SetSecurity { status } => *status,
    }
}

fn dir_entry_name(reply: &Reply) -> String {
    match reply {
        Reply::QueryDirectory { buffer: Some(DirInfo { file_name, .. }), .. } => file_name.clone(),
        other => panic!("expected a directory entry, got {other:?}"),
    }
}

fn query_directory(file_id: u32, initial_query: u8, path: &str) -> DriveRequest {
    DriveRequest::QueryDirectory {
        file_id,
        class_lvl: FILE_NAMES_INFORMATION,
        initial_query,
        path: path.to_string(),
    }
}

fn open_dir(harness: &mut Harness, path: &str) -> u32 {
    let created = only(harness.dispatch(DriveRequest::Create(CreateRequest {
        desired_access: FILE_READ_DATA,
        create_disposition: FILE_OPEN,
        create_options: FILE_DIRECTORY_FILE,
        path: path.to_string(),
    })));
    created_file_id(&created)
}

#[test]
fn create_query_read_close_happy_path_echoes_completion_ids() {
    let mut fs = MockFs::new();
    fs.seed_file("\\hello.txt", b"hello world");
    let mut harness = Harness::new(fs, false);

    let create = only(harness.dispatch(open_request("\\hello.txt")));
    assert_eq!(status_of(&create), SUCCESS);
    let file_id = created_file_id(&create);
    assert_ne!(file_id, 0);

    let query = only(harness.dispatch(DriveRequest::QueryInformation {
        file_id,
        class_lvl: FILE_STANDARD_INFORMATION,
    }));
    assert_eq!(status_of(&query), SUCCESS);

    let read = only(harness.dispatch(DriveRequest::Read { file_id, length: 32, offset: 0 }));
    assert_eq!(status_of(&read), SUCCESS);
    match &read {
        Reply::Read { data, .. } => assert_eq!(&data[..], b"hello world"),
        other => panic!("expected a read completion, got {other:?}"),
    }

    let close = only(harness.dispatch(DriveRequest::Close { file_id }));
    assert_eq!(status_of(&close), SUCCESS);
}

#[test]
fn query_directory_initial_then_iterate_to_no_more_files() {
    let mut fs = MockFs::new();
    fs.seed_file("\\dir\\a.txt", b"a");
    fs.seed_file("\\dir\\b.txt", b"bb");
    let mut harness = Harness::new(fs, false);
    let file_id = open_dir(&mut harness, "\\dir");

    let initial = only(harness.dispatch(query_directory(file_id, 1, "\\dir\\*")));
    assert_eq!(status_of(&initial), SUCCESS);

    let second = only(harness.dispatch(query_directory(file_id, 0, "")));
    assert_eq!(status_of(&second), SUCCESS);

    let exhausted = only(harness.dispatch(query_directory(file_id, 0, "")));
    assert_eq!(status_of(&exhausted), NO_MORE_FILES);
}

#[test]
fn read_only_backend_denies_write_with_access_denied_and_does_not_touch_fs() {
    let mut fs = MockFs::new();
    fs.seed_file("\\ro.txt", b"immutable");
    let mut harness = Harness::new(fs, true);

    let created = only(harness.dispatch(open_request("\\ro.txt")));
    let file_id = created_file_id(&created);
    let ops_before = harness.ops_run;

    let write = only(harness.dispatch(DriveRequest::Write {
        file_id,
        offset: 0,
        data: b"changed".to_vec(),
    }));
    assert_eq!(status_of(&write), ACCESS_DENIED);
    assert_eq!(write, Reply::Write { status: ACCESS_DENIED, length: 0 }, "length must be 0 on denial");
    assert_eq!(harness.ops_run, ops_before);

    assert_eq!(harness.fs.read_all("\\ro.txt"), b"immutable");
}

#[test]
fn read_only_backend_denies_write_intent_create_without_spawning() {
    let mut harness = Harness::new(MockFs::new(), true);

    let response = only(harness.dispatch(create_request("\\new.txt", FILE_WRITE_DATA, FILE_CREATE)));
    assert_eq!(status_of(&response), ACCESS_DENIED);
    assert_eq!(response, Reply::Create { status: ACCESS_DENIED, file_id: 0, information: 0 });
    assert_eq!(harness.ops_run, 0);
}

#[test]
fn read_only_backend_denies_set_information() {
    let mut fs = MockFs::new();
    fs.seed_file("\\ro.txt", b"data");
    let mut harness = Harness::new(fs, true);

    let created = only(harness.dispatch(open_request("\\ro.txt")));
    let file_id = created_file_id(&created);
    let ops_before = harness.ops_run;

    let response = only(harness.dispatch(DriveRequest::SetInformation {
        file_id,
        info: SetInformation::Disposition { delete_pending: 1 },
    }));
    assert_eq!(status_of(&response), ACCESS_DENIED);
    assert_eq!(harness.ops_run, ops_before);
}

#[test]
fn set_information_rename_updates_open_entry_path() {
    let mut fs = MockFs::new();
    fs.seed_file("\\old.txt", b"payload");
    let mut harness = Harness::new(fs, false);

    let created = only(harness.dispatch(open_request("\\old.txt")));
    let file_id = created_file_id(&created);

    let renamed = only(harness.dispatch(DriveRequest::SetInformation {
        file_id,
        info: SetInformation::Rename { file_name: "\\new.txt".to_string() },
    }));
    assert_eq!(status_of(&renamed), SUCCESS);
    assert_eq!(harness.fs.read_all("\\new.txt"), b"payload");

    let query = only(harness.dispatch(DriveRequest::QueryInformation {
        file_id,
        class_lvl: FILE_STANDARD_INFORMATION,
    }));
    assert_eq!(status_of(&query), SUCCESS);
    assert_eq!(harness.backend.state().get(file_id).unwrap().path, "\\new.txt");
}

#[test]
fn notify_change_directory_returns_no_response() {
    let mut harness = Harness::new(MockFs::new(), false);
    let replies = harness.dispatch(DriveRequest::NotifyChangeDirectory);
    assert!(replies.is_empty());
    assert_eq!(harness.ops_run, 0);
}

#[test]
fn lock_control_is_success_noop() {
    let mut harness = Harness::new(MockFs::new(), false);
    let response = only(harness.dispatch(DriveRequest::LockControl));
    assert_eq!(status_of(&response), SUCCESS);
}

#[test]
fn query_security_is_not_supported() {
    let mut harness = Harness::new(MockFs::new(), false);
    let response = only(harness.dispatch(DriveRequest::QuerySecurity));
    assert_eq!(status_of(&response), NOT_SUPPORTED);
}

#[test]
fn device_control_is_success_empty() {
    let mut harness = Harness::new(MockFs::new(), false);
    let response = only(harness.dispatch(DriveRequest::DeviceControl));
    assert_eq!(status_of(&response), SUCCESS);
    assert_eq!(response, Reply::DeviceControl { status: SUCCESS }, "OutputBufferLength must be 0");
}

#[test]
fn close_of_unknown_file_id_is_invalid_handle() {
    let mut harness = Harness::new(MockFs::new(), false);
    let response = only(harness.dispatch(DriveRequest::Close { file_id: 99 }));
    assert_eq!(status_of(&response), INVALID_HANDLE);
}

#[test]
fn query_information_unknown_file_id_is_invalid_handle() {
    let mut harness = Harness::new(MockFs::new(), false);
    let response = only(harness.dispatch(DriveRequest::QueryInformation {
        file_id: 99,
        class_lvl: FILE_BASIC_INFORMATION,
    }));
    assert_eq!(status_of(&response), INVALID_HANDLE);
}

#[test]
fn query_information_file_attribute_tag_returns_success_with_decodable_buffer() {
    let mut fs = MockFs::new();
    fs.seed_file("\\hello.txt", b"hello world");
    let mut harness = Harness::new(fs, false);
    let file_id = created_file_id(&only(harness.dispatch(open_request("\\hello.txt"))));

    let query = only(harness.dispatch(DriveRequest::QueryInformation {
        file_id,
        class_lvl: FILE_ATTRIBUTE_TAG_INFORMATION,
    }));
    assert_eq!(status_of(&query), SUCCESS);
    match query {
        Reply::QueryInformation {
            buffer: Some(QueryInfo::AttributeTag { file_attributes, reparse_tag }),
            ..
        } => {
            assert_eq!(file_attributes, FILE_ATTRIBUTE_NORMAL);
            assert_eq!(reparse_tag, 0, "this backend never exposes reparse points");
        }
        other => panic!("expected an attribute-tag answer, got {other:?}"),
    }
}

#[test]
fn query_information_file_attribute_tag_on_directory_reports_directory_attribute() {
    let mut fs = MockFs::new();
    fs.seed_dir("\\dir");
    let mut harness = Harness::new(fs, false);
    let file_id = open_dir(&mut harness, "\\dir");

    let query = only(harness.dispatch(DriveRequest::QueryInformation {
        file_id,
        class_lvl: FILE_ATTRIBUTE_TAG_INFORMATION,
    }));
    assert_eq!(status_of(&query), SUCCESS);
    match query {
        Reply::QueryInformation { buffer: Some(QueryInfo::AttributeTag { file_attributes, .. }), .. } => {
            assert_eq!(file_attributes, FILE_ATTRIBUTE_DIRECTORY)
        }
        other => panic!("expected an attribute-tag answer, got {other:?}"),
    }
}

#[test]
fn large_read_request_returns_everything_available_not_a_short_read() {
    let mut fs = MockFs::new();
    let mut contents = vec![0u8; 70 * 1024];
    for (i, byte) in contents.iter_mut().enumerate() {
        *byte = u8::try_from(i % 251).expect("i % 251 fits in a u8");
    }
    fs.seed_file("\\big.bin", &contents);
    let mut harness = Harness::new(fs, false);
    let file_id = created_file_id(&only(harness.dispatch(open_request("\\big.bin"))));

    let read = only(harness.dispatch(DriveRequest::Read { file_id, length: 1024 * 1024, offset: 0 }));
    assert_eq!(status_of(&read), SUCCESS);
    let Reply::Read { data, .. } = read else { panic!("expected a read completion") };
    assert_eq!(data.len(), 70 * 1024);
    assert_eq!(&data[..], &contents[..], "read must return the correct bytes starting at the requested offset");

    let second = only(harness.dispatch(DriveRequest::Read {
        file_id,
        length: 1024 * 1024,
        offset: 64 * 1024,
    }));
    assert_eq!(status_of(&second), SUCCESS);
    let Reply::Read { data, .. } = second else { panic!("expected a read completion") };
    assert_eq!(
        data.len(),
        70 * 1024 - 64 * 1024,
        "EOF short read: everything left in the file from the requested offset"
    );
    assert_eq!(&data[..], &contents[64 * 1024..]);
}

#[test]
fn create_of_missing_file_without_create_disposition_is_no_such_file() {
    let mut harness = Harness::new(MockFs::new(), false);
    let response = only(harness.dispatch(open_request("\\missing.txt")));
    assert_eq!(status_of(&response), NO_SUCH_FILE);
}

#[test]
fn create_on_existing_directory_with_no_type_flags_succeeds_as_directory() {
    let mut fs = MockFs::new();
    fs.seed_file("\\dir\\a.txt", b"a");
    let mut harness = Harness::new(fs, false);

    let created = only(harness.dispatch(open_request("\\dir")));
    assert_eq!(status_of(&created), SUCCESS);
    let file_id = created_file_id(&created);

    let entry = harness.backend.state().get(file_id).expect("file_id must be open");
    assert!(entry.is_dir, "directory opened without type flags must be tracked as a directory");
    assert!(entry.fs_handle.is_none(), "a directory entry must never carry a DriveFs file handle");

    let listing = only(harness.dispatch(query_directory(file_id, 1, "\\dir\\*")));
    assert_eq!(status_of(&listing), SUCCESS);
    assert_eq!(dir_entry_name(&listing), "a.txt");
}

#[test]
fn create_with_non_directory_flag_on_a_directory_is_file_is_a_directory() {
    let mut fs = MockFs::new();
    fs.seed_dir("\\dir");
    let mut harness = Harness::new(fs, false);

    let response = only(harness.dispatch(DriveRequest::Create(CreateRequest {
        desired_access: FILE_READ_DATA,
        create_disposition: FILE_OPEN,
        create_options: FILE_NON_DIRECTORY_FILE,
        path: "\\dir".to_string(),
    })));
    assert_eq!(status_of(&response), FILE_IS_A_DIRECTORY);
}

#[test]
fn query_directory_exact_name_pattern_returns_only_that_entry() {
    let mut fs = MockFs::new();
    fs.seed_file("\\dir\\a.txt", b"a");
    fs.seed_file("\\dir\\b.txt", b"bb");
    let mut harness = Harness::new(fs, false);
    let file_id = open_dir(&mut harness, "\\dir");

    let initial = only(harness.dispatch(query_directory(file_id, 1, "\\dir\\a.txt")));
    assert_eq!(status_of(&initial), SUCCESS);
    assert_eq!(dir_entry_name(&initial), "a.txt");

    let second = only(harness.dispatch(query_directory(file_id, 0, "")));
    assert_eq!(status_of(&second), NO_MORE_FILES);
}

#[test]
fn query_directory_exact_name_pattern_for_missing_file_is_no_such_file() {
    let mut fs = MockFs::new();
    fs.seed_file("\\dir\\a.txt", b"a");
    let mut harness = Harness::new(fs, false);
    let file_id = open_dir(&mut harness, "\\dir");

    let response = only(harness.dispatch(query_directory(file_id, 1, "\\dir\\missing.txt")));
    assert_eq!(status_of(&response), NO_SUCH_FILE);
}

#[test]
fn query_directory_wildcard_pattern_filters_by_extension() {
    let mut fs = MockFs::new();
    fs.seed_file("\\dir\\a.txt", b"a");
    fs.seed_file("\\dir\\b.log", b"bb");
    let mut harness = Harness::new(fs, false);
    let file_id = open_dir(&mut harness, "\\dir");

    let initial = only(harness.dispatch(query_directory(file_id, 1, "\\dir\\*.txt")));
    assert_eq!(status_of(&initial), SUCCESS);
    assert_eq!(dir_entry_name(&initial), "a.txt");

    let second = only(harness.dispatch(query_directory(file_id, 0, "")));
    assert_eq!(status_of(&second), NO_MORE_FILES);
}

#[test]
fn create_with_parent_traversal_path_is_access_denied_without_touching_fs() {
    let mut harness = Harness::new(MockFs::new(), false);
    let response = only(harness.dispatch(open_request("\\..\\x")));
    assert_eq!(status_of(&response), ACCESS_DENIED);
    assert_eq!(harness.ops_run, 0);
}

#[test]
fn set_information_rename_with_parent_traversal_target_is_access_denied() {
    let mut fs = MockFs::new();
    fs.seed_file("\\old.txt", b"payload");
    let mut harness = Harness::new(fs, false);
    let file_id = created_file_id(&only(harness.dispatch(open_request("\\old.txt"))));
    let ops_before = harness.ops_run;

    let response = only(harness.dispatch(DriveRequest::SetInformation {
        file_id,
        info: SetInformation::Rename { file_name: "\\..\\escaped.txt".to_string() },
    }));
    assert_eq!(status_of(&response), ACCESS_DENIED);
    assert_eq!(harness.ops_run, ops_before);
    assert_eq!(harness.fs.read_all("\\old.txt"), b"payload");
}

#[test]
fn reset_frees_open_drivefs_handles_and_drops_stale_generation_completions() {
    let mut fs = MockFs::new();
    fs.seed_file("\\a.txt", b"data");
    let mut harness = Harness::new(fs, false);

    let created = only(harness.dispatch(open_request("\\a.txt")));
    assert_eq!(status_of(&created), SUCCESS);
    let file_id = created_file_id(&created);
    let fs_handle = harness
        .backend
        .state()
        .get(file_id)
        .and_then(|entry| entry.fs_handle)
        .expect("Create must have allocated a DriveFs handle");

    // A read dispatched but not yet run: it belongs to the pre-reset generation.
    let pending = harness.backend.handle_drive_io_request(DriveRequest::Read { file_id, length: 16, offset: 0 });
    let Dispatch::Pending(read_task, read_op) = pending else {
        panic!("Read is always answered asynchronously");
    };

    let reset = harness.backend.reset();
    let (close_task, close_op) = reset.expect("an open file handle must be closed by the reset");
    assert_eq!(close_op, FsOp::Close { handle: fs_handle });
    assert_eq!(harness.complete(read_task, read_op), None, "the stale read must deliver no completion");
    assert_eq!(harness.complete(close_task, close_op), None);

    assert_eq!(
        harness.fs.close(fs_handle),
        Err(FsError::NotFound),
        "reset must already have closed the stale DriveFs handle (a double-close is NotFound)"
    );

    let recreated = only(harness.dispatch(open_request("\\a.txt")));
    assert_eq!(status_of(&recreated), SUCCESS);
    assert_eq!(created_file_id(&recreated), 1, "file_id counter must restart at 1 in the fresh DriveState");
}

#[test]
fn closed_file_id_is_an_invalid_handle_for_every_later_irp() {
    let mut fs = MockFs::new();
    fs.seed_file("\\c.txt", b"data");
    let mut harness = Harness::new(fs, false);
    let file_id = created_file_id(&only(harness.dispatch(open_request("\\c.txt"))));
    assert_eq!(only(harness.dispatch(DriveRequest::Close { file_id })), Reply::Close { status: SUCCESS });

    let query = only(harness.dispatch(DriveRequest::QueryInformation { file_id, class_lvl: FILE_BASIC_INFORMATION }));
    assert_eq!(query, Reply::QueryInformation { status: INVALID_HANDLE, buffer: None });
    let read = only(harness.dispatch(DriveRequest::Read { file_id, length: 4, offset: 0 }));
    assert_eq!(read, Reply::Read { status: INVALID_HANDLE, data: Vec::new() });
    let set = only(harness.dispatch(DriveRequest::SetInformation {
        file_id,
        info: SetInformation::Disposition { delete_pending: 1 },
    }));
    assert_eq!(set, Reply::SetInformation { status: INVALID_HANDLE });
    let close_again = only(harness.dispatch(DriveRequest::Close { file_id }));
    assert_eq!(close_again, Reply::Close { status: INVALID_HANDLE });
}

#[test]
fn read_only_open_of_an_existing_file_only_reads() {
    let mut fs = MockFs::new();
    fs.seed_file("\\r.txt", b"data");
    let mut backend = WasmDriveBackend::new(true);
    let Dispatch::Pending(task, op) = backend.handle_drive_io_request(open_request("\\r.txt")) else {
        panic!("an open needs a stat first");
    };
    assert_eq!(op, FsOp::Stat { path: "\\r.txt".to_string() });
    let result = fs.run(op);
    let Step::Next(_, op) = backend.resume(task, result) else { panic!("an existing file is opened next") };
    assert_eq!(op, FsOp::OpenFile { path: "\\r.txt".to_string(), write: false, create: false, truncate: false });
}

#[test]
fn stale_task_after_reset_changes_nothing() {
    let mut fs = MockFs::new();
    fs.seed_file("\\s.txt", b"data");
    let mut backend = WasmDriveBackend::new(false);
    let Dispatch::Pending(task, op) = backend.handle_drive_io_request(open_request("\\s.txt")) else {
        panic!("an open needs a stat first");
    };
    assert_eq!(backend.reset(), None);
    assert_eq!(backend.generation(), 1);
    let result = fs.run(op);
    let Step::Next(task, op) = backend.resume(task, result) else { panic!("a stale create still opens") };
    let result = fs.run(op);
    assert_eq!(backend.resume(task, result), Step::Done(None));
    assert!(backend.state().get(1).is_none(), "a stale create must not open anything");
}

#[test]
fn create_disposition_creates_a_missing_file_and_a_missing_directory() {
    let mut harness = Harness::new(MockFs::new(), false);
    let created = only(harness.dispatch(create_request("\\n.txt", FILE_WRITE_DATA, FILE_CREATE)));
    assert_eq!(created, Reply::Create { status: SUCCESS, file_id: 1, information: 2 });
    assert_eq!(harness.fs.read_all("\\n.txt"), b"");

    let dir = only(harness.dispatch(DriveRequest::Create(CreateRequest {
        desired_access: FILE_READ_DATA,
        create_disposition: FILE_CREATE,
        create_options: FILE_DIRECTORY_FILE,
        path: "\\d".to_string(),
    })));
    assert_eq!(dir, Reply::Create { status: SUCCESS, file_id: 2, information: 2 });
    assert!(harness.backend.state().get(2).unwrap().is_dir);
    assert!(harness.fs.stat("\\d").unwrap().is_dir);
}

#[test]
fn write_then_read_round_trips_through_the_backend() {
    let mut harness = Harness::new(MockFs::new(), false);
    let file_id = created_file_id(&only(harness.dispatch(create_request("\\w.txt", FILE_WRITE_DATA, FILE_CREATE))));
    let written = only(harness.dispatch(DriveRequest::Write { file_id, offset: 0, data: b"hello".to_vec() }));
    assert_eq!(written, Reply::Write { status: SUCCESS, length: 5 });
    let read = only(harness.dispatch(DriveRequest::Read { file_id, length: 10, offset: 1 }));
    assert_eq!(read, Reply::Read { status: SUCCESS, data: b"ello".to_vec() });
}

#[test]
fn delete_disposition_removes_the_file() {
    let mut fs = MockFs::new();
    fs.seed_file("\\gone.txt", b"x");
    let mut harness = Harness::new(fs, false);
    let file_id = created_file_id(&only(harness.dispatch(open_request("\\gone.txt"))));
    let deleted = only(harness.dispatch(DriveRequest::SetInformation {
        file_id,
        info: SetInformation::Disposition { delete_pending: 1 },
    }));
    assert_eq!(deleted, Reply::SetInformation { status: SUCCESS });
    assert_eq!(harness.fs.stat("\\gone.txt"), Err(FsError::NotFound));
    let cleared = only(harness.dispatch(DriveRequest::SetInformation {
        file_id,
        info: SetInformation::Disposition { delete_pending: 0 },
    }));
    assert_eq!(cleared, Reply::SetInformation { status: SUCCESS });
    let other = only(harness.dispatch(DriveRequest::SetInformation { file_id, info: SetInformation::Other }));
    assert_eq!(other, Reply::SetInformation { status: NOT_SUPPORTED });
}

#[test]
fn flush_and_set_security_are_answered_at_once() {
    let mut harness = Harness::new(MockFs::new(), false);
    assert_eq!(only(harness.dispatch(DriveRequest::FlushBuffers)), Reply::FlushBuffers { status: SUCCESS });
    assert_eq!(only(harness.dispatch(DriveRequest::SetSecurity)), Reply::SetSecurity { status: NOT_SUPPORTED });
    assert!(matches!(
        only(harness.dispatch(DriveRequest::QueryVolumeInformation { fs_info_class_lvl: 1 })),
        Reply::QueryVolumeInformation { status: SUCCESS, buffer: Some(_) }
    ));
}

#[test]
fn stat_reports_file_size_and_dir_flag() {
    let mut fs = MockFs::new();
    fs.seed_file("\\dir\\f.txt", b"hello");
    fs.seed_dir("\\dir\\sub");
    let file = fs.stat("\\dir\\f.txt").unwrap();
    assert_eq!(file.name, "f.txt");
    assert!(!file.is_dir);
    assert_eq!(file.size, 5);
    let dir = fs.stat("\\dir\\sub").unwrap();
    assert!(dir.is_dir);
    assert_eq!(dir.size, 0);
}

#[test]
fn stat_unknown_path_is_not_found() {
    let fs = MockFs::new();
    assert_eq!(fs.stat("\\missing"), Err(FsError::NotFound));
}

#[test]
fn list_returns_direct_children_only() {
    let mut fs = MockFs::new();
    fs.seed_file("\\dir\\a.txt", b"a");
    fs.seed_file("\\dir\\b.txt", b"bb");
    fs.seed_file("\\dir\\sub\\deep.txt", b"nested");
    let mut names: Vec<String> = fs.list("\\dir").unwrap().into_iter().map(|e| e.name).collect();
    names.sort();
    assert_eq!(names, vec!["a.txt".to_string(), "b.txt".to_string(), "sub".to_string()]);
}

#[test]
fn list_on_a_file_is_rejected() {
    let mut fs = MockFs::new();
    fs.seed_file("\\f.txt", b"x");
    assert!(matches!(fs.list("\\f.txt"), Err(FsError::Other(_))));
}

#[test]
fn open_without_create_on_missing_path_is_not_found() {
    let mut fs = MockFs::new();
    assert_eq!(fs.open_file("\\missing.txt", false, false, false), Err(FsError::NotFound));
}

#[test]
fn open_with_create_makes_a_new_empty_file() {
    let mut fs = MockFs::new();
    let handle = fs.open_file("\\new.txt", true, true, false).unwrap();
    assert_eq!(fs.stat("\\new.txt").unwrap().size, 0);
    fs.close(handle).unwrap();
}

#[test]
fn write_then_read_round_trips_bytes() {
    let mut fs = MockFs::new();
    let handle = fs.open_file("\\rw.txt", true, true, false).unwrap();
    assert_eq!(fs.write(handle, 0, b"hello world".to_vec()).unwrap(), 11);
    assert_eq!(fs.read(handle, 0, 11).unwrap(), b"hello world");
    assert_eq!(fs.read(handle, 6, 5).unwrap(), b"world");
}

#[test]
fn write_without_write_flag_is_access_denied() {
    let mut fs = MockFs::new();
    fs.seed_file("\\ro.txt", b"immutable");
    let handle = fs.open_file("\\ro.txt", false, false, false).unwrap();
    assert_eq!(fs.write(handle, 0, b"x".to_vec()), Err(FsError::AccessDenied));
}

#[test]
fn read_after_close_is_not_found() {
    let mut fs = MockFs::new();
    let handle = fs.open_file("\\a.txt", true, true, false).unwrap();
    fs.close(handle).unwrap();
    assert_eq!(fs.read(handle, 0, 1), Err(FsError::NotFound));
}

#[test]
fn mkdir_then_delete_round_trips() {
    let mut fs = MockFs::new();
    fs.mkdir("\\newdir").unwrap();
    assert!(fs.stat("\\newdir").unwrap().is_dir);
    fs.delete("\\newdir").unwrap();
    assert_eq!(fs.stat("\\newdir"), Err(FsError::NotFound));
}

#[test]
fn rename_moves_a_file() {
    let mut fs = MockFs::new();
    fs.seed_file("\\old.txt", b"payload");
    fs.rename("\\old.txt", "\\new.txt").unwrap();
    assert_eq!(fs.stat("\\old.txt"), Err(FsError::NotFound));
    assert_eq!(fs.stat("\\new.txt").unwrap().size, 7);
}

#[test]
fn end_of_file_and_allocation_set_the_file_length() {
    let mut harness = Harness::new(MockFs::new(), false);
    let file_id = created_file_id(&only(harness.dispatch(create_request("\\copy.bin", FILE_WRITE_DATA, FILE_CREATE))));
    let grown = only(harness.dispatch(DriveRequest::SetInformation {
        file_id,
        info: SetInformation::EndOfFile { size: 10 },
    }));
    assert_eq!(grown, Reply::SetInformation { status: SUCCESS });
    assert_eq!(harness.fs.read_all("\\copy.bin"), vec![0u8; 10]);
    let shrunk = only(harness.dispatch(DriveRequest::SetInformation {
        file_id,
        info: SetInformation::Allocation { size: 3 },
    }));
    assert_eq!(shrunk, Reply::SetInformation { status: SUCCESS });
    assert_eq!(harness.fs.read_all("\\copy.bin").len(), 3);
    let negative = only(harness.dispatch(DriveRequest::SetInformation {
        file_id,
        info: SetInformation::EndOfFile { size: -1 },
    }));
    assert_eq!(negative, Reply::SetInformation { status: INVALID_PARAMETER });
}

#[test]
fn set_length_needs_a_file_opened_for_writing() {
    let mut fs = MockFs::new();
    fs.seed_file("\\r.txt", b"data");
    fs.seed_dir("\\d");
    let mut harness = Harness::new(fs, false);
    let file_id = created_file_id(&only(harness.dispatch(open_request("\\r.txt"))));
    let denied = only(harness.dispatch(DriveRequest::SetInformation {
        file_id,
        info: SetInformation::EndOfFile { size: 1 },
    }));
    assert_eq!(denied, Reply::SetInformation { status: ACCESS_DENIED });
    assert_eq!(harness.fs.read_all("\\r.txt"), b"data");
    let dir_id = open_dir(&mut harness, "\\d");
    let no_handle = only(harness.dispatch(DriveRequest::SetInformation {
        file_id: dir_id,
        info: SetInformation::EndOfFile { size: 1 },
    }));
    assert_eq!(no_handle, Reply::SetInformation { status: INVALID_HANDLE });
}

#[test]
fn read_only_backend_denies_set_length() {
    let mut fs = MockFs::new();
    fs.seed_file("\\ro.txt", b"data");
    let mut harness = Harness::new(fs, true);
    let file_id = created_file_id(&only(harness.dispatch(open_request("\\ro.txt"))));
    let ops_before = harness.ops_run;
    let denied = only(harness.dispatch(DriveRequest::SetInformation {
        file_id,
        info: SetInformation::Allocation { size: 100 },
    }));
    assert_eq!(denied, Reply::SetInformation { status: ACCESS_DENIED });
    assert_eq!(harness.ops_run, ops_before);
}
