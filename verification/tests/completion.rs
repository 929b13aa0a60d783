use complete_layer::access::List;
use complete_layer::access::OpCreateDir;
use complete_layer::access::OpList;
use complete_layer::access::OpRead;
use complete_layer::access::OpStat;
use complete_layer::access::OpWrite;
use complete_layer::capability::complete_capability;
use complete_layer::capability::Capability;
use complete_layer::complete::CompleteLayer;
use complete_layer::lister::EntryLister;
use complete_layer::lister::PrefixLister;
use complete_layer::memory::MemoryAccessor;
use complete_layer::memory::MemoryWriter;
use complete_layer::reader::ChunkReader;
use complete_layer::reader::CompleteReader;
use complete_layer::types::Entry;
use complete_layer::types::EntryMode;
use complete_layer::types::ErrorKind;
use complete_layer::types::Metadata;
use complete_layer::writer::CompleteWriter;

fn cap_none() -> Capability {
    Capability::none()
}

fn accessor(cap: Capability, dirs: Vec<(String, Vec<Entry>)>) -> MemoryAccessor {
    MemoryAccessor {
        cap,
        dirs,
        chunks: Vec::new(),
        stat_meta: None,
        writer_meta: Metadata::new(EntryMode::FILE),
        writer_fail: None,
    }
}

fn file_entry(path: &str) -> Entry {
    Entry::new(String::from(path), Metadata::new(EntryMode::FILE))
}

fn dir_entry(path: &str) -> Entry {
    Entry::new(String::from(path), Metadata::new(EntryMode::DIR))
}

fn collect_paths<L: List>(l: &mut L) -> Vec<String> {
    let mut out = Vec::new();
    loop {
        match l.next() {
            Ok(Some(e)) => out.push(e.path),
            Ok(None) => return out,
            Err(e) => panic!("lister failed: {:?}", e),
        }
    }
}

#[test]
fn capability_promotion_reports_create_dir() {
    let mut c = cap_none();
    c.list = true;
    c.write_can_empty = true;
    let full = complete_capability(c);
    assert!(full.create_dir);
    assert!(full.list);
    assert!(full.write_can_empty);
    assert!(!c.create_dir);
}

#[test]
fn capability_promotion_keeps_other_flags() {
    let mut c = cap_none();
    c.read = true;
    c.list = true;
    let full = complete_capability(c);
    assert!(!full.create_dir);
    assert_eq!(full.read, c.read);
    assert_eq!(full.list, c.list);
    assert_eq!(full.presign, c.presign);
}

#[test]
fn root_stat_is_synthetic_dir() {
    // A backend with no capability at all: any backend call would fail, so a
    // successful root stat shows the backend was never touched.
    let acc = CompleteLayer.layer(accessor(cap_none(), Vec::new()));
    let m = acc.stat("/", OpStat::new()).unwrap();
    assert_eq!(m.mode, EntryMode::DIR);
    assert_eq!(m.content_length, 0);
}

#[test]
fn simulated_create_dir_via_empty_write() {
    let mut c = cap_none();
    c.list = true;
    c.write_can_empty = true;
    let acc = CompleteLayer.layer(accessor(c, Vec::new()));
    assert!(acc.create_dir("a/b/", OpCreateDir::new()).is_ok());
    assert!(acc.info().full.create_dir);
    assert!(!acc.info().native.create_dir);
}

#[test]
fn create_dir_without_any_support_fails() {
    let acc = CompleteLayer.layer(accessor(cap_none(), Vec::new()));
    let e = acc.create_dir("a/", OpCreateDir::new()).unwrap_err();
    assert_eq!(e.kind, ErrorKind::Unsupported);
}

#[test]
fn stat_dir_via_recursive_list_probe() {
    let mut c = cap_none();
    c.list = true;
    c.list_with_recursive = true;
    let dirs = vec![(String::from("x/"), vec![file_entry("x/y.txt")])];
    let acc = CompleteLayer.layer(accessor(c, dirs));
    let m = acc.stat("x/", OpStat::new()).unwrap();
    assert_eq!(m.mode, EntryMode::DIR);
    let e = acc.stat("z/", OpStat::new()).unwrap_err();
    assert_eq!(e.kind, ErrorKind::NotFound);
    assert_eq!(e.message, "the directory is not found");
}

#[test]
fn stat_dir_delegated_remaps_file_to_not_found() {
    let mut c = cap_none();
    c.create_dir = true;
    let mut acc_inner = accessor(c, Vec::new());
    acc_inner.stat_meta = Some(Metadata::new(EntryMode::FILE));
    let acc = CompleteLayer.layer(acc_inner);
    let e = acc.stat("d/", OpStat::new()).unwrap_err();
    assert_eq!(e.kind, ErrorKind::NotFound);
    assert_eq!(e.message, "stat expected a directory, but found a file");
}

#[test]
fn stat_dir_delegated_passes_dir_metadata() {
    let mut c = cap_none();
    c.create_dir = true;
    let mut acc_inner = accessor(c, Vec::new());
    acc_inner.stat_meta = Some(Metadata::new(EntryMode::DIR).with_content_length(0));
    let acc = CompleteLayer.layer(acc_inner);
    let m = acc.stat("d/", OpStat::new()).unwrap();
    assert_eq!(m.mode, EntryMode::DIR);
}

#[test]
fn recursive_emulation_walks_pre_order() {
    let mut c = cap_none();
    c.list = true;
    let dirs = vec![
        (
            String::from("p/"),
            vec![file_entry("p/a"), dir_entry("p/b/")],
        ),
        (String::from("p/b/"), vec![file_entry("p/b/c")]),
    ];
    let acc = CompleteLayer.layer(accessor(c, dirs));
    let mut l = acc.list("p/", OpList::new().with_recursive(true)).unwrap();
    let paths = collect_paths(&mut l);
    assert_eq!(paths, vec![
        String::from("p/a"),
        String::from("p/b/"),
        String::from("p/b/c")
    ]);
}

#[test]
fn prefix_filter_keeps_matching_entries_in_order() {
    let mut c = cap_none();
    c.list = true;
    let dirs = vec![(
        String::from("dir/"),
        vec![
            file_entry("dir/apple"),
            file_entry("dir/apricot"),
            file_entry("dir/banana"),
        ],
    )];
    let acc = CompleteLayer.layer(accessor(c, dirs));
    let mut l = acc.list("dir/ap", OpList::new()).unwrap();
    let paths = collect_paths(&mut l);
    assert_eq!(paths, vec![String::from("dir/apple"), String::from("dir/apricot")]);
}

#[test]
fn recursive_list_of_file_prefix_filters_flat_walk() {
    let mut c = cap_none();
    c.list = true;
    let dirs = vec![
        (
            String::from("p/"),
            vec![file_entry("p/ax"), dir_entry("p/ay/"), file_entry("p/b")],
        ),
        (String::from("p/ay/"), vec![file_entry("p/ay/z")]),
    ];
    let acc = CompleteLayer.layer(accessor(c, dirs));
    let mut l = acc.list("p/a", OpList::new().with_recursive(true)).unwrap();
    let paths = collect_paths(&mut l);
    assert_eq!(paths, vec![
        String::from("p/ax"),
        String::from("p/ay/"),
        String::from("p/ay/z")
    ]);
}

#[test]
fn recursive_emulation_of_unknown_directory_is_empty() {
    let mut c = cap_none();
    c.list = true;
    let acc = CompleteLayer.layer(accessor(c, Vec::new()));
    let mut l = acc.list("e/", OpList::new().with_recursive(true)).unwrap();
    let paths = collect_paths(&mut l);
    assert!(paths.is_empty());
}

#[test]
fn prefix_filter_can_yield_nothing() {
    let mut c = cap_none();
    c.list = true;
    let dirs = vec![(String::from("d/"), vec![file_entry("d/x")])];
    let acc = CompleteLayer.layer(accessor(c, dirs));
    let mut l = acc.list("d/zz", OpList::new()).unwrap();
    assert!(collect_paths(&mut l).is_empty());
}

#[test]
fn delegated_list_respects_limit() {
    let mut c = cap_none();
    c.list = true;
    c.list_with_recursive = true;
    let dirs = vec![(
        String::from("d/"),
        vec![file_entry("d/1"), file_entry("d/2"), file_entry("d/3")],
    )];
    let acc = CompleteLayer.layer(accessor(c, dirs));
    let mut l = acc.list("d/", OpList::new().with_limit(2)).unwrap();
    let paths = collect_paths(&mut l);
    assert_eq!(paths.len(), 2);
    assert_eq!(paths[0], String::from("d/1"));
    assert_eq!(paths[1], String::from("d/2"));
}

#[test]
fn prefix_lister_standalone_filters_exactly() {
    let inner = EntryLister::new(vec![
        file_entry("ab1"),
        file_entry("xy"),
        file_entry("ab2"),
    ]);
    let mut l = PrefixLister::new(inner, "ab");
    let paths = collect_paths(&mut l);
    assert_eq!(paths, vec![String::from("ab1"), String::from("ab2")]);
}

#[test]
fn reader_exact_size_succeeds_on_terminal_read() {
    let inner = ChunkReader::new(vec![vec![1u8, 2, 3], vec![4u8, 5]]);
    let mut r = CompleteReader::new(inner, Some(5));
    assert_eq!(r.read().unwrap(), vec![1u8, 2, 3]);
    assert_eq!(r.read().unwrap(), vec![4u8, 5]);
    let terminal = r.read().unwrap();
    assert!(terminal.is_empty());
}

#[test]
fn reader_too_little_fails_only_on_terminal_read() {
    let inner = ChunkReader::new(vec![vec![1u8, 2, 3]]);
    let mut r = CompleteReader::new(inner, Some(9));
    assert_eq!(r.read().unwrap(), vec![1u8, 2, 3]);
    let e = r.read().unwrap_err();
    assert_eq!(e.kind, ErrorKind::Unexpected);
    assert_eq!(e.message, "reader got too little data");
    assert_eq!(e.expect, Some(9));
    assert_eq!(e.actual, Some(3));
}

#[test]
fn reader_over_read_fails_with_too_much_data() {
    let inner = ChunkReader::new(vec![vec![0u8; 8]]);
    let mut r = CompleteReader::new(inner, Some(5));
    assert_eq!(r.read().unwrap().len(), 8);
    let e = r.read().unwrap_err();
    assert_eq!(e.kind, ErrorKind::Unexpected);
    assert_eq!(e.message, "reader got too much data");
    assert_eq!(e.expect, Some(5));
    assert_eq!(e.actual, Some(8));
}

#[test]
fn reader_without_expected_size_checks_nothing() {
    let inner = ChunkReader::new(vec![vec![7u8]]);
    let mut r = CompleteReader::new(inner, None);
    assert_eq!(r.read().unwrap(), vec![7u8]);
    assert!(r.read().unwrap().is_empty());
}

#[test]
fn completed_read_wraps_stream_with_range_size() {
    let mut c = cap_none();
    c.read = true;
    let mut inner = accessor(c, Vec::new());
    inner.chunks = vec![vec![9u8, 9]];
    let acc = CompleteLayer.layer(inner);
    let mut r = acc.read("f", OpRead::new(Some(2))).unwrap();
    assert_eq!(r.read().unwrap(), vec![9u8, 9]);
    assert!(r.read().unwrap().is_empty());
}

fn writer_with_close_meta(content_length: u64, append: bool) -> CompleteWriter<MemoryWriter> {
    let inner = MemoryWriter {
        meta: Metadata::new(EntryMode::FILE).with_content_length(content_length),
        fail_close: None,
    };
    CompleteWriter::new(inner, append)
}

#[test]
fn writer_exact_length_closes_successfully() {
    let mut w = writer_with_close_meta(4, false);
    w.write(vec![1u8, 2, 3, 4]).unwrap();
    let m = w.close().unwrap();
    assert_eq!(m.content_length, 4);
}

#[test]
fn writer_too_little_fails_and_close_can_be_retried() {
    let mut w = writer_with_close_meta(10, false);
    w.write(vec![0u8; 7]).unwrap();
    let e = w.close().unwrap_err();
    assert_eq!(e.kind, ErrorKind::Unexpected);
    assert_eq!(e.message, "writer got too little data");
    assert_eq!(e.expect, Some(10));
    assert_eq!(e.actual, Some(7));
    // the inner sink is still held: a retried close runs the same check
    let e2 = w.close().unwrap_err();
    assert_eq!(e2.message, "writer got too little data");
    assert_eq!(e2.expect, Some(10));
    assert_eq!(e2.actual, Some(7));
}

#[test]
fn writer_too_much_fails_on_close() {
    let mut w = writer_with_close_meta(2, false);
    w.write(vec![0u8; 3]).unwrap();
    let e = w.close().unwrap_err();
    assert_eq!(e.message, "writer got too much data");
    assert_eq!(e.expect, Some(2));
    assert_eq!(e.actual, Some(3));
}

#[test]
fn append_writer_never_length_checks() {
    let mut w = writer_with_close_meta(10, true);
    w.write(vec![0u8; 3]).unwrap();
    let m = w.close().unwrap();
    assert_eq!(m.content_length, 10);
}

#[test]
fn writer_zero_content_length_is_replaced_by_byte_count() {
    let mut w = writer_with_close_meta(0, false);
    w.write(vec![0u8; 5]).unwrap();
    let m = w.close().unwrap();
    assert_eq!(m.content_length, 5);
}

#[test]
fn writer_operations_after_close_fail_without_touching_inner() {
    let mut w = writer_with_close_meta(1, false);
    w.write(vec![0u8]).unwrap();
    w.close().unwrap();
    let e = w.write(vec![0u8]).unwrap_err();
    assert_eq!(e.kind, ErrorKind::Unexpected);
    assert_eq!(e.message, "writer has been closed or aborted");
    let e = w.close().unwrap_err();
    assert_eq!(e.message, "writer has been closed or aborted");
    let e = w.abort().unwrap_err();
    assert_eq!(e.message, "writer has been closed or aborted");
}

#[test]
fn writer_operations_after_abort_fail() {
    let mut w = writer_with_close_meta(1, false);
    w.abort().unwrap();
    let e = w.write(vec![0u8]).unwrap_err();
    assert_eq!(e.message, "writer has been closed or aborted");
    let e = w.close().unwrap_err();
    assert_eq!(e.message, "writer has been closed or aborted");
}

#[test]
fn failed_inner_close_leaves_writer_open() {
    let inner = MemoryWriter {
        meta: Metadata::new(EntryMode::FILE),
        fail_close: Some(complete_layer::types::Error::new(
            ErrorKind::Unexpected,
            "inner close failed",
        )),
    };
    let mut w = CompleteWriter::new(inner, false);
    let e = w.close().unwrap_err();
    assert_eq!(e.message, "inner close failed");
    // still open: an abort is accepted afterwards
    w.abort().unwrap();
}

#[test]
fn delete_and_presign_delegate_unchanged() {
    let mut c = cap_none();
    c.delete = true;
    c.presign = true;
    let acc = CompleteLayer.layer(accessor(c, Vec::new()));
    assert!(acc.delete().is_ok());
    assert!(acc.presign("f", complete_layer::access::OpPresign::new()).is_ok());
    assert!(acc.inner().cap.presign);
}

#[test]
fn completed_write_wraps_sink_with_append_flag() {
    let mut c = cap_none();
    c.write = true;
    let mut inner = accessor(c, Vec::new());
    inner.writer_meta = Metadata::new(EntryMode::FILE).with_content_length(1);
    let acc = CompleteLayer.layer(inner);
    let mut w = acc.write("f", OpWrite::new()).unwrap();
    w.write(vec![3u8]).unwrap();
    let m = w.close().unwrap();
    assert_eq!(m.content_length, 1);
}
