//! Whole scans, driven step by step with the answers a file system would give.

use ipc_scan::components::split_components;
use ipc_scan::error::ResolutionError;
use ipc_scan::options::{HiveOptions, IpcScanOptions, ScanArgsIpc};
use ipc_scan::plan::LazyFrame;
use ipc_scan::scan::{Expansion, LazyIpcReader, ScanStep};
use polars_io::cloud::CloudOptions;
use polars_io::RowIndex;

fn strings(paths: &[&str]) -> Vec<String> {
    paths.iter().map(|p| p.to_string()).collect()
}

fn found(paths: &[&str]) -> Expansion {
    Expansion { paths: strings(paths), hive_start_idx: None }
}

fn reader_of(step: ScanStep) -> LazyIpcReader {
    match step {
        ScanStep::Expand(reader) => reader,
        other => panic!("expected a request for expansion, got {:?}", other),
    }
}

fn frame_of(step: ScanStep) -> LazyFrame {
    match step {
        ScanStep::Done(Ok(lf)) => lf,
        other => panic!("expected a finished scan, got {:?}", other),
    }
}

fn hive(lf: &LazyFrame) -> HiveOptions {
    lf.logical_plan.file_options.hive_options
}

#[test]
fn directory_with_partition_below_is_partitioned() {
    let file = "/data/events/date=2024-01-01/part-0.ipc";
    let reader = reader_of(LazyFrame::scan_ipc("/data/events", ScanArgsIpc::default()));
    assert!(!reader.discover_partitions());
    let lf = frame_of(reader.expanded(Ok(found(&[file]))));
    assert_eq!(hive(&lf), HiveOptions { enabled: Some(true), hive_start_idx: Some(2) });
    assert_eq!(lf.logical_plan.paths, strings(&[file]));
    let parts = split_components(file.as_bytes());
    assert_eq!(parts[2], b"date=2024-01-01".to_vec());
}

#[test]
fn literal_file_is_not_partitioned() {
    let reader = reader_of(LazyFrame::scan_ipc("/data/single.ipc", ScanArgsIpc::default()));
    let step = reader.expanded(Ok(found(&["/data/single.ipc"])));
    let probe = match step {
        ScanStep::CheckDirectory(probe) => probe,
        other => panic!("expected a directory check, got {:?}", other),
    };
    assert_eq!(probe.path(), "/data/single.ipc");
    let lf = probe.checked(false);
    assert_eq!(hive(&lf), HiveOptions { enabled: Some(false), hive_start_idx: None });
    assert_eq!(lf.logical_plan.paths, strings(&["/data/single.ipc"]));
}

#[test]
fn glob_with_single_match_is_not_partitioned() {
    let reader = reader_of(LazyFrame::scan_ipc("/data/*.ipc", ScanArgsIpc::default()));
    let lf = frame_of(reader.expanded(Ok(found(&["/data/a.ipc"]))));
    assert_eq!(hive(&lf), HiveOptions { enabled: Some(false), hive_start_idx: None });
    assert_eq!(lf.logical_plan.paths, strings(&["/data/a.ipc"]));
}

#[test]
fn directory_with_several_files_starts_below_the_directory() {
    let files = [
        "/warehouse/sales/year=2023/month=01/a.ipc",
        "/warehouse/sales/year=2023/month=02/b.ipc",
        "/warehouse/sales/year=2024/month=01/c.ipc",
    ];
    let reader = reader_of(LazyFrame::scan_ipc("/warehouse/sales", ScanArgsIpc::default()));
    let lf = frame_of(reader.expanded(Ok(found(&files))));
    assert_eq!(hive(&lf), HiveOptions { enabled: Some(true), hive_start_idx: Some(2) });
    assert_eq!(lf.logical_plan.paths, strings(&files));
}

#[test]
fn deeply_nested_literal_file_is_not_partitioned() {
    let file = "/a/b/c/d/e/f/year=2024/g.ipc";
    let reader = reader_of(LazyFrame::scan_ipc(file, ScanArgsIpc::default()));
    let step = reader.expanded(Ok(found(&[file])));
    let lf = match step {
        ScanStep::CheckDirectory(probe) => probe.checked(false),
        other => panic!("expected a directory check, got {:?}", other),
    };
    assert_eq!(hive(&lf), HiveOptions { enabled: Some(false), hive_start_idx: None });
}

#[test]
fn directory_that_resolves_to_itself_is_partitioned_on_a_yes() {
    let reader = reader_of(LazyFrame::scan_ipc("/data/events", ScanArgsIpc::default()));
    let step = reader.expanded(Ok(found(&["/data/events"])));
    let lf = match step {
        ScanStep::CheckDirectory(probe) => {
            assert_eq!(probe.path(), "/data/events");
            probe.checked(true)
        },
        other => panic!("expected a directory check, got {:?}", other),
    };
    assert_eq!(hive(&lf), HiveOptions { enabled: Some(true), hive_start_idx: Some(2) });
}

#[test]
fn same_path_in_other_spelling_asks_for_the_directory() {
    let reader = reader_of(LazyFrame::scan_ipc("/data//single.ipc", ScanArgsIpc::default()));
    let step = reader.expanded(Ok(found(&["/data/single.ipc"])));
    let lf = match step {
        ScanStep::CheckDirectory(probe) => probe.checked(false),
        other => panic!("expected a directory check, got {:?}", other),
    };
    assert_eq!(hive(&lf), HiveOptions { enabled: Some(false), hive_start_idx: None });
}

#[test]
fn remote_prefix_is_partitioned() {
    let reader = reader_of(LazyFrame::scan_ipc("s3://bucket/prefix", ScanArgsIpc::default()));
    let lf = frame_of(reader.expanded(Ok(found(&["s3://bucket/prefix/a=1/f.ipc"]))));
    assert_eq!(hive(&lf), HiveOptions { enabled: Some(true), hive_start_idx: Some(3) });
}

#[test]
fn remote_literal_file_is_decided_without_a_directory_check() {
    let reader = reader_of(LazyFrame::scan_ipc("s3://bucket/f.ipc", ScanArgsIpc::default()));
    let lf = frame_of(reader.expanded(Ok(found(&["s3://bucket/f.ipc"]))));
    assert_eq!(hive(&lf), HiveOptions { enabled: Some(false), hive_start_idx: None });
}

#[test]
fn empty_expansion_is_not_partitioned() {
    let reader = reader_of(LazyFrame::scan_ipc("/data/empty", ScanArgsIpc::default()));
    let lf = frame_of(reader.expanded(Ok(found(&[]))));
    assert_eq!(hive(&lf), HiveOptions { enabled: Some(false), hive_start_idx: None });
    assert!(lf.logical_plan.paths.is_empty());
}

#[test]
fn explicit_true_on_literal_file_is_kept() {
    let mut args = ScanArgsIpc::default();
    args.hive_options.enabled = Some(true);
    let reader = reader_of(LazyFrame::scan_ipc("/data/single.ipc", args));
    assert!(reader.discover_partitions());
    let lf = frame_of(reader.expanded(Ok(found(&["/data/single.ipc"]))));
    assert_eq!(hive(&lf), HiveOptions { enabled: Some(true), hive_start_idx: Some(2) });
}

#[test]
fn explicit_true_keeps_the_index_of_the_expansion() {
    let mut args = ScanArgsIpc::default();
    args.hive_options.enabled = Some(true);
    let reader = reader_of(LazyFrame::scan_ipc("/data/events", args));
    let expansion = Expansion {
        paths: strings(&["/data/events/date=2024-01-01/part-0.ipc"]),
        hive_start_idx: Some(7),
    };
    let lf = frame_of(reader.expanded(Ok(expansion)));
    assert_eq!(hive(&lf), HiveOptions { enabled: Some(true), hive_start_idx: Some(7) });
}

#[test]
fn explicit_false_on_directory_is_kept() {
    let mut args = ScanArgsIpc::default();
    args.hive_options.enabled = Some(false);
    let reader = reader_of(LazyFrame::scan_ipc("/data/events", args));
    assert!(!reader.discover_partitions());
    let expansion = Expansion {
        paths: strings(&["/data/events/date=2024-01-01/part-0.ipc"]),
        hive_start_idx: Some(2),
    };
    let lf = frame_of(reader.expanded(Ok(expansion)));
    assert_eq!(hive(&lf), HiveOptions { enabled: Some(false), hive_start_idx: None });
}

#[test]
fn start_index_given_by_the_caller_is_ignored() {
    let mut args = ScanArgsIpc::default();
    args.hive_options.hive_start_idx = Some(99);
    let reader = reader_of(LazyFrame::scan_ipc("/data/*.ipc", args.clone()));
    let lf = frame_of(reader.expanded(Ok(found(&["/data/a.ipc"]))));
    assert_eq!(hive(&lf), HiveOptions { enabled: Some(false), hive_start_idx: None });
    let reader = reader_of(LazyFrame::scan_ipc("/data", args));
    let lf = frame_of(reader.expanded(Ok(found(&["/data/k=1/a.ipc"]))));
    assert_eq!(hive(&lf), HiveOptions { enabled: Some(true), hive_start_idx: Some(1) });
}

#[test]
fn scan_of_no_files_fails() {
    let step = LazyFrame::scan_ipc_files(Vec::new(), ScanArgsIpc::default());
    assert_eq!(step, ScanStep::Done(Err(ResolutionError::NoPaths)));
}

#[test]
fn reader_without_paths_fails_at_every_step() {
    let reader = LazyIpcReader::new(ScanArgsIpc::default());
    assert!(reader.paths().is_empty());
    assert_eq!(reader.clone().finish(), ScanStep::Done(Err(ResolutionError::NoPaths)));
    assert_eq!(
        reader.clone().expanded(Ok(found(&["/data/a.ipc"]))),
        ScanStep::Done(Err(ResolutionError::NoPaths))
    );
    assert_eq!(
        reader.expanded(Err(ResolutionError::NotFound("x".to_string()))),
        ScanStep::Done(Err(ResolutionError::NoPaths))
    );
}

#[test]
fn several_files_are_not_partitioned_unless_asked() {
    let inputs = strings(&["/data/k=1/a.ipc", "/data/k=2/b.ipc"]);
    let reader = reader_of(LazyFrame::scan_ipc_files(inputs.clone(), ScanArgsIpc::default()));
    assert_eq!(reader.paths(), &inputs);
    let lf = frame_of(reader.expanded(Ok(found(&["/data/k=1/a.ipc", "/data/k=2/b.ipc"]))));
    assert_eq!(hive(&lf), HiveOptions { enabled: Some(false), hive_start_idx: None });

    let mut args = ScanArgsIpc::default();
    args.hive_options.enabled = Some(true);
    let reader = reader_of(LazyFrame::scan_ipc_files(inputs, args));
    let lf = frame_of(reader.expanded(Ok(found(&["/data/k=1/a.ipc", "/data/k=2/b.ipc"]))));
    assert_eq!(hive(&lf), HiveOptions { enabled: Some(true), hive_start_idx: Some(1) });
}

#[test]
fn missing_path_is_reported_unchanged() {
    let reader = reader_of(LazyFrame::scan_ipc("/data/missing.ipc", ScanArgsIpc::default()));
    let error = ResolutionError::NotFound("/data/missing.ipc".to_string());
    assert_eq!(reader.expanded(Err(error.clone())), ScanStep::Done(Err(error)));
}

#[test]
fn glob_without_match_is_reported_unchanged() {
    let reader = reader_of(LazyFrame::scan_ipc("/data/*.ipc", ScanArgsIpc::default()));
    let error = ResolutionError::NoMatch("/data/*.ipc".to_string());
    assert_eq!(reader.expanded(Err(error.clone())), ScanStep::Done(Err(error)));
}

#[test]
fn failed_listing_is_reported_unchanged() {
    let reader = reader_of(LazyFrame::scan_ipc("s3://bucket/prefix", ScanArgsIpc::default()));
    let error = ResolutionError::Listing("access denied".to_string());
    assert_eq!(reader.expanded(Err(error.clone())), ScanStep::Done(Err(error)));
}

#[test]
fn arguments_reach_the_scan_node() {
    let mut cloud = CloudOptions::default();
    cloud.max_retries = 5;
    let row_index = RowIndex { name: "row".into(), offset: 10 };
    let args = ScanArgsIpc {
        n_rows: Some(100),
        cache: false,
        rechunk: true,
        row_index: Some(row_index.clone()),
        memory_map: false,
        cloud_options: Some(cloud.clone()),
        hive_options: HiveOptions { enabled: Some(false), hive_start_idx: None },
    };
    let reader = reader_of(LazyFrame::scan_ipc("/data/a.ipc", args));
    assert_eq!(reader.cloud_options(), Some(&cloud));
    let lf = frame_of(reader.expanded(Ok(found(&["/data/a.ipc"]))));
    let node = &lf.logical_plan;
    assert_eq!(node.options, IpcScanOptions { memory_map: false });
    assert_eq!(node.file_options.n_rows, Some(100));
    assert!(!node.file_options.cache);
    assert!(node.file_options.rechunk);
    assert_eq!(node.file_options.row_index, Some(row_index));
    assert_eq!(node.cloud_options, Some(cloud));
    assert!(lf.opt_state.file_caching);
}

#[test]
fn default_arguments_reach_the_scan_node() {
    let reader = reader_of(LazyFrame::scan_ipc("/data/*.ipc", ScanArgsIpc::default()));
    let lf = frame_of(reader.expanded(Ok(found(&["/data/a.ipc"]))));
    let node = &lf.logical_plan;
    assert_eq!(node.options, IpcScanOptions { memory_map: true });
    assert_eq!(node.file_options.n_rows, None);
    assert!(node.file_options.cache);
    assert!(!node.file_options.rechunk);
    assert_eq!(node.file_options.row_index, None);
    assert_eq!(node.cloud_options, None);
    assert!(lf.opt_state.file_caching);
}

#[test]
fn same_scan_twice_gives_the_same_plan() {
    let run = || {
        let reader = reader_of(LazyFrame::scan_ipc("/data/events", ScanArgsIpc::default()));
        frame_of(reader.expanded(Ok(found(&[
            "/data/events/date=2024-01-01/part-0.ipc",
            "/data/events/date=2024-01-02/part-0.ipc",
        ]))))
    };
    let first = run();
    let second = run();
    assert_eq!(first, second);
    assert_eq!(first.logical_plan.paths, second.logical_plan.paths);
    assert_eq!(hive(&first), hive(&second));
}

#[test]
fn finished_scan_has_an_index_exactly_when_enabled() {
    let cases: [(&str, &[&str]); 4] = [
        ("/data/events", &["/data/events/k=1/a.ipc"]),
        ("/data/*.ipc", &["/data/a.ipc"]),
        ("s3://bucket/f.ipc", &["s3://bucket/f.ipc"]),
        ("/data/empty", &[]),
    ];
    for (input, files) in cases {
        for requested in [None, Some(true), Some(false)] {
            let mut args = ScanArgsIpc::default();
            args.hive_options.enabled = requested;
            let reader = reader_of(LazyFrame::scan_ipc(input, args));
            let lf = match reader.expanded(Ok(found(files))) {
                ScanStep::Done(Ok(lf)) => lf,
                ScanStep::CheckDirectory(probe) => probe.checked(true),
                other => panic!("unexpected step {:?}", other),
            };
            let options = hive(&lf);
            assert!(options.enabled.is_some());
            assert_eq!(options.hive_start_idx.is_some(), options.enabled == Some(true));
        }
    }
}
