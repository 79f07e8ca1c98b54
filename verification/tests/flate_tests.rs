use m_core::effect::{ArchiveFormat, FsRequest, PathFacts, PathKind, Step, ToolCommand};
use m_core::flate::{
    compress_7z_dir_external, compress_7z_dir_internal, compress_dir_to_7z, decompress_7z_to_dir,
    decompress_7z_to_dir_external, is_7z_in_path, is_directory_entry, PackLog, UnpackLog,
};

fn strings(items: &[&str]) -> Vec<String> {
    items.iter().map(|s| s.to_string()).collect()
}

#[test]
fn probe_command_asks_for_help() {
    assert_eq!(
        is_7z_in_path(),
        ToolCommand { program: "7z".to_string(), args: strings(&["--help"]), dir: None }
    );
}

#[test]
fn pack_command_without_password_at_default_level() {
    assert_eq!(
        compress_7z_dir_external("in/dir", "out/a.7z", &None, None),
        ToolCommand {
            program: "7z".to_string(),
            args: strings(&["a", "-mx=5", "out/a.7z", "*"]),
            dir: Some("in/dir".to_string()),
        }
    );
}

#[test]
fn pack_command_with_password_and_level() {
    assert_eq!(
        compress_7z_dir_external("in", "a.7z", &Some("中文密码".to_string()), Some(9)),
        ToolCommand {
            program: "7z".to_string(),
            args: strings(&["a", "-mx=9", "-p中文密码", "a.7z", "*"]),
            dir: Some("in".to_string()),
        }
    );
    assert_eq!(compress_7z_dir_external("in", "a.7z", &None, Some(0)).args[1], "-mx=0");
    assert_eq!(compress_7z_dir_external("in", "a.7z", &None, Some(12)).args[1], "-mx=12");
}

#[test]
fn pack_in_process_request() {
    assert_eq!(
        compress_7z_dir_internal("in", "a.7z", &Some("pw".to_string()), None),
        FsRequest::Compress {
            dir: "in".to_string(),
            archive: "a.7z".to_string(),
            password: Some("pw".to_string()),
            level: 5,
        }
    );
    assert_eq!(
        compress_7z_dir_internal("in", "a.7z", &None, Some(3)),
        FsRequest::Compress { dir: "in".to_string(), archive: "a.7z".to_string(), password: None, level: 3 }
    );
}

#[test]
fn unpack_command() {
    assert_eq!(
        decompress_7z_to_dir_external("a.7z", "out dir", &None),
        ToolCommand {
            program: "7z".to_string(),
            args: strings(&["x", "a.7z", "-oout dir", "-aoa"]),
            dir: None,
        }
    );
    assert_eq!(
        decompress_7z_to_dir_external("a.7z", "out", &Some("pw".to_string())).args,
        strings(&["x", "a.7z", "-oout", "-aoa", "-ppw"])
    );
}

#[test]
fn packing_uses_the_tool_where_it_is_there() {
    let mut log = PackLog::new();
    assert_eq!(
        compress_dir_to_7z("in", "a.7z", &None, None, &log).requests(),
        Step::Need(FsRequest::ProbeTool(is_7z_in_path()))
    );
    log.tool = Some(true);
    assert_eq!(
        compress_dir_to_7z("in", "a.7z", &None, None, &log).requests(),
        Step::Need(FsRequest::RunTool(compress_7z_dir_external("in", "a.7z", &None, None)))
    );
    log.outcome = Some(Ok(()));
    assert_eq!(compress_dir_to_7z("in", "a.7z", &None, None, &log).requests(), Step::Done(Ok(())));
    log.outcome = Some(Err("Fail in 7z command exec: x".to_string()));
    assert_eq!(
        compress_dir_to_7z("in", "a.7z", &None, None, &log).requests(),
        Step::Done(Err("Fail in 7z command exec: x".to_string()))
    );
}

#[test]
fn packing_runs_in_process_without_the_tool() {
    let mut log = PackLog::new();
    log.tool = Some(false);
    assert_eq!(
        compress_dir_to_7z("in", "a.7z", &Some("中文密码".to_string()), Some(9), &log).requests(),
        Step::Need(FsRequest::Compress {
            dir: "in".to_string(),
            archive: "a.7z".to_string(),
            password: Some("中文密码".to_string()),
            level: 9,
        })
    );
    log.outcome = Some(Ok(()));
    assert_eq!(
        compress_dir_to_7z("in", "a.7z", &Some("中文密码".to_string()), Some(9), &log).requests(),
        Step::Done(Ok(()))
    );
}

#[test]
fn unpacking_with_the_tool_creates_the_output_directory() {
    let mut log = UnpackLog::new();
    assert_eq!(
        decompress_7z_to_dir("a.7z", "out", &None, &log).requests(),
        Step::Need(FsRequest::ProbeTool(is_7z_in_path()))
    );
    log.tool = Some(true);
    assert_eq!(
        decompress_7z_to_dir("a.7z", "out", &None, &log).requests(),
        Step::Need(FsRequest::Inspect("out".to_string()))
    );
    log.dest = Some(PathFacts { kind: PathKind::Missing, extension: None });
    assert_eq!(
        decompress_7z_to_dir("a.7z", "out", &None, &log).requests(),
        Step::Need(FsRequest::CreateDirAll("out".to_string()))
    );
    log.created = Some(Err("denied".to_string()));
    assert_eq!(decompress_7z_to_dir("a.7z", "out", &None, &log).requests(), Step::Done(Err("denied".to_string())));
    log.created = Some(Ok(()));
    assert_eq!(
        decompress_7z_to_dir("a.7z", "out", &None, &log).requests(),
        Step::Need(FsRequest::RunTool(decompress_7z_to_dir_external("a.7z", "out", &None)))
    );
    log.outcome = Some(Ok(()));
    assert_eq!(decompress_7z_to_dir("a.7z", "out", &None, &log).requests(), Step::Done(Ok(())));
}

#[test]
fn unpacking_in_process() {
    let mut log = UnpackLog::new();
    log.tool = Some(false);
    assert_eq!(
        decompress_7z_to_dir("a.7z", "out", &Some("pw".to_string()), &log).requests(),
        Step::Need(FsRequest::Extract {
            format: ArchiveFormat::SevenZip,
            archive: "a.7z".to_string(),
            dest: "out".to_string(),
            password: Some("pw".to_string()),
        })
    );
    log.outcome = Some(Err("bad".to_string()));
    assert_eq!(
        decompress_7z_to_dir("a.7z", "out", &Some("pw".to_string()), &log).requests(),
        Step::Done(Err("bad".to_string()))
    );
}

#[test]
fn zip_entries_that_end_in_a_slash_are_directories() {
    assert!(is_directory_entry("dir/"));
    assert!(is_directory_entry("a/b/"));
    assert!(is_directory_entry("/"));
    assert!(!is_directory_entry("dir/file.txt"));
    assert!(!is_directory_entry("file"));
    assert!(!is_directory_entry(""));
    assert!(!is_directory_entry("目录"));
    assert!(is_directory_entry("目录/"));
}
