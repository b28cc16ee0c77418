use std::io::Write;
use std::path::Path;

use cli::manager::{check_ready, lookup_provider, version_from_output};
use cli::{
    get_all_status, get_binaries_status, get_binary_info, get_binary_path, get_provider_binary_path,
    is_binary_ready, registry, BinaryError, BinaryInfo, BinaryInfoProvider, FileStat, ProviderRegistry,
};
use tempfile::TempDir;

fn dir_text(p: &Path) -> String {
    p.to_str().unwrap().to_string()
}

/// What the file system reports for each registered binary's path; these tests
/// only look at directories where none of them exists.
fn absent_stats(bin_dir: &str) -> Vec<Option<FileStat>> {
    registry()
        .binary_paths(bin_dir)
        .iter()
        .map(|p| {
            assert!(!Path::new(p).exists());
            None
        })
        .collect()
}

#[test]
fn test_binary_info_creation() {
    let temp_dir = TempDir::new().unwrap();
    let path = temp_dir.path().join("test_binary");
    let stat = if path.exists() { panic!("fresh directory") } else { None };

    let info = BinaryInfo::from_path("test".to_string(), dir_text(&path), stat);
    assert_eq!(info.name, "test");
    assert!(!info.exists);
    assert!(!info.executable);
    assert!(!info.is_ready());
}

#[test]
fn manager_test_get_binary_path() {
    let temp_dir = TempDir::new().unwrap();
    let bin_path = get_binary_path(&dir_text(temp_dir.path()), "s3fs");
    assert!(bin_path.ends_with("s3fs"));
}

#[test]
fn mod_test_get_binary_path() {
    let temp_dir = TempDir::new().unwrap();
    let bin_path = get_binary_path(&dir_text(temp_dir.path()), "s3fs");
    assert!(bin_path.ends_with("s3fs"));
}

#[test]
fn provider_paths_use_the_file_name() {
    let ch = cli::ClickhouseProvider::new();
    assert_eq!(get_provider_binary_path(&ch, "/opt/bin"), "/opt/bin/clickhouse");
    let info = get_binary_info(&ch, "/opt/bin", Some(FileStat { mode: 0o700, len: 9 }));
    assert_eq!(info.name, "ClickHouse");
    assert_eq!(info.path, "/opt/bin/clickhouse");
    assert!(info.is_ready());
}

#[test]
fn binary_paths_join_like_the_platform() {
    assert_eq!(get_binary_path("/opt/bin", "s3fs"), "/opt/bin/s3fs");
    assert_eq!(get_binary_path("/opt/bin/", "s3fs"), "/opt/bin/s3fs");
    assert_eq!(get_binary_path("", "s3fs"), "s3fs");
    assert_eq!(get_binary_path("/opt/bin", "/usr/bin/s3fs"), "/usr/bin/s3fs");
    for (dir, name) in [("/opt/bin", "s3fs"), ("/opt/bin/", "agt"), ("rel", "x")] {
        assert_eq!(get_binary_path(dir, name), Path::new(dir).join(name).to_str().unwrap());
    }
}

#[test]
fn test_registry_creation() {
    let registry = ProviderRegistry::new();
    let dir = dir_text(TempDir::new().unwrap().path());
    assert_eq!(registry.get_all_status(&dir, &absent_stats(&dir)).len(), 3);
}

#[test]
fn test_get_all_status() {
    let temp_dir = TempDir::new().unwrap();
    let bin_dir = dir_text(temp_dir.path());

    let statuses = get_all_status(&bin_dir, &absent_stats(&bin_dir));
    assert_eq!(statuses.len(), 3);

    let names: Vec<&String> = statuses.iter().map(|s| &s.name).collect();
    assert!(names.contains(&&"s3fs".to_string()));
    assert!(names.contains(&&"ClickHouse".to_string()));
    assert!(names.contains(&&"agt".to_string()));
}

#[test]
fn test_get_binaries_status() {
    let temp_dir = TempDir::new().unwrap();
    let bin_dir = dir_text(temp_dir.path());

    let binaries = get_binaries_status(&bin_dir, &absent_stats(&bin_dir));
    assert_eq!(binaries.len(), 3);

    let names: Vec<&String> = binaries.iter().map(|b| &b.name).collect();
    assert!(names.contains(&&"s3fs".to_string()));
    assert!(names.contains(&&"ClickHouse".to_string()));
    assert!(names.contains(&&"agt".to_string()));
}

#[test]
fn test_binary_info_direct() {
    let temp_dir = TempDir::new().unwrap();
    let bin_dir = dir_text(temp_dir.path());

    let registry = registry();
    let provider = registry.get_provider("s3fs").unwrap();
    let info = get_binary_info(provider, &bin_dir, None);
    assert_eq!(info.name, "s3fs");
    assert!(info.path.ends_with("s3fs"));
    assert!(!info.exists);
    assert!(!info.executable);

    let unknown_provider = registry.get_provider("unknown");
    assert!(unknown_provider.is_none());
}

#[test]
fn lookup_by_name_is_exact() {
    let registry = registry();
    assert_eq!(registry.get_provider("ClickHouse").unwrap().local_name(), "clickhouse");
    assert!(registry.get_provider("clickhouse").is_none());
    assert!(registry.get_provider("").is_none());
    match lookup_provider(&registry, "unknown") {
        Err(e) => {
            assert_eq!(e, BinaryError::UnknownProvider { name: "unknown".to_string() });
            assert!(e.message().contains("Unknown binary provider"));
        }
        Ok(_) => panic!("no such binary"),
    }
    assert_eq!(lookup_provider(&registry, "agt").unwrap().name(), "agt");
}

#[test]
fn one_executable_binary_of_42_bytes() {
    let stats = vec![None, Some(FileStat { mode: 0o755, len: 42 }), None];
    let infos = get_binaries_status("/home/u/.agnostic/bin", &stats);
    assert_eq!(infos.len(), 3);
    let ch = &infos[1];
    assert_eq!(ch.name, "ClickHouse");
    assert_eq!(ch.path, "/home/u/.agnostic/bin/clickhouse");
    assert!(ch.exists);
    assert!(ch.executable);
    assert_eq!(ch.size, Some(42));
    assert!(ch.is_ready());
    assert!(!infos[0].is_ready());
    assert!(!infos[2].is_ready());
}

#[test]
fn executability_reads_any_execute_bit() {
    for (mode, expected) in [(0o100, true), (0o010, true), (0o001, true), (0o644, false), (0o4644, false)] {
        let stat = Some(FileStat { mode, len: 1 });
        let info = BinaryInfo::from_path("x".to_string(), "/x".to_string(), stat);
        assert_eq!(info.executable, expected);
        assert!(info.exists);
        assert_eq!(is_binary_ready(&cli::AgtProvider::new(), &stat), expected);
    }
    assert!(!is_binary_ready(&cli::AgtProvider::new(), &None));
}

#[test]
fn written_size_reads_back() {
    for n in [0usize, 1, 42, 4096] {
        let mut file = tempfile::NamedTempFile::new().unwrap();
        file.write_all(&vec![7u8; n]).unwrap();
        file.flush().unwrap();
        let len = file.as_file().metadata().unwrap().len();
        let info = BinaryInfo::from_path("x".to_string(), dir_text(file.path()), Some(FileStat { mode: 0o644, len }));
        assert_eq!(info.size, Some(n as u64));
    }
}

#[test]
fn version_text_after_a_probe() {
    let ch = cli::ClickhouseProvider::new();
    assert_eq!(version_from_output(&ch, true, "ClickHouse 24.1\n").unwrap(), "ClickHouse 24.1");
    assert_eq!(version_from_output(&ch, true, "nothing").unwrap(), "ClickHouse (version unknown)");
    let e = version_from_output(&ch, false, "ClickHouse 24.1").unwrap_err();
    assert_eq!(e.message(), "Could not determine ClickHouse version");
}

#[test]
fn only_a_ready_binary_is_run() {
    let s3fs = cli::S3fsProvider::new();
    let e = check_ready(&s3fs, "/b/s3fs", &None).unwrap_err();
    assert_eq!(e, BinaryError::NotFound { name: "s3fs".to_string(), path: "/b/s3fs".to_string() });
    assert_eq!(e.message(), "s3fs binary does not exist at: /b/s3fs");
    let e = check_ready(&s3fs, "/b/s3fs", &Some(FileStat { mode: 0o644, len: 5 })).unwrap_err();
    assert_eq!(e, BinaryError::NotExecutable { name: "s3fs".to_string(), path: "/b/s3fs".to_string() });
    assert_eq!(e.message(), "s3fs binary is not executable: /b/s3fs");
    assert_eq!(check_ready(&s3fs, "/b/s3fs", &Some(FileStat { mode: 0o755, len: 5 })), Ok(()));
}
