use cli::install::{
    after_download, after_probe, after_store, after_transfer_error, is_success_status, plan_install, DownloadProgress, InstallAction,
    InstallBatch, INSTALLED_MODE,
};
use cli::{AgtProvider, BinaryError, ClickhouseProvider, FileStat, S3fsProvider, SystemTarget};

#[test]
fn detect_accepts_the_three_pairs() {
    assert_eq!(SystemTarget::detect("macos", "aarch64"), Ok(SystemTarget::MacOsAarch64));
    assert_eq!(SystemTarget::detect("macos", "x86_64"), Ok(SystemTarget::MacOsX86_64));
    assert_eq!(SystemTarget::detect("linux", "x86_64"), Ok(SystemTarget::LinuxX86_64));
}

#[test]
fn detect_names_the_refused_pair() {
    for (os, arch) in [("linux", "aarch64"), ("windows", "x86_64"), ("freebsd", "riscv64"), ("", "")] {
        let e = SystemTarget::detect(os, arch).unwrap_err();
        assert_eq!(e, BinaryError::UnsupportedPlatform { os: os.to_string(), arch: arch.to_string() });
        let m = e.message();
        assert!(m.contains(os));
        assert!(m.contains(arch));
        assert_eq!(m, format!("Unsupported system: {} {}", os, arch));
    }
}

#[test]
fn a_ready_binary_is_not_fetched_again() {
    let p = AgtProvider::new();
    let installed = Some(FileStat { mode: INSTALLED_MODE, len: 1000 });
    assert!(matches!(plan_install(&p, &installed, false, "linux", "x86_64"), InstallAction::UseExisting));
    assert!(matches!(plan_install(&p, &installed, false, "plan9", "mips"), InstallAction::UseExisting));
    match plan_install(&p, &installed, true, "linux", "x86_64") {
        InstallAction::Fetch { url, .. } => assert!(url.ends_with("agt_0.0.22_linux_amd64_v1")),
        _ => panic!("a forced install fetches"),
    }
}

#[test]
fn a_missing_or_plain_file_is_fetched() {
    let p = ClickhouseProvider::new();
    for stat in [None, Some(FileStat { mode: 0o644, len: 10 })] {
        match plan_install(&p, &stat, false, "macos", "aarch64") {
            InstallAction::Fetch { target, url } => {
                assert_eq!(target, SystemTarget::MacOsAarch64);
                assert_eq!(url, "https://builds.clickhouse.com/master/macos-aarch64/clickhouse")
            }
            _ => panic!("the binary is fetched"),
        }
        match plan_install(&p, &stat, false, "windows", "x86_64") {
            InstallAction::Fail { error } => {
                assert_eq!(
                    error,
                    BinaryError::UnsupportedPlatform { os: "windows".to_string(), arch: "x86_64".to_string() }
                )
            }
            _ => panic!("the platform is refused"),
        }
    }
}

#[test]
fn a_not_found_download_writes_nothing() {
    let p = AgtProvider::new();
    match after_download(&p, 404) {
        InstallAction::Fail { error } => {
            assert_eq!(error, BinaryError::DownloadFailed { name: "agt".to_string(), status: 404 });
            assert_eq!(error.message(), "Failed to download agt binary: HTTP 404");
        }
        _ => panic!("a 404 fails the install"),
    }
    assert!(matches!(after_download(&p, 200), InstallAction::Store));
    assert!(matches!(after_download(&p, 299), InstallAction::Store));
    assert!(matches!(after_download(&p, 300), InstallAction::Fail { .. }));
    assert!(matches!(after_download(&p, 199), InstallAction::Fail { .. }));
    match after_transfer_error(&p, "connection reset".to_string()) {
        InstallAction::Fail { error } => {
            assert_eq!(error.message(), "Failed to download agt binary: connection reset")
        }
        _ => panic!("a broken transfer fails the install"),
    }
    assert!(is_success_status(204));
    assert!(!is_success_status(500));
}

#[test]
fn storing_then_probing() {
    let p = S3fsProvider::new();
    match after_store(&p, None) {
        InstallAction::Probe { args } => assert_eq!(args, vec!["--help"]),
        _ => panic!("a stored binary is probed"),
    }
    match after_store(&p, Some("write".to_string())) {
        InstallAction::Fail { error } => {
            assert_eq!(error, BinaryError::IoFailure { name: "s3fs".to_string(), operation: "write".to_string() });
            assert_eq!(error.message(), "Failed to store s3fs binary: write failed");
        }
        _ => panic!("a failed write fails the install"),
    }
    match after_probe(&p, true, "usage: s3fs") {
        InstallAction::Finish { verified } => assert_eq!(verified.unwrap(), "v0.0.1 (from agnosticeng/s3fs)"),
        _ => panic!("the install finishes"),
    }
    match after_probe(&p, false, "") {
        InstallAction::Finish { verified } => {
            assert_eq!(verified, Err(BinaryError::VerificationFailed { name: "s3fs".to_string() }))
        }
        _ => panic!("a failed probe still finishes the install"),
    }
}

#[test]
fn download_progress_counts_bytes() {
    let mut p = DownloadProgress::new(Some(100));
    assert!(p.is_determinate());
    p.advance(40);
    p.advance(60);
    assert_eq!(p.received, 100);
    assert_eq!(p.total, Some(100));
    let mut q = DownloadProgress::new(None);
    assert!(!q.is_determinate());
    q.advance(usize::MAX);
    q.advance(usize::MAX);
    assert_eq!(q.received, u64::MAX);
}

#[test]
fn a_batch_stops_at_the_first_failure() {
    let mut batch = InstallBatch::new();
    assert!(batch.record(Ok("/b/s3fs".to_string()), true));
    assert!(batch.record(Ok("/b/clickhouse".to_string()), false));
    assert_eq!(batch.newly_installed, 1);
    assert!(!batch.record(Err(BinaryError::DownloadFailed { name: "agt".to_string(), status: 500 }), false));
    assert_eq!(batch.finish(), Err(BinaryError::DownloadFailed { name: "agt".to_string(), status: 500 }));

    let mut all = InstallBatch::new();
    assert!(all.record(Ok("/b/s3fs".to_string()), false));
    assert!(all.record(Ok("/b/agt".to_string()), false));
    assert_eq!(all.newly_installed, 2);
    assert_eq!(all.finish(), Ok(vec!["/b/s3fs".to_string(), "/b/agt".to_string()]));
}
