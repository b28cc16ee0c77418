use cli::agt::AgtProvider;
use cli::clickhouse::ClickhouseProvider;
use cli::manager::Provider;
use cli::s3fs::S3fsProvider;
use cli::{BinaryInfoProvider, SystemTarget};

const TARGETS: [SystemTarget; 3] = [
    SystemTarget::MacOsAarch64,
    SystemTarget::MacOsX86_64,
    SystemTarget::LinuxX86_64,
];

#[test]
fn test_agt_provider_info() {
    let provider = AgtProvider::new();
    assert_eq!(provider.name(), "agt");
    assert_eq!(provider.local_name(), "agt");
    assert_eq!(provider.version_args(), &["--version"]);
}

#[test]
fn test_agt_version_parsing() {
    let provider = AgtProvider::new();

    let output = "agt v0.0.22";
    let version = provider.parse_version_output(output);
    assert_eq!(version, Some("agt v0.0.22".to_string()));

    let output_with_extra = "agt v0.0.22\nSome extra info";
    let version = provider.parse_version_output(output_with_extra);
    assert_eq!(version, Some("agt v0.0.22".to_string()));

    let empty_output = "";
    let version = provider.parse_version_output(empty_output);
    assert_eq!(version, None);
}

#[test]
fn test_agt_download_urls() {
    let provider = AgtProvider::new();

    let macos_arm_url = provider.get_download_url(&SystemTarget::MacOsAarch64);
    assert!(macos_arm_url.contains("agt_0.0.22_darwin_arm64"));
    assert!(macos_arm_url.contains("github.com/agnosticeng/agt"));

    let macos_x86_url = provider.get_download_url(&SystemTarget::MacOsX86_64);
    assert!(macos_x86_url.contains("agt_0.0.22_darwin_amd64_v1"));

    let linux_url = provider.get_download_url(&SystemTarget::LinuxX86_64);
    assert!(linux_url.contains("agt_0.0.22_linux_amd64_v1"));

    for url in [&macos_arm_url, &macos_x86_url, &linux_url] {
        assert!(url.contains("releases/download/v0.0.22"));
    }
}

#[test]
fn test_clickhouse_provider_info() {
    let provider = ClickhouseProvider::new();
    assert_eq!(provider.name(), "ClickHouse");
    assert_eq!(provider.local_name(), "clickhouse");
    assert_eq!(provider.version_args(), &["--version"]);
}

#[test]
fn test_clickhouse_version_parsing() {
    let provider = ClickhouseProvider::new();

    let output = "ClickHouse client version 23.8.1.1";
    let version = provider.parse_version_output(output);
    assert_eq!(version, Some("ClickHouse client version 23.8.1.1".to_string()));

    let output_with_extra = "Some other text\nClickHouse server version 24.1.0.0\nMore text";
    let version = provider.parse_version_output(output_with_extra);
    assert_eq!(version, Some("ClickHouse server version 24.1.0.0".to_string()));

    let output_no_version = "Some help text without version info";
    let version = provider.parse_version_output(output_no_version);
    assert_eq!(version, None);
}

#[test]
fn test_clickhouse_download_urls() {
    let provider = ClickhouseProvider::new();

    let macos_arm_url = provider.get_download_url(&SystemTarget::MacOsAarch64);
    assert!(macos_arm_url.contains("macos-aarch64"));
    assert!(macos_arm_url.contains("builds.clickhouse.com"));

    let macos_x86_url = provider.get_download_url(&SystemTarget::MacOsX86_64);
    assert!(macos_x86_url.contains("macos"));
    assert!(!macos_x86_url.contains("aarch64"));

    let linux_url = provider.get_download_url(&SystemTarget::LinuxX86_64);
    assert!(linux_url.contains("amd64"));
    assert!(linux_url.contains("builds.clickhouse.com"));
}

#[test]
fn test_s3fs_provider_info() {
    let provider = S3fsProvider::new();
    assert_eq!(provider.name(), "s3fs");
    assert_eq!(provider.local_name(), "s3fs");
    assert_eq!(provider.version_args(), &["--help"]);

    let target = SystemTarget::MacOsAarch64;
    let url = provider.get_download_url(&target);
    assert!(url.contains("s3fs_aarch64-apple-darwin"));
    assert!(url.contains("github.com/agnosticeng/s3fs"));
}

#[test]
fn test_s3fs_version_parsing() {
    let provider = S3fsProvider::new();
    let version = provider.parse_version_output("some help text");
    assert_eq!(version, Some("v0.0.1 (from agnosticeng/s3fs)".to_string()));
}

#[test]
fn test_s3fs_download_urls() {
    let provider = S3fsProvider::new();

    let macos_arm_url = provider.get_download_url(&SystemTarget::MacOsAarch64);
    assert!(macos_arm_url.contains("s3fs_aarch64-apple-darwin"));

    let macos_x86_url = provider.get_download_url(&SystemTarget::MacOsX86_64);
    assert!(macos_x86_url.contains("s3fs_x86_64-apple-darwin"));

    let linux_url = provider.get_download_url(&SystemTarget::LinuxX86_64);
    assert!(linux_url.contains("s3fs_x86_64-unknown-linux-gnu"));
}

#[test]
fn download_urls_are_exact_for_every_target() {
    let agt = AgtProvider::new();
    let clickhouse = ClickhouseProvider::new();
    let s3fs = S3fsProvider::new();
    assert_eq!(
        agt.get_download_url(&SystemTarget::LinuxX86_64),
        "https://github.com/agnosticeng/agt/releases/download/v0.0.22/agt_0.0.22_linux_amd64_v1"
    );
    assert_eq!(
        clickhouse.get_download_url(&SystemTarget::MacOsX86_64),
        "https://builds.clickhouse.com/master/macos/clickhouse"
    );
    assert_eq!(
        s3fs.get_download_url(&SystemTarget::MacOsX86_64),
        "https://github.com/agnosticeng/s3fs/releases/download/v0.0.1/s3fs_x86_64-apple-darwin"
    );
}

#[test]
fn every_provider_url_is_non_empty_and_names_its_asset() {
    let providers = [
        Provider::S3fs(S3fsProvider::new()),
        Provider::Clickhouse(ClickhouseProvider::new()),
        Provider::Agt(AgtProvider::new()),
    ];
    for p in providers.iter() {
        for t in TARGETS.iter() {
            let url = p.get_download_url(t);
            assert!(!url.is_empty());
            assert!(url.starts_with("https://"));
            assert!(url.ends_with(p.local_name()) || url.contains(&format!("{}_", p.local_name())));
        }
    }
}

#[test]
fn clickhouse_version_needs_its_name() {
    let provider = ClickhouseProvider::new();
    assert_eq!(provider.parse_version_output(""), None);
    assert_eq!(provider.parse_version_output("version 1.2\nother"), None);
    assert_eq!(
        provider.parse_version_output("header\r\n   ClickHouse local version 25.1  \r\nfooter\n"),
        Some("ClickHouse local version 25.1".to_string())
    );
}

#[test]
fn agt_version_needs_its_name() {
    let provider = AgtProvider::new();
    assert_eq!(provider.parse_version_output("  agt v1.0.0 \r\nmore"), Some("agt v1.0.0".to_string()));
    assert_eq!(provider.parse_version_output("\nagt v1.0.0"), Some("agt v1.0.0".to_string()));
    assert_eq!(provider.parse_version_output("usage: help text"), None);
    assert_eq!(provider.parse_version_output("header\n\tagt v2 \nfooter"), Some("agt v2".to_string()));
}

#[test]
fn registry_provider_dispatches_to_its_binary() {
    let p = Provider::Clickhouse(ClickhouseProvider::new());
    assert_eq!(p.name(), "ClickHouse");
    assert_eq!(p.local_name(), "clickhouse");
    assert_eq!(p.version_args(), &["--version"]);
    let q = Provider::S3fs(S3fsProvider::new());
    assert_eq!(q.version_args(), &["--help"]);
    assert_eq!(q.parse_version_output(""), None);
    assert_eq!(q.parse_version_output("usage"), Some("v0.0.1 (from agnosticeng/s3fs)".to_string()));
}
