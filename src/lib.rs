//! Provisioning of the external executables that the command-line tool relies on:
//! which binaries exist, where each one is fetched from on every supported platform,
//! how its version text is read, what a binary directory holds, and the steps of
//! installing one.

pub mod text;
pub mod error;
pub mod target;
pub mod provider;
pub mod agt;
pub mod clickhouse;
pub mod s3fs;
pub mod manager;
pub mod install;
pub mod status;
pub mod config;
pub mod account;
pub mod login;

pub use agt::AgtProvider;
pub use clickhouse::ClickhouseProvider;
pub use config::{AppConfig, get_agnostic_subdir, temp_file_path};
pub use error::BinaryError;
pub use manager::{
    BinaryInfo, FileStat, Provider, ProviderRegistry, get_all_status, get_binaries_status, get_binary_info,
    get_binary_path, get_provider_binary_path, is_binary_ready, registry,
};
pub use provider::BinaryInfoProvider;
pub use s3fs::S3fsProvider;
pub use target::SystemTarget;
