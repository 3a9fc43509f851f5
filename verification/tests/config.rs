use fdb_cli::cli::SetOpts;
use fdb_cli::config::{to_string, FdbCliConfig, OsType, CONFIGURATION_NAME, VERSION};
use fdb_cli::error::Error;

#[test]
fn default_cluster_file_by_platform() {
    assert_eq!(
        FdbCliConfig::default_cluster_file(OsType::OSX),
        "/usr/local/etc/foundationdb/fdb.cluster"
    );
    assert_eq!(FdbCliConfig::default_cluster_file(OsType::Ubuntu), "/etc/foundationdb/fdb.cluster");
    assert_eq!(FdbCliConfig::default_cluster_file(OsType::Unknown), "/etc/foundationdb/fdb.cluster");
}

#[test]
fn defaults_for_a_platform() {
    let c = FdbCliConfig::default_for(OsType::Debian);
    assert_eq!(c.version(), "0.1.0");
    assert_eq!(c.version(), VERSION);
    assert_eq!(c.cluster_file, "/etc/foundationdb/fdb.cluster");
    assert_eq!(c.proto_file, None);
    assert_eq!(CONFIGURATION_NAME, "fdb-proto-cli");
}

#[test]
fn settings_are_shown_with_quoted_version() {
    let c = FdbCliConfig::new("0.1.0".to_string(), "/c".to_string(), Some("/s.proto".to_string()));
    assert_eq!(
        c.to_string(),
        "Configuration values:\nversion: \"0.1.0\"\ncluster file: /c\nprotobuf file: /s.proto"
    );
    let c = FdbCliConfig::new("a\"b".to_string(), "/c".to_string(), None);
    assert_eq!(
        c.to_string(),
        "Configuration values:\nversion: \"a\\\"b\"\ncluster file: /c\nprotobuf file: "
    );
}

#[test]
fn apply_takes_what_is_given() {
    let mut c = FdbCliConfig::new("1".to_string(), "/old".to_string(), None);
    let changed = c.apply(SetOpts { cluster_file: None, proto_file: None });
    assert!(!changed);
    assert_eq!(c.cluster_file, "/old");
    assert_eq!(c.proto_file, None);
    let changed = c.apply(SetOpts { cluster_file: Some("/new".to_string()), proto_file: None });
    assert!(changed);
    assert_eq!(c.cluster_file, "/new");
    assert_eq!(c.proto_file, None);
    let changed = c.apply(SetOpts { cluster_file: None, proto_file: Some("/p".to_string()) });
    assert!(changed);
    assert_eq!(c.cluster_file, "/new");
    assert_eq!(c.proto_file, Some("/p".to_string()));
    assert_eq!(c.version(), "1");
}

#[test]
fn platform_names() {
    assert_eq!(to_string(OsType::Ubuntu), "Ubuntu");
    assert_eq!(to_string(OsType::OSX), "OSX");
    assert_eq!(to_string(OsType::Alpine), "Alpine");
    assert_eq!(to_string(OsType::Arch), "Arch");
    assert_eq!(to_string(OsType::Manjaro), "Manjaro");
    assert_eq!(to_string(OsType::CentOS), "CentOS");
    assert_eq!(to_string(OsType::Debian), "Debian");
    assert_eq!(to_string(OsType::OpenSUSE), "OpenSUSE");
    assert_eq!(to_string(OsType::Redhat), "Redhat");
    assert_eq!(to_string(OsType::Unknown), "Unknown");
    assert_eq!(to_string(OsType::Deepin), "Deepin");
    assert_eq!(to_string(OsType::NixOS), "NixOS");
    assert_eq!(to_string(OsType::Kali), "Kali");
}

#[test]
fn error_messages() {
    let d = || "why".to_string();
    assert_eq!(Error::UnsupportedOperatingSystem(d()).to_string(), "Unsupported OS: why");
    assert_eq!(Error::UnableToReadConfig(d()).to_string(), "Unable to read configuration: why");
    assert_eq!(Error::UnableToWriteConfig(d()).to_string(), "Unable to write configuration: why");
    assert_eq!(Error::UnableToReadProtobuf(d()).to_string(), "Unable to read protobuf: why");
    assert_eq!(Error::Fdb(d()).to_string(), "Fdb error: why");
    assert_eq!(Error::Elapsed(d()).to_string(), "Tokio timeout elapsed error: why");
    assert_eq!(Error::ProtofishParseError(d()).to_string(), "Protofish parse error: why");
    assert_eq!(Error::StringDecodeError(d()).to_string(), "String decode error: why");
}
