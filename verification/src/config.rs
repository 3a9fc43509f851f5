//! The persisted settings: where the cluster file is, and which schema
//! file describes the stored values.

use vstd::prelude::*;
use vstd::string::StringExecFns;
use crate::cli::{opt_view, SetOpts};
use crate::text::{debug_quoted, quote_debug};

verus! {

/// The name under which the settings are stored.
pub const CONFIGURATION_NAME: &'static str = "fdb-proto-cli";

/// The version written into new settings.
pub const VERSION: &'static str = "0.1.0";

/// The platforms that are told apart.
#[derive(Debug, Clone, Copy, PartialEq, Eq, Structural)]
pub enum OsType {
    Unknown,
    Redhat,
    OSX,
    Ubuntu,
    Debian,
    Arch,
    Manjaro,
    CentOS,
    OpenSUSE,
    Alpine,
    Deepin,
    NixOS,
    Kali,
}

/// The name of a platform.
pub open spec fn os_name(os: OsType) -> Seq<char> {
    match os {
        OsType::Unknown => "Unknown"@,
        OsType::Redhat => "Redhat"@,
        OsType::OSX => "OSX"@,
        OsType::Ubuntu => "Ubuntu"@,
        OsType::Debian => "Debian"@,
        OsType::Arch => "Arch"@,
        OsType::Manjaro => "Manjaro"@,
        OsType::CentOS => "CentOS"@,
        OsType::OpenSUSE => "OpenSUSE"@,
        OsType::Alpine => "Alpine"@,
        OsType::Deepin => "Deepin"@,
        OsType::NixOS => "NixOS"@,
        OsType::Kali => "Kali"@,
    }
}

/// Names a platform.
pub fn to_string(os_type: OsType) -> (name: &'static str)
    ensures
        name@ == os_name(os_type),
{
    match os_type {
        OsType::Unknown => "Unknown",
        OsType::Redhat => "Redhat",
        OsType::OSX => "OSX",
        OsType::Ubuntu => "Ubuntu",
        OsType::Debian => "Debian",
        OsType::Arch => "Arch",
        OsType::Manjaro => "Manjaro",
        OsType::CentOS => "CentOS",
        OsType::OpenSUSE => "OpenSUSE",
        OsType::Alpine => "Alpine",
        OsType::Deepin => "Deepin",
        OsType::NixOS => "NixOS",
        OsType::Kali => "Kali",
    }
}

/// Where a platform keeps the cluster file: macOS under `/usr/local`, every
/// other platform under `/etc`.
pub open spec fn cluster_file_path(os: OsType) -> Seq<char> {
    if os == OsType::OSX {
        "/usr/local/etc/foundationdb/fdb.cluster"@
    } else {
        "/etc/foundationdb/fdb.cluster"@
    }
}

/// The settings as a mathematical value.
pub struct ConfigView {
    pub version: Seq<char>,
    pub cluster_file: Seq<char>,
    pub proto_file: Option<Seq<char>>,
}

/// The persisted settings.
#[derive(Debug)]
pub struct FdbCliConfig {
    version: String,
    /// Path to the cluster file.
    pub cluster_file: String,
    /// Path to the schema file, if values are to be decoded.
    pub proto_file: Option<String>,
}

impl View for FdbCliConfig {
    type V = ConfigView;

    closed spec fn view(&self) -> ConfigView {
        ConfigView {
            version: self.version@,
            cluster_file: self.cluster_file@,
            proto_file: opt_view(self.proto_file),
        }
    }
}

/// The text that shows the settings: a heading, then the version in quotes,
/// the cluster file and the schema file, which is empty where none is set.
pub open spec fn display_text(c: ConfigView) -> Seq<char> {
    "Configuration values:\nversion: "@ + debug_quoted(c.version) + "\ncluster file: "@
        + c.cluster_file + "\nprotobuf file: "@ + (match c.proto_file {
        Some(p) => p,
        None => Seq::<char>::empty(),
    })
}

/// The settings after a change: each path that is given replaces the old
/// one, and the version stays.
pub open spec fn updated(c: ConfigView, cluster_file: Option<Seq<char>>, proto_file: Option<Seq<char>>)
    -> ConfigView {
    ConfigView {
        version: c.version,
        cluster_file: match cluster_file {
            Some(f) => f,
            None => c.cluster_file,
        },
        proto_file: match proto_file {
            Some(f) => Some(f),
            None => c.proto_file,
        },
    }
}

impl FdbCliConfig {
    /// Settings with the given parts.
    pub fn new(version: String, cluster_file: String, proto_file: Option<String>) -> (c: Self)
        ensures
            c@ == (ConfigView {
                version: version@,
                cluster_file: cluster_file@,
                proto_file: opt_view(proto_file),
            }),
    {
        FdbCliConfig { version, cluster_file, proto_file }
    }

    /// The version the settings were written with.
    pub fn version(&self) -> (v: &String)
        ensures
            v@ == self@.version,
    {
        &self.version
    }

    /// The cluster file's place on a platform.
    pub fn default_cluster_file(os: OsType) -> (path: &'static str)
        ensures
            path@ == cluster_file_path(os),
    {
        match os {
            OsType::OSX => "/usr/local/etc/foundationdb/fdb.cluster",
            _ => "/etc/foundationdb/fdb.cluster",
        }
    }

    /// The settings a platform starts with: the current version, the
    /// platform's cluster file, and no schema file.
    pub fn default_for(os: OsType) -> (c: Self)
        ensures
            c@ == (ConfigView {
                version: VERSION@,
                cluster_file: cluster_file_path(os),
                proto_file: None,
            }),
    {
        let path = FdbCliConfig::default_cluster_file(os);
        FdbCliConfig {
            version: String::from_str(VERSION),
            cluster_file: String::from_str(path),
            proto_file: None,
        }
    }

    /// Takes over the paths that `set` gives and says whether it gave any.
    pub fn apply(&mut self, set: SetOpts) -> (changed: bool)
        ensures
            final(self)@ == updated(old(self)@, set@.cluster_file, set@.proto_file),
            changed == (set.cluster_file is Some || set.proto_file is Some),
    {
        let mut changed = false;
        if let Some(cluster_file) = set.cluster_file {
            self.cluster_file = cluster_file;
            changed = true;
        }
        if let Some(proto_file) = set.proto_file {
            self.proto_file = Some(proto_file);
            changed = true;
        }
        changed
    }

    /// The settings as shown to the user.
    pub fn to_string(&self) -> (s: String)
        ensures
            s@ == display_text(self@),
    {
        let quoted = quote_debug(self.version.as_str());
        let s = String::from_str("Configuration values:\nversion: ");
        let s = s.concat(quoted.as_str());
        let s = s.concat("\ncluster file: ");
        let s = s.concat(self.cluster_file.as_str());
        let s = s.concat("\nprotobuf file: ");
        match &self.proto_file {
            Some(p) => s.concat(p.as_str()),
            None => {
                assert(s@ + Seq::<char>::empty() =~= s@);
                s
            },
        }
    }
}

} // verus!
