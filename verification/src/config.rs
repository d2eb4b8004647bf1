use vstd::prelude::*;

verus! {

/// One registry entry mapping an external site name to the scraping rule
/// that handles it.
#[derive(Debug, Clone, PartialEq)]
pub struct AvailableSite {
    pub site: String,
    pub rule: String,
}

/// Fully resolved configuration, built once and passed to every component.
pub struct LocalConfig {
    pub debug_mode: bool,
    pub work_path: WorkPath,
    pub download: Download,
}

pub struct WorkPath {
    pub application_path: Option<String>,
    pub userdata_path: String,
    pub server_path: String,
    pub appdata_path: String,
}

pub struct Download {
    pub waiting_interval: Option<u64>,
    pub timeout_interval: Option<u64>,
    pub proxy: Option<String>,
    pub available_sites: Vec<AvailableSite>,
}

/// The shape of the on-disk configuration file, before defaults are applied.
/// Reading and decoding the file happens at the outer layer; this type holds
/// the decoded result as plain optional values.
pub struct LocalConfigFile {
    pub debug_mode: Option<bool>,
    pub work_path: LocalConfigFileWorkPath,
    pub download: Option<LocalConfigFileDownload>,
}

pub struct LocalConfigFileWorkPath {
    pub application_path: Option<String>,
    pub server_path: Option<String>,
    pub appdata_path: Option<String>,
    pub userdata_path: Option<String>,
}

pub struct LocalConfigFileDownload {
    pub waiting_interval: Option<u64>,
    pub timeout_interval: Option<u64>,
    pub proxy: Option<String>,
    pub available_sites: Option<Vec<AvailableSite>>,
}

/// The configuration used when no configuration file exists: every field
/// unset, so that `resolve_config` fills in each default.
pub fn default_config_file() -> (r: LocalConfigFile)
    ensures
        r.debug_mode is None,
        r.work_path.application_path is None,
        r.work_path.server_path is None,
        r.work_path.appdata_path is None,
        r.work_path.userdata_path is None,
        r.download is None,
{
    LocalConfigFile {
        debug_mode: None,
        work_path: LocalConfigFileWorkPath {
            application_path: None,
            server_path: None,
            appdata_path: None,
            userdata_path: None,
        },
        download: None,
    }
}

/// The user data directory a configuration falls back to.
pub open spec fn resolved_userdata(file: LocalConfigFile, fallback: Seq<char>) -> Seq<char> {
    match file.work_path.userdata_path {
        Some(p) => p@,
        None => fallback,
    }
}

/// Applies the documented defaults to a decoded configuration file:
/// the user data directory falls back to the platform default handed in by
/// the caller, the server and application-data directories default to
/// subdirectories of it, and the download section falls back to "nothing
/// configured".
pub fn resolve_config(file: LocalConfigFile, fallback_userdata: String) -> (r: LocalConfig)
    ensures
        r.debug_mode == match file.debug_mode {
            Some(b) => b,
            None => false,
        },
        r.work_path.application_path == file.work_path.application_path,
        r.work_path.userdata_path@ == resolved_userdata(file, fallback_userdata@),
        r.work_path.server_path@ == match file.work_path.server_path {
            Some(p) => p@,
            None => resolved_userdata(file, fallback_userdata@) + "/server"@,
        },
        r.work_path.appdata_path@ == match file.work_path.appdata_path {
            Some(p) => p@,
            None => resolved_userdata(file, fallback_userdata@) + "/appdata"@,
        },
        r.download.waiting_interval == match file.download {
            Some(d) => d.waiting_interval,
            None => None::<u64>,
        },
        r.download.timeout_interval == match file.download {
            Some(d) => d.timeout_interval,
            None => None::<u64>,
        },
        r.download.proxy == match file.download {
            Some(d) => d.proxy,
            None => None::<String>,
        },
        r.download.available_sites@ == match file.download {
            Some(d) => match d.available_sites {
                Some(s) => s@,
                None => Seq::<AvailableSite>::empty(),
            },
            None => Seq::<AvailableSite>::empty(),
        },
{
    let LocalConfigFile { debug_mode, work_path, download } = file;
    let userdata: String = match work_path.userdata_path {
        Some(p) => p,
        None => fallback_userdata,
    };
    let server_path: String = match work_path.server_path {
        Some(p) => p,
        None => userdata.clone().concat("/server"),
    };
    let appdata_path: String = match work_path.appdata_path {
        Some(p) => p,
        None => userdata.clone().concat("/appdata"),
    };
    let download = match download {
        Some(d) => Download {
            waiting_interval: d.waiting_interval,
            timeout_interval: d.timeout_interval,
            proxy: d.proxy,
            available_sites: match d.available_sites {
                Some(s) => s,
                None => Vec::new(),
            },
        },
        None => Download {
            waiting_interval: None,
            timeout_interval: None,
            proxy: None,
            available_sites: Vec::new(),
        },
    };
    LocalConfig {
        debug_mode: match debug_mode {
            Some(b) => b,
            None => false,
        },
        work_path: WorkPath {
            application_path: work_path.application_path,
            userdata_path: userdata,
            server_path,
            appdata_path,
        },
        download,
    }
}

} // verus!
