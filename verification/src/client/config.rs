//! The configuration of the tunnel client, and how it sets up logging.
use vstd::prelude::*;
use crate::address::IpAddress;

verus! {

/// The configuration file of the client.
#[derive(Debug, Clone)]
pub struct Configuration {
    pub server_addr: IpAddress,
    pub log: LogConfiguration,
    pub tunnels: Vec<TunnelConfiguration>,
}

/// How the client logs.
#[derive(Debug, Clone, PartialEq, Eq)]
pub struct LogConfiguration {
    pub loglevel: String,
    pub to_file: bool,
    pub base_name: String,
    pub dir: String,
}

/// A tunnel that the client can start.
#[derive(Debug, Clone, PartialEq, Eq)]
pub struct TunnelConfiguration {
    pub sub_domain: String,
    pub host_name: String,
    pub protocal: String,
    pub httpauth: String,
    pub remote_port: u16,
}

/// The file that logs go to.
#[derive(Debug, Clone, PartialEq, Eq)]
pub struct LogFile {
    pub base_name: String,
    pub directory: String,
}

/// How the logger is set up: its level specification, and its file if it writes to one.
#[derive(Debug, Clone, PartialEq, Eq)]
pub struct LoggerPlan {
    pub spec: String,
    pub file: Option<LogFile>,
}

/// Level specification of a logger that writes to a file.
pub const FILE_LOG_SPEC: &'static str = "info";

impl LogConfiguration {
    /// The logger that this configuration asks for: writing to a file, it logs at `info` into
    /// `dir` under `base_name`; otherwise it logs at `loglevel` to the standard error.
    pub fn logger_plan(&self) -> (r: LoggerPlan)
        ensures
            self.to_file ==> r.spec@ == FILE_LOG_SPEC@
                && r.file == Some(LogFile { base_name: self.base_name, directory: self.dir }),
            !self.to_file ==> r.spec == self.loglevel && r.file is None,
    {
        if self.to_file {
            LoggerPlan {
                spec: FILE_LOG_SPEC.to_owned(),
                file: Some(LogFile { base_name: self.base_name.clone(), directory: self.dir.clone() }),
            }
        } else {
            LoggerPlan { spec: self.loglevel.clone(), file: None }
        }
    }
}

} // verus!
