//! What travels between agent and backend.

use vstd::prelude::*;
use vstd::string::StringExecFns;
use crate::config::Config;

verus! {

/// Hostname reported where the host's own name cannot be found.
pub const UNKNOWN_HOSTNAME: &'static str = "unknown";

/// What an agent tells the backend about its host when it registers.
#[derive(Debug, PartialEq, Eq)]
pub struct RegisterRequest {
    pub name: String,
    pub hostname: String,
    pub ip_address: Option<String>,
    pub os_type: String,
    pub os_version: String,
    pub agent_version: String,
}

/// The identity that the backend gives a registered server.
#[derive(Debug, PartialEq, Eq)]
pub struct RegisterData {
    pub server_id: String,
}

/// The backend's answer to a registration.
#[derive(Debug, PartialEq, Eq)]
pub struct RegisterResponse {
    pub success: bool,
    pub message: String,
    pub data: Option<RegisterData>,
}

/// The backend's answer where it carries no data.
#[derive(Debug, PartialEq, Eq)]
pub struct ApiResponse {
    pub success: bool,
    pub message: Option<String>,
}

/// What a [`RegisterRequest`] holds, as plain text.
pub struct RegisterRequestView {
    pub name: Seq<char>,
    pub hostname: Seq<char>,
    pub ip_address: Option<Seq<char>>,
    pub os_type: Seq<char>,
    pub os_version: Seq<char>,
    pub agent_version: Seq<char>,
}

/// What a [`RegisterData`] holds, as plain text.
pub struct RegisterDataView {
    pub server_id: Seq<char>,
}

/// What a [`RegisterResponse`] holds, as plain text.
pub struct RegisterResponseView {
    pub success: bool,
    pub message: Seq<char>,
    pub data: Option<RegisterDataView>,
}

/// What an [`ApiResponse`] holds, as plain text.
pub struct ApiResponseView {
    pub success: bool,
    pub message: Option<Seq<char>>,
}

/// The text that an optional string holds, if any.
pub open spec fn text_of(value: Option<String>) -> Option<Seq<char>> {
    match value {
        Some(text) => Some(text@),
        None => None,
    }
}

impl View for RegisterRequest {
    type V = RegisterRequestView;

    open spec fn view(&self) -> RegisterRequestView {
        RegisterRequestView {
            name: self.name@,
            hostname: self.hostname@,
            ip_address: text_of(self.ip_address),
            os_type: self.os_type@,
            os_version: self.os_version@,
            agent_version: self.agent_version@,
        }
    }
}

impl View for RegisterData {
    type V = RegisterDataView;

    open spec fn view(&self) -> RegisterDataView {
        RegisterDataView { server_id: self.server_id@ }
    }
}

impl View for RegisterResponse {
    type V = RegisterResponseView;

    open spec fn view(&self) -> RegisterResponseView {
        RegisterResponseView {
            success: self.success,
            message: self.message@,
            data: match self.data {
                Some(data) => Some(data@),
                None => None,
            },
        }
    }
}

impl View for ApiResponse {
    type V = ApiResponseView;

    open spec fn view(&self) -> ApiResponseView {
        ApiResponseView { success: self.success, message: text_of(self.message) }
    }
}

impl RegisterRequest {
    /// The request that an agent configured by `config` sends from a host
    /// with the given name and operating system. No address is reported, and
    /// a host without a name is called [`UNKNOWN_HOSTNAME`].
    pub fn for_host(
        config: &Config,
        hostname: Option<String>,
        os_type: String,
        os_version: String,
        agent_version: String,
    ) -> (request: RegisterRequest)
        ensures
            request@ == (RegisterRequestView {
                name: config.agent.name@,
                hostname: match hostname {
                    Some(host) => host@,
                    None => UNKNOWN_HOSTNAME@,
                },
                ip_address: None,
                os_type: os_type@,
                os_version: os_version@,
                agent_version: agent_version@,
            }),
    {
        let hostname = match hostname {
            Some(host) => host,
            None => String::from_str(UNKNOWN_HOSTNAME),
        };
        RegisterRequest {
            name: config.agent.name.clone(),
            hostname,
            ip_address: None,
            os_type,
            os_version,
            agent_version,
        }
    }
}

} // verus!
