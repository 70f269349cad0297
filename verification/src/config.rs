//! The settings a broker runs with, and how they are put together from the
//! values found at startup.

use vstd::prelude::*;
use crate::limiter::IpAddress;
use crate::text::{trim_end_slashes, without_trailing};

verus! {

/// Port that the broker listens on where none is configured.
pub const DEFAULT_PORT: u16 = 8080;

/// A socket address to listen on. `scope_id` is the zone of an IPv6
/// address and is 0 for IPv4.
#[derive(Clone, Copy, Debug, PartialEq, Eq, Structural)]
pub struct BindAddr {
    pub ip: IpAddress,
    pub port: u16,
    pub scope_id: u32,
}

impl BindAddr {
    /// `0.0.0.0:8080`: every IPv4 interface, on the default port.
    pub open spec fn fallback() -> BindAddr {
        BindAddr { ip: IpAddress::V4(0), port: DEFAULT_PORT, scope_id: 0 }
    }
}

/// What startup found for the bind address.
#[derive(Clone, Copy, Debug, PartialEq, Eq, Structural)]
pub enum BindSetting {
    /// Nothing was configured.
    Unset,
    /// A value was configured that is no socket address.
    Malformed,
    /// The configured socket address.
    Parsed(BindAddr),
}

/// The settings of a broker. All but the bind address must be present.
#[derive(Clone, Copy, Debug, PartialEq, Eq, Structural)]
pub enum Setting {
    Token,
    Server,
    SharedSecret,
    BindAddr,
}

impl Setting {
    /// Name of the environment variable that carries the setting.
    pub open spec fn name(self) -> Seq<char> {
        match self {
            Setting::Token => "MATRIX_TOKEN"@,
            Setting::Server => "MATRIX_SERVER"@,
            Setting::SharedSecret => "MATRIX_SHARED_SECRET"@,
            Setting::BindAddr => "BIND_ADDR"@,
        }
    }

    pub fn env_name(&self) -> (name: &'static str)
        ensures
            name@ == self.name(),
    {
        match self {
            Setting::Token => "MATRIX_TOKEN",
            Setting::Server => "MATRIX_SERVER",
            Setting::SharedSecret => "MATRIX_SHARED_SECRET",
            Setting::BindAddr => "BIND_ADDR",
        }
    }
}

/// Why no configuration could be made.
#[derive(Clone, Copy, Debug, PartialEq, Eq, Structural)]
pub enum ConfigError {
    /// A required setting is absent.
    Missing(Setting),
    /// The bind address is no socket address.
    InvalidBindAddr,
}

/// The settings of a running broker. They are fixed at startup.
#[derive(Debug, PartialEq, Eq)]
pub struct AppConfig {
    /// Token that a request must present.
    pub token: String,
    /// Base address of the upstream server, without a slash at its end.
    pub server: String,
    /// Key of the registration MAC, shared with the upstream server.
    pub shared_secret: String,
    /// Address to listen on.
    pub bind_addr: BindAddr,
}

impl Clone for AppConfig {
    fn clone(&self) -> (copy: AppConfig)
        ensures
            copy == *self,
    {
        AppConfig {
            token: self.token.clone(),
            server: self.server.clone(),
            shared_secret: self.shared_secret.clone(),
            bind_addr: self.bind_addr,
        }
    }
}

/// The first fault among the startup values, in the order token, server,
/// shared secret, bind address; `None` where a configuration can be made.
pub open spec fn config_fault(
    token_set: bool,
    server_set: bool,
    shared_secret_set: bool,
    bind_addr: BindSetting,
) -> Option<ConfigError> {
    if !token_set {
        Some(ConfigError::Missing(Setting::Token))
    } else if !server_set {
        Some(ConfigError::Missing(Setting::Server))
    } else if !shared_secret_set {
        Some(ConfigError::Missing(Setting::SharedSecret))
    } else if bind_addr is Malformed {
        Some(ConfigError::InvalidBindAddr)
    } else {
        None
    }
}

impl AppConfig {
    /// Makes the configuration from the values found at startup, `None`
    /// standing for a value that is absent. The first fault in the order
    /// token, server, shared secret, bind address is reported. Otherwise the
    /// token and the secret are taken as they are, the server loses the
    /// slashes at its end, and an unset bind address becomes `0.0.0.0:8080`.
    pub fn from_values(
        token: Option<String>,
        server: Option<String>,
        shared_secret: Option<String>,
        bind_addr: BindSetting,
    ) -> (made: Result<AppConfig, ConfigError>)
        ensures
            match config_fault(token is Some, server is Some, shared_secret is Some, bind_addr) {
                Some(fault) => made == Err::<AppConfig, ConfigError>(fault),
                None => {
                    &&& made matches Ok(config)
                    &&& config.token@ == token->0@
                    &&& config.server@ == without_trailing(server->0@, '/')
                    &&& config.shared_secret@ == shared_secret->0@
                    &&& config.bind_addr == match bind_addr {
                        BindSetting::Parsed(addr) => addr,
                        _ => BindAddr::fallback(),
                    }
                },
            },
    {
        let token = match token {
            Some(token) => token,
            None => return Err(ConfigError::Missing(Setting::Token)),
        };
        let server = match server {
            Some(server) => server,
            None => return Err(ConfigError::Missing(Setting::Server)),
        };
        let shared_secret = match shared_secret {
            Some(shared_secret) => shared_secret,
            None => return Err(ConfigError::Missing(Setting::SharedSecret)),
        };
        let bind_addr = match bind_addr {
            BindSetting::Unset => BindAddr {
                ip: IpAddress::V4(0),
                port: DEFAULT_PORT,
                scope_id: 0,
            },
            BindSetting::Malformed => return Err(ConfigError::InvalidBindAddr),
            BindSetting::Parsed(addr) => addr,
        };
        Ok(AppConfig { token, server: trim_end_slashes(server.as_str()), shared_secret, bind_addr })
    }
}

} // verus!
