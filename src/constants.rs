//! Fixed paths, identities and defaults of an installation.
use vstd::prelude::*;

verus! {

/// System user that owns the installation.
pub const USER: &'static str = "aero";

/// Base path for the user's installation.
pub const USER_PATH: &'static str = "/opt/aero";

/// Main project directory.
pub const PROJECT_PATH: &'static str = "/opt/aero/openvair";

/// Project configuration file.
pub const CONFIG_FILE: &'static str = "/opt/aero/openvair/project_config.toml";

/// Installation log file.
pub const LOG_FILE: &'static str = "/opt/aero/openvair/install.log";

pub const DEFAULT_DB_PORT: u16 = 5432;

pub const DEFAULT_DB_NAME: &'static str = "openvair";

pub const DEFAULT_WEB_HOST: &'static str = "localhost";

pub const DEFAULT_WEB_PORT: u16 = 8000;

pub const DEFAULT_RABBITMQ_HOST: &'static str = "localhost";

pub const DEFAULT_RABBITMQ_PORT: u16 = 5672;

pub const DEFAULT_RABBITMQ_USER: &'static str = "guest";

pub const DEFAULT_RABBITMQ_PASSWORD: &'static str = "guest";

pub const DEFAULT_PROMETHEUS_HOST: &'static str = "localhost";

pub const DEFAULT_PROMETHEUS_PORT: u16 = 9090;

/// Shortest accepted login, in characters.
pub const MIN_LOGIN_LENGTH: usize = 4;

/// Longest accepted login, in characters.
pub const MAX_LOGIN_LENGTH: usize = 30;

/// Shortest accepted password, in characters.
pub const MIN_PASSWORD_LENGTH: usize = 4;

} // verus!
