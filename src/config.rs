//! The installation's configuration document, its defaults and its validation.
use vstd::prelude::*;

use crate::constants::{
    DEFAULT_DB_NAME, DEFAULT_DB_PORT, DEFAULT_PROMETHEUS_HOST, DEFAULT_PROMETHEUS_PORT,
    DEFAULT_RABBITMQ_HOST, DEFAULT_RABBITMQ_PASSWORD, DEFAULT_RABBITMQ_PORT, DEFAULT_RABBITMQ_USER,
    DEFAULT_WEB_HOST, DEFAULT_WEB_PORT, MAX_LOGIN_LENGTH, MIN_LOGIN_LENGTH, MIN_PASSWORD_LENGTH,
    PROJECT_PATH, USER,
};
use crate::text::{blank, is_blank, same_text};

verus! {

#[derive(Clone, Debug)]
pub struct DatabaseConfig {
    pub user: String,
    pub password: String,
    pub host: String,
    pub port: u16,
    pub db_name: String,
}

#[derive(Clone, Debug)]
pub struct RabbitMQConfig {
    pub user: String,
    pub password: String,
    pub host: String,
    pub port: u16,
}

#[derive(Clone, Debug)]
pub struct DockerConfig {
    pub db_container: String,
}

#[derive(Clone, Debug)]
pub struct StorageConfig {
    pub data_path: String,
}

#[derive(Clone, Debug)]
pub struct JwtConfig {
    pub algorithm: String,
    pub token_type: String,
    pub access_token_expiration_minutes: u32,
    pub refresh_token_expiration_days: u32,
    pub secret: Option<String>,
}

#[derive(Clone, Debug)]
pub struct MessagingConfig {
    pub messaging_type: String,
    pub transport: String,
}

#[derive(Clone, Debug)]
pub struct WebAppConfig {
    pub host: String,
    pub port: u16,
}

#[derive(Clone, Debug)]
pub struct PrometheusConfig {
    pub host: String,
    pub port: u16,
}

#[derive(Clone, Debug)]
pub struct DefaultUserConfig {
    pub login: String,
    pub password: String,
}

#[derive(Clone, Debug)]
pub struct OsDataConfig {
    pub os_type: String,
}

#[derive(Clone, Debug)]
pub struct NetworkConfig {
    pub config_manager: String,
}

#[derive(Clone, Debug)]
pub struct SnmpConfig {
    pub agent_type: String,
}

#[derive(Clone, Debug)]
pub struct SentryConfig {
    pub dsn: String,
}

#[derive(Clone, Debug)]
pub struct EmailConfig {
    pub smtp_server: String,
    pub smtp_port: u16,
    pub smtp_username: String,
    pub smtp_password: String,
}

#[derive(Clone, Debug)]
pub struct NotificationsConfig {
    pub email: EmailConfig,
}

#[derive(Clone, Debug)]
pub struct ResticConfig {
    pub repository: String,
    pub password: String,
}

#[derive(Clone, Debug)]
pub struct BackupConfig {
    pub backuper: String,
    pub restic: ResticConfig,
}

/// The whole configuration document.
#[derive(Clone, Debug)]
pub struct OpenVairConfig {
    pub database: DatabaseConfig,
    pub rabbitmq: RabbitMQConfig,
    pub docker: DockerConfig,
    pub storage: StorageConfig,
    pub jwt: JwtConfig,
    pub messaging: MessagingConfig,
    pub web_app: WebAppConfig,
    pub prometheus: PrometheusConfig,
    pub default_user: DefaultUserConfig,
    pub os_data: OsDataConfig,
    pub network: NetworkConfig,
    pub snmp: SnmpConfig,
    pub sentry: SentryConfig,
    pub notifications: NotificationsConfig,
    pub backup: BackupConfig,
}

/// Why a configuration document is not usable for an installation.
#[derive(PartialEq, Eq, Structural, Clone, Copy, Debug)]
pub enum ConfigError {
    /// The default user's login is shorter than 4 or longer than 30 characters.
    LoginLength,
    /// The default user's password is shorter than 4 characters.
    PasswordTooShort,
    /// The web application host is empty or only whitespace.
    WebHostEmpty,
}

/// A login of acceptable length: 4 to 30 characters.
pub open spec fn login_length_ok(login: Seq<char>) -> bool {
    MIN_LOGIN_LENGTH <= login.len() <= MAX_LOGIN_LENGTH
}

/// A password of acceptable length: at least 4 characters.
pub open spec fn password_length_ok(password: Seq<char>) -> bool {
    MIN_PASSWORD_LENGTH <= password.len()
}

/// Whether `login` has an acceptable length.
pub fn login_is_valid(login: &str) -> (r: bool)
    ensures
        r == login_length_ok(login@),
{
    let n = login.unicode_len();
    MIN_LOGIN_LENGTH <= n && n <= MAX_LOGIN_LENGTH
}

/// Whether `password` has an acceptable length.
pub fn password_is_valid(password: &str) -> (r: bool)
    ensures
        r == password_length_ok(password@),
{
    MIN_PASSWORD_LENGTH <= password.unicode_len()
}

impl ConfigError {
    pub open spec fn text(self) -> Seq<char> {
        match self {
            ConfigError::LoginLength => "User login must be between 4 and 30 characters"@,
            ConfigError::PasswordTooShort => "User password must be at least 4 characters"@,
            ConfigError::WebHostEmpty => "Web application host cannot be empty"@,
        }
    }

    /// The message shown to the user.
    pub fn message(&self) -> (r: String)
        ensures
            r@ == self.text(),
    {
        match self {
            ConfigError::LoginLength => "User login must be between 4 and 30 characters".to_owned(),
            ConfigError::PasswordTooShort => "User password must be at least 4 characters".to_owned(),
            ConfigError::WebHostEmpty => "Web application host cannot be empty".to_owned(),
        }
    }
}

impl OpenVairConfig {
    /// The field values of a freshly generated configuration.
    pub open spec fn is_default(&self) -> bool {
        &&& self.database.user@ == USER@
        &&& self.database.password@ == USER@
        &&& self.database.host@ == "0.0.0.0"@
        &&& self.database.port == DEFAULT_DB_PORT
        &&& self.database.db_name@ == DEFAULT_DB_NAME@
        &&& self.rabbitmq.user@ == DEFAULT_RABBITMQ_USER@
        &&& self.rabbitmq.password@ == DEFAULT_RABBITMQ_PASSWORD@
        &&& self.rabbitmq.host@ == DEFAULT_RABBITMQ_HOST@
        &&& self.rabbitmq.port == DEFAULT_RABBITMQ_PORT
        &&& self.docker.db_container@ == "postgres"@
        &&& self.storage.data_path@ == PROJECT_PATH@ + "/data"@
        &&& self.jwt.algorithm@ == "HS256"@
        &&& self.jwt.token_type@ == "bearer"@
        &&& self.jwt.access_token_expiration_minutes == 30
        &&& self.jwt.refresh_token_expiration_days == 30
        &&& self.jwt.secret is None
        &&& self.messaging.messaging_type@ == "rpc"@
        &&& self.messaging.transport@ == "rabbitmq"@
        &&& self.web_app.host@ == DEFAULT_WEB_HOST@
        &&& self.web_app.port == DEFAULT_WEB_PORT
        &&& self.prometheus.host@ == DEFAULT_PROMETHEUS_HOST@
        &&& self.prometheus.port == DEFAULT_PROMETHEUS_PORT
        &&& self.default_user.login@ == Seq::<char>::empty()
        &&& self.default_user.password@ == Seq::<char>::empty()
        &&& self.os_data.os_type@ == Seq::<char>::empty()
        &&& self.network.config_manager@ == "ovs"@
        &&& self.snmp.agent_type@ == "agentx"@
        &&& self.sentry.dsn@ == Seq::<char>::empty()
        &&& self.notifications.email.smtp_server@ == "smtp.yandex.ru"@
        &&& self.notifications.email.smtp_port == 465
        &&& self.notifications.email.smtp_username@ == "your_email@example.com"@
        &&& self.notifications.email.smtp_password@ == "your_password"@
        &&& self.backup.backuper@ == "restic"@
        &&& self.backup.restic.repository@ == Seq::<char>::empty()
        &&& self.backup.restic.password@ == Seq::<char>::empty()
    }

    /// What `validate` decides: the first failing check, in the order login,
    /// password, web host.
    pub open spec fn validation(&self) -> Result<(), ConfigError> {
        if !login_length_ok(self.default_user.login@) {
            Err(ConfigError::LoginLength)
        } else if !password_length_ok(self.default_user.password@) {
            Err(ConfigError::PasswordTooShort)
        } else if is_blank(self.web_app.host@) {
            Err(ConfigError::WebHostEmpty)
        } else {
            Ok(())
        }
    }

    /// Checks the fields an installation cannot do without.
    pub fn validate(&self) -> (r: Result<(), ConfigError>)
        ensures
            r == self.validation(),
    {
        if !login_is_valid(self.default_user.login.as_str()) {
            return Err(ConfigError::LoginLength);
        }
        if !password_is_valid(self.default_user.password.as_str()) {
            return Err(ConfigError::PasswordTooShort);
        }
        if blank(self.web_app.host.as_str()) {
            return Err(ConfigError::WebHostEmpty);
        }
        Ok(())
    }

    /// Records a newly generated JWT secret; every other field stays as it was.
    pub fn update_jwt_secret(&mut self, secret: String)
        ensures
            *final(self) == (OpenVairConfig {
                jwt: JwtConfig { secret: Some(secret), ..old(self).jwt },
                ..*old(self)
            }),
    {
        self.jwt.secret = Some(secret);
    }

    /// Records the detected operating system; every other field stays as it was.
    pub fn update_os_type(&mut self, os_type: String)
        ensures
            *final(self) == (OpenVairConfig {
                os_data: OsDataConfig { os_type },
                ..*old(self)
            }),
    {
        self.os_data.os_type = os_type;
    }

    /// The login is missing and has to be asked for.
    pub fn login_missing(&self) -> (r: bool)
        ensures
            r == is_blank(self.default_user.login@),
    {
        blank(self.default_user.login.as_str())
    }

    /// The password is missing and has to be asked for.
    pub fn password_missing(&self) -> (r: bool)
        ensures
            r == is_blank(self.default_user.password@),
    {
        blank(self.default_user.password.as_str())
    }

    /// The web host is unset or still the placeholder `localhost`, and has to be
    /// asked for.
    pub fn web_host_needs_prompt(&self) -> (r: bool)
        ensures
            r == (is_blank(self.web_app.host@) || self.web_app.host@ == DEFAULT_WEB_HOST@),
    {
        blank(self.web_app.host.as_str()) || same_text(self.web_app.host.as_str(), DEFAULT_WEB_HOST)
    }
}

impl Default for OpenVairConfig {
    fn default() -> (r: Self)
        ensures
            r.is_default(),
    {
        let mut data_path = PROJECT_PATH.to_owned();
        data_path.append("/data");
        OpenVairConfig {
            database: DatabaseConfig {
                user: USER.to_owned(),
                password: USER.to_owned(),
                host: "0.0.0.0".to_owned(),
                port: DEFAULT_DB_PORT,
                db_name: DEFAULT_DB_NAME.to_owned(),
            },
            rabbitmq: RabbitMQConfig {
                user: DEFAULT_RABBITMQ_USER.to_owned(),
                password: DEFAULT_RABBITMQ_PASSWORD.to_owned(),
                host: DEFAULT_RABBITMQ_HOST.to_owned(),
                port: DEFAULT_RABBITMQ_PORT,
            },
            docker: DockerConfig { db_container: "postgres".to_owned() },
            storage: StorageConfig { data_path },
            jwt: JwtConfig {
                algorithm: "HS256".to_owned(),
                token_type: "bearer".to_owned(),
                access_token_expiration_minutes: 30,
                refresh_token_expiration_days: 30,
                secret: None,
            },
            messaging: MessagingConfig {
                messaging_type: "rpc".to_owned(),
                transport: "rabbitmq".to_owned(),
            },
            web_app: WebAppConfig { host: DEFAULT_WEB_HOST.to_owned(), port: DEFAULT_WEB_PORT },
            prometheus: PrometheusConfig {
                host: DEFAULT_PROMETHEUS_HOST.to_owned(),
                port: DEFAULT_PROMETHEUS_PORT,
            },
            default_user: DefaultUserConfig { login: String::new(), password: String::new() },
            os_data: OsDataConfig { os_type: String::new() },
            network: NetworkConfig { config_manager: "ovs".to_owned() },
            snmp: SnmpConfig { agent_type: "agentx".to_owned() },
            sentry: SentryConfig { dsn: String::new() },
            notifications: NotificationsConfig {
                email: EmailConfig {
                    smtp_server: "smtp.yandex.ru".to_owned(),
                    smtp_port: 465,
                    smtp_username: "your_email@example.com".to_owned(),
                    smtp_password: "your_password".to_owned(),
                },
            },
            backup: BackupConfig {
                backuper: "restic".to_owned(),
                restic: ResticConfig { repository: String::new(), password: String::new() },
            },
        }
    }
}

} // verus!
