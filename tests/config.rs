use openvair_installer::config::{
    login_is_valid, password_is_valid, ConfigError, OpenVairConfig,
};

fn valid_config() -> OpenVairConfig {
    let mut c = OpenVairConfig::default();
    c.default_user.login = "admin".to_string();
    c.default_user.password = "secret".to_string();
    c
}

#[test]
fn default_config_values() {
    let c = OpenVairConfig::default();
    assert_eq!(c.database.user, "aero");
    assert_eq!(c.database.password, "aero");
    assert_eq!(c.database.host, "0.0.0.0");
    assert_eq!(c.database.port, 5432);
    assert_eq!(c.database.db_name, "openvair");
    assert_eq!(c.rabbitmq.user, "guest");
    assert_eq!(c.rabbitmq.port, 5672);
    assert_eq!(c.docker.db_container, "postgres");
    assert_eq!(c.storage.data_path, "/opt/aero/openvair/data");
    assert_eq!(c.jwt.algorithm, "HS256");
    assert_eq!(c.jwt.token_type, "bearer");
    assert_eq!(c.jwt.access_token_expiration_minutes, 30);
    assert_eq!(c.jwt.refresh_token_expiration_days, 30);
    assert!(c.jwt.secret.is_none());
    assert_eq!(c.messaging.messaging_type, "rpc");
    assert_eq!(c.messaging.transport, "rabbitmq");
    assert_eq!(c.web_app.host, "localhost");
    assert_eq!(c.web_app.port, 8000);
    assert_eq!(c.prometheus.host, "localhost");
    assert_eq!(c.prometheus.port, 9090);
    assert_eq!(c.default_user.login, "");
    assert_eq!(c.default_user.password, "");
    assert_eq!(c.os_data.os_type, "");
    assert_eq!(c.network.config_manager, "ovs");
    assert_eq!(c.snmp.agent_type, "agentx");
    assert_eq!(c.sentry.dsn, "");
    assert_eq!(c.notifications.email.smtp_server, "smtp.yandex.ru");
    assert_eq!(c.notifications.email.smtp_port, 465);
    assert_eq!(c.notifications.email.smtp_username, "your_email@example.com");
    assert_eq!(c.notifications.email.smtp_password, "your_password");
    assert_eq!(c.backup.backuper, "restic");
    assert_eq!(c.backup.restic.repository, "");
    assert_eq!(c.backup.restic.password, "");
}

#[test]
fn validate_accepts_complete_config() {
    assert_eq!(valid_config().validate(), Ok(()));
}

#[test]
fn validate_rejects_default_config_for_its_empty_login() {
    assert_eq!(OpenVairConfig::default().validate(), Err(ConfigError::LoginLength));
}

#[test]
fn validate_login_bounds() {
    let mut c = valid_config();
    c.default_user.login = "abc".to_string();
    assert_eq!(c.validate(), Err(ConfigError::LoginLength));
    c.default_user.login = "abcd".to_string();
    assert_eq!(c.validate(), Ok(()));
    c.default_user.login = "a".repeat(30);
    assert_eq!(c.validate(), Ok(()));
    c.default_user.login = "a".repeat(31);
    assert_eq!(c.validate(), Err(ConfigError::LoginLength));
}

#[test]
fn validate_login_counts_characters() {
    let mut c = valid_config();
    c.default_user.login = "äöüß".to_string();
    assert_eq!(c.validate(), Ok(()));
    assert!(login_is_valid("äöüß"));
    assert!(!login_is_valid("äöü"));
}

#[test]
fn validate_password_too_short() {
    let mut c = valid_config();
    c.default_user.password = "abc".to_string();
    assert_eq!(c.validate(), Err(ConfigError::PasswordTooShort));
    assert!(!password_is_valid("abc"));
    assert!(password_is_valid("abcd"));
}

#[test]
fn validate_web_host_blank() {
    let mut c = valid_config();
    c.web_app.host = "   \t".to_string();
    assert_eq!(c.validate(), Err(ConfigError::WebHostEmpty));
    c.web_app.host = "".to_string();
    assert_eq!(c.validate(), Err(ConfigError::WebHostEmpty));
    c.web_app.host = " 10.0.0.1 ".to_string();
    assert_eq!(c.validate(), Ok(()));
}

#[test]
fn validate_checks_login_before_password() {
    let mut c = valid_config();
    c.default_user.login = "ab".to_string();
    c.default_user.password = "ab".to_string();
    assert_eq!(c.validate(), Err(ConfigError::LoginLength));
}

#[test]
fn config_error_messages() {
    assert_eq!(
        ConfigError::LoginLength.message(),
        "User login must be between 4 and 30 characters"
    );
    assert_eq!(
        ConfigError::PasswordTooShort.message(),
        "User password must be at least 4 characters"
    );
    assert_eq!(ConfigError::WebHostEmpty.message(), "Web application host cannot be empty");
}

#[test]
fn update_jwt_secret_sets_only_the_secret() {
    let mut c = valid_config();
    c.update_jwt_secret("s3cr3t".to_string());
    assert_eq!(c.jwt.secret.as_deref(), Some("s3cr3t"));
    assert_eq!(c.jwt.algorithm, "HS256");
    assert_eq!(c.default_user.login, "admin");
}

#[test]
fn update_os_type_sets_only_the_os_type() {
    let mut c = valid_config();
    c.update_os_type("ubuntu".to_string());
    assert_eq!(c.os_data.os_type, "ubuntu");
    assert_eq!(c.web_app.host, "localhost");
    c.update_os_type("ubuntu".to_string());
    assert_eq!(c.os_data.os_type, "ubuntu");
}

#[test]
fn prompts_needed_for_missing_fields() {
    let c = OpenVairConfig::default();
    assert!(c.login_missing());
    assert!(c.password_missing());
    assert!(c.web_host_needs_prompt());
    let mut d = valid_config();
    d.web_app.host = "192.168.1.10".to_string();
    assert!(!d.login_missing());
    assert!(!d.password_missing());
    assert!(!d.web_host_needs_prompt());
    d.default_user.login = "  ".to_string();
    assert!(d.login_missing());
    d.web_app.host = " ".to_string();
    assert!(d.web_host_needs_prompt());
}
