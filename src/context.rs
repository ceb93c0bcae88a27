//! The state shared by the steps of one installation run.
use vstd::prelude::*;

use crate::config::{DefaultUserConfig, JwtConfig, OpenVairConfig};
use crate::constants::{MAX_LOGIN_LENGTH, MIN_LOGIN_LENGTH, MIN_PASSWORD_LENGTH, PROJECT_PATH, USER, USER_PATH};
use crate::failure::Failure;
use crate::secret::{generate_random_secret, is_secret_text};
use crate::step::{JwtSecretStep, UserDataVerificationStep};

verus! {

/// Context shared across all installation steps. It is owned by whoever runs
/// the steps and lent to one step at a time.
pub struct InstallationContext {
    pub config: OpenVairConfig,
    pub project_path: String,
    pub user_path: String,
    pub user: String,
    /// Login supplied ahead of the run; takes precedence over the configuration.
    pub user_login: Option<String>,
    /// Password supplied ahead of the run; takes precedence over the configuration.
    pub user_password: Option<String>,
}

impl InstallationContext {
    pub fn new(config: OpenVairConfig) -> (r: Self)
        ensures
            r.config == config,
            r.project_path@ == PROJECT_PATH@,
            r.user_path@ == USER_PATH@,
            r.user@ == USER@,
            r.user_login is None,
            r.user_password is None,
    {
        InstallationContext {
            config,
            project_path: PROJECT_PATH.to_owned(),
            user_path: USER_PATH.to_owned(),
            user: USER.to_owned(),
            user_login: None,
            user_password: None,
        }
    }
}

/// The login a run uses: the one supplied ahead of the run, else the configured one.
pub open spec fn effective_login(ctx: InstallationContext) -> String {
    match ctx.user_login {
        Some(l) => l,
        None => ctx.config.default_user.login,
    }
}

/// The password a run uses: the one supplied ahead of the run, else the configured one.
pub open spec fn effective_password(ctx: InstallationContext) -> String {
    match ctx.user_password {
        Some(p) => p,
        None => ctx.config.default_user.password,
    }
}

/// The verdict on a login and password: too-short login, then too-long login,
/// then too-short password.
pub open spec fn credentials_check(login: Seq<char>, password: Seq<char>) -> Result<(), Failure> {
    if login.len() < MIN_LOGIN_LENGTH {
        Err(Failure::LoginTooShort { length: login.len() as usize })
    } else if login.len() > MAX_LOGIN_LENGTH {
        Err(Failure::LoginInvalid)
    } else if password.len() < MIN_PASSWORD_LENGTH {
        Err(Failure::PasswordTooShort { length: password.len() as usize })
    } else {
        Ok(())
    }
}

/// What the credential check of a run decides for `ctx`.
pub open spec fn user_data_outcome(ctx: InstallationContext) -> Result<(), Failure> {
    credentials_check(effective_login(ctx)@, effective_password(ctx)@)
}

/// The context after a successful credential check: the credentials used are
/// written into the configuration.
pub open spec fn with_verified_user(ctx: InstallationContext) -> InstallationContext {
    InstallationContext {
        config: OpenVairConfig {
            default_user: DefaultUserConfig {
                login: effective_login(ctx),
                password: effective_password(ctx),
            },
            ..ctx.config
        },
        ..ctx
    }
}

/// Checks `login` and `password` against the length rules.
pub fn check_credentials(login: &str, password: &str) -> (r: Result<(), Failure>)
    ensures
        r == credentials_check(login@, password@),
{
    let login_len = login.unicode_len();
    let password_len = password.unicode_len();
    if login_len < MIN_LOGIN_LENGTH {
        return Err(Failure::LoginTooShort { length: login_len });
    }
    if login_len > MAX_LOGIN_LENGTH {
        return Err(Failure::LoginInvalid);
    }
    if password_len < MIN_PASSWORD_LENGTH {
        return Err(Failure::PasswordTooShort { length: password_len });
    }
    Ok(())
}

impl UserDataVerificationStep {
    /// Checks the credentials the run will use and, when they pass, records them
    /// in the configuration. On failure the context is left as it was. Persisting
    /// the configuration is up to the caller.
    pub fn verify(&self, ctx: &mut InstallationContext) -> (r: Result<(), Failure>)
        ensures
            r == user_data_outcome(*old(ctx)),
            r is Ok ==> *final(ctx) == with_verified_user(*old(ctx)),
            r is Err ==> *final(ctx) == *old(ctx),
    {
        let login = match &ctx.user_login {
            Some(l) => l.clone(),
            None => ctx.config.default_user.login.clone(),
        };
        let password = match &ctx.user_password {
            Some(p) => p.clone(),
            None => ctx.config.default_user.password.clone(),
        };
        match check_credentials(login.as_str(), password.as_str()) {
            Ok(()) => {
                ctx.config.default_user.login = login;
                ctx.config.default_user.password = password;
                Ok(())
            },
            Err(f) => Err(f),
        }
    }
}

/// A second credential check on a context the first one accepted accepts it
/// again and changes nothing.
pub proof fn lemma_user_data_idempotent(ctx: InstallationContext)
    requires
        user_data_outcome(ctx) is Ok,
    ensures
        user_data_outcome(with_verified_user(ctx)) is Ok,
        with_verified_user(with_verified_user(ctx)) == with_verified_user(ctx),
{
}

impl JwtSecretStep {
    /// Makes sure the configuration holds a JWT secret. One already configured is
    /// kept, so running the step again changes nothing; otherwise a fresh secret
    /// is recorded: the standard base64 form of 32 random bytes. Persisting it is
    /// up to the caller.
    pub fn apply(&self, ctx: &mut InstallationContext)
        ensures
            old(ctx).config.jwt.secret is Some ==> *final(ctx) == *old(ctx),
            old(ctx).config.jwt.secret is None ==> (final(ctx).config.jwt.secret matches Some(s)
                && is_secret_text(s@) && *final(ctx) == (InstallationContext {
                config: OpenVairConfig {
                    jwt: JwtConfig { secret: Some(s), ..old(ctx).config.jwt },
                    ..old(ctx).config
                },
                ..*old(ctx)
            })),
    {
        if ctx.config.jwt.secret.is_none() {
            let secret = generate_random_secret();
            ctx.config.update_jwt_secret(secret);
        }
    }
}

} // verus!
