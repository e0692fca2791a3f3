//! The decisions of the service endpoints around the runs: login, key and service-token
//! bootstrap, the health report and the startup checks.

use vstd::prelude::*;
use crate::models::OverviewCounts;

verus! {

/// Why a login is refused, with its HTTP status.
#[derive(Debug, Clone, Copy, PartialEq, Eq)]
pub enum LoginRefusal {
    /// API-key auth is not enabled (503).
    AuthNotEnabled,
    /// The key does not verify (401).
    InvalidKey,
}

impl LoginRefusal {
    /// The HTTP status of the refusal.
    pub fn status_code(&self) -> (r: u16)
        ensures
            r == (match *self {
                LoginRefusal::AuthNotEnabled => 503u16,
                LoginRefusal::InvalidKey => 401u16,
            }),
    {
        match self {
            LoginRefusal::AuthNotEnabled => 503,
            LoginRefusal::InvalidKey => 401,
        }
    }
}

/// The body of a login request.
#[derive(Debug, Clone, PartialEq, Eq)]
pub struct LoginBody {
    pub api_key: String,
}

/// A login succeeds when auth is enabled and the key verifies.
pub fn login(auth_enabled: bool, key_verifies: bool) -> (r: Result<(), LoginRefusal>)
    ensures
        !auth_enabled ==> r == Err::<(), LoginRefusal>(LoginRefusal::AuthNotEnabled),
        auth_enabled && !key_verifies ==> r == Err::<(), LoginRefusal>(LoginRefusal::InvalidKey),
        auth_enabled && key_verifies ==> r is Ok,
{
    if !auth_enabled {
        Err(LoginRefusal::AuthNotEnabled)
    } else if !key_verifies {
        Err(LoginRefusal::InvalidKey)
    } else {
        Ok(())
    }
}

/// Why a key or token request is refused before anything is generated.
#[derive(Debug, Clone, Copy, PartialEq, Eq)]
pub enum BootstrapRefusal {
    /// What is asked for is already configured.
    AlreadyConfigured,
    /// What is to be rotated is not configured yet.
    NotConfigured,
    /// The request is not allowed to ask for it.
    Forbidden,
}

/// The first API key may be generated when auth is not enabled yet and the request may
/// bootstrap.
pub fn gen_key(auth_enabled: bool, bootstrap_allowed: bool) -> (r: Result<(), BootstrapRefusal>)
    ensures
        auth_enabled ==> r == Err::<(), BootstrapRefusal>(BootstrapRefusal::AlreadyConfigured),
        !auth_enabled && !bootstrap_allowed ==> r == Err::<(), BootstrapRefusal>(BootstrapRefusal::Forbidden),
        !auth_enabled && bootstrap_allowed ==> r is Ok,
{
    if auth_enabled {
        Err(BootstrapRefusal::AlreadyConfigured)
    } else if !bootstrap_allowed {
        Err(BootstrapRefusal::Forbidden)
    } else {
        Ok(())
    }
}

/// A service token may be generated when none is configured and the request may ask.
pub fn gen_service_token(service_auth_enabled: bool, generation_allowed: bool) -> (r: Result<(), BootstrapRefusal>)
    ensures
        service_auth_enabled ==> r == Err::<(), BootstrapRefusal>(BootstrapRefusal::AlreadyConfigured),
        !service_auth_enabled && !generation_allowed ==> r == Err::<(), BootstrapRefusal>(BootstrapRefusal::Forbidden),
        !service_auth_enabled && generation_allowed ==> r is Ok,
{
    if service_auth_enabled {
        Err(BootstrapRefusal::AlreadyConfigured)
    } else if !generation_allowed {
        Err(BootstrapRefusal::Forbidden)
    } else {
        Ok(())
    }
}

/// The service token may be rotated when one is configured and the request may ask.
pub fn rotate_service_token(service_auth_enabled: bool, rotation_allowed: bool) -> (r: Result<(), BootstrapRefusal>)
    ensures
        !service_auth_enabled ==> r == Err::<(), BootstrapRefusal>(BootstrapRefusal::NotConfigured),
        service_auth_enabled && !rotation_allowed ==> r == Err::<(), BootstrapRefusal>(BootstrapRefusal::Forbidden),
        service_auth_enabled && rotation_allowed ==> r is Ok,
{
    if !service_auth_enabled {
        Err(BootstrapRefusal::NotConfigured)
    } else if !rotation_allowed {
        Err(BootstrapRefusal::Forbidden)
    } else {
        Ok(())
    }
}

/// The health report of the service.
#[derive(Debug, Clone, PartialEq, Eq)]
pub struct HealthReport {
    pub status: String,
    pub version: String,
    pub product: String,
    pub auth_enabled: bool,
    pub config_errors: usize,
    pub db_ok: bool,
    pub db_path: String,
    pub github_ready: bool,
    pub run_count: u32,
    pub repo_count: u32,
    pub ready_count: u32,
    pub watch_count: u32,
    pub hold_count: u32,
    pub mode: String,
}

/// The health report: `degraded` when a startup check failed or the store does not
/// answer, `ok` otherwise, with the service's settings and run totals.
pub fn health(
    config_errors: usize,
    db_ok: bool,
    auth_enabled: bool,
    db_path: String,
    github_ready: bool,
    counts: OverviewCounts,
) -> (r: HealthReport)
    ensures
        r.status@ == (if config_errors > 0 || !db_ok { "degraded"@ } else { "ok"@ }),
        r.version@ == "0.1.0"@,
        r.product@ == "ReleaseSentry by PatchHive"@,
        r.auth_enabled == auth_enabled,
        r.config_errors == config_errors,
        r.db_ok == db_ok,
        r.db_path@ == db_path@,
        r.github_ready == github_ready,
        r.run_count == counts.runs,
        r.repo_count == counts.repos,
        r.ready_count == counts.ready,
        r.watch_count == counts.watch,
        r.hold_count == counts.hold,
        r.mode@ == "release-readiness"@,
{
    HealthReport {
        status: if config_errors > 0 || !db_ok {
            String::from_str("degraded")
        } else {
            String::from_str("ok")
        },
        version: String::from_str("0.1.0"),
        product: String::from_str("ReleaseSentry by PatchHive"),
        auth_enabled,
        config_errors,
        db_ok,
        db_path,
        github_ready,
        run_count: counts.runs,
        repo_count: counts.repos,
        ready_count: counts.ready,
        watch_count: counts.watch,
        hold_count: counts.hold,
        mode: String::from_str("release-readiness"),
    }
}

/// The level of a startup check.
#[derive(Debug, Clone, Copy, PartialEq, Eq)]
pub enum StartupLevel {
    Info,
    Warn,
}

/// One startup check: a level and a message.
#[derive(Debug, Clone, PartialEq, Eq)]
pub struct StartupCheck {
    pub level: StartupLevel,
    pub message: String,
}

/// The startup checks: where the store lives, whether API-key auth is on, and that the
/// service starts read-only.
pub fn validate_config(db_path: &str, auth_enabled: bool) -> (r: Vec<StartupCheck>)
    ensures
        r@.len() == 3,
        r@[0].level == StartupLevel::Info,
        r@[0].message@ == "ReleaseSentry DB path: "@ + db_path@,
        r@[1].level == (if auth_enabled { StartupLevel::Info } else { StartupLevel::Warn }),
        r@[1].message@ == (if auth_enabled {
            "API-key auth is enabled for ReleaseSentry."@
        } else {
            "API-key auth is not enabled yet. Generate a key before exposing ReleaseSentry beyond local development."@
        }),
        r@[2].level == StartupLevel::Info,
        r@[2].message@ == "ReleaseSentry starts read-only: release readiness should collect evidence before it gates publishing or deploys."@,
{
    let mut checks: Vec<StartupCheck> = Vec::new();
    let mut path = String::from_str("ReleaseSentry DB path: ");
    path.append(db_path);
    checks.push(StartupCheck { level: StartupLevel::Info, message: path });
    if auth_enabled {
        checks.push(
            StartupCheck {
                level: StartupLevel::Info,
                message: String::from_str("API-key auth is enabled for ReleaseSentry."),
            },
        );
    } else {
        checks.push(
            StartupCheck {
                level: StartupLevel::Warn,
                message: String::from_str(
                    "API-key auth is not enabled yet. Generate a key before exposing ReleaseSentry beyond local development.",
                ),
            },
        );
    }
    checks.push(
        StartupCheck {
            level: StartupLevel::Info,
            message: String::from_str(
                "ReleaseSentry starts read-only: release readiness should collect evidence before it gates publishing or deploys.",
            ),
        },
    );
    checks
}

} // verus!
