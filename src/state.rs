//! The startup outcome and the decision that leads to it.

use vstd::prelude::*;

verus! {

/// sqlx's `Error`, the outcome of a failed connection attempt. It is carried
/// in the failed state and never inspected.
#[verifier::external_type_specification]
#[verifier::external_body]
pub struct ExSqlxError(sqlx::Error);

/// Most connections the pool may hold.
pub const MAX_CONNECTIONS: u32 = 5;

/// Seconds the startup connection attempt may take.
pub const CONNECT_TIMEOUT_SECS: u64 = 2;

/// The bounds of the pool that startup asks for.
pub struct PoolSettings {
    pub max_connections: u32,
    pub connect_timeout_secs: u64,
}

pub open spec fn startup_pool_settings() -> PoolSettings {
    PoolSettings { max_connections: MAX_CONNECTIONS, connect_timeout_secs: CONNECT_TIMEOUT_SECS }
}

/// What startup does about the database.
pub enum StartupAction {
    /// No connection string: report unavailable without trying.
    SkipConnect,
    /// Make one attempt to open a pool on `url`, within `settings`.
    Connect { url: String, settings: PoolSettings },
}

/// Decides the startup action from the configured connection string, if any.
/// A missing string is never fatal: it leads to no attempt at all.
pub fn plan_startup(database_url: Option<String>) -> (a: StartupAction)
    ensures
        database_url is None ==> a is SkipConnect,
        database_url matches Some(u) ==> a == (StartupAction::Connect {
            url: u,
            settings: startup_pool_settings(),
        }),
{
    match database_url {
        None => StartupAction::SkipConnect,
        Some(url) => StartupAction::Connect {
            url,
            settings: PoolSettings {
                max_connections: MAX_CONNECTIONS,
                connect_timeout_secs: CONNECT_TIMEOUT_SECS,
            },
        },
    }
}

/// Why no pool is available.
pub enum StartupError {
    /// No connection string was configured; no connection was attempted.
    MissingConfiguration,
    /// The one connection attempt made at startup failed.
    Unreachable(sqlx::Error),
}

/// What the process learned about its database at startup. It is built once
/// and only read afterwards. `P` is the pool handle, which is only carried
/// here, for the routes that query the database.
pub enum HealthState<P> {
    Connected(P),
    Failed(StartupError),
}

impl<P> HealthState<P> {
    pub open spec fn connected(&self) -> bool {
        self is Connected
    }

    /// The state of a process that has no connection string.
    pub fn unconfigured() -> (r: Self)
        ensures
            r matches HealthState::Failed(StartupError::MissingConfiguration),
    {
        HealthState::Failed(StartupError::MissingConfiguration)
    }

    /// The state after the single connection attempt: connected exactly when
    /// the attempt produced a pool.
    pub fn from_connect_result(outcome: Result<P, sqlx::Error>) -> (r: Self)
        ensures
            r.connected() <==> outcome is Ok,
            outcome matches Ok(p) ==> r == HealthState::<P>::Connected(p),
            outcome matches Err(e) ==> r == HealthState::<P>::Failed(StartupError::Unreachable(e)),
    {
        match outcome {
            Ok(pool) => HealthState::Connected(pool),
            Err(e) => HealthState::Failed(StartupError::Unreachable(e)),
        }
    }

    /// The state once startup is over. `attempt` is the outcome of the
    /// connection attempt, or `None` where none was made.
    pub fn after_startup(attempt: Option<Result<P, sqlx::Error>>) -> (r: Self)
        ensures
            r.connected() <==> attempt matches Some(Ok(_)),
            attempt is None ==> r matches HealthState::Failed(StartupError::MissingConfiguration),
            attempt matches Some(Ok(p)) ==> r == HealthState::<P>::Connected(p),
            attempt matches Some(Err(e)) ==> r == HealthState::<P>::Failed(
                StartupError::Unreachable(e),
            ),
    {
        match attempt {
            None => Self::unconfigured(),
            Some(outcome) => Self::from_connect_result(outcome),
        }
    }

    pub fn is_connected(&self) -> (r: bool)
        ensures
            r == self.connected(),
    {
        match self {
            HealthState::Connected(_) => true,
            HealthState::Failed(_) => false,
        }
    }
}

} // verus!
