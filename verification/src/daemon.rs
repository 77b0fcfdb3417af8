//! Service-layer data types: configuration, request and response shapes
//! of the session service that wraps the engine. The service loop itself
//! (transport, sessions, clocks) lives outside this crate; what stands
//! here are the plain values it exchanges and the capacity rule it
//! enforces.

use vstd::prelude::*;
use crate::scalar::Scalar;

verus! {

/// Service configuration.
#[derive(Debug, Clone, PartialEq)]
pub struct DaemonConfig {
    pub host: String,
    pub port: u16,
    pub max_sessions: usize,
    pub session_timeout_minutes: u64,
}

impl DaemonConfig {
    /// Whether a new session may not be accepted before old sessions are
    /// cleaned up.
    pub fn at_capacity(&self, active_sessions: usize) -> (r: bool)
        ensures
            r == (active_sessions >= self.max_sessions),
    {
        active_sessions >= self.max_sessions
    }
}

impl Default for DaemonConfig {
    /// Localhost on port 3000, one hundred sessions, one hour timeout.
    fn default() -> (r: DaemonConfig)
        ensures
            r.host@ == "localhost"@,
            r.port == 3000,
            r.max_sessions == 100,
            r.session_timeout_minutes == 60,
    {
        DaemonConfig {
            host: "localhost".to_string(),
            port: 3000,
            max_sessions: 100,
            session_timeout_minutes: 60,
        }
    }
}

/// Response to creating a session.
#[derive(Debug, Clone, PartialEq)]
pub struct CreateSessionResponse {
    pub session_id: String,
    pub message: String,
}

/// Which analysis a session is asked to run.
#[derive(Debug, Clone, Copy, PartialEq, Eq, Structural)]
pub enum AnalysisType {
    Static,
    Modal { num_modes: usize },
}

/// The format analysis results are rendered in.
#[derive(Debug, Clone, Copy, PartialEq, Eq, Structural)]
pub enum OutputFormat {
    Json,
    Yaml,
    Vtk,
}

/// Options of an analysis request.
#[derive(Debug, Clone, Copy, PartialEq, Eq, Structural)]
pub struct AnalysisOptions {
    pub solver_tolerance: Option<Scalar>,
    pub max_iterations: Option<usize>,
    pub output_format: OutputFormat,
}

/// A service status report.
#[derive(Debug, Clone, PartialEq)]
pub struct DaemonStatus {
    pub active_sessions: usize,
    pub max_sessions: usize,
    pub uptime_seconds: u64,
    pub version: String,
}

} // verus!
