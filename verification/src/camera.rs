//! What one camera needs: the detector that reads the capture tool's
//! diagnostics, the session around one run of the tool, and the supervisor
//! that relaunches sessions.

pub mod detector;
pub mod session;
pub mod supervisor;
