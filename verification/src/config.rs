use vstd::prelude::*;

verus! {

/// Gateway startup configuration.
pub struct ServerConfig {
    /// Path to the agent CLI executable.
    pub claude_path: String,
    /// Directory for session metadata storage.
    pub session_dir: String,
}

} // verus!
