pub mod command;
pub mod config;
pub mod error;
pub mod events;
pub mod orchestrator;
pub mod protocol;
pub mod registry;
pub mod runner;
pub mod session;
pub mod text;

pub use command::AgentRequest;
pub use command::AgentRunner;
pub use command::Platform;
pub use config::ServerConfig;
pub use error::AppError;
pub use error::AppResult;
pub use events::OutwardEvent;
pub use events::RunnerEvent;
pub use registry::ProcessRegistry;
pub use session::SessionMetadata;
pub use session::SessionStore;
