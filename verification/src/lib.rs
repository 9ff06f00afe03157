//! Verified core of an HTTP load-test driver: campaign model, open-loop rate
//! scheduling, bounded concurrent dispatch bookkeeping, response
//! classification and extraction, and metrics aggregation.

pub mod campaign;
pub mod dispatch;
pub mod engine;
pub mod extract;
pub mod gate;
pub mod metrics;
pub mod schedule;

pub use campaign::Campaign;
pub use campaign::ConfigError;
pub use campaign::HttpMethod;
pub use campaign::ResponseExtraction;
pub use campaign::Scenario;
pub use campaign::SuccessCriteria;
pub use dispatch::FailureReason;
pub use dispatch::RequestBody;
pub use dispatch::RequestOutcome;
pub use dispatch::RequestPlan;
pub use dispatch::TransportReply;
pub use engine::LoadEngine;
pub use engine::ScenarioRun;
pub use gate::Gate;
pub use metrics::Aggregator;
pub use metrics::ScenarioResult;
pub use schedule::Schedule;
