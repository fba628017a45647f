pub mod clock;
pub mod fake_pipeline;
pub mod manifest_json;
pub mod store;
pub mod channel;
pub mod pipeline;
pub mod coordinator;
pub mod session;
