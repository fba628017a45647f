pub mod hostclock;
pub mod queue;
pub mod broker;
pub mod encoder;
pub mod geometry;
pub mod worker;
pub mod tap;
pub mod health;
pub mod packets;
pub mod streams;
pub mod pipeline;
