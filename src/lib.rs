//! Flight-control core of a quadrotor: fixed-point arithmetic, attitude
//! estimation, control laws, motor mixing, the framed wire protocol and the
//! flash-backed datalog, all as verified functions on plain values.

pub mod fx;
pub mod codec;
pub mod parser;
pub mod ypr;
pub mod pid;
pub mod mixer;
pub mod filters;
pub mod datalog;
pub mod drone;
pub mod estimate;
pub mod modes;
pub mod scheduler;
