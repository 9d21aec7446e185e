//! Alert orchestration for a small host-monitoring agent.
//!
//! The agent audits the security posture of its host at a fixed period,
//! follows each check from cycle to cycle and raises an alert when a check
//! starts to fail or recovers (`security`). It takes in login events from a
//! local source, authenticated by a shared secret and rate limited by
//! address, and raises an alert for a login from a source that is not on the
//! allow-list (`ssh_alerts`). Every alert passes one dispatcher, which
//! suppresses repeats within a cooldown and words the message for the
//! transport (`notifications`).
//!
//! The library decides and leaves the doing to its caller: what is read from
//! the host's files and commands, asked of the store or sent to the transport
//! goes in and comes out as plain values. Of the machine it reads only the
//! clock, the host name and random numbers. The other modules hold the rules
//! around that core: the message catalogue (`i18n`), the bearer token of the
//! API (`auth`), and what the reports of the disk tools, the Docker daemon
//! and the update script mean.

pub mod assets;
pub mod auth;
mod clock;
pub mod command;
pub mod deployment;
pub mod disk_ops;
pub mod docker;
pub mod history;
pub mod i18n;
pub mod metrics;
pub mod notifications;
mod random;
pub mod recent;
pub mod security;
pub mod ssh_alerts;
pub mod text;
