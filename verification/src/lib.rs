//! Managing compute endpoints.
//!
//! An endpoint is a Postgres that `compute_ctl` runs on behalf of a tenant. This crate holds what
//! there is to decide and to compute about endpoints: which ports and settings they get, what
//! `compute_ctl` is told, how a start and a stop go on after each outcome, what requests are sent
//! and what their answers mean. It touches no file, process or socket itself.
//!
//! - [`plane`]: all endpoints of an environment
//! - [`endpoint`], [`local_env`], [`postgresql_conf`]: one endpoint and where it runs
//! - [`start`], [`stop`], [`control`], [`command`], [`status`]: running it
//! - [`compute`], [`jwks`]: what computes are configured with
//! - [`conninfo`], [`locate`]: where the pageservers are
//! - [`address`], [`ids`], [`path`], [`text`], [`error`]: the values all of this is made of
//! - [`laws`]: what the operations promise
//! - [`outside`]: the calls into other crates
pub mod address;
pub mod command;
pub mod compute;
pub mod conninfo;
pub mod control;
pub mod endpoint;
pub mod error;
pub mod ids;
pub mod jwks;
pub mod laws;
pub mod local_env;
pub mod locate;
pub mod outside;
pub mod path;
pub mod plane;
pub mod postgresql_conf;
pub mod start;
pub mod status;
pub mod stop;
pub mod text;
