//! Authoritative arena server: world model, command handling and session
//! rules, with every decision stated as a contract.
//!
//! Positions, radii, angles and speeds are binary64 numbers. The library
//! carries them as bit patterns ([`scalar::Scalar`]), orders them, and never
//! does arithmetic on them: callers evaluate the formulas and hand in the
//! results, and every branch taken on those results is decided here.

pub mod client_agent;
pub mod command;
pub mod db;
pub mod hub;
pub mod ids;
pub mod password;
pub mod player;
pub mod proto;
pub mod proto_util;
pub mod ranking;
pub mod registration;
pub mod scalar;
pub mod spore;
pub mod table;
pub mod util;
