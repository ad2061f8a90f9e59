//! A record store for campaign fundraising: campaigns, donations, expenses,
//! voter outreach, messages, notifications and users, each kept in its own
//! store under identifiers from one shared counter, with payload validation,
//! role checks and parent checks in front of every write.

pub mod ids;
pub mod laws;
pub mod model;
pub mod policy;
pub mod registry;
pub mod store;
