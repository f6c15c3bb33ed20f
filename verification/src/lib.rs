//! Confirmation-gated mediation between an automated planner and privileged
//! local actions: risk classification, the two-tier operator confirmation
//! protocol, and the step-by-step dispatch of one action request to one
//! structured outcome.

pub mod call;
pub mod config;
pub mod confirm;
pub mod decode;
pub mod mediator;
pub mod outcome;
pub mod protocol;
pub mod request;
pub mod risk;
pub mod session;
pub mod text;
