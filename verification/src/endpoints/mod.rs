//! What each boundary of the service decides, apart from the traffic.

pub mod reports;
pub mod transactions;
