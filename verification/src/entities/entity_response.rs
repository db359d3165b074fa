use crate::entities::entity::{Address, Individual};
use std::collections::HashMap;
use vstd::prelude::*;

verus! {

/// What the payment processor answers to the registration of a person. `id`
/// is the canonical id that it assigned.
#[derive(Debug, PartialEq, Eq)]
pub struct EntityResponse {
    pub id: String,
    pub entity_type: String,
    pub individual: Individual,
    pub corporation: Option<String>,
    pub receive_only: Option<String>,
    pub address: Address,
    pub capabilities: Vec<String>,
    pub error: Option<String>,
    pub status: String,
    pub metadata: Option<HashMap<String, String>>,
    pub updated_at: String,
    pub created_at: String,
}

} // verus!
