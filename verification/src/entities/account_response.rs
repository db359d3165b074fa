use crate::entities::account::ACH;
use std::collections::HashMap;
use vstd::prelude::*;

verus! {

/// What the payment processor answers to the registration of an account.
/// `id` is the canonical id that it assigned.
#[derive(Debug, PartialEq, Eq)]
pub struct AccountResponse {
    pub id: String,
    pub entity_type: Option<String>,
    pub holder_id: Option<String>,
    pub acc_type: String,
    pub ach: Option<ACH>,
    pub liability: Option<Liability>,
    pub clearing: Option<String>,
    pub metadata: Option<HashMap<String, String>>,
    pub status: String,
    pub capabilities: Vec<String>,
    pub error: Option<String>,
    pub updated_at: String,
    pub created_at: String,
}

/// The loan account of a registered account, as the payment processor
/// describes it.
#[derive(Debug, PartialEq, Eq)]
pub struct Liability {
    pub mch_id: String,
    pub mask: String,
    pub liability_type: String,
    pub data_status: String,
    pub data_last_successful_sync: Option<String>,
    pub loan: Option<Loan>,
}

/// The loan behind a loan account, as the payment processor describes it.
#[derive(Debug, PartialEq, Eq)]
pub struct Loan {
    pub name: String,
    pub sub_name: String,
    pub sequence: u64,
    pub balance: u64,
    pub last_payment_amount: u64,
    pub last_payment_date: String,
    pub next_payment_minimum_amount: u64,
    pub dispersed_at: String,
    pub interest_rate_percentage: u16,
    pub interest_rate_type: String,
}

} // verus!
