use vstd::prelude::*;

verus! {

/// What the contract is set up with.
#[derive(Clone, Debug, PartialEq)]
pub struct InstantiateMsg {
    pub scholarship_amount: u128,
    pub denom: String,
}

/// The operations that change the ledger.
#[derive(Clone, Debug, PartialEq)]
pub enum ExecuteMsg {
    RegisterStudent { address: String },
    ApproveStudent { address: String },
    ClaimScholarship {  },
}

/// The operations that only read the ledger.
#[derive(Clone, Debug, PartialEq)]
pub enum QueryMsg {
    GetStudent { address: String },
}

} // verus!
