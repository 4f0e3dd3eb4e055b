use vstd::prelude::*;

verus! {

/// The party that issues the invoice.
#[derive(Debug)]
pub struct Issuer {
    pub name: String,
    pub email: String,
}

/// The party that the invoice is addressed to.
#[derive(Debug)]
pub struct Recipient {
    pub name: String,
    pub company: String,
    pub email: String,
}

/// Bank-transfer details printed at the foot of the invoice. None of them is validated.
#[derive(Debug)]
pub struct Payment {
    /// Account holder.
    pub name: String,
    /// Branch (routing) code.
    pub bsb: String,
    /// Account number.
    pub acct: String,
    /// Name of the bank.
    pub bank: String,
    /// SWIFT/BIC code.
    pub swift: String,
}

} // verus!
