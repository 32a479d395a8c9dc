//! The multi-party approval gate over policy-bundle activation.

use vstd::prelude::*;

verus! {

/// Three signature slots, one per governance role. The approval gates
/// bundle activation, not individual actuation decisions.
#[derive(Clone, Debug)]
pub struct MultiSigApproval {
    pub technical_sig_hex: String,
    pub ecological_sig_hex: String,
    pub legal_sig_hex: String,
}

/// Complete means every role has signed: all three fields non-empty.
pub open spec fn approval_complete(a: MultiSigApproval) -> bool {
    &&& a.technical_sig_hex@.len() > 0
    &&& a.ecological_sig_hex@.len() > 0
    &&& a.legal_sig_hex@.len() > 0
}

impl MultiSigApproval {
    /// True iff all three signature fields are non-empty; any single empty
    /// field yields false.
    pub fn is_complete(&self) -> (r: bool)
        ensures
            r == approval_complete(*self),
    {
        !self.technical_sig_hex.as_str().is_empty() && !self.ecological_sig_hex.as_str().is_empty()
            && !self.legal_sig_hex.as_str().is_empty()
    }
}

} // verus!
