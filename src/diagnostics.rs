use vstd::prelude::*;

verus! {

/// Process-wide record of whether the logging sink has been installed.
///
/// Installation happens at most once; there is no teardown.
#[derive(Clone, Copy, Debug, PartialEq, Eq, Structural)]
pub struct Diagnostics {
    pub registered: bool,
}

/// The record after a claim, and whether that claim installs the sink.
pub open spec fn claimed(d: Diagnostics) -> (Diagnostics, bool) {
    (Diagnostics { registered: true }, !d.registered)
}

impl Diagnostics {
    /// A record on which nothing has been installed yet.
    pub fn new() -> (r: Diagnostics)
        ensures
            !r.registered,
    {
        Diagnostics { registered: false }
    }

    /// Claims the right to install the sink: true exactly on the first claim.
    pub fn claim(&mut self) -> (install: bool)
        ensures
            (*final(self), install) == claimed(*old(self)),
    {
        let install = !self.registered;
        self.registered = true;
        install
    }
}

/// Claiming twice installs the sink at most once, and the second claim never
/// installs it, whatever the record held before.
pub proof fn lemma_claim_idempotent(d: Diagnostics)
    ensures
        !claimed(claimed(d).0).1,
        claimed(claimed(d).0).0 == claimed(d).0,
{
}

} // verus!
