use crate::errors::VaultError;
use vstd::prelude::*;

verus! {

/// The principals that the host asserts to have authorized the current
/// call.
pub struct Auth {
    signers: Vec<u64>,
}

impl Auth {
    /// The principals that authorized the call.
    pub closed spec fn signers(&self) -> Seq<u64> {
        self.signers@
    }

    /// Whether `principal` authorized the call.
    pub open spec fn authorizes(&self, principal: u64) -> bool {
        self.signers().contains(principal)
    }

    /// A call that these principals authorized.
    pub fn new(signers: Vec<u64>) -> (auth: Auth)
        ensures
            auth.signers() == signers@,
    {
        Auth { signers }
    }

    /// A call that nobody authorized.
    pub fn none() -> (auth: Auth)
        ensures
            auth.signers() == Seq::<u64>::empty(),
            forall|p: u64| !auth.authorizes(p),
    {
        Auth { signers: Vec::new() }
    }

    /// A call that `principal` authorized, and nobody else.
    pub fn of(principal: u64) -> (auth: Auth)
        ensures
            auth.signers() == seq![principal],
            forall|p: u64| auth.authorizes(p) <==> p == principal,
    {
        let mut signers: Vec<u64> = Vec::new();
        signers.push(principal);
        assert(signers@ =~= seq![principal]);
        assert(signers@[0] == principal);
        Auth { signers }
    }

    /// Whether `principal` authorized the call.
    pub fn has_authorized(&self, principal: u64) -> (r: bool)
        ensures
            r == self.authorizes(principal),
    {
        let mut i: usize = 0;
        while i < self.signers.len()
            invariant
                i <= self.signers.len(),
                forall|j: int| 0 <= j < i ==> self.signers@[j] != principal,
            decreases self.signers.len() - i,
        {
            if self.signers[i] == principal {
                return true;
            }
            i += 1;
        }
        false
    }

    /// `principal` must have authorized the call.
    pub fn require_auth(&self, principal: u64) -> (r: Result<(), VaultError>)
        ensures
            self.authorizes(principal) ==> r == Ok::<(), VaultError>(()),
            !self.authorizes(principal) ==> r == Err::<(), VaultError>(VaultError::Unauthorized),
    {
        if self.has_authorized(principal) {
            Ok(())
        } else {
            Err(VaultError::Unauthorized)
        }
    }
}

} // verus!
