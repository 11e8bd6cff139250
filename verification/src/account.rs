//! Identities of the parties to a game.

use vstd::prelude::*;
use vstd::std_specs::cmp::PartialEqSpecImpl;

verus! {

/// Number of bytes in an account identity.
pub const ACCOUNT_ID_LEN: usize = 32;

/// The identity of an account on the hosting ledger: 32 opaque bytes.
///
/// Two identities are the same account exactly when all their bytes agree.
#[derive(Debug, Clone, Copy, Eq)]
pub struct AccountId(pub [u8; ACCOUNT_ID_LEN]);

impl View for AccountId {
    type V = Seq<u8>;

    open spec fn view(&self) -> Seq<u8> {
        self.0@
    }
}

impl PartialEqSpecImpl for AccountId {
    open spec fn obeys_eq_spec() -> bool {
        true
    }

    open spec fn eq_spec(&self, other: &AccountId) -> bool {
        self@ == other@
    }
}

impl PartialEq for AccountId {
    fn eq(&self, other: &AccountId) -> (same: bool) {
        let mut i: usize = 0;
        while i < ACCOUNT_ID_LEN
            invariant
                i <= ACCOUNT_ID_LEN,
                forall|k: int| 0 <= k < i ==> self.0@[k] == other.0@[k],
            decreases ACCOUNT_ID_LEN - i,
        {
            if self.0[i] != other.0[i] {
                return false;
            }
            i += 1;
        }
        proof {
            assert(self.0@ =~= other.0@);
        }
        true
    }
}

impl AccountId {
    /// Identities with the same bytes are the same value, and identities
    /// that are the same value have the same bytes.
    pub proof fn same_bytes_same_account(self, other: AccountId)
        ensures
            (self@ == other@) <==> (self == other),
            self@.len() == ACCOUNT_ID_LEN,
    {
        if self@ == other@ {
            assert(self.0 =~= other.0);
        }
    }
}

} // verus!
