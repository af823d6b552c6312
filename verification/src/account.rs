//! The protocol-wide account identifier: an opaque 32-byte value.

use vstd::prelude::*;

verus! {

/// The number of bytes in an account identifier.
pub const ACCOUNT_ID_LEN: usize = 32;

/// An account identifier: exactly [`ACCOUNT_ID_LEN`] opaque bytes, encoded on
/// the wire as those bytes in order.
#[derive(Clone, Debug, PartialEq, Eq)]
pub struct AccountId {
    bytes: Vec<u8>,
}

impl View for AccountId {
    type V = Seq<u8>;

    closed spec fn view(&self) -> Seq<u8> {
        self.bytes@
    }
}

impl AccountId {
    /// A well-formed account identifier holds exactly [`ACCOUNT_ID_LEN`] bytes.
    pub open spec fn wf(&self) -> bool {
        self@.len() == ACCOUNT_ID_LEN
    }

    /// Builds an account identifier from its raw bytes; refuses any length
    /// other than [`ACCOUNT_ID_LEN`].
    pub fn new(bytes: Vec<u8>) -> (r: Option<AccountId>)
        ensures
            bytes@.len() == ACCOUNT_ID_LEN ==> (r matches Some(a) && a@ == bytes@ && a.wf()),
            bytes@.len() != ACCOUNT_ID_LEN ==> r is None,
    {
        if bytes.len() == ACCOUNT_ID_LEN {
            Some(AccountId { bytes })
        } else {
            None
        }
    }

    /// Builds an account identifier from bytes already known to have the
    /// right length.
    pub fn from_raw(bytes: Vec<u8>) -> (a: AccountId)
        requires
            bytes@.len() == ACCOUNT_ID_LEN,
        ensures
            a@ == bytes@,
            a.wf(),
    {
        AccountId { bytes }
    }

    /// The raw bytes of the identifier.
    pub fn as_bytes(&self) -> (r: &Vec<u8>)
        ensures
            r@ == self@,
    {
        &self.bytes
    }

    /// A copy of this identifier.
    pub fn clone_id(&self) -> (r: AccountId)
        ensures
            r@ == self@,
    {
        let bytes = self.bytes.clone();
        proof {
            assert forall|i: int| 0 <= i < bytes@.len() implies bytes@[i] == self.bytes@[i] by {
                assert(cloned::<u8>(self.bytes[i], bytes[i]));
            }
            assert(bytes@ =~= self.bytes@);
        }
        AccountId { bytes }
    }

    /// Whether two identifiers name the same account.
    pub fn equals(&self, other: &AccountId) -> (r: bool)
        ensures
            r == (self@ == other@),
    {
        if self.bytes.len() != other.bytes.len() {
            return false;
        }
        let n: usize = self.bytes.len();
        let mut i: usize = 0;
        while i < n
            invariant
                i <= n,
                n == self@.len(),
                n == other@.len(),
                forall|j: int| 0 <= j < i ==> self@[j] == other@[j],
            decreases n - i,
        {
            if self.bytes[i] != other.bytes[i] {
                return false;
            }
            i = i + 1;
        }
        proof {
            assert(self@ =~= other@);
        }
        true
    }
}

} // verus!
