use vstd::prelude::*;

verus! {

/// A 32-byte record address, as the host platform identifies accounts.
///
/// The library never derives or interprets an address itself beyond equality;
/// derivation is the host's deterministic address service (see `pda`).
#[derive(Clone, Copy, Debug, PartialEq, Eq)]
pub struct AccountId {
    pub bytes: [u8; 32],
}

impl View for AccountId {
    type V = Seq<u8>;

    open spec fn view(&self) -> Seq<u8> {
        self.bytes@
    }
}

/// The all-zero address: the value of a key field that was never assigned.
pub open spec fn zero_key() -> Seq<u8> {
    Seq::new(32, |_i: int| 0u8)
}

/// The view of an optional key.
pub open spec fn key_view(o: Option<AccountId>) -> Option<Seq<u8>> {
    match o {
        Some(k) => Some(k@),
        None => None,
    }
}

/// Byte-for-byte equality of two addresses.
pub fn same_id(a: &AccountId, b: &AccountId) -> (r: bool)
    ensures
        r == (a@ == b@),
{
    let mut i: usize = 0;
    while i < 32
        invariant
            0 <= i <= 32,
            forall|j: int| 0 <= j < i ==> a.bytes@[j] == b.bytes@[j],
        decreases 32 - i,
    {
        if a.bytes[i] != b.bytes[i] {
            return false;
        }
        i += 1;
    }
    proof {
        assert(a@ =~= b@);
    }
    true
}

/// The unassigned address.
pub fn zero_id() -> (r: AccountId)
    ensures
        r@ == zero_key(),
{
    let id = AccountId { bytes: [0u8; 32] };
    proof {
        assert(id@ =~= zero_key());
    }
    id
}

} // verus!
