use vstd::prelude::*;

verus! {

/// A borrowed account reference, held as plain values for the length of one
/// invocation.
///
/// The host runtime hands the handler an ordered list of these. Three roles
/// are bound positionally: the record account that holds (or will hold) the
/// stored counter, the payer that funds provisioning, and the allocator
/// capability (present only for Initialize).
#[derive(Clone, Debug)]
pub struct AccountInfo {
    /// The account's address.
    pub key: Vec<u8>,
    /// The address of the program that owns the account's storage.
    pub owner: Vec<u8>,
    /// Whether this account signed the invoking transaction.
    pub is_signer: bool,
    /// The account's funding balance.
    pub lamports: u64,
    /// The account's persistent storage.
    pub data: Vec<u8>,
}

/// `post` is `pre` with its storage bytes replaced by `d`; every other field
/// is kept.
pub open spec fn same_except_data(pre: AccountInfo, post: AccountInfo, d: Seq<u8>) -> bool {
    &&& post.key@ == pre.key@
    &&& post.owner@ == pre.owner@
    &&& post.is_signer == pre.is_signer
    &&& post.lamports == pre.lamports
    &&& post.data@ == d
}

/// Byte-for-byte equality of two addresses.
pub fn bytes_eq(a: &Vec<u8>, b: &Vec<u8>) -> (r: bool)
    ensures
        r == (a@ == b@),
{
    if a.len() != b.len() {
        return false;
    }
    let mut i: usize = 0;
    while i < a.len()
        invariant
            i <= a@.len(),
            a@.len() == b@.len(),
            forall|j: int| 0 <= j < i ==> a@[j] == b@[j],
        decreases a@.len() - i,
    {
        if a[i] != b[i] {
            return false;
        }
        i = i + 1;
    }
    proof {
        assert(a@ =~= b@);
    }
    true
}

} // verus!
