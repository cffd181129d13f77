//! Wallet keys and deterministic vault addressing.
//!
//! A wallet key is its raw 32-byte public-key form. The vault address is
//! derived from the parent's key plus a fixed seed label, so it is
//! re-derivable without a lookup and re-creation for the same parent yields
//! the same address.

use vstd::prelude::*;

verus! {

/// Length in bytes of a wallet public key.
pub const KEY_LEN: usize = 32;

/// A byte string is a well-formed wallet key when it has exactly the
/// public-key length.
pub open spec fn is_wallet_key(k: Seq<u8>) -> bool {
    k.len() == KEY_LEN
}

/// Byte-for-byte comparison of two byte strings.
pub fn bytes_eq(a: &Vec<u8>, b: &Vec<u8>) -> (r: bool)
    ensures
        r == (a@ == b@),
{
    if a.len() != b.len() {
        return false;
    }
    let n = a.len();
    let mut i: usize = 0;
    while i < n
        invariant
            n == a.len(),
            a.len() == b.len(),
            i <= n,
            forall|j: int| 0 <= j < i ==> a@[j] == b@[j],
        decreases n - i,
    {
        if a[i] != b[i] {
            return false;
        }
        i = i + 1;
    }
    proof {
        assert(a@ =~= b@);
    }
    true
}

/// Append a copy of `src` to `out`.
pub fn append_bytes(out: &mut Vec<u8>, src: &Vec<u8>) -> (nothing: ())
    ensures
        final(out)@ == old(out)@ + src@,
{
    let ghost base = out@;
    let n = src.len();
    let mut i: usize = 0;
    while i < n
        invariant
            n == src@.len(),
            i <= n,
            out@ == base + src@.subrange(0, i as int),
        decreases n - i,
    {
        out.push(src[i]);
        proof {
            assert(out@ =~= base + src@.subrange(0, i + 1 as int));
        }
        i = i + 1;
    }
    proof {
        assert(src@.subrange(0, n as int) =~= src@);
    }
}

/// The seed label prepended to the parent key when deriving a vault address.
pub open spec fn spec_vault_seed() -> Seq<u8> {
    seq![118u8, 97u8, 117u8, 108u8, 116u8]
}

/// The vault address derived from a parent wallet key: the fixed seed label
/// followed by the parent's key bytes.
pub open spec fn spec_vault_address(parent: Seq<u8>) -> Seq<u8> {
    spec_vault_seed() + parent
}

/// Derive the deterministic vault address for a parent wallet.
pub fn derive_vault_address(parent: &Vec<u8>) -> (addr: Vec<u8>)
    ensures
        addr@ == spec_vault_address(parent@),
{
    let mut addr: Vec<u8> = Vec::new();
    addr.push(118u8);
    addr.push(97u8);
    addr.push(117u8);
    addr.push(108u8);
    addr.push(116u8);
    assert(addr@ =~= spec_vault_seed());
    let n = parent.len();
    let mut i: usize = 0;
    while i < n
        invariant
            n == parent.len(),
            i <= n,
            addr@ == spec_vault_seed() + parent@.subrange(0, i as int),
        decreases n - i,
    {
        addr.push(parent[i]);
        proof {
            assert(addr@ =~= spec_vault_seed() + parent@.subrange(0, i + 1 as int));
        }
        i = i + 1;
    }
    proof {
        assert(parent@.subrange(0, n as int) =~= parent@);
    }
    addr
}

/// Distinct parents get distinct vault addresses: the derivation is injective.
pub proof fn lemma_vault_address_injective(p1: Seq<u8>, p2: Seq<u8>)
    requires
        spec_vault_address(p1) == spec_vault_address(p2),
    ensures
        p1 == p2,
{
    let a1 = spec_vault_address(p1);
    let a2 = spec_vault_address(p2);
    assert(p1.len() == a1.len() - 5);
    assert(forall|i: int| 0 <= i < p1.len() ==> p1[i] == a1[i + 5]);
    assert(forall|i: int| 0 <= i < p2.len() ==> p2[i] == a2[i + 5]);
    assert(p1 =~= p2);
}

} // verus!
