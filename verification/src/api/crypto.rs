//! HMAC-SHA256 over the `sha2` digest, rendered as lowercase hex.

use vstd::prelude::*;
use sha2::{Digest, Sha256};

verus! {

/// The SHA-256 digest of `data`, as computed by the `sha2` crate.
pub uninterp spec fn sha256_spec(data: Seq<u8>) -> Seq<u8>;

/// `sha2::Sha256::digest`: the 32-byte SHA-256 digest of `data`. The
/// contract names the digest (`sha256_spec`) and states its length; the
/// digest values themselves are not stated.
#[verifier::external_body]
fn sha256(data: &[u8]) -> (r: Vec<u8>)
    ensures
        r@ == sha256_spec(data@),
        r@.len() == 32,
{
    Sha256::digest(data).to_vec()
}

/// SHA-256 block size in bytes.
pub open spec fn block_len() -> nat {
    64
}

/// The HMAC key block: the key (hashed first when longer than a block),
/// zero-padded to a full block.
pub open spec fn hmac_key_block(key: Seq<u8>) -> Seq<u8> {
    let k = if key.len() > 64 {
        sha256_spec(key)
    } else {
        key
    };
    if k.len() < 64 {
        k + Seq::new((64 - k.len()) as nat, |i: int| 0u8)
    } else {
        k
    }
}

/// The first block of `kb`, every byte XOR-ed with `pad`.
pub open spec fn xor_block(kb: Seq<u8>, pad: u8) -> Seq<u8> {
    Seq::new(64, |i: int| kb[i] ^ pad)
}

/// HMAC-SHA256 of `msg` under `key` (RFC 2104).
pub open spec fn hmac_sha256_spec(key: Seq<u8>, msg: Seq<u8>) -> Seq<u8> {
    let kb = hmac_key_block(key);
    sha256_spec(xor_block(kb, 0x5cu8) + sha256_spec(xor_block(kb, 0x36u8) + msg))
}

/// The HMAC key rule of RFC 2104: a key of at most one block is used as
/// it is, its bytes leading a 64-byte block and zeros filling the rest; a
/// key longer than a block is replaced by its 32-byte SHA-256 digest, so
/// signing under it equals signing under that digest.
pub proof fn hmac_key_law(key: Seq<u8>, msg: Seq<u8>)
    requires
        sha256_spec(key).len() == 32,
    ensures
        hmac_key_block(key).len() == 64,
        key.len() <= 64 ==> hmac_key_block(key).subrange(0, key.len() as int) == key,
        key.len() <= 64 ==> forall|i: int| key.len() <= i < 64 ==> #[trigger] hmac_key_block(key)[i] == 0u8,
        key.len() > 64 ==> hmac_key_block(key) == hmac_key_block(sha256_spec(key)),
        key.len() > 64 ==> hmac_sha256_spec(key, msg) == hmac_sha256_spec(sha256_spec(key), msg),
{
    if key.len() <= 64 {
        assert(hmac_key_block(key).subrange(0, key.len() as int) =~= key);
    }
}

fn concat_bytes(a: &[u8], b: &[u8]) -> (r: Vec<u8>)
    ensures
        r@ == a@ + b@,
{
    let mut r: Vec<u8> = Vec::new();
    let mut i: usize = 0;
    while i < a.len()
        invariant
            i <= a.len(),
            r@ == a@.subrange(0, i as int),
        decreases a.len() - i,
    {
        r.push(a[i]);
        assert(r@ =~= a@.subrange(0, i + 1));
        i = i + 1;
    }
    let mut j: usize = 0;
    while j < b.len()
        invariant
            j <= b.len(),
            r@ == a@ + b@.subrange(0, j as int),
        decreases b.len() - j,
    {
        r.push(b[j]);
        assert(r@ =~= a@ + b@.subrange(0, j + 1));
        j = j + 1;
    }
    assert(a@.subrange(0, a.len() as int) =~= a@);
    assert(b@.subrange(0, b.len() as int) =~= b@);
    r
}

fn xor_block_exec(kb: &[u8], pad: u8) -> (r: Vec<u8>)
    requires
        kb@.len() >= 64,
    ensures
        r@ == xor_block(kb@, pad),
{
    let mut r: Vec<u8> = Vec::new();
    let mut i: usize = 0;
    while i < 64
        invariant
            i <= 64,
            kb@.len() >= 64,
            r@ == xor_block(kb@, pad).subrange(0, i as int),
        decreases 64 - i,
    {
        r.push(kb[i] ^ pad);
        assert(r@ =~= xor_block(kb@, pad).subrange(0, i + 1));
        i = i + 1;
    }
    assert(xor_block(kb@, pad).subrange(0, 64) =~= xor_block(kb@, pad));
    r
}

/// HMAC-SHA256 of `msg` under `key`.
pub fn hmac_sha256(key: &[u8], msg: &[u8]) -> (r: Vec<u8>)
    ensures
        r@ == hmac_sha256_spec(key@, msg@),
        r@.len() == 32,
        key@.len() > 64 ==> r@ == hmac_sha256_spec(sha256_spec(key@), msg@),
{
    let mut k: Vec<u8> = concat_bytes(key, &[]);
    assert(k@ =~= key@);
    if k.len() > 64 {
        k = sha256(key);
        proof {
            hmac_key_law(key@, msg@);
        }
    }
    let ghost hashed = k@;
    if k.len() < 64 {
        while k.len() < 64
            invariant
                k.len() <= 64,
                k@ == hashed + Seq::new((k.len() - hashed.len()) as nat, |i: int| 0u8),
                hashed.len() < 64,
            decreases 64 - k.len(),
        {
            k.push(0u8);
            assert(k@ =~= hashed + Seq::new((k.len() - hashed.len()) as nat, |i: int| 0u8));
        }
    }
    assert(k@ == hmac_key_block(key@));
    let ipad = xor_block_exec(&k, 0x36u8);
    let opad = xor_block_exec(&k, 0x5cu8);
    let inner_msg = concat_bytes(&ipad, msg);
    let inner = sha256(&inner_msg);
    let outer_msg = concat_bytes(&opad, &inner);
    sha256(&outer_msg)
}

} // verus!
