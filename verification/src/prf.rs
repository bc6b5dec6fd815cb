use crate::crypto::{hmac_sign, hmac_tag, HashAlgorithm};
use crate::msgs::codec::put_bytes;
use vstd::prelude::*;

verus! {

/// The chain value A(i) of the PRF's expansion: A(0) is the seed, and each
/// further one the HMAC of the one before.
pub open spec fn chain(alg: HashAlgorithm, secret: Seq<u8>, seed: Seq<u8>, i: nat) -> Seq<u8>
    decreases i,
{
    if i == 0 {
        seed
    } else {
        hmac_tag(alg, secret, chain(alg, secret, seed, (i - 1) as nat))
    }
}

/// Block `i` of the expansion, counted from 0: the HMAC of A(i + 1) followed
/// by the seed.
pub open spec fn block(alg: HashAlgorithm, secret: Seq<u8>, seed: Seq<u8>, i: nat) -> Seq<u8> {
    hmac_tag(alg, secret, chain(alg, secret, seed, i + 1) + seed)
}

/// `len` bytes of the expansion, from block `i` on: each block gives as many
/// bytes as a digest has, the last one as many as are still wanted.
pub open spec fn expansion(
    alg: HashAlgorithm,
    secret: Seq<u8>,
    seed: Seq<u8>,
    i: nat,
    len: nat,
) -> Seq<u8>
    decreases len,
{
    if len == 0 {
        Seq::empty()
    } else {
        let n = if len <= alg.output_len() {
            len
        } else {
            alg.output_len()
        };
        block(alg, secret, seed, i).take(n as int) + expansion(
            alg,
            secret,
            seed,
            i + 1,
            (len - n) as nat,
        )
    }
}

/// The output of the TLS 1.2 pseudo-random function: `len` bytes of the
/// expansion of `secret` over the label followed by the seed.
pub open spec fn prf_output(
    alg: HashAlgorithm,
    secret: Seq<u8>,
    label: Seq<u8>,
    seed: Seq<u8>,
    len: nat,
) -> Seq<u8> {
    expansion(alg, secret, label + seed, 0, len)
}

/// Fills `out` with the expansion of `secret` over `seed`.
fn p(out: &mut [u8], alg: HashAlgorithm, secret: &[u8], seed: &[u8])
    ensures
        final(out)@.len() == old(out)@.len(),
        final(out)@ == expansion(alg, secret@, seed@, 0, old(out)@.len()),
{
    let total = out.len();
    // A(1)
    let mut current_a = hmac_sign(alg, secret, seed);
    let chunk_size = current_a.len();
    let mut off: usize = 0;
    let ghost mut i: nat = 0;
    assert(chain(alg, secret@, seed@, 1) == hmac_tag(alg, secret@, chain(alg, secret@, seed@, 0)));
    assert(out@.take(0) + expansion(alg, secret@, seed@, 0, total as nat) =~= expansion(
        alg,
        secret@,
        seed@,
        0,
        total as nat,
    ));
    while off < total
        invariant
            off <= total,
            total == out@.len(),
            total == old(out)@.len(),
            chunk_size == alg.output_len(),
            current_a@ == chain(alg, secret@, seed@, i + 1),
            out@.take(off as int) + expansion(alg, secret@, seed@, i, (total - off) as nat)
                == expansion(alg, secret@, seed@, 0, total as nat),
        decreases total - off,
    {
        let mut input: Vec<u8> = Vec::new();
        put_bytes(current_a.as_slice(), &mut input);
        put_bytes(seed, &mut input);
        assert(input@ =~= current_a@ + seed@);
        let p_term = hmac_sign(alg, secret, input.as_slice());
        assert(p_term@ == block(alg, secret@, seed@, i));
        let n = if total - off <= chunk_size {
            total - off
        } else {
            chunk_size
        };
        let ghost before = out@;
        let mut k: usize = 0;
        while k < n
            invariant
                k <= n,
                n <= chunk_size,
                n <= total - off,
                chunk_size == p_term@.len(),
                total == out@.len(),
                out@.take(off as int) == before.take(off as int),
                out@.subrange(off as int, off + k) == p_term@.take(k as int),
            decreases n - k,
        {
            let ghost prev = out@;
            out[off + k] = p_term[k];
            proof {
                assert(out@ == prev.update(off + k, p_term@[k as int]));
                assert(out@.take(off as int) =~= prev.take(off as int));
                assert(out@.subrange(off as int, off + k + 1) =~= prev.subrange(
                    off as int,
                    off + k,
                ).push(p_term@[k as int]));
                assert(p_term@.take(k + 1) =~= p_term@.take(k as int).push(p_term@[k as int]));
            }
            k = k + 1;
        }
        proof {
            let rest = expansion(alg, secret@, seed@, i + 1, (total - off - n) as nat);
            assert(expansion(alg, secret@, seed@, i, (total - off) as nat) == p_term@.take(n as int)
                + rest);
            assert(out@.take(off + n) =~= out@.take(off as int) + out@.subrange(
                off as int,
                off + n,
            ));
            assert(out@.take(off + n) + rest =~= before.take(off as int) + (p_term@.take(n as int)
                + rest));
            assert(chain(alg, secret@, seed@, i + 2) == hmac_tag(
                alg,
                secret@,
                chain(alg, secret@, seed@, i + 1),
            ));
            i = i + 1;
        }
        current_a = hmac_sign(alg, secret, current_a.as_slice());
        off = off + n;
    }
    proof {
        assert(out@.take(total as int) =~= out@);
        assert(expansion(alg, secret@, seed@, i, 0) =~= Seq::<u8>::empty());
        assert(out@ + Seq::<u8>::empty() =~= out@);
    }
}

/// Fills `out` with the output of the TLS 1.2 pseudo-random function for the
/// given secret, label and seed.
pub fn prf(out: &mut [u8], alg: HashAlgorithm, secret: &[u8], label: &[u8], seed: &[u8])
    ensures
        final(out)@.len() == old(out)@.len(),
        final(out)@ == prf_output(alg, secret@, label@, seed@, old(out)@.len()),
{
    let mut joined_seed: Vec<u8> = Vec::new();
    put_bytes(label, &mut joined_seed);
    put_bytes(seed, &mut joined_seed);
    assert(joined_seed@ =~= label@ + seed@);
    p(out, alg, secret, joined_seed.as_slice());
}

} // verus!
