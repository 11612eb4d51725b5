//! Provably fair ball paths: a SHA-256 chain seeded from the block and the
//! player decides left or right at each row.

use sha2::{Digest, Sha256};
use vstd::prelude::*;
use vstd::string::StrSliceExecFns;
use vstd::arithmetic::div_mod::lemma_div_denominator;
use vstd::arithmetic::power::{lemma_pow_positive, pow};
use vstd::utf8::encode_utf8;

verus! {

/// What SHA-256 returns for a message.
pub uninterp spec fn sha256_digest(data: Seq<u8>) -> Seq<u8>;

/// Calls `sha2::Sha256::digest`. Trusted: the digest is SHA-256 of the bytes
/// given, a function of them alone, and 32 bytes long (the output size of
/// `Sha256`). Hashing a message in several `update` calls gives the digest
/// of their concatenation, so callers hash the concatenated bytes once.
#[verifier::external_body]
fn sha256(data: &[u8]) -> (digest: Vec<u8>)
    ensures
        digest@ == sha256_digest(data@),
        digest@.len() == 32,
{
    Sha256::digest(data).to_vec()
}

/// The last `n` base-256 digits of `x`, most significant first
/// (`u64::to_be_bytes` for `n == 8`).
pub open spec fn be_digits(x: nat, n: nat) -> Seq<u8>
    decreases n,
{
    if n == 0 {
        Seq::empty()
    } else {
        be_digits(x / 256, (n - 1) as nat).push((x % 256) as u8)
    }
}

fn push_be_digits(out: &mut Vec<u8>, x: u64, n: u8)
    ensures
        final(out)@ == old(out)@ + be_digits(x as nat, n as nat),
    decreases n,
{
    if n > 0 {
        push_be_digits(out, x / 256, n - 1);
        out.push((x % 256) as u8);
    }
}

/// The big-endian bytes of a `u64`.
pub fn be_bytes(x: u64) -> (b: Vec<u8>)
    ensures
        b@ == be_digits(x as nat, 8),
{
    let mut b: Vec<u8> = Vec::new();
    push_be_digits(&mut b, x, 8);
    assert(b@ =~= be_digits(x as nat, 8));
    b
}

/// Law: `be_digits(x, n)` is the `n`-byte big-endian form of `x`: byte `i`
/// is digit `n - 1 - i` of `x` in base 256.
pub proof fn law_be_digits_are_base_256_digits(x: nat, n: nat)
    ensures
        be_digits(x, n).len() == n,
        forall|i: int| 0 <= i < n ==> #[trigger] be_digits(x, n)[i] == ((x as int / pow(256, (n - 1 - i) as nat)) % 256) as u8,
    decreases n,
{
    reveal(pow);
    if n > 0 {
        law_be_digits_are_base_256_digits(x / 256, (n - 1) as nat);
        assert forall|i: int| 0 <= i < n implies #[trigger] be_digits(x, n)[i] == ((x as int / pow(256, (n - 1 - i) as nat)) % 256) as u8 by {
            if i < n - 1 {
                let e = (n - 2 - i) as nat;
                assert(be_digits(x, n)[i] == be_digits(x / 256, (n - 1) as nat)[i]);
                lemma_pow_positive(256, e);
                lemma_div_denominator(x as int, 256, pow(256, e));
                assert(pow(256, (n - 1 - i) as nat) == 256 * pow(256, e));
            } else {
                assert(pow(256, 0) == 1);
            }
        }
    }
}

/// Law: the first seed hashes exactly the 8 big-endian bytes of the block
/// height, the 8 of the block time, every UTF-8 byte of the sender
/// unchanged, and the 8 of the nonce: `24 + len(sender)` bytes in all.
pub proof fn law_seed_input_layout(height: u64, time_nanos: u64, sender: Seq<char>, nonce: u64)
    ensures
        ({
            let m = seed_input(height, time_nanos, sender, nonce);
            let len = encode_utf8(sender).len() as int;
            &&& m.len() == 24 + len
            &&& m.subrange(0, 8) == be_digits(height as nat, 8)
            &&& m.subrange(8, 16) == be_digits(time_nanos as nat, 8)
            &&& m.subrange(16, 16 + len) == encode_utf8(sender)
            &&& m.subrange(16 + len, 24 + len) == be_digits(nonce as nat, 8)
        }),
{
    law_be_digits_are_base_256_digits(height as nat, 8);
    law_be_digits_are_base_256_digits(time_nanos as nat, 8);
    law_be_digits_are_base_256_digits(nonce as nat, 8);
    let m = seed_input(height, time_nanos, sender, nonce);
    let len = encode_utf8(sender).len() as int;
    assert(m.subrange(0, 8) =~= be_digits(height as nat, 8));
    assert(m.subrange(8, 16) =~= be_digits(time_nanos as nat, 8));
    assert(m.subrange(16, 16 + len) =~= encode_utf8(sender));
    assert(m.subrange(16 + len, 24 + len) =~= be_digits(nonce as nat, 8));
}

/// The message hashed for the first seed: block height, block time in
/// nanoseconds, the sender's address in UTF-8 and the nonce, integers
/// big-endian.
pub open spec fn seed_input(height: u64, time_nanos: u64, sender: Seq<char>, nonce: u64) -> Seq<u8> {
    be_digits(height as nat, 8) + be_digits(time_nanos as nat, 8) + encode_utf8(sender)
        + be_digits(nonce as nat, 8)
}

/// The seed after `k` rehashings of the first seed.
pub open spec fn seed_chain(input: Seq<u8>, k: nat) -> Seq<u8>
    decreases k,
{
    if k == 0 {
        sha256_digest(input)
    } else {
        sha256_digest(seed_chain(input, (k - 1) as nat))
    }
}

/// The direction a seed sends the ball: 0 (left) when its first byte is
/// even, 1 (right) when odd.
pub open spec fn direction(seed: Seq<u8>) -> u8 {
    if seed[0] % 2 == 0 { 0 } else { 1 }
}

/// The direction a seed sends the ball: 0 (left) when its first byte is
/// even, 1 (right) when odd.
pub fn direction_of(seed: &[u8]) -> (d: u8)
    requires
        seed@.len() > 0,
    ensures
        d == direction(seed@),
{
    if seed[0] % 2 == 0 { 0 } else { 1 }
}

/// The ball's path for a seed message: row `i` takes the direction of the
/// seed rehashed `i + 1` times.
pub open spec fn ball_path(input: Seq<u8>, rows: nat) -> Seq<u8> {
    Seq::new(rows, |i: int| direction(seed_chain(input, (i + 1) as nat)))
}

/// Generate provably fair random path for the ball.
/// Uses block height, timestamp, sender, and nonce for randomness.
pub fn generate_ball_path(height: u64, time_nanos: u64, sender: &str, nonce: u64, rows: u8) -> (path: Vec<u8>)
    ensures
        path@ == ball_path(seed_input(height, time_nanos, sender@, nonce), rows as nat),
        path@.len() == rows,
        forall|i: int| 0 <= i < path@.len() ==> path@[i] == 0 || path@[i] == 1,
{
    let ghost input = seed_input(height, time_nanos, sender@, nonce);
    let mut message = be_bytes(height);
    let mut part = be_bytes(time_nanos);
    message.append(&mut part);
    let mut part = sender.as_bytes_vec();
    message.append(&mut part);
    let mut part = be_bytes(nonce);
    message.append(&mut part);
    assert(message@ =~= input);

    let mut seed = sha256(message.as_slice());
    let mut path: Vec<u8> = Vec::new();
    let mut i: u8 = 0;
    while i < rows
        invariant
            i <= rows,
            seed@ == seed_chain(input, i as nat),
            path@ =~= ball_path(input, i as nat),
        decreases rows - i,
    {
        seed = sha256(seed.as_slice());
        path.push(direction_of(seed.as_slice()));
        i = i + 1;
    }
    path
}

/// The number of right turns (1s) in a path.
pub open spec fn count_right(path: Seq<u8>) -> nat
    decreases path.len(),
{
    if path.len() == 0 {
        0
    } else {
        count_right(path.drop_last()) + if path.last() == 1 { 1nat } else { 0nat }
    }
}

/// Calculate final bucket index from path: the number of right turns.
pub fn calculate_bucket_index(path: &[u8]) -> (index: usize)
    ensures
        index == count_right(path@),
        index <= path@.len(),
{
    let mut count: usize = 0;
    let mut i: usize = 0;
    while i < path.len()
        invariant
            i <= path@.len(),
            count == count_right(path@.take(i as int)),
            count <= i,
        decreases path@.len() - i,
    {
        assert(path@.take(i + 1).drop_last() =~= path@.take(i as int));
        if path[i] == 1 {
            count = count + 1;
        }
        i = i + 1;
    }
    assert(path@.take(i as int) =~= path@);
    count
}

} // verus!
