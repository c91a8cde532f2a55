//! Instruction data of the vault program.
use vstd::prelude::*;

verus! {

/// What `solana_sdk::hash::hash` returns: the SHA-256 digest.
pub uninterp spec fn sha256(data: Seq<u8>) -> Seq<u8>;

/// Calls `solana_sdk::hash::hash`. Claims only that the 32 bytes of the result are a function
/// of the data, named `sha256`.
#[verifier::external_body]
fn hash(data: &[u8]) -> (digest: [u8; 32])
    ensures
        digest@ == sha256(data@),
{
    solana_sdk::hash::hash(data).to_bytes()
}

/// The eight bytes that select an instruction of an Anchor program: the head of the digest of
/// `global:` and the instruction's name.
pub open spec fn discriminator(name: Seq<char>) -> Seq<u8> {
    sha256(vstd::utf8::encode_utf8("global:"@ + name)).take(8)
}

/// The first eight bytes of a digest.
pub fn digest_head(digest: &[u8; 32]) -> (head: [u8; 8])
    ensures
        head@ == digest@.take(8),
{
    let mut head = [0u8; 8];
    let mut i: usize = 0;
    while i < 8
        invariant
            i <= 8,
            forall|j: int| 0 <= j < i ==> head@[j] == digest@[j],
        decreases 8 - i,
    {
        head[i] = digest[i];
        i = i + 1;
    }
    assert(head@ =~= digest@.take(8));
    head
}

/// Computes the discriminator of an instruction.
pub fn anchor_discriminator(name: &str) -> (sighash: [u8; 8])
    ensures
        sighash@ == discriminator(name@),
{
    let mut preimage: String = "global:".to_owned();
    preimage.append(name);
    digest_head(&hash(preimage.as_str().as_bytes()))
}

/// The eight bytes of a number, least significant first.
pub open spec fn le_bytes(x: u64) -> Seq<u8> {
    seq![
        (x % 0x100) as u8,
        (x / 0x100 % 0x100) as u8,
        (x / 0x1_0000 % 0x100) as u8,
        (x / 0x100_0000 % 0x100) as u8,
        (x / 0x1_0000_0000 % 0x100) as u8,
        (x / 0x100_0000_0000 % 0x100) as u8,
        (x / 0x1_0000_0000_0000 % 0x100) as u8,
        (x / 0x100_0000_0000_0000 % 0x100) as u8,
    ]
}

/// The number that eight bytes at an offset stand for, least significant first.
pub open spec fn le_value(bytes: Seq<u8>, at: int) -> int {
    bytes[at] + 0x100 * bytes[at + 1] + 0x1_0000 * bytes[at + 2] + 0x100_0000 * bytes[at + 3]
        + 0x1_0000_0000 * bytes[at + 4] + 0x100_0000_0000 * bytes[at + 5] + 0x1_0000_0000_0000
        * bytes[at + 6] + 0x100_0000_0000_0000 * bytes[at + 7]
}

/// Appends bytes.
fn extend(data: &mut Vec<u8>, bytes: &[u8])
    ensures
        final(data)@ == old(data)@ + bytes@,
{
    let mut i: usize = 0;
    while i < bytes.len()
        invariant
            i <= bytes@.len(),
            data@ == old(data)@ + bytes@.take(i as int),
        decreases bytes@.len() - i,
    {
        data.push(bytes[i]);
        i = i + 1;
        assert(bytes@.take(i as int) =~= bytes@.take(i - 1).push(bytes@[i - 1]));
    }
    assert(bytes@.take(i as int) =~= bytes@);
}

/// The bytes of a number, least significant first.
pub fn to_le_bytes(x: u64) -> (bytes: [u8; 8])
    ensures
        bytes@ == le_bytes(x),
{
    let bytes: [u8; 8] = [
        (x % 0x100) as u8,
        (x / 0x100 % 0x100) as u8,
        (x / 0x1_0000 % 0x100) as u8,
        (x / 0x100_0000 % 0x100) as u8,
        (x / 0x1_0000_0000 % 0x100) as u8,
        (x / 0x100_0000_0000 % 0x100) as u8,
        (x / 0x1_0000_0000_0000 % 0x100) as u8,
        (x / 0x100_0000_0000_0000 % 0x100) as u8,
    ];
    assert(bytes@ =~= le_bytes(x));
    bytes
}

/// The data of a deposit: its discriminator and the amount.
pub open spec fn deposit_data(discriminator: Seq<u8>, amount: u64) -> Seq<u8> {
    discriminator + le_bytes(amount)
}

/// The data of a withdrawal request: its discriminator, the amount, that the amount counts LP
/// tokens, and that not everything is withdrawn.
pub open spec fn request_withdraw_data(discriminator: Seq<u8>, lp_amount: u64) -> Seq<u8> {
    discriminator + le_bytes(lp_amount) + seq![1u8, 0u8]
}

/// Encodes the data of a deposit.
pub fn encode_deposit(discriminator: &[u8; 8], amount: u64) -> (data: Vec<u8>)
    ensures
        data@ == deposit_data(discriminator@, amount),
{
    let mut data: Vec<u8> = Vec::with_capacity(16);
    extend(&mut data, discriminator.as_slice());
    extend(&mut data, to_le_bytes(amount).as_slice());
    assert(data@ =~= deposit_data(discriminator@, amount));
    data
}

/// Encodes the data of a withdrawal request.
pub fn encode_request_withdraw(discriminator: &[u8; 8], lp_amount: u64) -> (data: Vec<u8>)
    ensures
        data@ == request_withdraw_data(discriminator@, lp_amount),
{
    let mut data: Vec<u8> = Vec::with_capacity(18);
    extend(&mut data, discriminator.as_slice());
    extend(&mut data, to_le_bytes(lp_amount).as_slice());
    data.push(1);
    data.push(0);
    assert(data@ =~= request_withdraw_data(discriminator@, lp_amount));
    data
}

/// Encodes the data of a withdrawal: its discriminator alone.
pub fn encode_withdraw(discriminator: &[u8; 8]) -> (data: Vec<u8>)
    ensures
        data@ == discriminator@,
{
    let mut data: Vec<u8> = Vec::with_capacity(8);
    extend(&mut data, discriminator.as_slice());
    assert(data@ =~= discriminator@);
    data
}

} // verus!
