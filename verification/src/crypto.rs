use vstd::prelude::*;
use crate::abi::{
    abi_address, abi_cancel_batch, abi_leverage_update, abi_margin_update, abi_order_batch,
    MAX_CANCEL_BATCH, MAX_ORDER_BATCH,
};
use ethers::abi::AbiEncode;
use ethers::signers::{LocalWallet, Signer, WalletError};
use ethers::types::{H160, H256};

verus! {

/// The error that `ethers` reports for a key that is no signing key or a
/// signature that could not be made. Nothing is known of its contents.
#[verifier::external_type_specification]
#[verifier::external_body]
pub struct ExWalletError(ethers::signers::WalletError);

/// A recoverable secp256k1 signature, `r` and `s` as big-endian words.
#[derive(Clone, Copy, Debug)]
pub struct Signature {
    pub r: [u8; 32],
    pub s: [u8; 32],
    pub v: u64,
}

/// The Keccak-256 digest of a byte string.
pub uninterp spec fn keccak256_of(bytes: Seq<u8>) -> Seq<u8>;

/// The deterministic recoverable signature `(r, s, v)` that the secp256k1
/// key `key` makes over the 32-byte `digest`; `None` where the key makes
/// none, as for a key that is no signing key.
pub uninterp spec fn ecdsa_signature(key: Seq<u8>, digest: Seq<u8>) -> Option<(Seq<u8>, Seq<u8>, u64)>;

/// The address that belongs to the secp256k1 key `key`; `None` where `key`
/// is no signing key.
pub uninterp spec fn address_of_key(key: Seq<u8>) -> Option<Seq<u8>>;

/// The lower-case hexadecimal digit of a value below sixteen.
pub open spec fn hex_digit(n: int) -> char {
    seq!['0', '1', '2', '3', '4', '5', '6', '7', '8', '9', 'a', 'b', 'c', 'd', 'e', 'f'][n]
}

/// The lower-case hexadecimal text of a byte string, two digits per byte,
/// the high one first, without a prefix.
pub open spec fn hex_of(bytes: Seq<u8>) -> Seq<char> {
    Seq::new(
        2 * bytes.len(),
        |i: int|
            if i % 2 == 0 {
                hex_digit(bytes[i / 2] as int / 16)
            } else {
                hex_digit(bytes[i / 2] as int % 16)
            },
    )
}

/// Calls `ethers::utils::keccak256`. Claimed, not proved: the result is the
/// Keccak-256 digest of the bytes given, a function of those bytes alone.
#[verifier::external_body]
pub(crate) fn keccak256(bytes: &Vec<u8>) -> (digest: [u8; 32])
    ensures
        digest@ == keccak256_of(bytes@),
{
    ethers::utils::keccak256(bytes)
}

/// Calls `AbiEncode::encode` of `ethers` on the tuple `(orders, grouping,
/// vault, timestamp)`. Claimed, not proved: the result is the tuple's
/// contract ABI encoding, which for this shape is the offset word of the
/// list, one word for each of the three fixed fields, the list's length and
/// eight words for each order tuple. The encoder adds up the byte count of
/// the whole encoding in 32 bits, so longer batches are left out.
#[verifier::external_body]
pub(crate) fn encode_order_batch(
    orders: &Vec<(u32, bool, u64, u64, bool, u8, u64, u128)>,
    grouping: i32,
    vault: &[u8; 20],
    timestamp: u64,
) -> (bytes: Vec<u8>)
    requires
        orders@.len() <= MAX_ORDER_BATCH,
    ensures
        bytes@ == abi_order_batch(orders@, grouping, vault@, timestamp),
{
    (orders.clone(), grouping, H160(*vault), timestamp).encode()
}

/// Calls `AbiEncode::encode` of `ethers` on the tuple `(cancels, vault,
/// timestamp)`. Claimed, not proved: the result is the tuple's contract ABI
/// encoding, which for this shape is the offset word of the list, one word
/// for each of the two fixed fields, the list's length and two words for
/// each cancel tuple. The encoder adds up the byte count of the whole
/// encoding in 32 bits, so longer batches are left out.
#[verifier::external_body]
pub(crate) fn encode_cancel_batch(cancels: &Vec<(u32, u64)>, vault: &[u8; 20], timestamp: u64) -> (bytes:
    Vec<u8>)
    requires
        cancels@.len() <= MAX_CANCEL_BATCH,
    ensures
        bytes@ == abi_cancel_batch(cancels@, vault@, timestamp),
{
    (cancels.clone(), H160(*vault), timestamp).encode()
}

/// Calls `AbiEncode::encode` of `ethers` on the tuple `(asset, is_cross,
/// leverage, vault, timestamp)`. Claimed, not proved: the result is the
/// tuple's contract ABI encoding, one big-endian word for each field.
#[verifier::external_body]
pub(crate) fn encode_leverage_update(
    asset: u32,
    is_cross: bool,
    leverage: u32,
    vault: &[u8; 20],
    timestamp: u64,
) -> (bytes: Vec<u8>)
    ensures
        bytes@ == abi_leverage_update(asset, is_cross, leverage, vault@, timestamp),
{
    (asset, is_cross, leverage, H160(*vault), timestamp).encode()
}

/// Calls `AbiEncode::encode` of `ethers` on the tuple `(asset, is_buy,
/// amount, vault, timestamp)`. Claimed, not proved: the result is the
/// tuple's contract ABI encoding, one big-endian word for each field, the
/// signed amount in two's complement.
#[verifier::external_body]
pub(crate) fn encode_margin_update(
    asset: u32,
    is_buy: bool,
    amount: i64,
    vault: &[u8; 20],
    timestamp: u64,
) -> (bytes: Vec<u8>)
    ensures
        bytes@ == abi_margin_update(asset, is_buy, amount, vault@, timestamp),
{
    (asset, is_buy, amount, H160(*vault), timestamp).encode()
}

/// Calls `AbiEncode::encode` of `ethers` on an address. Claimed, not
/// proved: the result is the address as one word, padded on the left.
#[verifier::external_body]
pub(crate) fn encode_address(address: &[u8; 20]) -> (bytes: Vec<u8>)
    ensures
        bytes@ == abi_address(address@),
{
    H160(*address).encode()
}

/// Makes a `LocalWallet` of `ethers` from the key with `from_bytes` and calls
/// its `sign_hash` on the digest. Claimed, not proved: the signature is a
/// function of the key and the digest alone, with `r` and `s` handed on as
/// big-endian words, and an error comes exactly where there is no signature.
#[verifier::external_body]
pub(crate) fn wallet_sign(key: &[u8; 32], digest: &[u8; 32]) -> (res: Result<Signature, WalletError>)
    ensures
        match res {
            Ok(sig) => ecdsa_signature(key@, digest@) == Some((sig.r@, sig.s@, sig.v)),
            Err(_) => ecdsa_signature(key@, digest@).is_none(),
        },
{
    let wallet = LocalWallet::from_bytes(key)?;
    let sig = wallet.sign_hash(H256(*digest))?;
    let mut r = [0u8; 32];
    let mut s = [0u8; 32];
    sig.r.to_big_endian(&mut r);
    sig.s.to_big_endian(&mut s);
    Ok(Signature { r, s, v: sig.v })
}

/// Makes a `LocalWallet` of `ethers` from the key with `from_bytes` and reads
/// its `address`. Claimed, not proved: the address is a function of the key
/// alone, and an error comes exactly where the key is no signing key.
#[verifier::external_body]
pub(crate) fn wallet_address(key: &[u8; 32]) -> (res: Result<[u8; 20], WalletError>)
    ensures
        match res {
            Ok(address) => address_of_key(key@) == Some(address@),
            Err(_) => address_of_key(key@).is_none(),
        },
{
    let wallet = LocalWallet::from_bytes(key)?;
    Ok(wallet.address().0)
}

/// Calls `hex::encode` as `ethers::utils` hands it on. Claimed, not proved:
/// the text holds two lower-case digits per byte, the high one first, and
/// no prefix.
#[verifier::external_body]
pub(crate) fn hex_string(bytes: &[u8; 32]) -> (text: String)
    ensures
        text@ == hex_of(bytes@),
{
    ethers::utils::hex::encode(bytes)
}

} // verus!
