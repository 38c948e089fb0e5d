use vstd::prelude::*;
use crate::crypto::{ecdsa_signature, wallet_sign, Signature};
use crate::error::Error;
use crate::typed_data::{
    agent_digest, agent_struct_hash, chain_id_for, domain_separator, l1_source, typed_data_digest,
    usd_transfer_digest, usd_transfer_struct_hash, ActionKind, Network, SigningDomain,
};

verus! {

/// `sig` is the signature that `key` makes over `digest`.
pub open spec fn signed_by(key: Seq<u8>, digest: Seq<u8>, sig: Signature) -> bool {
    ecdsa_signature(key, digest) == Some((sig.r@, sig.s@, sig.v))
}

/// The hash of the domain under which an action of `kind` is signed on `network`.
pub open spec fn separator_for(network: Network, kind: ActionKind) -> Seq<u8> {
    domain_separator("Exchange"@, "1"@, chain_id_for(network, kind), Seq::new(20, |i: int| 0u8))
}

/// The digest signed for an L1 action: the agent structure with the
/// network's tag as source and the action's connection id, under the L1 domain.
pub open spec fn l1_action_digest(network: Network, connection_id: Seq<u8>) -> Seq<u8> {
    typed_data_digest(
        separator_for(network, ActionKind::L1Action),
        agent_struct_hash(l1_source(network), connection_id),
    )
}

/// The digest signed for a transfer: the transfer structure under the transfer domain.
pub open spec fn usd_transfer_action_digest(
    network: Network,
    amount: Seq<char>,
    destination: Seq<char>,
    timestamp: u64,
) -> Seq<u8> {
    typed_data_digest(
        separator_for(network, ActionKind::UsdTransfer),
        usd_transfer_struct_hash(destination, amount, timestamp),
    )
}

/// The digest signed to authorise an agent: the agent structure with the
/// given source and connection id, under the agent-connection domain.
pub open spec fn agent_connect_digest(network: Network, source: Seq<char>, connection_id: Seq<u8>) -> Seq<u8> {
    typed_data_digest(
        separator_for(network, ActionKind::AgentConnect),
        agent_struct_hash(source, connection_id),
    )
}

/// What signing `digest` with `key` returns: the signature, or
/// `SigningFailure` where the key makes none.
pub open spec fn signing_outcome(key: Seq<u8>, digest: Seq<u8>, res: Result<Signature, Error>) -> bool {
    match res {
        Ok(sig) => signed_by(key, digest, sig),
        Err(e) => e == Error::SigningFailure && ecdsa_signature(key, digest).is_none(),
    }
}

/// Signs a 32-byte digest with the wallet key.
pub fn sign_digest(key: &[u8; 32], digest: &[u8; 32]) -> (res: Result<Signature, Error>)
    ensures
        signing_outcome(key@, digest@, res),
{
    match wallet_sign(key, digest) {
        Ok(sig) => Ok(sig),
        Err(_) => Err(Error::SigningFailure),
    }
}

/// Signs an L1 action by its connection id.
pub fn sign_l1_action(key: &[u8; 32], network: Network, connection_id: &[u8; 32]) -> (res: Result<
    Signature,
    Error,
>)
    ensures
        signing_outcome(key@, l1_action_digest(network, connection_id@), res),
{
    let domain = SigningDomain::select(network, ActionKind::L1Action);
    let digest = agent_digest(&domain, network.l1_source(), connection_id);
    sign_digest(key, &digest)
}

/// Signs a transfer of `amount` to `destination` at `timestamp`.
pub fn sign_usd_transfer_action(
    key: &[u8; 32],
    network: Network,
    amount: &str,
    destination: &str,
    timestamp: u64,
) -> (res: Result<Signature, Error>)
    ensures
        signing_outcome(
            key@,
            usd_transfer_action_digest(network, amount@, destination@, timestamp),
            res,
        ),
{
    let domain = SigningDomain::select(network, ActionKind::UsdTransfer);
    let digest = usd_transfer_digest(&domain, destination, amount, timestamp);
    sign_digest(key, &digest)
}

/// Signs the authorisation of an agent with the wallet key.
pub fn sign_with_agent(key: &[u8; 32], network: Network, source: &str, connection_id: &[u8; 32]) -> (res:
    Result<Signature, Error>)
    ensures
        signing_outcome(key@, agent_connect_digest(network, source@, connection_id@), res),
{
    let domain = SigningDomain::select(network, ActionKind::AgentConnect);
    let digest = agent_digest(&domain, source, connection_id);
    sign_digest(key, &digest)
}

} // verus!
