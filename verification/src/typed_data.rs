use vstd::prelude::*;
use vstd::utf8::encode_utf8;
use crate::abi::{push_address_word, push_u64_word, word_of_address, word_of_u64};
use crate::crypto::{keccak256, keccak256_of};

verus! {

/// The base URL of the production API; any other base URL selects the test network.
pub const MAINNET_API_URL: &'static str = "https://api.hyperliquid.xyz";

/// The service URL named as `source` when a wallet authorises an agent.
pub const AGENT_SOURCE_URL: &'static str = "https://hyperliquid.xyz";

/// The network that a client is configured against.
#[derive(Clone, Copy, Debug, PartialEq, Eq, Structural)]
pub enum Network {
    Mainnet,
    Testnet,
}

/// The families of actions that differ in how they are signed.
#[derive(Clone, Copy, Debug, PartialEq, Eq, Structural)]
pub enum ActionKind {
    /// Orders, cancels, leverage and margin updates: the signature covers an
    /// agent structure around the action's connection id.
    L1Action,
    /// A transfer of funds, signed as a typed structure of its own.
    UsdTransfer,
    /// The authorisation of an agent key by the wallet.
    AgentConnect,
}

/// The typed-data parameters that scope a signature.
#[derive(Clone, Copy, Debug)]
pub struct SigningDomain {
    pub name: &'static str,
    pub version: &'static str,
    pub chain_id: u64,
    pub verifying_contract: [u8; 20],
}

/// The structure that is signed for an L1 action and for an agent
/// connection: who vouches (`source`) and for what (`connection_id`).
#[derive(Clone, Debug)]
pub struct Agent {
    pub source: String,
    pub connection_id: [u8; 32],
}

/// The chain id under which an action of `kind` is signed on `network`.
pub open spec fn chain_id_for(network: Network, kind: ActionKind) -> u64 {
    match network {
        Network::Mainnet => 42161,
        Network::Testnet => match kind {
            ActionKind::L1Action => 1337,
            _ => 421613,
        },
    }
}

/// The network tag that an agent structure carries for an L1 action.
pub open spec fn l1_source(network: Network) -> Seq<char> {
    match network {
        Network::Mainnet => "a"@,
        Network::Testnet => "b"@,
    }
}

/// The chain label that a transfer or an agent connection names.
pub open spec fn chain_label(network: Network) -> Seq<char> {
    match network {
        Network::Mainnet => "Arbitrum"@,
        Network::Testnet => "ArbitrumGoerli"@,
    }
}

/// The Keccak-256 digest of a text's UTF-8 bytes.
pub open spec fn text_hash(text: Seq<char>) -> Seq<u8> {
    keccak256_of(encode_utf8(text))
}

/// The hash of a domain: the digest of the domain type's hash, the hashes of
/// name and version, the chain id and the verifying contract, each one word.
pub open spec fn domain_separator(
    name: Seq<char>,
    version: Seq<char>,
    chain_id: u64,
    verifying_contract: Seq<u8>,
) -> Seq<u8> {
    keccak256_of(
        text_hash(
            "EIP712Domain(string name,string version,uint256 chainId,address verifyingContract)"@,
        ) + text_hash(name) + text_hash(version) + word_of_u64(chain_id) + word_of_address(
            verifying_contract,
        ),
    )
}

/// The hash of the agent structure `{source, connectionId}`.
pub open spec fn agent_struct_hash(source: Seq<char>, connection_id: Seq<u8>) -> Seq<u8> {
    keccak256_of(
        text_hash("Agent(string source,bytes32 connectionId)"@) + text_hash(source)
            + connection_id,
    )
}

/// The hash of the transfer structure `{destination, amount, time}`.
pub open spec fn usd_transfer_struct_hash(destination: Seq<char>, amount: Seq<char>, time: u64) -> Seq<u8> {
    keccak256_of(
        text_hash(
            "HyperliquidTransaction:UsdTransfer(string destination,string amount,uint64 time)"@,
        ) + text_hash(destination) + text_hash(amount) + word_of_u64(time),
    )
}

/// The digest that is signed for a structure under a domain: the two-byte
/// prefix, the domain's hash and the structure's hash, hashed together.
pub open spec fn typed_data_digest(separator: Seq<u8>, struct_hash: Seq<u8>) -> Seq<u8> {
    keccak256_of(seq![0x19u8, 0x01u8] + separator + struct_hash)
}

impl Network {
    /// The network of a base URL: the production network for the known
    /// production URL, the test network for every other.
    pub fn from_base_url(base_url: &str) -> (network: Network)
        ensures
            network == (if base_url@ == MAINNET_API_URL@ {
                Network::Mainnet
            } else {
                Network::Testnet
            }),
    {
        let given: String = base_url.to_owned();
        let known: String = MAINNET_API_URL.to_owned();
        if given == known {
            Network::Mainnet
        } else {
            Network::Testnet
        }
    }

    /// The tag that an agent structure carries for an L1 action on this network.
    pub fn l1_source(&self) -> (tag: &'static str)
        ensures
            tag@ == l1_source(*self),
    {
        match self {
            Network::Mainnet => "a",
            Network::Testnet => "b",
        }
    }

    /// The chain label that a transfer or an agent connection names on this network.
    pub fn chain_label(&self) -> (label: &'static str)
        ensures
            label@ == chain_label(*self),
    {
        match self {
            Network::Mainnet => "Arbitrum",
            Network::Testnet => "ArbitrumGoerli",
        }
    }
}

impl SigningDomain {
    /// This domain's hash.
    pub open spec fn separator(&self) -> Seq<u8> {
        domain_separator(self.name@, self.version@, self.chain_id, self.verifying_contract@)
    }

    /// Selects the domain by network and action family. Name, version and the
    /// all-zero verifying contract are shared; only the chain id differs.
    pub fn select(network: Network, kind: ActionKind) -> (domain: SigningDomain)
        ensures
            domain.name@ == "Exchange"@,
            domain.version@ == "1"@,
            domain.chain_id == chain_id_for(network, kind),
            domain.verifying_contract@ == Seq::new(20, |i: int| 0u8),
    {
        let chain_id: u64 = match network {
            Network::Mainnet => 42161,
            Network::Testnet => match kind {
                ActionKind::L1Action => 1337,
                _ => 421613,
            },
        };
        let domain = SigningDomain {
            name: "Exchange",
            version: "1",
            chain_id,
            verifying_contract: [0u8; 20],
        };
        assert(domain.verifying_contract@ =~= Seq::new(20, |i: int| 0u8));
        domain
    }

    /// Computes this domain's hash.
    pub fn hash(&self) -> (digest: [u8; 32])
        ensures
            digest@ == self.separator(),
    {
        let mut buf: Vec<u8> = Vec::new();
        let type_hash = hash_text(
            "EIP712Domain(string name,string version,uint256 chainId,address verifyingContract)",
        );
        let name_hash = hash_text(self.name);
        let version_hash = hash_text(self.version);
        buf.extend_from_slice(type_hash.as_slice());
        buf.extend_from_slice(name_hash.as_slice());
        buf.extend_from_slice(version_hash.as_slice());
        push_u64_word(&mut buf, self.chain_id);
        push_address_word(&mut buf, &self.verifying_contract);
        assert(buf@ =~= text_hash(
            "EIP712Domain(string name,string version,uint256 chainId,address verifyingContract)"@,
        ) + text_hash(self.name@) + text_hash(self.version@) + word_of_u64(self.chain_id)
            + word_of_address(self.verifying_contract@));
        keccak256(&buf)
    }
}

impl Agent {
    /// The hash of this structure.
    pub open spec fn spec_struct_hash(&self) -> Seq<u8> {
        agent_struct_hash(self.source@, self.connection_id@)
    }

    /// The digest to sign for this structure under `domain`.
    pub fn encode_eip712(&self, domain: &SigningDomain) -> (digest: [u8; 32])
        ensures
            digest@ == typed_data_digest(domain.separator(), self.spec_struct_hash()),
    {
        agent_digest(domain, self.source.as_str(), &self.connection_id)
    }
}

/// Hashes a text's UTF-8 bytes.
pub fn hash_text(text: &str) -> (digest: [u8; 32])
    ensures
        digest@ == text_hash(text@),
{
    let bytes = text.as_bytes_vec();
    keccak256(&bytes)
}

/// The digest to sign for the agent structure `{source, connection_id}`
/// under `domain`.
pub fn agent_digest(domain: &SigningDomain, source: &str, connection_id: &[u8; 32]) -> (digest: [u8; 32])
    ensures
        digest@ == typed_data_digest(
            domain.separator(),
            agent_struct_hash(source@, connection_id@),
        ),
{
    let type_hash = hash_text("Agent(string source,bytes32 connectionId)");
    let source_hash = hash_text(source);
    let mut fields: Vec<u8> = Vec::new();
    fields.extend_from_slice(type_hash.as_slice());
    fields.extend_from_slice(source_hash.as_slice());
    fields.extend_from_slice(connection_id.as_slice());
    assert(fields@ =~= text_hash("Agent(string source,bytes32 connectionId)"@) + text_hash(
        source@,
    ) + connection_id@);
    let struct_hash = keccak256(&fields);
    let separator = domain.hash();
    digest_of(&separator, &struct_hash)
}

/// The digest to sign for the transfer structure `{destination, amount, time}`
/// under `domain`.
pub fn usd_transfer_digest(domain: &SigningDomain, destination: &str, amount: &str, time: u64) -> (digest:
    [u8; 32])
    ensures
        digest@ == typed_data_digest(
            domain.separator(),
            usd_transfer_struct_hash(destination@, amount@, time),
        ),
{
    let type_hash = hash_text(
        "HyperliquidTransaction:UsdTransfer(string destination,string amount,uint64 time)",
    );
    let destination_hash = hash_text(destination);
    let amount_hash = hash_text(amount);
    let mut fields: Vec<u8> = Vec::new();
    fields.extend_from_slice(type_hash.as_slice());
    fields.extend_from_slice(destination_hash.as_slice());
    fields.extend_from_slice(amount_hash.as_slice());
    push_u64_word(&mut fields, time);
    assert(fields@ =~= text_hash(
        "HyperliquidTransaction:UsdTransfer(string destination,string amount,uint64 time)"@,
    ) + text_hash(destination@) + text_hash(amount@) + word_of_u64(time));
    let struct_hash = keccak256(&fields);
    let separator = domain.hash();
    digest_of(&separator, &struct_hash)
}

/// Hashes the two-byte prefix, a domain's hash and a structure's hash together.
pub fn digest_of(separator: &[u8; 32], struct_hash: &[u8; 32]) -> (digest: [u8; 32])
    ensures
        digest@ == typed_data_digest(separator@, struct_hash@),
{
    let mut buf: Vec<u8> = Vec::new();
    buf.push(0x19u8);
    buf.push(0x01u8);
    buf.extend_from_slice(separator.as_slice());
    buf.extend_from_slice(struct_hash.as_slice());
    assert(buf@ =~= seq![0x19u8, 0x01u8] + separator@ + struct_hash@);
    keccak256(&buf)
}

/// On the production network every action family is signed under chain id
/// 42161; on the test network none is: L1 actions are signed under 1337,
/// transfers and agent connections under 421613.
pub proof fn lemma_chain_id_selection(network: Network, kind: ActionKind)
    ensures
        network == Network::Mainnet ==> chain_id_for(network, kind) == 42161,
        network != Network::Mainnet ==> chain_id_for(network, kind) != 42161,
        chain_id_for(Network::Testnet, ActionKind::L1Action) == 1337,
        chain_id_for(Network::Testnet, ActionKind::UsdTransfer) == 421613,
        chain_id_for(Network::Testnet, ActionKind::AgentConnect) == 421613,
{
}

} // verus!
