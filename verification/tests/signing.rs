use ethers::signers::{LocalWallet, Signer};
use ethers::types::transaction::eip712::EIP712Domain;
use ethers::types::{H160, H256, U256};
use ethers::utils::keccak256;
use exchange_signing::action::{
    agent_connection_id, cancel_connection_id, leverage_connection_id, margin_connection_id,
    order_connection_id, vault_or_default, Action, ClientCancelRequest, ClientOrderRequest,
    Grouping, OrderType, Tif,
};
use exchange_signing::abi::{MAX_CANCEL_BATCH, MAX_ORDER_BATCH};
use exchange_signing::crypto::Signature;
use exchange_signing::error::Error;
use exchange_signing::exchange_client::ExchangeClient;
use exchange_signing::signer::{sign_digest, sign_l1_action, sign_usd_transfer_action, sign_with_agent};
use exchange_signing::abi::{push_address_word, push_u64_word};
use exchange_signing::typed_data::{
    agent_digest, digest_of, hash_text, usd_transfer_digest, ActionKind, Network, SigningDomain,
    AGENT_SOURCE_URL, MAINNET_API_URL,
};

const KEY: [u8; 32] = [
    0xe9, 0x08, 0xf8, 0x6d, 0xbb, 0x4d, 0x55, 0xac, 0x87, 0x63, 0x78, 0x56, 0x5a, 0xaf, 0xea, 0xbc,
    0x18, 0x7f, 0x66, 0x90, 0xf0, 0x46, 0x45, 0x93, 0x97, 0xb1, 0x7d, 0x9b, 0x9a, 0x19, 0x68, 0x8e,
];

const VAULT: [u8; 20] = [0x11; 20];

fn word(x: u128) -> Vec<u8> {
    let mut w = vec![0u8; 16];
    w.extend_from_slice(&x.to_be_bytes());
    w
}

fn address_word(a: &[u8; 20]) -> Vec<u8> {
    let mut w = vec![0u8; 12];
    w.extend_from_slice(a);
    w
}

fn universe() -> Vec<String> {
    vec!["BTC", "ETH", "ATOM", "MATIC", "DYDX", "SOL", "AVAX", "BNB"]
        .into_iter()
        .map(|s| s.to_string())
        .collect()
}

fn client(base_url: Option<&str>, vault: Option<[u8; 20]>) -> ExchangeClient {
    ExchangeClient::new(KEY, base_url, universe(), vault)
}

fn limit_order(asset: &str, px: u64) -> ClientOrderRequest {
    ClientOrderRequest {
        asset: asset.to_string(),
        is_buy: true,
        reduce_only: false,
        limit_px: px,
        sz: 1_000_000,
        order_type: OrderType::Limit { tif: Tif::Gtc },
        cloid: None,
    }
}

fn signer_of(sig: &Signature, digest: [u8; 32]) -> H160 {
    let sig = ethers::types::Signature {
        r: U256::from_big_endian(&sig.r),
        s: U256::from_big_endian(&sig.s),
        v: sig.v,
    };
    sig.recover(H256(digest)).unwrap()
}

fn wallet_address() -> H160 {
    LocalWallet::from_bytes(&KEY).unwrap().address()
}

fn l1_digest(network: Network, connection_id: &[u8; 32]) -> [u8; 32] {
    let domain = SigningDomain::select(network, ActionKind::L1Action);
    agent_digest(&domain, network.l1_source(), connection_id)
}

#[test]
fn hash_of_empty_text() {
    let expected: [u8; 32] = [
        0xc5, 0xd2, 0x46, 0x01, 0x86, 0xf7, 0x23, 0x3c, 0x92, 0x7e, 0x7d, 0xb2, 0xdc, 0xc7, 0x03,
        0xc0, 0xe5, 0x00, 0xb6, 0x53, 0xca, 0x82, 0x27, 0x3b, 0x7b, 0xfa, 0xd8, 0x04, 0x5d, 0x85,
        0xa4, 0x70,
    ];
    assert_eq!(hash_text(""), expected);
    assert_ne!(hash_text("a"), expected);
}

#[test]
fn words_are_big_endian() {
    let mut buf = vec![0xffu8];
    push_u64_word(&mut buf, 0x0102030405060708);
    let mut expected = vec![0xffu8];
    expected.extend_from_slice(&[0u8; 24]);
    expected.extend_from_slice(&[1, 2, 3, 4, 5, 6, 7, 8]);
    assert_eq!(buf, expected);
    let mut buf = Vec::new();
    push_address_word(&mut buf, &VAULT);
    assert_eq!(buf, address_word(&VAULT));
    let mut buf = Vec::new();
    push_u64_word(&mut buf, u64::MAX);
    assert_eq!(buf, word(u64::MAX as u128));
}

#[test]
fn network_is_selected_by_base_url() {
    assert_eq!(Network::from_base_url(MAINNET_API_URL), Network::Mainnet);
    assert_eq!(Network::from_base_url("https://api.hyperliquid.xyz"), Network::Mainnet);
    assert_eq!(Network::from_base_url("https://api.hyperliquid.xyz/"), Network::Testnet);
    assert_eq!(Network::from_base_url("https://api.hyperliquid-testnet.xyz"), Network::Testnet);
    assert_eq!(Network::from_base_url("http://localhost:3001"), Network::Testnet);
    assert_eq!(Network::from_base_url(""), Network::Testnet);
    assert_eq!(client(None, None).selected_network(), Network::Mainnet);
    assert_eq!(client(Some("http://localhost:3001"), None).selected_network(), Network::Testnet);
}

#[test]
fn chain_ids_by_network_and_kind() {
    for kind in [ActionKind::L1Action, ActionKind::UsdTransfer, ActionKind::AgentConnect] {
        let domain = SigningDomain::select(Network::Mainnet, kind);
        assert_eq!(domain.chain_id, 42161);
        assert_eq!(domain.name, "Exchange");
        assert_eq!(domain.version, "1");
        assert_eq!(domain.verifying_contract, [0u8; 20]);
        assert_ne!(SigningDomain::select(Network::Testnet, kind).chain_id, 42161);
    }
    assert_eq!(SigningDomain::select(Network::Testnet, ActionKind::L1Action).chain_id, 1337);
    assert_eq!(SigningDomain::select(Network::Testnet, ActionKind::UsdTransfer).chain_id, 421613);
    assert_eq!(SigningDomain::select(Network::Testnet, ActionKind::AgentConnect).chain_id, 421613);
    assert_eq!(Network::Mainnet.l1_source(), "a");
    assert_eq!(Network::Testnet.l1_source(), "b");
    assert_eq!(Network::Mainnet.chain_label(), "Arbitrum");
    assert_eq!(Network::Testnet.chain_label(), "ArbitrumGoerli");
}

#[test]
fn domain_hash_matches_typed_data_domain() {
    for (network, chain_id) in [(Network::Mainnet, 42161u64), (Network::Testnet, 421613u64)] {
        let domain = SigningDomain::select(network, ActionKind::UsdTransfer);
        let reference = EIP712Domain {
            name: Some("Exchange".to_string()),
            version: Some("1".to_string()),
            chain_id: Some(U256::from(chain_id)),
            verifying_contract: Some(H160::zero()),
            salt: None,
        };
        assert_eq!(domain.hash(), reference.separator());
    }
}

#[test]
fn agent_digest_is_prefix_domain_struct() {
    let domain = SigningDomain::select(Network::Testnet, ActionKind::L1Action);
    let connection_id = [7u8; 32];
    let mut fields = keccak256("Agent(string source,bytes32 connectionId)").to_vec();
    fields.extend_from_slice(&keccak256("b"));
    fields.extend_from_slice(&connection_id);
    let struct_hash = keccak256(&fields);
    let mut message = vec![0x19u8, 0x01];
    message.extend_from_slice(&domain.hash());
    message.extend_from_slice(&struct_hash);
    assert_eq!(agent_digest(&domain, "b", &connection_id), keccak256(&message));
    assert_eq!(digest_of(&domain.hash(), &struct_hash), keccak256(&message));
}

#[test]
fn transfer_digest_is_prefix_domain_struct() {
    let domain = SigningDomain::select(Network::Mainnet, ActionKind::UsdTransfer);
    let mut fields = keccak256(
        "HyperliquidTransaction:UsdTransfer(string destination,string amount,uint64 time)",
    )
    .to_vec();
    fields.extend_from_slice(&keccak256("0x0D1d9635D0640821d15e323ac8AdADfA9c111414"));
    fields.extend_from_slice(&keccak256("1"));
    fields.extend_from_slice(&word(1690393044548));
    let mut message = vec![0x19u8, 0x01];
    message.extend_from_slice(&domain.hash());
    message.extend_from_slice(&keccak256(&fields));
    assert_eq!(
        usd_transfer_digest(&domain, "0x0D1d9635D0640821d15e323ac8AdADfA9c111414", "1", 1690393044548),
        keccak256(&message)
    );
}

#[test]
fn vault_defaults_to_zero_address() {
    assert_eq!(vault_or_default(None), [0u8; 20]);
    assert_eq!(vault_or_default(Some(VAULT)), VAULT);
}

#[test]
fn leverage_connection_id_hashes_five_words() {
    let mut bytes = Vec::new();
    bytes.extend(word(4));
    bytes.extend(word(1));
    bytes.extend(word(20));
    bytes.extend(address_word(&[0u8; 20]));
    bytes.extend(word(1690393044548));
    assert_eq!(leverage_connection_id(4, true, 20, None, 1690393044548), keccak256(&bytes));
    assert_ne!(leverage_connection_id(4, false, 20, None, 1690393044548), keccak256(&bytes));
    assert_ne!(leverage_connection_id(4, true, 20, Some(VAULT), 1690393044548), keccak256(&bytes));
    assert_eq!(
        leverage_connection_id(4, true, 20, Some([0u8; 20]), 1690393044548),
        keccak256(&bytes)
    );
}

#[test]
fn margin_connection_id_hashes_five_words() {
    let mut bytes = Vec::new();
    bytes.extend(word(1));
    bytes.extend(word(1));
    bytes.extend(word(1234567));
    bytes.extend(address_word(&VAULT));
    bytes.extend(word(99));
    assert_eq!(margin_connection_id(1, 1234567, Some(VAULT), 99), keccak256(&bytes));
    let mut bytes = Vec::new();
    bytes.extend(word(1));
    bytes.extend(word(1));
    bytes.extend(vec![0xffu8; 32]);
    bytes.extend(address_word(&VAULT));
    bytes.extend(word(99));
    assert_eq!(margin_connection_id(1, -1, Some(VAULT), 99), keccak256(&bytes));
}

#[test]
fn cancel_connection_id_hashes_batch() {
    let mut bytes = Vec::new();
    bytes.extend(word(96));
    bytes.extend(address_word(&[0u8; 20]));
    bytes.extend(word(5));
    bytes.extend(word(2));
    bytes.extend(word(3));
    bytes.extend(word(1000));
    bytes.extend(word(7));
    bytes.extend(word(1001));
    assert_eq!(cancel_connection_id(&vec![(3, 1000), (7, 1001)], None, 5), keccak256(&bytes));
}

#[test]
fn order_connection_id_hashes_batch() {
    let tuples = vec![(3u32, true, 100u64, 200u64, false, 2u8, 0u64, 0u128)];
    let mut bytes = Vec::new();
    bytes.extend(word(128));
    bytes.extend(word(0));
    bytes.extend(address_word(&VAULT));
    bytes.extend(word(5));
    bytes.extend(word(1));
    for w in [3u128, 1, 100, 200, 0, 2, 0, 0] {
        bytes.extend(word(w));
    }
    assert_eq!(order_connection_id(&tuples, Some(VAULT), 5), keccak256(&bytes));
}

#[test]
fn changing_one_tuple_field_changes_the_hash() {
    let base = (3u32, true, 100u64, 200u64, false, 2u8, 0u64, 0u128);
    let id = order_connection_id(&vec![base], None, 5);
    let variants = vec![
        (4u32, true, 100u64, 200u64, false, 2u8, 0u64, 0u128),
        (3, false, 100, 200, false, 2, 0, 0),
        (3, true, 101, 200, false, 2, 0, 0),
        (3, true, 100, 201, false, 2, 0, 0),
        (3, true, 100, 200, true, 2, 0, 0),
        (3, true, 100, 200, false, 3, 0, 0),
        (3, true, 100, 200, false, 2, 1, 0),
        (3, true, 100, 200, false, 2, 0, 1),
    ];
    for v in variants {
        assert_ne!(order_connection_id(&vec![v], None, 5), id);
    }
    assert_ne!(order_connection_id(&vec![base], None, 6), id);
    assert_ne!(order_connection_id(&vec![base], Some(VAULT), 5), id);
    assert_ne!(order_connection_id(&vec![base, base], None, 5), id);
    assert_eq!(order_connection_id(&vec![base], None, 5), id);
    let cancel = cancel_connection_id(&vec![(3, 1000)], None, 5);
    assert_ne!(cancel_connection_id(&vec![(4, 1000)], None, 5), cancel);
    assert_ne!(cancel_connection_id(&vec![(3, 1001)], None, 5), cancel);
    assert_eq!(cancel_connection_id(&vec![(3, 1000)], Some([0u8; 20]), 5), cancel);
}

#[test]
fn agent_connection_id_hashes_address_word() {
    assert_eq!(agent_connection_id(&VAULT), keccak256(address_word(&VAULT)));
}

#[test]
fn signature_recovers_to_wallet() {
    let digest = keccak256("message");
    let sig = sign_digest(&KEY, &digest).unwrap();
    assert!(sig.v == 27 || sig.v == 28);
    assert_eq!(signer_of(&sig, digest), wallet_address());
    let again = sign_digest(&KEY, &digest).unwrap();
    assert_eq!((sig.r, sig.s, sig.v), (again.r, again.s, again.v));
}

#[test]
fn zero_key_cannot_sign() {
    assert_eq!(sign_digest(&[0u8; 32], &[1u8; 32]).err(), Some(Error::SigningFailure));
    assert_eq!(sign_digest(&[0xffu8; 32], &[1u8; 32]).err(), Some(Error::SigningFailure));
}

#[test]
fn l1_action_is_signed_under_network_domain() {
    let connection_id = [9u8; 32];
    for network in [Network::Mainnet, Network::Testnet] {
        let sig = sign_l1_action(&KEY, network, &connection_id).unwrap();
        assert_eq!(signer_of(&sig, l1_digest(network, &connection_id)), wallet_address());
    }
    let main = sign_l1_action(&KEY, Network::Mainnet, &connection_id).unwrap();
    let test = sign_l1_action(&KEY, Network::Testnet, &connection_id).unwrap();
    assert_ne!((main.r, main.s), (test.r, test.s));
}

#[test]
fn transfer_and_agent_are_signed_under_their_domains() {
    let domain = SigningDomain::select(Network::Testnet, ActionKind::UsdTransfer);
    let sig = sign_usd_transfer_action(&KEY, Network::Testnet, "1", "0xabc", 17).unwrap();
    assert_eq!(signer_of(&sig, usd_transfer_digest(&domain, "0xabc", "1", 17)), wallet_address());
    let domain = SigningDomain::select(Network::Mainnet, ActionKind::AgentConnect);
    let sig = sign_with_agent(&KEY, Network::Mainnet, AGENT_SOURCE_URL, &[3u8; 32]).unwrap();
    assert_eq!(
        signer_of(&sig, agent_digest(&domain, "https://hyperliquid.xyz", &[3u8; 32])),
        wallet_address()
    );
}

#[test]
fn new_defaults_to_mainnet_url() {
    let c = client(None, Some(VAULT));
    assert_eq!(c.base_url, "https://api.hyperliquid.xyz");
    assert_eq!(c.vault_address, Some(VAULT));
    assert_eq!(c.wallet_key, KEY);
    assert_eq!(c.assets.resolve("ETH"), Ok(1));
    let c = client(Some("http://localhost:3001"), None);
    assert_eq!(c.base_url, "http://localhost:3001");
}

#[test]
fn two_orders_envelope() {
    let c = client(None, Some(VAULT));
    let orders = vec![limit_order("MATIC", 100), limit_order("BNB", 200)];
    let t = 1690393044548u64;
    let env = c.bulk_order(orders.clone(), t).unwrap();
    assert_eq!(env.nonce, t);
    assert_eq!(env.vault_address, Some(VAULT));
    let resolved = match &env.action {
        Action::Order { grouping, orders } => {
            assert_eq!(*grouping, Grouping::Na);
            orders.clone()
        }
        _ => panic!("not an order action"),
    };
    assert_eq!(resolved.len(), 2);
    assert_eq!(resolved[0].asset, 3);
    assert_eq!(resolved[1].asset, 7);
    let tuples = vec![resolved[0].hashable_tuple(), resolved[1].hashable_tuple()];
    let id = order_connection_id(&tuples, Some(VAULT), t);
    assert_eq!(signer_of(&env.signature, l1_digest(Network::Mainnet, &id)), wallet_address());

    let same = c.bulk_order(orders.clone(), t).unwrap();
    assert_eq!((env.signature.r, env.signature.s, env.signature.v), (same.signature.r, same.signature.s, same.signature.v));

    let later = c.bulk_order(orders, t + 1).unwrap();
    assert_eq!(later.nonce, t + 1);
    assert_eq!(later.vault_address, env.vault_address);
    match &later.action {
        Action::Order { orders, .. } => assert_eq!(orders, &resolved),
        _ => panic!("not an order action"),
    }
    assert_ne!(order_connection_id(&tuples, Some(VAULT), t + 1), id);
    assert_ne!((later.signature.r, later.signature.s), (env.signature.r, env.signature.s));
}

#[test]
fn single_order_is_a_batch_of_one() {
    let c = client(Some("http://localhost:3001"), None);
    let one = c.order(limit_order("ETH", 5), 10).unwrap();
    let batch = c.bulk_order(vec![limit_order("ETH", 5)], 10).unwrap();
    assert_eq!((one.signature.r, one.signature.s, one.signature.v), (batch.signature.r, batch.signature.s, batch.signature.v));
    assert_eq!(one.nonce, 10);
    assert_eq!(one.vault_address, None);
}

#[test]
fn order_on_unknown_symbol_is_rejected() {
    let c = client(None, None);
    let orders = vec![limit_order("BTC", 1), limit_order("DOGE", 1)];
    assert_eq!(c.bulk_order(orders, 1).err(), Some(Error::AssetNotFound));
    assert_eq!(c.order(limit_order("DOGE", 1), 1).err(), Some(Error::AssetNotFound));
}

#[test]
fn cancel_on_unknown_symbol_is_rejected() {
    let c = client(None, None);
    let cancel = ClientCancelRequest { asset: "DOGE".to_string(), oid: 7 };
    assert_eq!(c.cancel(cancel.clone(), 1).err(), Some(Error::AssetNotFound));
    let known = ClientCancelRequest { asset: "BTC".to_string(), oid: 8 };
    assert_eq!(c.bulk_cancel(vec![known, cancel], 1).err(), Some(Error::AssetNotFound));
}

#[test]
fn cancel_envelope() {
    let c = client(None, None);
    let cancel = ClientCancelRequest { asset: "SOL".to_string(), oid: 77 };
    let env = c.cancel(cancel, 123).unwrap();
    assert_eq!(env.nonce, 123);
    assert_eq!(env.vault_address, None);
    match &env.action {
        Action::Cancel { cancels } => {
            assert_eq!(cancels.len(), 1);
            assert_eq!(cancels[0].asset, 5);
            assert_eq!(cancels[0].oid, 77);
        }
        _ => panic!("not a cancel action"),
    }
    let id = cancel_connection_id(&vec![(5, 77)], None, 123);
    assert_eq!(signer_of(&env.signature, l1_digest(Network::Mainnet, &id)), wallet_address());
}

#[test]
fn leverage_envelope() {
    let c = client(Some("https://api.hyperliquid-testnet.xyz"), Some(VAULT));
    let env = c.update_leverage(20, "DYDX", true, 55).unwrap();
    assert_eq!(env.nonce, 55);
    match env.action {
        Action::UpdateLeverage { asset, is_cross, leverage } => {
            assert_eq!((asset, is_cross, leverage), (4, true, 20));
        }
        _ => panic!("not a leverage action"),
    }
    let id = leverage_connection_id(4, true, 20, Some(VAULT), 55);
    assert_eq!(signer_of(&env.signature, l1_digest(Network::Testnet, &id)), wallet_address());
    assert_eq!(c.update_leverage(20, "DOGE", true, 55).err(), Some(Error::AssetNotFound));
}

#[test]
fn margin_envelope() {
    let c = client(None, None);
    let env = c.update_isolated_margin(1_234_567, "ETH", 56).unwrap();
    assert_eq!(env.nonce, 56);
    match env.action {
        Action::UpdateIsolatedMargin { asset, is_buy, ntli } => {
            assert_eq!((asset, is_buy, ntli), (1, true, 1_234_567));
        }
        _ => panic!("not a margin action"),
    }
    let id = margin_connection_id(1, 1_234_567, None, 56);
    assert_eq!(signer_of(&env.signature, l1_digest(Network::Mainnet, &id)), wallet_address());
    assert_eq!(c.update_isolated_margin(0, "DOGE", 56).err(), Some(Error::AssetNotFound));
}

#[test]
fn transfer_envelope() {
    let c = client(None, None);
    let env = c.usdc_transfer("1.5", "0x0D1d9635D0640821d15e323ac8AdADfA9c111414", 57).unwrap();
    assert_eq!(env.nonce, 57);
    match &env.action {
        Action::UsdTransfer { chain, destination, amount, time } => {
            assert_eq!(*chain, Network::Mainnet);
            assert_eq!(destination, "0x0D1d9635D0640821d15e323ac8AdADfA9c111414");
            assert_eq!(amount, "1.5");
            assert_eq!(*time, 57);
        }
        _ => panic!("not a transfer action"),
    }
    let domain = SigningDomain::select(Network::Mainnet, ActionKind::UsdTransfer);
    let digest =
        usd_transfer_digest(&domain, "0x0D1d9635D0640821d15e323ac8AdADfA9c111414", "1.5", 57);
    assert_eq!(signer_of(&env.signature, digest), wallet_address());
}

#[test]
fn agent_registration() {
    let mut agent_key = [0u8; 32];
    agent_key[31] = 1;
    let expected_address: [u8; 20] = [
        0x7e, 0x5f, 0x45, 0x52, 0x09, 0x1a, 0x69, 0x12, 0x5d, 0x5d, 0xfc, 0xb7, 0xb8, 0xc2, 0x65,
        0x90, 0x29, 0x39, 0x5b, 0xdf,
    ];
    let c = client(Some("http://localhost:3001"), None);
    let (key, env) = c.approve_agent(agent_key, 58).unwrap();
    assert_eq!(key, "0000000000000000000000000000000000000000000000000000000000000001");
    assert_eq!(env.nonce, 58);
    let id = agent_connection_id(&expected_address);
    match env.action {
        Action::Connect { chain, agent, agent_address } => {
            assert_eq!(chain, Network::Testnet);
            assert_eq!(agent_address, expected_address);
            assert_eq!(agent.connection_id, id);
            assert_eq!(agent.source, "https://hyperliquid.xyz");
            assert_eq!(agent.encode_eip712(&SigningDomain::select(chain, ActionKind::AgentConnect)),
                agent_digest(&SigningDomain::select(chain, ActionKind::AgentConnect), AGENT_SOURCE_URL, &id));
        }
        _ => panic!("not a connect action"),
    }
    let domain = SigningDomain::select(Network::Testnet, ActionKind::AgentConnect);
    let digest = agent_digest(&domain, AGENT_SOURCE_URL, &id);
    assert_eq!(signer_of(&env.signature, digest), wallet_address());
    let (again, _) = c.approve_agent(agent_key, 59).unwrap();
    assert_eq!(again, key);
}

#[test]
fn agent_key_hex_is_lower_case() {
    let c = client(None, None);
    let (key, _) = c.approve_agent(KEY, 1).unwrap();
    assert_eq!(key, "e908f86dbb4d55ac876378565aafeabc187f6690f046459397b17d9b9a19688e");
}

#[test]
fn invalid_agent_key_is_rejected() {
    let c = client(None, None);
    assert_eq!(c.approve_agent([0u8; 32], 1).err(), Some(Error::KeyGenerationFailure));
}

#[test]
fn invalid_wallet_key_cannot_sign_actions() {
    let c = ExchangeClient::new([0u8; 32], None, universe(), None);
    assert_eq!(c.update_leverage(1, "BTC", true, 1).err(), Some(Error::SigningFailure));
    assert_eq!(c.usdc_transfer("1", "0xabc", 1).err(), Some(Error::SigningFailure));
    assert_eq!(c.update_leverage(1, "DOGE", true, 1).err(), Some(Error::AssetNotFound));
    assert_eq!(c.approve_agent(KEY, 1).err(), Some(Error::SigningFailure));
}

#[test]
fn encodings_at_the_limits() {
    let mut bytes = Vec::new();
    bytes.extend(word(u32::MAX as u128));
    bytes.extend(word(0));
    bytes.extend(word(u32::MAX as u128));
    bytes.extend(address_word(&[0xffu8; 20]));
    bytes.extend(word(u64::MAX as u128));
    assert_eq!(
        leverage_connection_id(u32::MAX, false, u32::MAX, Some([0xffu8; 20]), u64::MAX),
        keccak256(&bytes)
    );

    let mut bytes = Vec::new();
    bytes.extend(word(0));
    bytes.extend(word(1));
    bytes.extend(vec![0xffu8; 24]);
    bytes.extend(i64::MIN.to_be_bytes());
    bytes.extend(address_word(&[0u8; 20]));
    bytes.extend(word(0));
    assert_eq!(margin_connection_id(0, i64::MIN, None, 0), keccak256(&bytes));

    let mut bytes = Vec::new();
    bytes.extend(word(0));
    bytes.extend(word(1));
    bytes.extend(word(i64::MAX as u128));
    bytes.extend(address_word(&[0u8; 20]));
    bytes.extend(word(0));
    assert_eq!(margin_connection_id(0, i64::MAX, None, 0), keccak256(&bytes));

    let tuples = vec![
        (u32::MAX, false, u64::MAX, 0u64, true, 7u8, u64::MAX, u128::MAX),
        (0u32, true, 1u64, u64::MAX, false, 1u8, 0u64, 0x0102030405060708090a0b0c0d0e0f10u128),
    ];
    let mut bytes = Vec::new();
    bytes.extend(word(128));
    bytes.extend(word(0));
    bytes.extend(address_word(&[0u8; 20]));
    bytes.extend(word(9));
    bytes.extend(word(2));
    for w in [u32::MAX as u128, 0, u64::MAX as u128, 0, 1, 7, u64::MAX as u128, u128::MAX] {
        bytes.extend(word(w));
    }
    for w in [0u128, 1, 1, u64::MAX as u128, 0, 1, 0, 0x0102030405060708090a0b0c0d0e0f10] {
        bytes.extend(word(w));
    }
    assert_eq!(order_connection_id(&tuples, None, 9), keccak256(&bytes));
}

#[test]
fn empty_batches_hash_offset_fields_and_zero_length() {
    let mut bytes = Vec::new();
    bytes.extend(word(128));
    bytes.extend(word(0));
    bytes.extend(address_word(&VAULT));
    bytes.extend(word(3));
    bytes.extend(word(0));
    assert_eq!(order_connection_id(&Vec::new(), Some(VAULT), 3), keccak256(&bytes));
    let mut bytes = Vec::new();
    bytes.extend(word(96));
    bytes.extend(address_word(&VAULT));
    bytes.extend(word(3));
    bytes.extend(word(0));
    assert_eq!(cancel_connection_id(&Vec::new(), Some(VAULT), 3), keccak256(&bytes));
}

#[test]
fn grouping_code_and_label() {
    assert_eq!(Grouping::Na.code(), 0);
    assert_eq!(Grouping::Na.label(), "na");
}

#[test]
fn batch_limits_keep_the_encoding_below_four_gibibytes() {
    assert_eq!(MAX_ORDER_BATCH, 16_777_215);
    assert_eq!(MAX_CANCEL_BATCH, 67_108_861);
    assert!(160 + 256 * (MAX_ORDER_BATCH as u64) <= u32::MAX as u64);
    assert!(160 + 256 * (MAX_ORDER_BATCH as u64 + 1) > u32::MAX as u64);
    assert!(128 + 64 * (MAX_CANCEL_BATCH as u64) <= u32::MAX as u64);
    assert!(128 + 64 * (MAX_CANCEL_BATCH as u64 + 1) > u32::MAX as u64);
}

#[test]
fn large_cancel_batch_is_encoded() {
    let n = 100_000usize;
    let tuples: Vec<(u32, u64)> = (0..n).map(|i| (i as u32 % 8, i as u64)).collect();
    let mut bytes = Vec::with_capacity(128 + 64 * n);
    bytes.extend(word(96));
    bytes.extend(address_word(&[0u8; 20]));
    bytes.extend(word(1));
    bytes.extend(word(n as u128));
    for (asset, oid) in tuples.iter() {
        bytes.extend(word(*asset as u128));
        bytes.extend(word(*oid as u128));
    }
    assert_eq!(cancel_connection_id(&tuples, None, 1), keccak256(&bytes));
}
