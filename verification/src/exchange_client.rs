use vstd::prelude::*;
use crate::action::{
    agent_connection_id, agent_hash, cancel_batch_hash, cancel_connection_id, cancel_tuples,
    cancels_resolve, canonical_cancels, canonical_orders, encode_cancels, encode_orders,
    leverage_connection_id, leverage_hash, margin_connection_id, margin_hash, order_batch_hash,
    order_connection_id, order_tuples, orders_resolve, vault_or_zero, Action, ClientCancelRequest,
    ClientOrderRequest, Grouping, SignedEnvelope,
};
use crate::abi::{MAX_CANCEL_BATCH, MAX_ORDER_BATCH};
use crate::asset::{lemma_index_in_bounds, AssetIndex};
use crate::crypto::{address_of_key, ecdsa_signature, hex_of, hex_string, wallet_address};
use crate::error::Error;
use crate::signer::{
    agent_connect_digest, l1_action_digest, sign_l1_action, sign_usd_transfer_action,
    sign_with_agent, signed_by, usd_transfer_action_digest,
};
use crate::typed_data::{
    chain_id_for, ActionKind, Agent, Network, AGENT_SOURCE_URL, MAINNET_API_URL,
};

verus! {

/// Builds signed envelopes for one wallet against one network.
pub struct ExchangeClient {
    pub base_url: String,
    pub wallet_key: [u8; 32],
    pub vault_address: Option<[u8; 20]>,
    pub assets: AssetIndex,
}

impl ExchangeClient {
    /// The client's asset index is well formed.
    pub open spec fn wf(&self) -> bool {
        self.assets.wf()
    }

    /// The network that the base URL selects.
    pub open spec fn network(&self) -> Network {
        if self.base_url@ == MAINNET_API_URL@ {
            Network::Mainnet
        } else {
            Network::Testnet
        }
    }

    /// `env` carries a signature of the wallet over `digest`, `timestamp` as
    /// nonce, and the configured vault address.
    pub open spec fn seals(&self, env: SignedEnvelope, digest: Seq<u8>, timestamp: u64) -> bool {
        &&& signed_by(self.wallet_key@, digest, env.signature)
        &&& env.nonce == timestamp
        &&& env.vault_address == self.vault_address
    }

    /// The wallet makes no signature over `digest`.
    pub open spec fn cannot_sign(&self, digest: Seq<u8>) -> bool {
        ecdsa_signature(self.wallet_key@, digest).is_none()
    }

    /// The digest signed for an order batch at `timestamp`.
    pub open spec fn order_digest(&self, orders: Seq<ClientOrderRequest>, timestamp: u64) -> Seq<u8> {
        l1_action_digest(
            self.network(),
            order_batch_hash(
                order_tuples(canonical_orders(&self.assets, orders)),
                vault_or_zero(self.vault_address),
                timestamp,
            ),
        )
    }

    /// The digest signed for a cancel batch at `timestamp`.
    pub open spec fn cancel_digest(&self, cancels: Seq<ClientCancelRequest>, timestamp: u64) -> Seq<u8> {
        l1_action_digest(
            self.network(),
            cancel_batch_hash(
                cancel_tuples(canonical_cancels(&self.assets, cancels)),
                vault_or_zero(self.vault_address),
                timestamp,
            ),
        )
    }

    /// The digest signed for a leverage update of the asset at `asset`.
    pub open spec fn leverage_digest(&self, asset: u32, is_cross: bool, leverage: u32, timestamp: u64) -> Seq<
        u8,
    > {
        l1_action_digest(
            self.network(),
            leverage_hash(asset, is_cross, leverage, vault_or_zero(self.vault_address), timestamp),
        )
    }

    /// The digest signed for an isolated-margin update of the asset at `asset`.
    pub open spec fn margin_digest(&self, asset: u32, amount: i64, timestamp: u64) -> Seq<u8> {
        l1_action_digest(
            self.network(),
            margin_hash(asset, amount, vault_or_zero(self.vault_address), timestamp),
        )
    }

    /// Makes a client for the wallet key, the base URL (the production URL
    /// where none is given), the ordered instrument universe and the
    /// optional vault address.
    pub fn new(
        wallet_key: [u8; 32],
        base_url: Option<&str>,
        universe: Vec<String>,
        vault_address: Option<[u8; 20]>,
    ) -> (client: ExchangeClient)
        requires
            universe@.len() <= u32::MAX,
        ensures
            client.wf(),
            client.wallet_key == wallet_key,
            client.vault_address == vault_address,
            client.base_url@ == (match base_url {
                Some(url) => url@,
                None => MAINNET_API_URL@,
            }),
            client.assets.universe() == Seq::new(universe@.len(), |i: int| universe@[i]@),
    {
        let url: String = match base_url {
            Some(url) => url.to_owned(),
            None => MAINNET_API_URL.to_owned(),
        };
        ExchangeClient { base_url: url, wallet_key, vault_address, assets: AssetIndex::new(universe) }
    }

    /// The network that this client signs for.
    pub fn selected_network(&self) -> (network: Network)
        ensures
            network == self.network(),
    {
        Network::from_base_url(self.base_url.as_str())
    }

    /// Signs a transfer of `amount` to `destination`. The envelope carries
    /// the transfer with `timestamp` as its time and as nonce.
    pub fn usdc_transfer(&self, amount: &str, destination: &str, timestamp: u64) -> (res: Result<
        SignedEnvelope,
        Error,
    >)
        ensures
            match res {
                Ok(env) => {
                    &&& self.seals(
                        env,
                        usd_transfer_action_digest(self.network(), amount@, destination@, timestamp),
                        timestamp,
                    )
                    &&& env.action matches Action::UsdTransfer { chain, destination: d, amount: a, time }
                    &&& chain == self.network()
                    &&& d@ == destination@
                    &&& a@ == amount@
                    &&& time == timestamp
                },
                Err(e) => e == Error::SigningFailure && self.cannot_sign(
                    usd_transfer_action_digest(self.network(), amount@, destination@, timestamp),
                ),
            },
    {
        let network = self.selected_network();
        let action = Action::UsdTransfer {
            chain: network,
            destination: destination.to_owned(),
            amount: amount.to_owned(),
            time: timestamp,
        };
        match sign_usd_transfer_action(&self.wallet_key, network, amount, destination, timestamp) {
            Ok(signature) => Ok(
                SignedEnvelope { action, signature, nonce: timestamp, vault_address: self.vault_address },
            ),
            Err(e) => Err(e),
        }
    }

    /// Signs a single order: a batch of one.
    pub fn order(&self, order: ClientOrderRequest, timestamp: u64) -> (res: Result<SignedEnvelope, Error>)
        requires
            self.wf(),
        ensures
            self.order_outcome(seq![order], timestamp, res),
    {
        let mut orders: Vec<ClientOrderRequest> = Vec::new();
        orders.push(order);
        assert(orders@ =~= seq![order]);
        self.bulk_order(orders, timestamp)
    }

    /// What signing an order batch returns. Where every symbol is listed,
    /// the batch is one that the encoder can hold and the wallet can sign:
    /// the envelope with the resolved orders in batch order, ungrouped,
    /// signed over the batch's digest, `timestamp` as nonce. Where a symbol
    /// is not listed: `AssetNotFound`. Else, where the batch is too long:
    /// `EncodingFailure`. Else `SigningFailure`.
    pub open spec fn order_outcome(
        &self,
        orders: Seq<ClientOrderRequest>,
        timestamp: u64,
        res: Result<SignedEnvelope, Error>,
    ) -> bool {
        match res {
            Ok(env) => {
                &&& orders_resolve(&self.assets, orders)
                &&& orders.len() <= MAX_ORDER_BATCH
                &&& self.seals(env, self.order_digest(orders, timestamp), timestamp)
                &&& env.action matches Action::Order { grouping, orders: resolved }
                &&& grouping == Grouping::Na
                &&& resolved@ == canonical_orders(&self.assets, orders)
            },
            Err(e) => if !orders_resolve(&self.assets, orders) {
                e == Error::AssetNotFound
            } else if orders.len() > MAX_ORDER_BATCH {
                e == Error::EncodingFailure
            } else {
                e == Error::SigningFailure && self.cannot_sign(self.order_digest(orders, timestamp))
            },
        }
    }

    /// Signs a batch of orders. One unlisted symbol fails the whole batch,
    /// and so does a batch longer than `MAX_ORDER_BATCH`.
    pub fn bulk_order(&self, orders: Vec<ClientOrderRequest>, timestamp: u64) -> (res: Result<
        SignedEnvelope,
        Error,
    >)
        requires
            self.wf(),
        ensures
            self.order_outcome(orders@, timestamp, res),
    {
        let (resolved, tuples) = match encode_orders(&self.assets, &orders) {
            Ok(pair) => pair,
            Err(e) => {
                return Err(e);
            },
        };
        if tuples.len() > MAX_ORDER_BATCH {
            return Err(Error::EncodingFailure);
        }
        let connection_id = order_connection_id(&tuples, self.vault_address, timestamp);
        let network = self.selected_network();
        match sign_l1_action(&self.wallet_key, network, &connection_id) {
            Ok(signature) => Ok(
                SignedEnvelope {
                    action: Action::Order { grouping: Grouping::Na, orders: resolved },
                    signature,
                    nonce: timestamp,
                    vault_address: self.vault_address,
                },
            ),
            Err(e) => Err(e),
        }
    }

    /// Signs a single cancel: a batch of one.
    pub fn cancel(&self, cancel: ClientCancelRequest, timestamp: u64) -> (res: Result<SignedEnvelope, Error>)
        requires
            self.wf(),
        ensures
            self.cancel_outcome(seq![cancel], timestamp, res),
    {
        let mut cancels: Vec<ClientCancelRequest> = Vec::new();
        cancels.push(cancel);
        assert(cancels@ =~= seq![cancel]);
        self.bulk_cancel(cancels, timestamp)
    }

    /// What signing a cancel batch returns. Where every symbol is listed,
    /// the batch is one that the encoder can hold and the wallet can sign:
    /// the envelope with the resolved cancels in batch order, signed over
    /// the batch's digest, `timestamp` as nonce. Where a symbol is not
    /// listed: `AssetNotFound`. Else, where the batch is too long:
    /// `EncodingFailure`. Else `SigningFailure`.
    pub open spec fn cancel_outcome(
        &self,
        cancels: Seq<ClientCancelRequest>,
        timestamp: u64,
        res: Result<SignedEnvelope, Error>,
    ) -> bool {
        match res {
            Ok(env) => {
                &&& cancels_resolve(&self.assets, cancels)
                &&& cancels.len() <= MAX_CANCEL_BATCH
                &&& self.seals(env, self.cancel_digest(cancels, timestamp), timestamp)
                &&& env.action matches Action::Cancel { cancels: resolved }
                &&& resolved@ == canonical_cancels(&self.assets, cancels)
            },
            Err(e) => if !cancels_resolve(&self.assets, cancels) {
                e == Error::AssetNotFound
            } else if cancels.len() > MAX_CANCEL_BATCH {
                e == Error::EncodingFailure
            } else {
                e == Error::SigningFailure && self.cannot_sign(self.cancel_digest(cancels, timestamp))
            },
        }
    }

    /// Signs a batch of cancels. One unlisted symbol fails the whole batch,
    /// and so does a batch longer than `MAX_CANCEL_BATCH`.
    pub fn bulk_cancel(&self, cancels: Vec<ClientCancelRequest>, timestamp: u64) -> (res: Result<
        SignedEnvelope,
        Error,
    >)
        requires
            self.wf(),
        ensures
            self.cancel_outcome(cancels@, timestamp, res),
    {
        let (resolved, tuples) = match encode_cancels(&self.assets, &cancels) {
            Ok(pair) => pair,
            Err(e) => {
                return Err(e);
            },
        };
        if tuples.len() > MAX_CANCEL_BATCH {
            return Err(Error::EncodingFailure);
        }
        let connection_id = cancel_connection_id(&tuples, self.vault_address, timestamp);
        let network = self.selected_network();
        match sign_l1_action(&self.wallet_key, network, &connection_id) {
            Ok(signature) => Ok(
                SignedEnvelope {
                    action: Action::Cancel { cancels: resolved },
                    signature,
                    nonce: timestamp,
                    vault_address: self.vault_address,
                },
            ),
            Err(e) => Err(e),
        }
    }

    /// Signs a change of the leverage of `coin`.
    pub fn update_leverage(&self, leverage: u32, coin: &str, is_cross: bool, timestamp: u64) -> (res: Result<
        SignedEnvelope,
        Error,
    >)
        requires
            self.wf(),
        ensures
            match res {
                Ok(env) => {
                    &&& self.assets.index_of(coin@) matches Some(index)
                    &&& self.seals(
                        env,
                        self.leverage_digest(index as u32, is_cross, leverage, timestamp),
                        timestamp,
                    )
                    &&& env.action matches Action::UpdateLeverage { asset, is_cross: cross, leverage: l }
                    &&& asset == index
                    &&& cross == is_cross
                    &&& l == leverage
                },
                Err(e) => match self.assets.index_of(coin@) {
                    Some(index) => e == Error::SigningFailure && self.cannot_sign(
                        self.leverage_digest(index as u32, is_cross, leverage, timestamp),
                    ),
                    None => e == Error::AssetNotFound,
                },
            },
    {
        let asset = match self.assets.resolve(coin) {
            Ok(asset) => asset,
            Err(e) => {
                return Err(e);
            },
        };
        let connection_id = leverage_connection_id(
            asset,
            is_cross,
            leverage,
            self.vault_address,
            timestamp,
        );
        let network = self.selected_network();
        match sign_l1_action(&self.wallet_key, network, &connection_id) {
            Ok(signature) => Ok(
                SignedEnvelope {
                    action: Action::UpdateLeverage { asset, is_cross, leverage },
                    signature,
                    nonce: timestamp,
                    vault_address: self.vault_address,
                },
            ),
            Err(e) => Err(e),
        }
    }

    /// Signs a change of the isolated margin of `coin` by `amount`
    /// millionths. The side flag of the action is always set.
    pub fn update_isolated_margin(&self, amount: i64, coin: &str, timestamp: u64) -> (res: Result<
        SignedEnvelope,
        Error,
    >)
        requires
            self.wf(),
        ensures
            match res {
                Ok(env) => {
                    &&& self.assets.index_of(coin@) matches Some(index)
                    &&& self.seals(env, self.margin_digest(index as u32, amount, timestamp), timestamp)
                    &&& env.action matches Action::UpdateIsolatedMargin { asset, is_buy, ntli }
                    &&& asset == index
                    &&& is_buy
                    &&& ntli == amount
                },
                Err(e) => match self.assets.index_of(coin@) {
                    Some(index) => e == Error::SigningFailure && self.cannot_sign(
                        self.margin_digest(index as u32, amount, timestamp),
                    ),
                    None => e == Error::AssetNotFound,
                },
            },
    {
        let asset = match self.assets.resolve(coin) {
            Ok(asset) => asset,
            Err(e) => {
                return Err(e);
            },
        };
        let connection_id = margin_connection_id(asset, amount, self.vault_address, timestamp);
        let network = self.selected_network();
        match sign_l1_action(&self.wallet_key, network, &connection_id) {
            Ok(signature) => Ok(
                SignedEnvelope {
                    action: Action::UpdateIsolatedMargin { asset, is_buy: true, ntli: amount },
                    signature,
                    nonce: timestamp,
                    vault_address: self.vault_address,
                },
            ),
            Err(e) => Err(e),
        }
    }

    /// Authorises the agent whose private key is `agent_key`. The connection
    /// id is the hash of the address that the key derives; the wallet signs
    /// the agent structure that names the service URL and that id. Returns
    /// the key as hexadecimal text beside the envelope. A key that derives
    /// no address gives `KeyGenerationFailure`.
    pub fn approve_agent(&self, agent_key: [u8; 32], timestamp: u64) -> (res: Result<
        (String, SignedEnvelope),
        Error,
    >)
        ensures
            match res {
                Ok((key, env)) => {
                    &&& address_of_key(agent_key@) matches Some(address)
                    &&& key@ == hex_of(agent_key@)
                    &&& self.seals(
                        env,
                        agent_connect_digest(self.network(), AGENT_SOURCE_URL@, agent_hash(address)),
                        timestamp,
                    )
                    &&& env.action matches Action::Connect { chain, agent, agent_address }
                    &&& chain == self.network()
                    &&& agent.source@ == AGENT_SOURCE_URL@
                    &&& agent.connection_id@ == agent_hash(address)
                    &&& agent_address@ == address
                },
                Err(e) => match address_of_key(agent_key@) {
                    Some(address) => e == Error::SigningFailure && self.cannot_sign(
                        agent_connect_digest(self.network(), AGENT_SOURCE_URL@, agent_hash(address)),
                    ),
                    None => e == Error::KeyGenerationFailure,
                },
            },
    {
        let key = hex_string(&agent_key);
        let agent_address = match wallet_address(&agent_key) {
            Ok(address) => address,
            Err(_) => {
                return Err(Error::KeyGenerationFailure);
            },
        };
        let connection_id = agent_connection_id(&agent_address);
        let network = self.selected_network();
        match sign_with_agent(&self.wallet_key, network, AGENT_SOURCE_URL, &connection_id) {
            Ok(signature) => Ok(
                (
                    key,
                    SignedEnvelope {
                        action: Action::Connect {
                            chain: network,
                            agent: Agent { source: AGENT_SOURCE_URL.to_owned(), connection_id },
                            agent_address,
                        },
                        signature,
                        nonce: timestamp,
                        vault_address: self.vault_address,
                    },
                ),
            ),
            Err(e) => Err(e),
        }
    }
}

/// Signing one order batch at two timestamps gives envelopes that differ in
/// nonce and signature only: the grouping, the resolved orders and the vault
/// address are the same, and each nonce is its timestamp.
pub proof fn lemma_timestamp_moves_only_nonce_and_signature(
    client: ExchangeClient,
    orders: Seq<ClientOrderRequest>,
    first: u64,
    second: u64,
    at_first: SignedEnvelope,
    at_second: SignedEnvelope,
)
    requires
        client.order_outcome(orders, first, Ok(at_first)),
        client.order_outcome(orders, second, Ok(at_second)),
    ensures
        at_first.nonce == first,
        at_second.nonce == second,
        at_first.vault_address == at_second.vault_address,
        at_first.action matches Action::Order { grouping: g, orders: a }
            && at_second.action matches Action::Order { grouping: h, orders: b } && g == h && a@
            == b@,
{
}

/// A cancel batch that names a symbol outside the universe is refused with
/// `AssetNotFound`, whatever the wallet, the vault and the timestamp.
pub proof fn lemma_cancel_of_unknown_symbol_is_refused(
    client: ExchangeClient,
    cancels: Seq<ClientCancelRequest>,
    timestamp: u64,
    res: Result<SignedEnvelope, Error>,
    i: int,
)
    requires
        client.cancel_outcome(cancels, timestamp, res),
        0 <= i < cancels.len(),
        !client.assets.universe().contains(cancels[i].asset@),
    ensures
        res == Err::<SignedEnvelope, Error>(Error::AssetNotFound),
{
    lemma_index_in_bounds(client.assets.universe(), cancels[i].asset@);
    assert(client.assets.index_of(cancels[i].asset@).is_none());
}

/// A client configured with the production URL signs every action family
/// under chain id 42161; a client configured with any other URL signs none
/// under it: L1 actions under 1337, transfers and agent connections under
/// 421613.
pub proof fn lemma_chain_id_by_base_url(client: ExchangeClient, kind: ActionKind)
    ensures
        client.base_url@ == MAINNET_API_URL@ ==> chain_id_for(client.network(), kind) == 42161,
        client.base_url@ != MAINNET_API_URL@ ==> chain_id_for(client.network(), kind) == (if kind
            == ActionKind::L1Action {
            1337u64
        } else {
            421613u64
        }),
{
}

} // verus!
