use vstd::prelude::*;
use crate::asset::AssetIndex;
use crate::abi::{
    abi_address, abi_cancel_batch, abi_leverage_update, abi_margin_update, abi_order_batch,
    MAX_CANCEL_BATCH, MAX_ORDER_BATCH,
};
use crate::crypto::{
    encode_address, encode_cancel_batch, encode_leverage_update, encode_margin_update,
    encode_order_batch, keccak256, keccak256_of, Signature,
};
use crate::error::Error;
use crate::typed_data::{Agent, Network};

verus! {

/// The fields of an order as they are hashed, in wire order: asset index,
/// side, price, size, reduce-only flag, order-type code, trigger price,
/// client order id.
pub type OrderHashInput = (u32, bool, u64, u64, bool, u8, u64, u128);

/// The fields of a cancel as they are hashed: asset index and order id.
pub type CancelHashInput = (u32, u64);

/// How the orders of a batch are grouped. Only ungrouped batches are emitted.
#[derive(Clone, Copy, Debug, PartialEq, Eq, Structural)]
pub enum Grouping {
    Na,
}

/// The code under which a grouping is hashed.
pub open spec fn grouping_code(grouping: Grouping) -> i32 {
    match grouping {
        Grouping::Na => 0,
    }
}

/// The label under which a grouping is submitted.
pub open spec fn grouping_label(grouping: Grouping) -> Seq<char> {
    match grouping {
        Grouping::Na => "na"@,
    }
}

impl Grouping {
    /// The code under which this grouping is hashed.
    pub fn code(&self) -> (code: i32)
        ensures
            code == grouping_code(*self),
    {
        match self {
            Grouping::Na => 0,
        }
    }

    /// The label under which this grouping is submitted.
    pub fn label(&self) -> (label: &'static str)
        ensures
            label@ == grouping_label(*self),
    {
        match self {
            Grouping::Na => "na",
        }
    }
}

/// How long a limit order stays in the book.
#[derive(Clone, Copy, Debug, PartialEq, Eq, Structural)]
pub enum Tif {
    Alo,
    Gtc,
    Ioc,
}

/// Whether a trigger order takes profit or stops a loss.
#[derive(Clone, Copy, Debug, PartialEq, Eq, Structural)]
pub enum Tpsl {
    Tp,
    Sl,
}

/// The order-type parameters of an order.
#[derive(Clone, Copy, Debug, PartialEq, Eq, Structural)]
pub enum OrderType {
    Limit { tif: Tif },
    Trigger { trigger_px: u64, is_market: bool, tpsl: Tpsl },
}

/// An order as the user states it, its asset by symbol. Prices and sizes are
/// fixed-point integers.
#[derive(Clone, Debug)]
pub struct ClientOrderRequest {
    pub asset: String,
    pub is_buy: bool,
    pub reduce_only: bool,
    pub limit_px: u64,
    pub sz: u64,
    pub order_type: OrderType,
    pub cloid: Option<u128>,
}

/// A cancel as the user states it, its asset by symbol.
#[derive(Clone, Debug)]
pub struct ClientCancelRequest {
    pub asset: String,
    pub oid: u64,
}

/// An order with its asset resolved to an index.
#[derive(Clone, Copy, Debug, PartialEq, Eq, Structural)]
pub struct OrderRequest {
    pub asset: u32,
    pub is_buy: bool,
    pub reduce_only: bool,
    pub limit_px: u64,
    pub sz: u64,
    pub order_type: OrderType,
    pub cloid: Option<u128>,
}

/// A cancel with its asset resolved to an index.
#[derive(Clone, Copy, Debug, PartialEq, Eq, Structural)]
pub struct CancelRequest {
    pub asset: u32,
    pub oid: u64,
}

/// A canonical action, tagged by kind, as it is submitted.
#[derive(Clone, Debug)]
pub enum Action {
    UsdTransfer { chain: Network, destination: String, amount: String, time: u64 },
    UpdateLeverage { asset: u32, is_cross: bool, leverage: u32 },
    UpdateIsolatedMargin { asset: u32, is_buy: bool, ntli: i64 },
    Order { grouping: Grouping, orders: Vec<OrderRequest> },
    Cancel { cancels: Vec<CancelRequest> },
    Connect { chain: Network, agent: Agent, agent_address: [u8; 20] },
}

/// A signed action, ready for submission.
#[derive(Clone, Debug)]
pub struct SignedEnvelope {
    pub action: Action,
    pub signature: Signature,
    pub nonce: u64,
    pub vault_address: Option<[u8; 20]>,
}

/// The code under which an order type is hashed.
pub open spec fn order_type_code(order_type: OrderType) -> u8 {
    match order_type {
        OrderType::Limit { tif: Tif::Alo } => 1,
        OrderType::Limit { tif: Tif::Gtc } => 2,
        OrderType::Limit { tif: Tif::Ioc } => 3,
        OrderType::Trigger { is_market: true, tpsl: Tpsl::Tp, .. } => 4,
        OrderType::Trigger { is_market: false, tpsl: Tpsl::Tp, .. } => 5,
        OrderType::Trigger { is_market: true, tpsl: Tpsl::Sl, .. } => 6,
        OrderType::Trigger { is_market: false, tpsl: Tpsl::Sl, .. } => 7,
    }
}

/// The trigger price under which an order type is hashed: zero for a limit order.
pub open spec fn order_type_trigger_px(order_type: OrderType) -> u64 {
    match order_type {
        OrderType::Limit { .. } => 0,
        OrderType::Trigger { trigger_px, .. } => trigger_px,
    }
}

/// The client order id as it is hashed: zero where there is none.
pub open spec fn cloid_or_zero(cloid: Option<u128>) -> u128 {
    match cloid {
        Some(id) => id,
        None => 0,
    }
}

/// The vault address as it is hashed: the all-zero address where there is none.
pub open spec fn vault_or_zero(vault: Option<[u8; 20]>) -> Seq<u8> {
    match vault {
        Some(address) => address@,
        None => Seq::new(20, |i: int| 0u8),
    }
}

impl OrderType {
    /// The code and the trigger price under which this order type is hashed.
    pub fn get_type(&self) -> (res: (u8, u64))
        ensures
            res.0 == order_type_code(*self),
            res.1 == order_type_trigger_px(*self),
    {
        match self {
            OrderType::Limit { tif } => match tif {
                Tif::Alo => (1, 0),
                Tif::Gtc => (2, 0),
                Tif::Ioc => (3, 0),
            },
            OrderType::Trigger { trigger_px, is_market, tpsl } => match tpsl {
                Tpsl::Tp => if *is_market {
                    (4, *trigger_px)
                } else {
                    (5, *trigger_px)
                },
                Tpsl::Sl => if *is_market {
                    (6, *trigger_px)
                } else {
                    (7, *trigger_px)
                },
            },
        }
    }
}

impl OrderRequest {
    /// The tuple under which this order is hashed.
    pub open spec fn spec_hashable_tuple(&self) -> OrderHashInput {
        (
            self.asset,
            self.is_buy,
            self.limit_px,
            self.sz,
            self.reduce_only,
            order_type_code(self.order_type),
            order_type_trigger_px(self.order_type),
            cloid_or_zero(self.cloid),
        )
    }

    /// Builds the tuple under which this order is hashed.
    pub fn hashable_tuple(&self) -> (tuple: OrderHashInput)
        ensures
            tuple == self.spec_hashable_tuple(),
    {
        let (code, trigger_px) = self.order_type.get_type();
        let cloid: u128 = match self.cloid {
            Some(id) => id,
            None => 0,
        };
        (self.asset, self.is_buy, self.limit_px, self.sz, self.reduce_only, code, trigger_px, cloid)
    }
}

impl CancelRequest {
    /// The tuple under which this cancel is hashed.
    pub open spec fn spec_hashable_tuple(&self) -> CancelHashInput {
        (self.asset, self.oid)
    }
}

impl ClientOrderRequest {
    /// This order with its asset at index `asset`.
    pub open spec fn spec_convert(&self, asset: u32) -> OrderRequest {
        OrderRequest {
            asset,
            is_buy: self.is_buy,
            reduce_only: self.reduce_only,
            limit_px: self.limit_px,
            sz: self.sz,
            order_type: self.order_type,
            cloid: self.cloid,
        }
    }

    /// Resolves the order's symbol; fails with `AssetNotFound` exactly where
    /// the universe does not list it.
    pub fn convert(&self, assets: &AssetIndex) -> (res: Result<OrderRequest, Error>)
        requires
            assets.wf(),
        ensures
            match res {
                Ok(order) => assets.index_of(self.asset@).is_some() && order == self.spec_convert(
                    assets.index_of(self.asset@).unwrap() as u32,
                ),
                Err(e) => e == Error::AssetNotFound && assets.index_of(self.asset@).is_none(),
            },
    {
        match assets.resolve(self.asset.as_str()) {
            Ok(asset) => Ok(
                OrderRequest {
                    asset,
                    is_buy: self.is_buy,
                    reduce_only: self.reduce_only,
                    limit_px: self.limit_px,
                    sz: self.sz,
                    order_type: self.order_type,
                    cloid: self.cloid,
                },
            ),
            Err(e) => Err(e),
        }
    }

    /// The tuple under which the resolved order is hashed; fails with
    /// `AssetNotFound` exactly where the universe does not list the symbol.
    pub fn create_hashable_tuple(&self, assets: &AssetIndex) -> (res: Result<OrderHashInput, Error>)
        requires
            assets.wf(),
        ensures
            match res {
                Ok(tuple) => assets.index_of(self.asset@).is_some() && tuple == self.spec_convert(
                    assets.index_of(self.asset@).unwrap() as u32,
                ).spec_hashable_tuple(),
                Err(e) => e == Error::AssetNotFound && assets.index_of(self.asset@).is_none(),
            },
    {
        match self.convert(assets) {
            Ok(order) => Ok(order.hashable_tuple()),
            Err(e) => Err(e),
        }
    }
}

impl ClientCancelRequest {
    /// This cancel with its asset at index `asset`.
    pub open spec fn spec_convert(&self, asset: u32) -> CancelRequest {
        CancelRequest { asset, oid: self.oid }
    }

    /// Resolves the cancel's symbol; fails with `AssetNotFound` exactly where
    /// the universe does not list it.
    pub fn convert(&self, assets: &AssetIndex) -> (res: Result<CancelRequest, Error>)
        requires
            assets.wf(),
        ensures
            match res {
                Ok(cancel) => assets.index_of(self.asset@).is_some() && cancel == self.spec_convert(
                    assets.index_of(self.asset@).unwrap() as u32,
                ),
                Err(e) => e == Error::AssetNotFound && assets.index_of(self.asset@).is_none(),
            },
    {
        match assets.resolve(self.asset.as_str()) {
            Ok(asset) => Ok(CancelRequest { asset, oid: self.oid }),
            Err(e) => Err(e),
        }
    }
}

/// Every order of the batch names a listed symbol.
pub open spec fn orders_resolve(assets: &AssetIndex, orders: Seq<ClientOrderRequest>) -> bool {
    forall|i: int| 0 <= i < orders.len() ==> (#[trigger] assets.index_of(orders[i].asset@)).is_some()
}

/// The orders of a batch with their assets resolved, in batch order.
pub open spec fn canonical_orders(assets: &AssetIndex, orders: Seq<ClientOrderRequest>) -> Seq<OrderRequest> {
    Seq::new(
        orders.len(),
        |i: int| orders[i].spec_convert(assets.index_of(orders[i].asset@).unwrap() as u32),
    )
}

/// The tuples under which resolved orders are hashed, in batch order.
pub open spec fn order_tuples(orders: Seq<OrderRequest>) -> Seq<OrderHashInput> {
    Seq::new(orders.len(), |i: int| orders[i].spec_hashable_tuple())
}

/// Every cancel of the batch names a listed symbol.
pub open spec fn cancels_resolve(assets: &AssetIndex, cancels: Seq<ClientCancelRequest>) -> bool {
    forall|i: int|
        0 <= i < cancels.len() ==> (#[trigger] assets.index_of(cancels[i].asset@)).is_some()
}

/// The cancels of a batch with their assets resolved, in batch order.
pub open spec fn canonical_cancels(assets: &AssetIndex, cancels: Seq<ClientCancelRequest>) -> Seq<
    CancelRequest,
> {
    Seq::new(
        cancels.len(),
        |i: int| cancels[i].spec_convert(assets.index_of(cancels[i].asset@).unwrap() as u32),
    )
}

/// The tuples under which resolved cancels are hashed, in batch order.
pub open spec fn cancel_tuples(cancels: Seq<CancelRequest>) -> Seq<CancelHashInput> {
    Seq::new(cancels.len(), |i: int| cancels[i].spec_hashable_tuple())
}

/// The connection id of an ungrouped order batch: the digest of the encoded
/// tuple of order tuples, grouping code, vault address and timestamp.
pub open spec fn order_batch_hash(tuples: Seq<OrderHashInput>, vault: Seq<u8>, timestamp: u64) -> Seq<u8> {
    keccak256_of(abi_order_batch(tuples, grouping_code(Grouping::Na), vault, timestamp))
}

/// The connection id of a cancel batch.
pub open spec fn cancel_batch_hash(tuples: Seq<CancelHashInput>, vault: Seq<u8>, timestamp: u64) -> Seq<u8> {
    keccak256_of(abi_cancel_batch(tuples, vault, timestamp))
}

/// The connection id of a leverage update.
pub open spec fn leverage_hash(asset: u32, is_cross: bool, leverage: u32, vault: Seq<u8>, timestamp: u64) -> Seq<
    u8,
> {
    keccak256_of(abi_leverage_update(asset, is_cross, leverage, vault, timestamp))
}

/// The connection id of an isolated-margin update; the side flag is always set.
pub open spec fn margin_hash(asset: u32, amount: i64, vault: Seq<u8>, timestamp: u64) -> Seq<u8> {
    keccak256_of(abi_margin_update(asset, true, amount, vault, timestamp))
}

/// The connection id of an agent connection: the digest of the agent's
/// encoded address alone.
pub open spec fn agent_hash(address: Seq<u8>) -> Seq<u8> {
    keccak256_of(abi_address(address))
}

/// The vault address that enters a hash: the configured one, or the all-zero
/// address where none is configured.
pub fn vault_or_default(vault: Option<[u8; 20]>) -> (address: [u8; 20])
    ensures
        address@ == vault_or_zero(vault),
{
    match vault {
        Some(address) => address,
        None => {
            let zero = [0u8; 20];
            assert(zero@ =~= Seq::new(20, |i: int| 0u8));
            zero
        },
    }
}

/// Resolves every order of a batch and builds the tuples to hash. One
/// unlisted symbol fails the whole batch with `AssetNotFound`.
pub fn encode_orders(assets: &AssetIndex, orders: &Vec<ClientOrderRequest>) -> (res: Result<
    (Vec<OrderRequest>, Vec<OrderHashInput>),
    Error,
>)
    requires
        assets.wf(),
    ensures
        match res {
            Ok((resolved, tuples)) => orders_resolve(assets, orders@) && resolved@
                == canonical_orders(assets, orders@) && tuples@ == order_tuples(resolved@),
            Err(e) => e == Error::AssetNotFound && !orders_resolve(assets, orders@),
        },
{
    let mut resolved: Vec<OrderRequest> = Vec::new();
    let mut tuples: Vec<OrderHashInput> = Vec::new();
    let mut i: usize = 0;
    while i < orders.len()
        invariant
            assets.wf(),
            i <= orders@.len(),
            resolved@.len() == i,
            tuples@.len() == i,
            forall|k: int|
                0 <= k < i ==> (#[trigger] assets.index_of(orders@[k].asset@)).is_some(),
            forall|k: int|
                0 <= k < i ==> #[trigger] resolved@[k] == orders@[k].spec_convert(
                    assets.index_of(orders@[k].asset@).unwrap() as u32,
                ),
            forall|k: int| 0 <= k < i ==> #[trigger] tuples@[k] == resolved@[k].spec_hashable_tuple(),
        decreases orders@.len() - i,
    {
        match orders[i].convert(assets) {
            Ok(order) => {
                tuples.push(order.hashable_tuple());
                resolved.push(order);
            },
            Err(e) => {
                assert(assets.index_of(orders@[i as int].asset@).is_none());
                return Err(e);
            },
        }
        i = i + 1;
    }
    assert(resolved@ =~= canonical_orders(assets, orders@));
    assert(tuples@ =~= order_tuples(resolved@));
    Ok((resolved, tuples))
}

/// Resolves every cancel of a batch and builds the tuples to hash. One
/// unlisted symbol fails the whole batch with `AssetNotFound`.
pub fn encode_cancels(assets: &AssetIndex, cancels: &Vec<ClientCancelRequest>) -> (res: Result<
    (Vec<CancelRequest>, Vec<CancelHashInput>),
    Error,
>)
    requires
        assets.wf(),
    ensures
        match res {
            Ok((resolved, tuples)) => cancels_resolve(assets, cancels@) && resolved@
                == canonical_cancels(assets, cancels@) && tuples@ == cancel_tuples(resolved@),
            Err(e) => e == Error::AssetNotFound && !cancels_resolve(assets, cancels@),
        },
{
    let mut resolved: Vec<CancelRequest> = Vec::new();
    let mut tuples: Vec<CancelHashInput> = Vec::new();
    let mut i: usize = 0;
    while i < cancels.len()
        invariant
            assets.wf(),
            i <= cancels@.len(),
            resolved@.len() == i,
            tuples@.len() == i,
            forall|k: int|
                0 <= k < i ==> (#[trigger] assets.index_of(cancels@[k].asset@)).is_some(),
            forall|k: int|
                0 <= k < i ==> #[trigger] resolved@[k] == cancels@[k].spec_convert(
                    assets.index_of(cancels@[k].asset@).unwrap() as u32,
                ),
            forall|k: int| 0 <= k < i ==> #[trigger] tuples@[k] == resolved@[k].spec_hashable_tuple(),
        decreases cancels@.len() - i,
    {
        match cancels[i].convert(assets) {
            Ok(cancel) => {
                tuples.push((cancel.asset, cancel.oid));
                resolved.push(cancel);
            },
            Err(e) => {
                assert(assets.index_of(cancels@[i as int].asset@).is_none());
                return Err(e);
            },
        }
        i = i + 1;
    }
    assert(resolved@ =~= canonical_cancels(assets, cancels@));
    assert(tuples@ =~= cancel_tuples(resolved@));
    Ok((resolved, tuples))
}

/// The connection id of an ungrouped order batch that the encoder can hold.
pub fn order_connection_id(tuples: &Vec<OrderHashInput>, vault: Option<[u8; 20]>, timestamp: u64) -> (id:
    [u8; 32])
    requires
        tuples@.len() <= MAX_ORDER_BATCH,
    ensures
        id@ == order_batch_hash(tuples@, vault_or_zero(vault), timestamp),
{
    let address = vault_or_default(vault);
    let bytes = encode_order_batch(tuples, Grouping::Na.code(), &address, timestamp);
    keccak256(&bytes)
}

/// The connection id of a cancel batch that the encoder can hold.
pub fn cancel_connection_id(tuples: &Vec<CancelHashInput>, vault: Option<[u8; 20]>, timestamp: u64) -> (id:
    [u8; 32])
    requires
        tuples@.len() <= MAX_CANCEL_BATCH,
    ensures
        id@ == cancel_batch_hash(tuples@, vault_or_zero(vault), timestamp),
{
    let address = vault_or_default(vault);
    let bytes = encode_cancel_batch(tuples, &address, timestamp);
    keccak256(&bytes)
}

/// The connection id of a leverage update.
pub fn leverage_connection_id(
    asset: u32,
    is_cross: bool,
    leverage: u32,
    vault: Option<[u8; 20]>,
    timestamp: u64,
) -> (id: [u8; 32])
    ensures
        id@ == leverage_hash(asset, is_cross, leverage, vault_or_zero(vault), timestamp),
{
    let address = vault_or_default(vault);
    let bytes = encode_leverage_update(asset, is_cross, leverage, &address, timestamp);
    keccak256(&bytes)
}

/// The connection id of an isolated-margin update of `amount` millionths.
pub fn margin_connection_id(asset: u32, amount: i64, vault: Option<[u8; 20]>, timestamp: u64) -> (id: [u8; 32])
    ensures
        id@ == margin_hash(asset, amount, vault_or_zero(vault), timestamp),
{
    let address = vault_or_default(vault);
    let bytes = encode_margin_update(asset, true, amount, &address, timestamp);
    keccak256(&bytes)
}

/// The connection id of an agent connection.
pub fn agent_connection_id(address: &[u8; 20]) -> (id: [u8; 32])
    ensures
        id@ == agent_hash(address@),
{
    let bytes = encode_address(address);
    keccak256(&bytes)
}

/// The connection id of a batch depends on the canonical tuples, the vault
/// address with the all-zero address standing for none, and the timestamp,
/// and on nothing else: equal inputs give equal hashes, whatever the client,
/// and no vault hashes as the all-zero vault does.
pub proof fn lemma_batch_hash_is_pure(
    vault_a: Option<[u8; 20]>,
    vault_b: Option<[u8; 20]>,
    orders_a: Seq<OrderRequest>,
    orders_b: Seq<OrderRequest>,
    cancels_a: Seq<CancelRequest>,
    cancels_b: Seq<CancelRequest>,
    timestamp: u64,
)
    requires
        vault_or_zero(vault_a) == vault_or_zero(vault_b),
        order_tuples(orders_a) == order_tuples(orders_b),
        cancel_tuples(cancels_a) == cancel_tuples(cancels_b),
    ensures
        order_batch_hash(order_tuples(orders_a), vault_or_zero(vault_a), timestamp)
            == order_batch_hash(order_tuples(orders_b), vault_or_zero(vault_b), timestamp),
        cancel_batch_hash(cancel_tuples(cancels_a), vault_or_zero(vault_a), timestamp)
            == cancel_batch_hash(cancel_tuples(cancels_b), vault_or_zero(vault_b), timestamp),
{
}

} // verus!
