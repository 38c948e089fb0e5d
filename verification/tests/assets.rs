use exchange_signing::action::{ClientCancelRequest, ClientOrderRequest, OrderType, Tif, Tpsl};
use exchange_signing::action::{encode_cancels, encode_orders};
use exchange_signing::asset::AssetIndex;
use exchange_signing::error::Error;

fn universe() -> Vec<String> {
    vec!["BTC", "ETH", "ATOM", "MATIC", "DYDX", "SOL", "AVAX", "BNB"]
        .into_iter()
        .map(|s| s.to_string())
        .collect()
}

#[test]
fn resolve_follows_universe_order() {
    let assets = AssetIndex::new(universe());
    assert_eq!(assets.len(), 8);
    for (i, symbol) in universe().iter().enumerate() {
        assert_eq!(assets.resolve(symbol), Ok(i as u32));
    }
}

#[test]
fn resolve_is_injective() {
    let assets = AssetIndex::new(universe());
    let mut seen = vec![false; 8];
    for symbol in universe().iter() {
        let i = assets.resolve(symbol).unwrap() as usize;
        assert!(!seen[i]);
        seen[i] = true;
    }
    assert!(seen.iter().all(|b| *b));
}

#[test]
fn resolve_unknown_symbol_fails() {
    let assets = AssetIndex::new(universe());
    assert_eq!(assets.resolve("DOGE"), Err(Error::AssetNotFound));
    assert_eq!(assets.resolve(""), Err(Error::AssetNotFound));
    assert_eq!(assets.resolve("btc"), Err(Error::AssetNotFound));
}

#[test]
fn resolve_in_empty_universe_fails() {
    let assets = AssetIndex::new(Vec::new());
    assert_eq!(assets.len(), 0);
    assert_eq!(assets.resolve("BTC"), Err(Error::AssetNotFound));
}

#[test]
fn repeated_symbol_resolves_to_last_listing() {
    let assets = AssetIndex::new(vec!["A".to_string(), "B".to_string(), "A".to_string()]);
    assert_eq!(assets.resolve("A"), Ok(2));
    assert_eq!(assets.resolve("B"), Ok(1));
}

fn limit_order(asset: &str) -> ClientOrderRequest {
    ClientOrderRequest {
        asset: asset.to_string(),
        is_buy: true,
        reduce_only: false,
        limit_px: 180_000_000_000,
        sz: 1_000_000,
        order_type: OrderType::Limit { tif: Tif::Gtc },
        cloid: None,
    }
}

#[test]
fn order_type_codes() {
    assert_eq!(OrderType::Limit { tif: Tif::Alo }.get_type(), (1, 0));
    assert_eq!(OrderType::Limit { tif: Tif::Gtc }.get_type(), (2, 0));
    assert_eq!(OrderType::Limit { tif: Tif::Ioc }.get_type(), (3, 0));
    let trigger = |is_market, tpsl| OrderType::Trigger { trigger_px: 77, is_market, tpsl };
    assert_eq!(trigger(true, Tpsl::Tp).get_type(), (4, 77));
    assert_eq!(trigger(false, Tpsl::Tp).get_type(), (5, 77));
    assert_eq!(trigger(true, Tpsl::Sl).get_type(), (6, 77));
    assert_eq!(trigger(false, Tpsl::Sl).get_type(), (7, 77));
}

#[test]
fn order_converts_to_index_and_tuple() {
    let assets = AssetIndex::new(universe());
    let mut order = limit_order("MATIC");
    order.cloid = Some(42);
    let resolved = order.convert(&assets).unwrap();
    assert_eq!(resolved.asset, 3);
    assert_eq!(resolved.limit_px, 180_000_000_000);
    assert_eq!(resolved.cloid, Some(42));
    assert_eq!(
        order.create_hashable_tuple(&assets),
        Ok((3, true, 180_000_000_000, 1_000_000, false, 2, 0, 42))
    );
    assert_eq!(resolved.hashable_tuple(), (3, true, 180_000_000_000, 1_000_000, false, 2, 0, 42));
}

#[test]
fn order_without_client_id_hashes_zero() {
    let assets = AssetIndex::new(universe());
    let order = limit_order("BNB");
    assert_eq!(
        order.create_hashable_tuple(&assets),
        Ok((7, true, 180_000_000_000, 1_000_000, false, 2, 0, 0))
    );
}

#[test]
fn order_on_unknown_symbol_fails() {
    let assets = AssetIndex::new(universe());
    let order = limit_order("DOGE");
    assert_eq!(order.convert(&assets), Err(Error::AssetNotFound));
    assert_eq!(order.create_hashable_tuple(&assets), Err(Error::AssetNotFound));
}

#[test]
fn batch_with_one_unknown_symbol_fails_whole() {
    let assets = AssetIndex::new(universe());
    let orders = vec![limit_order("BTC"), limit_order("DOGE"), limit_order("ETH")];
    assert_eq!(encode_orders(&assets, &orders).err(), Some(Error::AssetNotFound));
    let cancels = vec![
        ClientCancelRequest { asset: "BTC".to_string(), oid: 1 },
        ClientCancelRequest { asset: "DOGE".to_string(), oid: 2 },
    ];
    assert_eq!(encode_cancels(&assets, &cancels).err(), Some(Error::AssetNotFound));
}

#[test]
fn batch_keeps_order() {
    let assets = AssetIndex::new(universe());
    let orders = vec![limit_order("MATIC"), limit_order("BNB")];
    let (resolved, tuples) = encode_orders(&assets, &orders).unwrap();
    assert_eq!(resolved.len(), 2);
    assert_eq!(resolved[0].asset, 3);
    assert_eq!(resolved[1].asset, 7);
    assert_eq!(tuples[0].0, 3);
    assert_eq!(tuples[1].0, 7);
    let cancels = vec![
        ClientCancelRequest { asset: "SOL".to_string(), oid: 11 },
        ClientCancelRequest { asset: "BTC".to_string(), oid: 12 },
    ];
    let (resolved, tuples) = encode_cancels(&assets, &cancels).unwrap();
    assert_eq!(resolved[0].asset, 5);
    assert_eq!(resolved[1].oid, 12);
    assert_eq!(tuples, vec![(5, 11), (0, 12)]);
}

#[test]
fn empty_batch_encodes_to_nothing() {
    let assets = AssetIndex::new(universe());
    let (resolved, tuples) = encode_orders(&assets, &Vec::new()).unwrap();
    assert!(resolved.is_empty());
    assert!(tuples.is_empty());
}
