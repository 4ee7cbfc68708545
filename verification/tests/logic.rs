use highway::address::{parse_address_with, Address, AddressError, AddressRules, H160Error, HexError};
use highway::amount::U256;
use highway::builder::{address_label, missing_address_message, AddressParam, BuildError, EthereumBuilder};
use highway::endpoint::{classify_endpoint, unsupported_endpoint_message, Transport};
use highway::map::StringMap;
use highway::monitor::{
    deposit_record_queries, initial_block, placeholder_transfer, transfer_for_events,
    transfers_after_query, BaseAccountMonitor, BlockCursor, BridgeEvent, CatchUp, CatchUpAction,
};
use highway::reactor::{after_build, chain_setup, Reactor, ReactorAction, SetupError, DEFAULT_BLOCK_CONFIRMATIONS};
use highway::router::Router;
use highway::text::{equal, parse_u16, starts_with};
use highway::types::{BridgeConfig, ChainConfig, ChainType, Event, FungibleTransfer};

const BRIDGE: &str = "0xCaF65AB2eC9B39403966991eb34B1e8B9E44C041";
const ERC20: &str = "0x1111111111111111111111111111111111111111";
const ERC721: &str = "2222222222222222222222222222222222222222";
const FROM: &str = "0XABCDEFabcdef0123456789000000000000000000";

fn router_sender() -> tokio::sync::mpsc::Sender<Event> {
    tokio::sync::mpsc::channel(1).0
}

fn full_builder(endpoint: &str) -> EthereumBuilder {
    EthereumBuilder::new(router_sender(), 1, "eth".to_string(), endpoint.to_string(), FROM.to_string(), 7, 3)
        .bridge(BRIDGE.to_string())
        .erc20_handler(ERC20.to_string())
        .erc721_handler(ERC721.to_string())
}

fn monitor_builder(endpoint: &str) -> EthereumBuilder {
    EthereumBuilder::new(router_sender(), 1, "eth".to_string(), endpoint.to_string(), FROM.to_lowercase(), 7, 3)
        .bridge(BRIDGE.to_string())
        .erc20_handler(ERC20.to_string())
        .erc721_handler(ERC721.to_string())
}

fn extra(pairs: &[(&str, &str)]) -> StringMap {
    let mut m = StringMap::new();
    for (k, v) in pairs {
        m.insert(k.to_string(), v.to_string());
    }
    m
}

fn chain(identifier: u8, typ: ChainType, pairs: &[(&str, &str)]) -> ChainConfig {
    ChainConfig {
        identifier,
        name: format!("chain{identifier}"),
        from: FROM.to_string(),
        typ,
        endpoint: "ws://localhost:8546".to_string(),
        start_block: 100,
        extra: extra(pairs),
    }
}

const ALL_KEYS: [(&str, &str); 3] = [("bridge", BRIDGE), ("erc20_handler", ERC20), ("erc721_handler", ERC721)];

#[test]
fn parse_u16_accepts_decimal_numbers() {
    assert_eq!(parse_u16("12"), Some(12));
    assert_eq!(parse_u16("0"), Some(0));
    assert_eq!(parse_u16("+7"), Some(7));
    assert_eq!(parse_u16("0065535"), Some(65535));
}

#[test]
fn parse_u16_rejects_what_std_rejects() {
    for text in ["", "+", "-1", "65536", "1000000", "12a", " 12", "1.0", "++1", "１"] {
        assert_eq!(parse_u16(text), None, "{text}");
        assert_eq!(parse_u16(text), text.parse::<u16>().ok(), "{text}");
    }
}

#[test]
fn parse_u16_agrees_with_std_on_samples() {
    for text in ["1", "99", "255", "256", "4096", "65534", "65535", "70000", "+65535", "+0", "00"] {
        assert_eq!(parse_u16(text), text.parse::<u16>().ok(), "{text}");
    }
}

#[test]
fn text_prefix_and_equality() {
    assert!(starts_with("https://x", "http"));
    assert!(starts_with("ws", "ws"));
    assert!(!starts_with("w", "ws"));
    assert!(!starts_with("xhttp", "http"));
    assert!(equal("abc", "abc"));
    assert!(!equal("abc", "abd"));
    assert!(!equal("abc", "ab"));
    assert!(equal("", ""));
}

#[test]
fn string_map_get_after_insert() {
    let mut m = StringMap::new();
    assert_eq!(m.get("a"), None);
    m.insert("a".to_string(), "1".to_string());
    m.insert("b".to_string(), "2".to_string());
    assert_eq!(m.get("a").map(|s| s.as_str()), Some("1"));
    assert_eq!(m.get("b").map(|s| s.as_str()), Some("2"));
    m.insert("a".to_string(), "3".to_string());
    assert_eq!(m.get("a").map(|s| s.as_str()), Some("3"));
    assert_eq!(m.get("b").map(|s| s.as_str()), Some("2"));
    assert_eq!(m.get("c"), None);
}

#[test]
fn endpoints_are_classified_by_scheme() {
    assert_eq!(classify_endpoint("http://localhost:8545"), Some(Transport::Http));
    assert_eq!(classify_endpoint("https://mainnet"), Some(Transport::Http));
    assert_eq!(classify_endpoint("ws://localhost:8546"), Some(Transport::Ws));
    assert_eq!(classify_endpoint("wss://node"), Some(Transport::Ws));
    assert_eq!(classify_endpoint("ipc:///tmp/geth.ipc"), None);
    assert_eq!(classify_endpoint(""), None);
    assert_eq!(unsupported_endpoint_message("ftp://x"), "Endpoint ftp://x is not supported");
}

fn bytes(a: &Address) -> Vec<u8> {
    a.bytes.to_vec()
}

#[test]
fn builder_plan_decodes_all_settings() {
    let plan = full_builder("wss://node").plan().expect("plan");
    assert_eq!(plan.transport, Transport::Ws);
    assert_eq!(plan.endpoint, "wss://node");
    assert_eq!(plan.start_block, 7);
    assert_eq!(plan.block_confirmations, 3);
    assert_eq!(
        bytes(&plan.config.bridge_address),
        vec![0xca, 0xf6, 0x5a, 0xb2, 0xec, 0x9b, 0x39, 0x40, 0x39, 0x66, 0x99, 0x1e, 0xb3, 0x4b, 0x1e, 0x8b, 0x9e, 0x44, 0xc0, 0x41]
    );
    assert_eq!(bytes(&plan.config.erc20_handler), vec![0x11; 20]);
    assert_eq!(bytes(&plan.config.erc721_handler), vec![0x22; 20]);
    let mut from = vec![0xab, 0xcd, 0xef, 0xab, 0xcd, 0xef, 0x01, 0x23, 0x45, 0x67, 0x89];
    from.extend(vec![0u8; 9]);
    assert_eq!(bytes(&plan.config.from_address), from);
    let http = full_builder("http://localhost:8545").plan().expect("plan");
    assert_eq!(http.transport, Transport::Http);
}

#[test]
fn builder_reports_missing_addresses_in_order() {
    let b = EthereumBuilder::new(router_sender(), 1, "eth".into(), "ws://x".into(), FROM.into(), 0, 12);
    assert!(matches!(b.plan(), Err(BuildError::MissingAddress(AddressParam::Bridge))));
    let b = EthereumBuilder::new(router_sender(), 1, "eth".into(), "ws://x".into(), FROM.into(), 0, 12)
        .bridge(BRIDGE.into());
    assert!(matches!(b.plan(), Err(BuildError::MissingAddress(AddressParam::Erc20Handler))));
    let b = EthereumBuilder::new(router_sender(), 1, "eth".into(), "ws://x".into(), FROM.into(), 0, 12)
        .bridge(BRIDGE.into())
        .erc20_handler(ERC20.into());
    assert!(matches!(b.plan(), Err(BuildError::MissingAddress(AddressParam::Erc721Handler))));
}

#[test]
fn builder_reports_invalid_addresses() {
    let b = full_builder("ws://x").bridge("0x12".into());
    assert!(matches!(b.plan(), Err(BuildError::InvalidAddress(AddressParam::Bridge, AddressError::Hex(HexError::InvalidStringLength)))));
    let b = full_builder("ws://x").erc20_handler("0x123".into());
    assert!(matches!(b.plan(), Err(BuildError::InvalidAddress(AddressParam::Erc20Handler, AddressError::Hex(HexError::OddLength)))));
    let b = full_builder("ws://x").erc721_handler("zz22222222222222222222222222222222222222".into());
    assert!(matches!(
        b.plan(),
        Err(BuildError::InvalidAddress(AddressParam::Erc721Handler, AddressError::Hex(HexError::InvalidHexCharacter { c: 'z', index: 0 })))
    ));
    let b = EthereumBuilder::new(router_sender(), 1, "eth".into(), "ws://x".into(), "me".into(), 0, 12)
        .bridge(BRIDGE.into())
        .erc20_handler(ERC20.into())
        .erc721_handler(ERC721.into());
    assert!(matches!(b.plan(), Err(BuildError::InvalidAddress(AddressParam::Sender, _))));
}

#[test]
fn builder_rejects_unsupported_endpoint_last() {
    match full_builder("ipc:///tmp/x").plan() {
        Err(BuildError::UnsupportedEndpoint(e)) => assert_eq!(e, "ipc:///tmp/x"),
        _ => panic!("expected an unsupported endpoint"),
    }
    // an address error comes before the endpoint error
    let b = full_builder("ipc:///tmp/x").bridge("nope".into());
    assert!(matches!(b.plan(), Err(BuildError::InvalidAddress(AddressParam::Bridge, _))));
}

#[test]
fn router_routes_registered_chains() {
    let (mut router, _to_router) = Router::new();
    let (a, _ra) = tokio::sync::mpsc::channel::<Event>(1);
    let (b, _rb) = tokio::sync::mpsc::channel::<Event>(1);
    assert!(router.route(1).is_none());
    router.add_chain(1, "one".into(), a.clone());
    router.add_chain(2, "two".into(), b.clone());
    assert!(router.route(1).unwrap().same_channel(&a));
    assert!(router.route(2).unwrap().same_channel(&b));
    assert!(router.route(3).is_none());
    router.add_chain(1, "uno".into(), b.clone());
    assert!(router.route(1).unwrap().same_channel(&b));
}

#[test]
fn router_receiver_gets_what_its_sender_sends() {
    let (router, to_router) = Router::new();
    let mut rx = router.into_receiver();
    to_router.try_send(Event::Stop).unwrap();
    assert_eq!(rx.try_recv().unwrap(), Event::Stop);
}

#[test]
fn chain_setup_defaults_and_errors() {
    let c = chain(4, ChainType::Ethereum, &ALL_KEYS);
    let s = chain_setup(&c).unwrap().unwrap();
    assert_eq!(s.block_confirmations, DEFAULT_BLOCK_CONFIRMATIONS);
    assert_eq!(s.block_confirmations, 12);
    assert_eq!(s.bridge, BRIDGE);
    assert_eq!(s.erc20_handler, ERC20);
    assert_eq!(s.erc721_handler, ERC721);
    assert_eq!(s.identifier, 4);
    assert_eq!(s.name, "chain4");
    assert_eq!(s.start_block, 100);

    let mut keys = ALL_KEYS.to_vec();
    keys.push(("block_confirmations", "30"));
    let s = chain_setup(&chain(4, ChainType::Ethereum, &keys)).unwrap().unwrap();
    assert_eq!(s.block_confirmations, 30);

    let mut keys = ALL_KEYS.to_vec();
    keys.push(("block_confirmations", "many"));
    match chain_setup(&chain(4, ChainType::Ethereum, &keys)) {
        Err(SetupError::InvalidBlockConfirmations(t)) => assert_eq!(t, "many"),
        _ => panic!("expected invalid block confirmations"),
    }
    assert!(matches!(chain_setup(&chain(4, ChainType::Ethereum, &ALL_KEYS[1..])), Err(SetupError::MissingBridge)));
    assert!(matches!(
        chain_setup(&chain(4, ChainType::Ethereum, &[ALL_KEYS[0], ALL_KEYS[2]])),
        Err(SetupError::MissingErc20Handler)
    ));
    assert!(matches!(chain_setup(&chain(4, ChainType::Ethereum, &ALL_KEYS[..2])), Err(SetupError::MissingErc721Handler)));
    assert!(matches!(chain_setup(&chain(4, ChainType::Substrate, &[])), Ok(None)));
}

#[test]
fn reactor_plan_keeps_order_and_stops_at_refusal() {
    let config = BridgeConfig {
        chains: vec![
            chain(1, ChainType::Ethereum, &ALL_KEYS),
            chain(2, ChainType::Substrate, &[]),
            chain(3, ChainType::Ethereum, &ALL_KEYS),
            chain(4, ChainType::Ethereum, &[]),
            chain(5, ChainType::Ethereum, &ALL_KEYS),
        ],
    };
    let plan = Reactor::new(config).plan();
    let ids: Vec<u8> = plan.setups.iter().map(|s| s.identifier).collect();
    assert_eq!(ids, vec![1, 3]);
    assert!(matches!(plan.failure, Some(SetupError::MissingBridge)));
}

#[test]
fn reactor_plan_without_refusal() {
    let config = BridgeConfig {
        chains: vec![chain(2, ChainType::Substrate, &[]), chain(7, ChainType::Ethereum, &ALL_KEYS)],
    };
    let plan = Reactor::new(config).plan();
    assert_eq!(plan.setups.len(), 1);
    assert_eq!(plan.setups[0].identifier, 7);
    assert!(plan.failure.is_none());
    let empty = Reactor::new(BridgeConfig { chains: vec![chain(2, ChainType::Substrate, &[])] }).plan();
    assert!(empty.setups.is_empty() && empty.failure.is_none());
}

#[test]
fn monitors_announce_the_placeholder_transfer() {
    let t = Event::FungibleTransfer(FungibleTransfer { source_chain_id: 1, destination_chain_id: 2, deposit_nonce: 5 });
    assert_eq!(placeholder_transfer(), t);
    assert_eq!(transfer_for_events(0), None);
    assert_eq!(transfer_for_events(3), Some(t));
    assert_eq!(transfers_after_query(true), vec![t]);
    assert!(transfers_after_query(false).is_empty());
}

#[test]
fn deposit_queries_follow_deposits() {
    let events = vec![
        BridgeEvent::Deposit { destination_chain_id: 2, resource_id: [0; 32], deposit_nonce: 9 },
        BridgeEvent::ProposalVote { origin_chain_id: 1, deposit_nonce: 1, status: 0, resource_id: [0; 32] },
        BridgeEvent::Proposal { origin_chain_id: 1, deposit_nonce: 2, status: 1, resource_id: [0; 32], data_hash: [1; 32] },
        BridgeEvent::Deposit { destination_chain_id: 3, resource_id: [7; 32], deposit_nonce: 10 },
    ];
    assert_eq!(deposit_record_queries(&events), vec![(9, 2), (10, 3)]);
    assert!(deposit_record_queries(&vec![]).is_empty());
}

#[test]
fn catch_up_reads_each_block_once() {
    let mut c = CatchUp::new(5);
    let mut actions = vec![];
    for _ in 0..4 {
        actions.push(c.step(8));
    }
    assert_eq!(
        actions,
        vec![CatchUpAction::Fetch(5), CatchUpAction::Fetch(6), CatchUpAction::Fetch(7), CatchUpAction::Subscribe]
    );
    let mut ahead = CatchUp::new(10);
    assert_eq!(ahead.step(3), CatchUpAction::Subscribe);
    assert_eq!(ahead.step(11), CatchUpAction::Fetch(10));
}

#[test]
fn cursor_ranges_are_contiguous() {
    let mut c = BlockCursor::new(100);
    assert_eq!(c.advance(103), (100, 103));
    assert_eq!(c.advance(104), (103, 104));
    assert_eq!(c.advance(110), (104, 110));
}

#[test]
fn initial_block_of_a_query() {
    assert_eq!(initial_block(Some(42), 1000, 12), 42);
    assert_eq!(initial_block(None, 1000, 12), 988);
    assert_eq!(initial_block(None, 12, 12), 0);
}

#[test]
fn u256_comparison_by_value() {
    let small = U256 { limbs: [u64::MAX, u64::MAX, 0, 0] };
    let big = U256 { limbs: [0, 0, 1, 0] };
    assert!(small.lt(&big));
    assert!(!big.lt(&small));
    assert!(!big.lt(&big));
    let top = U256 { limbs: [0, 0, 0, 1] };
    assert!(big.lt(&top));
    assert!(U256 { limbs: [1, 0, 0, 0] }.lt(&U256 { limbs: [2, 0, 0, 0] }));
}

#[test]
fn account_monitor_flags_low_balance() {
    let m = BaseAccountMonitor {
        account: Address { bytes: [0; 20] },
        threshold: U256 { limbs: [1_000, 0, 0, 0] },
        timeout: std::time::Duration::from_secs(5),
    };
    assert!(m.is_low(&U256 { limbs: [999, 0, 0, 0] }));
    assert!(!m.is_low(&U256 { limbs: [1_000, 0, 0, 0] }));
    assert!(!m.is_low(&U256 { limbs: [0, 1, 0, 0] }));
}

#[test]
fn address_prefix_is_optional() {
    let digits = "CaF65AB2eC9B39403966991eb34B1e8B9E44C041";
    let with_lower = full_builder("ws://x").bridge(format!("0x{digits}")).plan().unwrap();
    let with_upper = full_builder("ws://x").bridge(format!("0X{digits}")).plan().unwrap();
    let without = full_builder("ws://x").bridge(digits.to_string()).plan().unwrap();
    assert_eq!(bytes(&with_lower.config.bridge_address), bytes(&without.config.bridge_address));
    assert_eq!(bytes(&with_upper.config.bridge_address), bytes(&without.config.bridge_address));
    let lower_case = full_builder("ws://x").bridge(digits.to_lowercase()).plan().unwrap();
    assert_eq!(bytes(&lower_case.config.bridge_address), bytes(&without.config.bridge_address));
}

#[test]
fn setters_commute() {
    let a = EthereumBuilder::new(router_sender(), 1, "eth".into(), "ws://x".into(), FROM.into(), 0, 12)
        .erc721_handler(ERC721.into())
        .erc20_handler(ERC20.into())
        .bridge(BRIDGE.into())
        .plan()
        .unwrap();
    let b = full_builder("ws://x").plan().unwrap();
    assert_eq!(bytes(&a.config.bridge_address), bytes(&b.config.bridge_address));
    assert_eq!(bytes(&a.config.erc20_handler), bytes(&b.config.erc20_handler));
    assert_eq!(bytes(&a.config.erc721_handler), bytes(&b.config.erc721_handler));
}

#[test]
fn string_map_entries_list_each_key_once() {
    let mut m = StringMap::new();
    m.insert("k".to_string(), "1".to_string());
    m.insert("j".to_string(), "2".to_string());
    m.insert("k".to_string(), "3".to_string());
    let mut entries = m.entries().clone();
    entries.sort();
    assert_eq!(entries, vec![("j".to_string(), "2".to_string()), ("k".to_string(), "3".to_string())]);
}

#[test]
fn router_channel_holds_one_event() {
    let (router, to_router) = Router::new();
    to_router.try_send(Event::Stop).unwrap();
    assert!(matches!(
        to_router.try_send(Event::NonFungibleTransfer),
        Err(tokio::sync::mpsc::error::TrySendError::Full(_))
    ));
    assert_eq!(to_router.max_capacity(), 1);
    let mut rx = router.into_receiver();
    assert_eq!(rx.try_recv().unwrap(), Event::Stop);
}

#[test]
fn add_chain_keeps_the_receiver() {
    let (mut router, to_router) = Router::new();
    let (a, _ra) = tokio::sync::mpsc::channel::<Event>(1);
    router.add_chain(9, "nine".into(), a);
    to_router.try_send(Event::NonFungibleTransfer).unwrap();
    let mut rx = router.into_receiver();
    assert_eq!(rx.try_recv().unwrap(), Event::NonFungibleTransfer);
}

#[test]
fn hex_errors_follow_the_decoder() {
    let invalid = |text: &str| match full_builder("ws://x").bridge(text.to_string()).plan() {
        Err(BuildError::InvalidAddress(AddressParam::Bridge, AddressError::Hex(e))) => e,
        _ => panic!("expected an invalid bridge address"),
    };
    assert_eq!(invalid(""), HexError::InvalidStringLength);
    assert_eq!(invalid("0x"), HexError::InvalidStringLength);
    assert_eq!(invalid("abc"), HexError::OddLength);
    assert_eq!(invalid("0xabc"), HexError::OddLength);
    assert_eq!(
        invalid("0x11111111111111111111111111111111111111g1"),
        HexError::InvalidHexCharacter { c: 'g', index: 38 }
    );
    // a two-byte character: its first byte is reported, as a Latin-1 char
    assert_eq!(
        invalid("0xé11111111111111111111111111111111111111"),
        HexError::InvalidHexCharacter { c: '\u{c3}', index: 0 }
    );
}

#[test]
fn build_messages() {
    assert_eq!(missing_address_message(AddressParam::Bridge), "Bridge address not specified.");
    assert_eq!(missing_address_message(AddressParam::Erc20Handler), "ERC-20 handler address not specified.");
    assert_eq!(missing_address_message(AddressParam::Erc721Handler), "ERC-721 handler address not specified.");
    assert_eq!(address_label(AddressParam::Bridge), "Bridge address");
    assert_eq!(address_label(AddressParam::Erc20Handler), "ERC20 handler address");
    assert_eq!(address_label(AddressParam::Erc721Handler), "ERC721 handler address");
    assert_eq!(address_label(AddressParam::Sender), "Sender address");
}

#[test]
fn cursor_over_many_blocks() {
    let mut c = BlockCursor::new(7);
    let mut previous_end = 7;
    for b in 8..200u64 {
        let (from, to) = c.advance(b * 2);
        assert_eq!(from, previous_end);
        assert_eq!(to, b * 2);
        previous_end = to;
    }
}

#[test]
fn monitor_plan_reads_addresses_like_fixed_hash() {
    let digits = "CaF65AB2eC9B39403966991eb34B1e8B9E44C041";
    let upper_prefix = monitor_builder("ws://x").bridge(format!("0X{digits}")).monitor_plan();
    assert!(matches!(
        upper_prefix,
        Err(BuildError::InvalidAddress(AddressParam::Bridge, AddressError::H160(H160Error::InvalidHexCharacter('X', 1))))
    ));
    let lower_prefix = monitor_builder("ws://x").bridge(format!("0x{digits}")).monitor_plan().unwrap();
    let alloy = full_builder("ws://x").plan().unwrap();
    assert_eq!(bytes(&lower_prefix.config.bridge_address), bytes(&alloy.config.bridge_address));
    // white space between digits is passed over
    let spaced = monitor_builder("ws://x").bridge(format!("0x{} {}", &digits[..20], &digits[20..])).monitor_plan().unwrap();
    assert_eq!(bytes(&spaced.config.bridge_address), bytes(&alloy.config.bridge_address));
}

#[test]
fn h160_rules_agree_with_primitive_types() {
    let samples = [
        "0xCaF65AB2eC9B39403966991eb34B1e8B9E44C041",
        "CaF65AB2eC9B39403966991eb34B1e8B9E44C041",
        "0XCaF65AB2eC9B39403966991eb34B1e8B9E44C041",
        "0x12",
        "",
        "0x1111111111111111111111111111111111111111zz",
        "0x11111111111111111111111111111111111111z1",
        "0x111111111111111111111111111111111111111",
        "0x11111111111111111111\t1111111111111111111 1",
        "0xé1111111111111111111111111111111111111111",
        " 0x1111111111111111111111111111111111111111",
    ];
    for text in samples {
        let ours = parse_address_with(text, AddressRules::FixedHash);
        match text.parse::<primitive_types::H160>() {
            Ok(h) => assert_eq!(ours.unwrap().bytes, h.0, "{text}"),
            Err(rustc_hex::FromHexError::InvalidHexCharacter(c, i)) => {
                assert_eq!(ours.unwrap_err(), AddressError::H160(H160Error::InvalidHexCharacter(c, i)), "{text}")
            },
            Err(rustc_hex::FromHexError::InvalidHexLength) => {
                assert_eq!(ours.unwrap_err(), AddressError::H160(H160Error::InvalidHexLength), "{text}")
            },
        }
    }
    assert_eq!(
        parse_address_with("0x1111111111111111111111111111111111111111zz", AddressRules::FixedHash).unwrap_err(),
        AddressError::H160(H160Error::InvalidHexLength)
    );
    assert_eq!(
        parse_address_with("0x11111111111111111111111111111111111111z1", AddressRules::FixedHash).unwrap_err(),
        AddressError::H160(H160Error::InvalidHexCharacter('z', 38))
    );
}

#[test]
fn plan_rejects_http_endpoints_that_are_no_url() {
    match full_builder("httpx").plan() {
        Err(BuildError::InvalidEndpointUrl(e)) => assert_eq!(e, "RelativeUrlWithoutBase"),
        _ => panic!("expected an endpoint URL error"),
    }
    assert!(full_builder("http://localhost:8545").plan().is_ok());
    // the sender "0X…" is refused under fixed-hash's rules
    assert!(matches!(
        full_builder("ws://x").monitor_plan(),
        Err(BuildError::InvalidAddress(AddressParam::Sender, AddressError::H160(H160Error::InvalidHexCharacter('X', 1))))
    ));
    // the block-monitor plan leaves the URL to the provider
    assert!(monitor_builder("httpx").monitor_plan().is_ok());
    // WebSocket endpoints are not parsed here
    assert!(full_builder("ws//x").plan().is_ok());
}

#[test]
fn reactor_registers_built_chains_and_stops_otherwise() {
    assert_eq!(after_build(true), ReactorAction::RegisterChain);
    assert_eq!(after_build(false), ReactorAction::Stop);
}
