//! Properties that relate several operations of the library.

use vstd::prelude::*;

use tokio::sync::mpsc::Sender;

use crate::address::{h160_body, hex_body, hex_digits_in, is_hex_space, parsed_address, parsed_h160};
use crate::address::{address_result, AddressRules};
use crate::builder::{build_failure, BuildFailure, BuilderView};
use crate::endpoint::{endpoint_transport, Transport};
use crate::monitor::{deposit_lookup, deposit_lookup_fn, deposit_queries, BridgeEvent, catch_up_actions, cursor_position, cursor_ranges, cursor_step, CatchUpAction};
use crate::reactor::{chain_outcome, plan_outcome, ChainOutcome};
use crate::text::parsed_u16;
use crate::text::is_prefix_of;
use crate::types::{ChainConfig, ChainType, Event};

verus! {

/// After `add_chain(identifier, name, sender)`, `route(identifier)` gives
/// `sender`, and every other chain is routed as before.
pub proof fn law_route_after_add_chain(
    chains: Map<u8, (Seq<char>, Sender<Event>)>,
    identifier: u8,
    name: Seq<char>,
    sender: Sender<Event>,
    other: u8,
)
    ensures
        chains.insert(identifier, (name, sender)).contains_key(identifier),
        chains.insert(identifier, (name, sender))[identifier].1 == sender,
        other != identifier ==> (chains.insert(identifier, (name, sender)).contains_key(other)
            <==> chains.contains_key(other)),
        other != identifier && chains.contains_key(other) ==> chains.insert(identifier, (name, sender))[other]
            == chains[other],
{
}

/// After `insert(key, value)` on a string map, `get(key)` gives `value`, and
/// every other key gives what it gave before.
pub proof fn law_get_after_insert(
    m: Map<Seq<char>, Seq<char>>,
    key: Seq<char>,
    value: Seq<char>,
    other: Seq<char>,
)
    ensures
        m.insert(key, value).contains_key(key),
        m.insert(key, value)[key] == value,
        other != key ==> (m.insert(key, value).contains_key(other) <==> m.contains_key(other)),
        other != key && m.contains_key(other) ==> m.insert(key, value)[other] == m[other],
{
}

/// The three contract-address setters of a builder touch only their own
/// setting, so the order in which they are called does not matter.
pub proof fn law_setters_commute(v: BuilderView, bridge: Seq<char>, erc20: Seq<char>, erc721: Seq<char>)
    ensures
        (BuilderView { erc20_handler_address: Some(erc20), ..(BuilderView { bridge_address: Some(bridge), ..v }) })
            == (BuilderView { bridge_address: Some(bridge), ..(BuilderView { erc20_handler_address: Some(erc20), ..v }) }),
        (BuilderView { erc721_handler_address: Some(erc721), ..(BuilderView { bridge_address: Some(bridge), ..v }) })
            == (BuilderView { bridge_address: Some(bridge), ..(BuilderView { erc721_handler_address: Some(erc721), ..v }) }),
        (BuilderView { erc721_handler_address: Some(erc721), ..(BuilderView { erc20_handler_address: Some(erc20), ..v }) })
            == (BuilderView { erc20_handler_address: Some(erc20), ..(BuilderView { erc721_handler_address: Some(erc721), ..v }) }),
{
}

/// `https` endpoints use HTTP and `wss` endpoints use WebSocket; an endpoint
/// has a transport exactly when it begins with `http` or `ws`.
pub proof fn law_endpoint_schemes(endpoint: Seq<char>)
    ensures
        is_prefix_of("https"@, endpoint) ==> endpoint_transport(endpoint) == Some(Transport::Http),
        is_prefix_of("wss"@, endpoint) ==> endpoint_transport(endpoint) == Some(Transport::Ws),
        endpoint_transport(endpoint) is Some <==> is_prefix_of("http"@, endpoint) || is_prefix_of(
            "ws"@,
            endpoint,
        ),
{
    reveal_strlit("http");
    reveal_strlit("https");
    reveal_strlit("ws");
    reveal_strlit("wss");
    if is_prefix_of("https"@, endpoint) {
        assert(endpoint.subrange(0, 4) =~= endpoint.subrange(0, 5).subrange(0, 4));
        assert("https"@.subrange(0, 4) =~= "http"@);
    }
    if is_prefix_of("wss"@, endpoint) {
        assert(endpoint.subrange(0, 2) =~= endpoint.subrange(0, 3).subrange(0, 2));
        assert("wss"@.subrange(0, 2) =~= "ws"@);
        assert(endpoint.subrange(0, 3)[0] == endpoint[0]);
        assert(endpoint[0] == 'w');
        assert(!is_prefix_of("http"@, endpoint)) by {
            assert("http"@[0] == 'h');
            if is_prefix_of("http"@, endpoint) {
                assert(endpoint.subrange(0, 4)[0] == endpoint[0]);
            }
        }
    }
}

/// The reactor's plan follows the configuration: every setup comes from an
/// EVM chain that is accepted, a refusal comes from a chain of the
/// configuration, a plan without refusal accepts every chain, and a
/// configuration without EVM chains gives an empty plan.
pub proof fn law_plan_follows_configuration(chains: Seq<ChainConfig>)
    ensures
        forall|j: int|
            0 <= j < plan_outcome(chains).0.len() ==> exists|i: int|
                0 <= i < chains.len() && (#[trigger] chains[i]).typ == ChainType::Ethereum
                    && chain_outcome(chains[i]) == ChainOutcome::Setup(#[trigger] plan_outcome(chains).0[j]),
        plan_outcome(chains).0.len() <= chains.len(),
        plan_outcome(chains).1 matches Some(f) ==> exists|i: int|
            0 <= i < chains.len() && chain_outcome(#[trigger] chains[i]) == ChainOutcome::Fail(f),
        plan_outcome(chains).1 is None ==> forall|i: int|
            0 <= i < chains.len() ==> !(chain_outcome(#[trigger] chains[i]) is Fail),
        (forall|i: int| 0 <= i < chains.len() ==> (#[trigger] chains[i]).typ == ChainType::Substrate)
            ==> plan_outcome(chains) == (Seq::<crate::reactor::SetupView>::empty(), None::<crate::reactor::SetupFailure>),
    decreases chains.len(),
{
    if chains.len() > 0 {
        let rest = chains.drop_first();
        law_plan_follows_configuration(rest);
        let p = plan_outcome(chains);
        let q = plan_outcome(rest);
        assert forall|j: int| 0 <= j < p.0.len() implies exists|i: int|
            0 <= i < chains.len() && (#[trigger] chains[i]).typ == ChainType::Ethereum
                && chain_outcome(chains[i]) == ChainOutcome::Setup(#[trigger] p.0[j]) by {
            match chain_outcome(chains[0]) {
                ChainOutcome::Skip => {
                    let i = choose|i: int|
                        0 <= i < rest.len() && (#[trigger] rest[i]).typ == ChainType::Ethereum
                            && chain_outcome(rest[i]) == ChainOutcome::Setup(q.0[j]);
                    assert(chains[i + 1] == rest[i]);
                },
                ChainOutcome::Fail(_) => {},
                ChainOutcome::Setup(s) => {
                    if j == 0 {
                        assert(chains[0].typ == ChainType::Ethereum);
                    } else {
                        assert(p.0[j] == q.0[j - 1]);
                        let i = choose|i: int|
                            0 <= i < rest.len() && (#[trigger] rest[i]).typ == ChainType::Ethereum
                                && chain_outcome(rest[i]) == ChainOutcome::Setup(q.0[j - 1]);
                        assert(chains[i + 1] == rest[i]);
                    }
                },
            }
        }
        if let Some(f) = p.1 {
            match chain_outcome(chains[0]) {
                ChainOutcome::Fail(_) => {},
                _ => {
                    let i = choose|i: int|
                        0 <= i < rest.len() && chain_outcome(#[trigger] rest[i]) == ChainOutcome::Fail(f);
                    assert(chains[i + 1] == rest[i]);
                },
            }
        }
        if p.1 is None {
            assert forall|i: int| 0 <= i < chains.len() implies !(chain_outcome(
                #[trigger] chains[i],
            ) is Fail) by {
                if i > 0 {
                    assert(chains[i] == rest[i - 1]);
                }
            }
        }
        if forall|i: int| 0 <= i < chains.len() ==> (#[trigger] chains[i]).typ == ChainType::Substrate {
            assert forall|i: int| 0 <= i < rest.len() implies (#[trigger] rest[i]).typ
                == ChainType::Substrate by {
                assert(rest[i] == chains[i + 1]);
            }
            assert(chains[0].typ == ChainType::Substrate);
        }
    }
}

/// While the latest block stays `latest`, a monitor catching up from
/// `start` reads every block from `start` up to, not including, `latest`,
/// each once and in order, and then follows new blocks.
pub proof fn law_catch_up_reads_each_block_once(start: u64, latest: u64)
    requires
        start <= latest,
    ensures
        catch_up_actions(start, latest, (latest - start + 1) as nat) == Seq::new(
            (latest - start) as nat,
            |i: int| CatchUpAction::Fetch((start + i) as u64),
        ).push(CatchUpAction::Subscribe),
    decreases latest - start,
{
    let expected = Seq::new((latest - start) as nat, |i: int| CatchUpAction::Fetch((start + i) as u64)).push(
        CatchUpAction::Subscribe,
    );
    if start == latest {
        assert(catch_up_actions(start, latest, 0) =~= Seq::<CatchUpAction>::empty());
        assert(catch_up_actions(start, latest, 1) =~= expected);
    } else {
        let next = (start + 1) as u64;
        law_catch_up_reads_each_block_once(next, latest);
        let tail = Seq::new((latest - next) as nat, |i: int| CatchUpAction::Fetch((next + i) as u64)).push(
            CatchUpAction::Subscribe,
        );
        assert(catch_up_actions(start, latest, (latest - start + 1) as nat) == seq![
            CatchUpAction::Fetch(start),
        ] + tail);
        assert(seq![CatchUpAction::Fetch(start)] + tail =~= expected);
    }
}

/// The ranges a reader service queries leave no gap: the first starts at
/// the start block, each ends at the block that arrived, and each starts
/// where the one before it ended.
pub proof fn law_cursor_ranges_are_contiguous(start: u64, blocks: Seq<u64>)
    ensures
        cursor_ranges(start, blocks).len() == blocks.len(),
        blocks.len() > 0 ==> cursor_ranges(start, blocks)[0].0 == start,
        forall|k: int| 0 <= k < blocks.len() ==> (#[trigger] cursor_ranges(start, blocks)[k]).1 == blocks[k],
        forall|k: int|
            0 < k < blocks.len() ==> (#[trigger] cursor_ranges(start, blocks)[k]).0 == cursor_ranges(
                start,
                blocks,
            )[k - 1].1,
    decreases blocks.len(),
{
    if blocks.len() > 0 {
        let rest = blocks.drop_first();
        law_cursor_ranges_are_contiguous(blocks[0], rest);
        let r = cursor_ranges(start, blocks);
        let q = cursor_ranges(blocks[0], rest);
        assert(r == seq![(start, blocks[0])] + q);
        assert forall|k: int| 0 <= k < blocks.len() implies (#[trigger] r[k]).1 == blocks[k] by {
            if k > 0 {
                assert(r[k] == q[k - 1]);
                assert(rest[k - 1] == blocks[k]);
            }
        }
        assert forall|k: int| 0 < k < blocks.len() implies (#[trigger] r[k]).0 == r[k - 1].1 by {
            assert(r[k] == q[k - 1]);
            if k > 1 {
                assert(r[k - 1] == q[k - 2]);
            }
        }
    }
}

/// A cursor that has seen `blocks` stands at `cursor_position(start,
/// blocks)`, and one more `advance` with block `b` adds exactly the range
/// that `cursor_step` gives from there: running `advance` over any number of
/// blocks queries `cursor_ranges(start, blocks)`.
pub proof fn law_cursor_series_extends(start: u64, blocks: Seq<u64>, b: u64)
    ensures
        cursor_ranges(start, blocks.push(b)) == cursor_ranges(start, blocks).push(
            cursor_step(cursor_position(start, blocks), b).0,
        ),
        cursor_position(start, blocks.push(b)) == cursor_step(cursor_position(start, blocks), b).1,
    decreases blocks.len(),
{
    let ext = blocks.push(b);
    if blocks.len() == 0 {
        assert(ext.drop_first() =~= Seq::<u64>::empty());
        assert(ext[0] == b);
        assert(cursor_ranges(b, ext.drop_first()) == Seq::<(u64, u64)>::empty());
        assert(cursor_ranges(start, blocks) == Seq::<(u64, u64)>::empty());
        assert(cursor_ranges(start, ext) =~= seq![(start, b)]);
    } else {
        let rest = blocks.drop_first();
        assert(ext.drop_first() =~= rest.push(b));
        law_cursor_series_extends(blocks[0], rest, b);
        if rest.len() == 0 {
            assert(cursor_position(blocks[0], rest) == blocks.last());
        } else {
            assert(rest.last() == blocks.last());
        }
        assert(ext[0] == blocks[0]);
        assert(cursor_ranges(start, ext) == seq![(start, blocks[0])] + cursor_ranges(blocks[0], rest.push(b)));
        assert(cursor_ranges(start, blocks) == seq![(start, blocks[0])] + cursor_ranges(blocks[0], rest));
        assert(cursor_ranges(start, ext) =~= cursor_ranges(start, blocks).push(
            cursor_step(cursor_position(start, blocks), b).0,
        ));
    }
}

/// The `0x` or `0X` before the digits of an address is optional.
pub proof fn law_address_prefix_is_optional(digits: Seq<char>)
    requires
        !(digits.len() >= 2 && digits[0] == '0' && (digits[1] == 'x' || digits[1] == 'X')),
    ensures
        parsed_address(seq!['0', 'x'] + digits) == parsed_address(digits),
        parsed_address(seq!['0', 'X'] + digits) == parsed_address(digits),
{
    assert(hex_body(seq!['0', 'x'] + digits) =~= digits);
    assert(hex_body(seq!['0', 'X'] + digits) =~= digits);
    assert(hex_body(digits) == digits);
}

proof fn lemma_no_space_digits(t: Seq<char>)
    requires
        forall|i: int| 0 <= i < t.len() ==> !is_hex_space(#[trigger] t[i]),
    ensures
        hex_digits_in(t) == t,
    decreases t.len(),
{
    if t.len() > 0 {
        lemma_no_space_digits(t.drop_last());
        assert(!is_hex_space(t[t.len() - 1]));
        assert(t.drop_last().push(t.last()) =~= t);
    }
}

/// On texts without white space and without an uppercase `0X`, the two
/// address rules agree: `alloy`'s and `fixed-hash`'s give the same bytes, or
/// both refuse.
pub proof fn law_address_rules_agree(s: Seq<char>)
    requires
        !(s.len() >= 2 && s[0] == '0' && s[1] == 'X'),
        forall|i: int| 0 <= i < s.len() ==> !is_hex_space(#[trigger] s[i]),
    ensures
        parsed_h160(s) == parsed_address(s),
{
    let t = h160_body(s);
    assert(t == hex_body(s));
    assert forall|i: int| 0 <= i < t.len() implies !is_hex_space(#[trigger] t[i]) by {
        if s.len() >= 2 && s[0] == '0' && s[1] == 'x' {
            assert(t[i] == s[i + 2]);
        }
    }
    lemma_no_space_digits(t);
}

/// An EVM chain is set up from its own configuration: its identifier, name,
/// endpoint, sender and start block, the three contract addresses of
/// `extra`, and the number that `block_confirmations` gives (12 only when it
/// is absent). Every EVM chain whose `extra` holds the three addresses and
/// no unreadable `block_confirmations` is set up, and other chains are
/// passed over.
pub proof fn law_chain_setup_reads_the_configuration(c: ChainConfig)
    ensures
        chain_outcome(c) matches ChainOutcome::Setup(s) ==> {
            &&& c.typ == ChainType::Ethereum
            &&& s.identifier == c.identifier
            &&& s.name == c.name@
            &&& s.endpoint == c.endpoint@
            &&& s.from == c.from@
            &&& s.start_block == c.start_block
            &&& c.extra@.contains_key("bridge"@) && s.bridge == c.extra@["bridge"@]
            &&& c.extra@.contains_key("erc20_handler"@) && s.erc20_handler == c.extra@["erc20_handler"@]
            &&& c.extra@.contains_key("erc721_handler"@) && s.erc721_handler == c.extra@["erc721_handler"@]
            &&& c.extra@.contains_key("block_confirmations"@) ==> parsed_u16(c.extra@["block_confirmations"@])
                == Some(s.block_confirmations)
            &&& !c.extra@.contains_key("block_confirmations"@) ==> s.block_confirmations == 12
        },
        c.typ == ChainType::Substrate <==> chain_outcome(c) == ChainOutcome::Skip,
        c.typ == ChainType::Ethereum && c.extra@.contains_key("bridge"@) && c.extra@.contains_key(
            "erc20_handler"@,
        ) && c.extra@.contains_key("erc721_handler"@) && (c.extra@.contains_key("block_confirmations"@)
            ==> parsed_u16(c.extra@["block_confirmations"@]) is Some) ==> chain_outcome(c) is Setup,
{
}

proof fn lemma_deposit_queries_filter_map(events: Seq<BridgeEvent>)
    ensures
        deposit_queries(events) == events.filter_map(deposit_lookup_fn()),
    decreases events.len(),
{
    if events.len() > 0 {
        lemma_deposit_queries_filter_map(events.drop_last());
        match deposit_lookup(events.last()) {
            Some(q) => {
                assert(deposit_queries(events) =~= events.filter_map(deposit_lookup_fn()));
            },
            None => {},
        }
    }
}

/// A block monitor looks up one deposit record per deposit event and none
/// for other events, each event on its own and in event order: the lookups
/// are the events' `(deposit_nonce, destination_chain_id)` pairs with the
/// non-deposits left out, and one more event adds its own lookup, whatever
/// came before it.
pub proof fn law_one_lookup_per_deposit(events: Seq<BridgeEvent>, e: BridgeEvent)
    ensures
        deposit_queries(events) == events.filter_map(deposit_lookup_fn()),
        deposit_queries(events).len() <= events.len(),
        e matches BridgeEvent::Deposit { destination_chain_id, deposit_nonce, .. } ==> deposit_queries(
            events.push(e),
        ) == deposit_queries(events).push((deposit_nonce, destination_chain_id)),
        !(e is Deposit) ==> deposit_queries(events.push(e)) == deposit_queries(events),
    decreases events.len(),
{
    lemma_deposit_queries_filter_map(events);
    lemma_deposit_queries_filter_map(events.push(e));
    assert(events.push(e).drop_last() =~= events);
    lemma_deposit_queries_len(events);
}

proof fn lemma_deposit_queries_len(events: Seq<BridgeEvent>)
    ensures
        deposit_queries(events).len() <= events.len(),
    decreases events.len(),
{
    if events.len() > 0 {
        lemma_deposit_queries_len(events.drop_last());
    }
}

/// A builder's settings fail on the endpoint only when the endpoint has no
/// transport; settings whose four addresses decode, whose endpoint has a
/// transport, and whose HTTP endpoint (if HTTP) has no URL error, do not
/// fail at all.
pub proof fn law_build_accepts_good_settings(v: BuilderView, rules: AddressRules, http_url_error: Option<Seq<char>>)
    ensures
        build_failure(v, rules, http_url_error) matches Some(BuildFailure::UnsupportedEndpoint(e)) ==> endpoint_transport(
            v.endpoint,
        ) is None && e == v.endpoint,
        (v.bridge_address matches Some(t) && address_result(rules, t) is Ok) && (
        v.erc20_handler_address matches Some(t) && address_result(rules, t) is Ok) && (
        v.erc721_handler_address matches Some(t) && address_result(rules, t) is Ok) && address_result(
            rules,
            v.from,
        ) is Ok && endpoint_transport(v.endpoint) is Some && !(endpoint_transport(v.endpoint) == Some(
            Transport::Http,
        ) && http_url_error is Some) ==> build_failure(v, rules, http_url_error) is None,
{
}

} // verus!
