//! The builder of an EVM chain's services: it gathers the chain's settings
//! and checks them before any connection is made.

use vstd::prelude::*;

use tokio::sync::mpsc::Sender;

use crate::address::{address_result, parse_address_with, Address, AddressError, AddressRules, EthereumConfig};
use crate::endpoint::{check_url, classify_endpoint, endpoint_transport, url_parse_error, Transport};
use crate::text::opt_text;
use crate::types::Event;

verus! {

/// The settings a builder holds, as plain values.
pub ghost struct BuilderView {
    pub router: Sender<Event>,
    pub identifier: u8,
    pub name: Seq<char>,
    pub endpoint: Seq<char>,
    pub from: Seq<char>,
    pub bridge_address: Option<Seq<char>>,
    pub erc20_handler_address: Option<Seq<char>>,
    pub erc721_handler_address: Option<Seq<char>>,
    pub start_block: u64,
    pub block_confirmations: u16,
}

/// Collects the settings of an EVM chain.
pub struct EthereumBuilder {
    router: Sender<Event>,
    identifier: u8,
    name: String,
    endpoint: String,
    from: String,
    bridge_address: Option<String>,
    erc20_handler_address: Option<String>,
    erc721_handler_address: Option<String>,
    start_block: u64,
    block_confirmations: u16,
}

impl View for EthereumBuilder {
    type V = BuilderView;

    closed spec fn view(&self) -> BuilderView {
        BuilderView {
            router: self.router,
            identifier: self.identifier,
            name: self.name@,
            endpoint: self.endpoint@,
            from: self.from@,
            bridge_address: opt_text(self.bridge_address),
            erc20_handler_address: opt_text(self.erc20_handler_address),
            erc721_handler_address: opt_text(self.erc721_handler_address),
            start_block: self.start_block,
            block_confirmations: self.block_confirmations,
        }
    }
}

/// The address settings a builder checks.
#[derive(Clone, Copy, Debug, PartialEq, Eq, Structural)]
pub enum AddressParam {
    Bridge,
    Erc20Handler,
    Erc721Handler,
    Sender,
}

/// How the messages about an address name it.
pub open spec fn address_label_text(p: AddressParam) -> Seq<char> {
    match p {
        AddressParam::Bridge => "Bridge address"@,
        AddressParam::Erc20Handler => "ERC20 handler address"@,
        AddressParam::Erc721Handler => "ERC721 handler address"@,
        AddressParam::Sender => "Sender address"@,
    }
}

/// The name of an address in the message about an address that does not
/// decode; the decoding error follows it after `: `.
pub fn address_label(p: AddressParam) -> (r: String)
    ensures
        r@ == address_label_text(p),
{
    match p {
        AddressParam::Bridge => String::from_str("Bridge address"),
        AddressParam::Erc20Handler => String::from_str("ERC20 handler address"),
        AddressParam::Erc721Handler => String::from_str("ERC721 handler address"),
        AddressParam::Sender => String::from_str("Sender address"),
    }
}

/// The message about an address that was not given.
pub open spec fn missing_address_text(p: AddressParam) -> Seq<char> {
    match p {
        AddressParam::Bridge => "Bridge address not specified."@,
        AddressParam::Erc20Handler => "ERC-20 handler address not specified."@,
        AddressParam::Erc721Handler => "ERC-721 handler address not specified."@,
        AddressParam::Sender => "Sender address not specified."@,
    }
}

/// The message about an address that was not given. The sender address is
/// always given, so `plan` never reports it missing.
pub fn missing_address_message(p: AddressParam) -> (r: String)
    ensures
        r@ == missing_address_text(p),
{
    match p {
        AddressParam::Bridge => String::from_str("Bridge address not specified."),
        AddressParam::Erc20Handler => String::from_str("ERC-20 handler address not specified."),
        AddressParam::Erc721Handler => String::from_str("ERC-721 handler address not specified."),
        AddressParam::Sender => String::from_str("Sender address not specified."),
    }
}

/// Why a builder's settings cannot make services.
#[derive(Debug)]
pub enum BuildError {
    /// A contract address was not given.
    MissingAddress(AddressParam),
    /// An address is not an address under the rules in use.
    InvalidAddress(AddressParam, AddressError),
    /// The endpoint is neither an HTTP nor a WebSocket URL.
    UnsupportedEndpoint(String),
    /// The HTTP endpoint is not a URL; the text says why.
    InvalidEndpointUrl(String),
}

/// A build failure as plain values.
pub ghost enum BuildFailure {
    MissingAddress(AddressParam),
    InvalidAddress(AddressParam, AddressError),
    UnsupportedEndpoint(Seq<char>),
    InvalidEndpointUrl(Seq<char>),
}

impl BuildError {
    /// This error as plain values.
    pub open spec fn failure(self) -> BuildFailure {
        match self {
            BuildError::MissingAddress(p) => BuildFailure::MissingAddress(p),
            BuildError::InvalidAddress(p, e) => BuildFailure::InvalidAddress(p, e),
            BuildError::UnsupportedEndpoint(e) => BuildFailure::UnsupportedEndpoint(e@),
            BuildError::InvalidEndpointUrl(e) => BuildFailure::InvalidEndpointUrl(e@),
        }
    }
}

/// The checked settings from which the services of a chain are made.
pub struct BuildPlan {
    pub router: Sender<Event>,
    pub config: EthereumConfig,
    pub endpoint: String,
    pub transport: Transport,
    pub start_block: u64,
    pub block_confirmations: u64,
}

/// The failure of an optional contract address under `rules`, if it has one.
pub open spec fn contract_address_failure(rules: AddressRules, a: Option<Seq<char>>, p: AddressParam) -> Option<
    BuildFailure,
> {
    match a {
        None => Some(BuildFailure::MissingAddress(p)),
        Some(t) => match address_result(rules, t) {
            Ok(_) => None,
            Err(e) => Some(BuildFailure::InvalidAddress(p, e)),
        },
    }
}

/// The first failure among a builder's settings, checked in the order
/// bridge, ERC-20 handler, ERC-721 handler, sender, endpoint, with addresses
/// read under `rules`. `http_url_error` is why an HTTP endpoint is not a URL,
/// if it is not one; it is checked last.
pub open spec fn build_failure(v: BuilderView, rules: AddressRules, http_url_error: Option<Seq<char>>) -> Option<
    BuildFailure,
> {
    if contract_address_failure(rules, v.bridge_address, AddressParam::Bridge) is Some {
        contract_address_failure(rules, v.bridge_address, AddressParam::Bridge)
    } else if contract_address_failure(rules, v.erc20_handler_address, AddressParam::Erc20Handler) is Some {
        contract_address_failure(rules, v.erc20_handler_address, AddressParam::Erc20Handler)
    } else if contract_address_failure(rules, v.erc721_handler_address, AddressParam::Erc721Handler) is Some {
        contract_address_failure(rules, v.erc721_handler_address, AddressParam::Erc721Handler)
    } else if address_result(rules, v.from) is Err {
        Some(BuildFailure::InvalidAddress(AddressParam::Sender, address_result(rules, v.from)->Err_0))
    } else if endpoint_transport(v.endpoint) is None {
        Some(BuildFailure::UnsupportedEndpoint(v.endpoint))
    } else if endpoint_transport(v.endpoint) == Some(Transport::Http) && http_url_error is Some {
        Some(BuildFailure::InvalidEndpointUrl(http_url_error.unwrap()))
    } else {
        None
    }
}

/// A plan carries exactly the settings of `v`, with its addresses decoded
/// under `rules`.
pub open spec fn plan_matches(p: BuildPlan, v: BuilderView, rules: AddressRules) -> bool {
    &&& v.bridge_address matches Some(t) && address_result(rules, t) == Ok::<Seq<u8>, AddressError>(
        p.config.bridge_address@,
    )
    &&& v.erc20_handler_address matches Some(t) && address_result(rules, t) == Ok::<Seq<u8>, AddressError>(
        p.config.erc20_handler@,
    )
    &&& v.erc721_handler_address matches Some(t) && address_result(rules, t) == Ok::<Seq<u8>, AddressError>(
        p.config.erc721_handler@,
    )
    &&& address_result(rules, v.from) == Ok::<Seq<u8>, AddressError>(p.config.from_address@)
    &&& endpoint_transport(v.endpoint) == Some(p.transport)
    &&& p.endpoint@ == v.endpoint
    &&& p.router == v.router
    &&& p.start_block == v.start_block
    &&& p.block_confirmations == v.block_confirmations as u64
}

/// Decodes an optional contract address under `rules`.
fn contract_address(a: &Option<String>, p: AddressParam, rules: AddressRules) -> (r: Result<Address, BuildError>)
    ensures
        match r {
            Ok(addr) => opt_text(*a) matches Some(t) && address_result(rules, t) == Ok::<Seq<u8>, AddressError>(
                addr@,
            ),
            Err(e) => contract_address_failure(rules, opt_text(*a), p) == Some(e.failure()),
        },
        r is Ok <==> contract_address_failure(rules, opt_text(*a), p) is None,
{
    match a {
        Some(text) => match parse_address_with(text.as_str(), rules) {
            Ok(addr) => Ok(addr),
            Err(e) => Err(BuildError::InvalidAddress(p, e)),
        },
        None => Err(BuildError::MissingAddress(p)),
    }
}

impl EthereumBuilder {
    /// A builder with the given settings and no contract addresses yet.
    pub fn new(
        router: Sender<Event>,
        identifier: u8,
        name: String,
        endpoint: String,
        from: String,
        start_block: u64,
        block_confirmations: u16,
    ) -> (b: Self)
        ensures
            b@ == (BuilderView {
                router,
                identifier,
                name: name@,
                endpoint: endpoint@,
                from: from@,
                bridge_address: None,
                erc20_handler_address: None,
                erc721_handler_address: None,
                start_block,
                block_confirmations,
            }),
    {
        EthereumBuilder {
            router,
            identifier,
            name,
            endpoint,
            from,
            bridge_address: None,
            erc20_handler_address: None,
            erc721_handler_address: None,
            start_block,
            block_confirmations,
        }
    }

    /// Sets the bridge contract's address.
    pub fn bridge(self, address: String) -> (b: Self)
        ensures
            b@ == (BuilderView { bridge_address: Some(address@), ..self@ }),
    {
        let mut b = self;
        b.bridge_address = Some(address);
        b
    }

    /// Sets the ERC-20 handler contract's address.
    pub fn erc20_handler(self, address: String) -> (b: Self)
        ensures
            b@ == (BuilderView { erc20_handler_address: Some(address@), ..self@ }),
    {
        let mut b = self;
        b.erc20_handler_address = Some(address);
        b
    }

    /// Sets the ERC-721 handler contract's address.
    pub fn erc721_handler(self, address: String) -> (b: Self)
        ensures
            b@ == (BuilderView { erc721_handler_address: Some(address@), ..self@ }),
    {
        let mut b = self;
        b.erc721_handler_address = Some(address);
        b
    }

    /// Checks the settings, reading addresses under `rules`: the three
    /// contract addresses must be given, all four addresses must decode, the
    /// endpoint must be an HTTP or WebSocket URL, and an HTTP endpoint must
    /// not have a URL error `http_url_error`. The first failure, in that
    /// order, is the error; otherwise the plan carries the decoded settings.
    pub fn plan_with(self, rules: AddressRules, http_url_error: Option<String>) -> (r: Result<BuildPlan, BuildError>)
        ensures
            match r {
                Ok(p) => build_failure(self@, rules, opt_text(http_url_error)) is None && plan_matches(p, self@, rules),
                Err(e) => build_failure(self@, rules, opt_text(http_url_error)) == Some(e.failure()),
            },
            (self@.bridge_address matches Some(t) && address_result(rules, t) is Ok)
                && (self@.erc20_handler_address matches Some(t) && address_result(rules, t) is Ok)
                && (self@.erc721_handler_address matches Some(t) && address_result(rules, t) is Ok)
                && address_result(rules, self@.from) is Ok && endpoint_transport(self@.endpoint) is Some
                && !(endpoint_transport(self@.endpoint) == Some(Transport::Http) && opt_text(http_url_error) is Some) ==> r is Ok,
            r matches Err(BuildError::UnsupportedEndpoint(e)) ==> endpoint_transport(self@.endpoint) is None
                && e@ == self@.endpoint,
            r matches Err(BuildError::MissingAddress(p)) ==> (p == AddressParam::Bridge && self@.bridge_address is None)
                || (p == AddressParam::Erc20Handler && self@.erc20_handler_address is None)
                || (p == AddressParam::Erc721Handler && self@.erc721_handler_address is None),
            r matches Err(BuildError::InvalidEndpointUrl(e)) ==> endpoint_transport(self@.endpoint) == Some(
                Transport::Http,
            ) && opt_text(http_url_error) == Some(e@),
            r matches Ok(p) ==> p.endpoint@ == self@.endpoint && endpoint_transport(self@.endpoint) == Some(
                p.transport,
            ),
    {
        let bridge_address = match contract_address(&self.bridge_address, AddressParam::Bridge, rules) {
            Ok(a) => a,
            Err(e) => return Err(e),
        };
        let erc20_handler = match contract_address(&self.erc20_handler_address, AddressParam::Erc20Handler, rules) {
            Ok(a) => a,
            Err(e) => return Err(e),
        };
        let erc721_handler = match contract_address(&self.erc721_handler_address, AddressParam::Erc721Handler, rules) {
            Ok(a) => a,
            Err(e) => return Err(e),
        };
        let from_address = match parse_address_with(self.from.as_str(), rules) {
            Ok(a) => a,
            Err(e) => return Err(BuildError::InvalidAddress(AddressParam::Sender, e)),
        };
        let config = EthereumConfig { bridge_address, erc20_handler, erc721_handler, from_address };
        let transport = match classify_endpoint(self.endpoint.as_str()) {
            Some(t) => t,
            None => return Err(BuildError::UnsupportedEndpoint(self.endpoint)),
        };
        if transport == Transport::Http {
            if let Some(e) = http_url_error {
                return Err(BuildError::InvalidEndpointUrl(e));
            }
        }
        Ok(BuildPlan {
            router: self.router,
            config,
            endpoint: self.endpoint,
            transport,
            start_block: self.start_block,
            block_confirmations: self.block_confirmations as u64,
        })
    }

    /// The checks of the EVM chain's services: addresses under `alloy`'s
    /// rules, and an HTTP endpoint must parse as a URL.
    pub fn plan(self) -> (r: Result<BuildPlan, BuildError>)
        ensures
            match r {
                Ok(p) => build_failure(self@, AddressRules::Alloy, url_parse_error(self@.endpoint)) is None
                    && plan_matches(p, self@, AddressRules::Alloy),
                Err(e) => build_failure(self@, AddressRules::Alloy, url_parse_error(self@.endpoint)) == Some(
                    e.failure(),
                ),
            },
            (self@.bridge_address matches Some(t) && address_result(AddressRules::Alloy, t) is Ok)
                && (self@.erc20_handler_address matches Some(t) && address_result(AddressRules::Alloy, t) is Ok)
                && (self@.erc721_handler_address matches Some(t) && address_result(AddressRules::Alloy, t) is Ok)
                && address_result(AddressRules::Alloy, self@.from) is Ok && endpoint_transport(self@.endpoint) is Some
                && !(endpoint_transport(self@.endpoint) == Some(Transport::Http) && url_parse_error(self@.endpoint) is Some) ==> r is Ok,
            r matches Err(BuildError::UnsupportedEndpoint(e)) ==> endpoint_transport(self@.endpoint) is None
                && e@ == self@.endpoint,
            r matches Err(BuildError::MissingAddress(p)) ==> (p == AddressParam::Bridge && self@.bridge_address is None)
                || (p == AddressParam::Erc20Handler && self@.erc20_handler_address is None)
                || (p == AddressParam::Erc721Handler && self@.erc721_handler_address is None),
            r matches Err(BuildError::InvalidEndpointUrl(e)) ==> endpoint_transport(self@.endpoint) == Some(
                Transport::Http,
            ) && url_parse_error(self@.endpoint) == Some(e@),
            r matches Ok(p) ==> p.endpoint@ == self@.endpoint && endpoint_transport(self@.endpoint) == Some(
                p.transport,
            ),
    {
        let url_error = check_url(self.endpoint.as_str());
        self.plan_with(AddressRules::Alloy, url_error)
    }

    /// The checks of the block-monitor services: addresses under
    /// `fixed-hash`'s rules; the URL is not checked here.
    pub fn monitor_plan(self) -> (r: Result<BuildPlan, BuildError>)
        ensures
            match r {
                Ok(p) => build_failure(self@, AddressRules::FixedHash, None) is None
                    && plan_matches(p, self@, AddressRules::FixedHash),
                Err(e) => build_failure(self@, AddressRules::FixedHash, None) == Some(e.failure()),
            },
            (self@.bridge_address matches Some(t) && address_result(AddressRules::FixedHash, t) is Ok)
                && (self@.erc20_handler_address matches Some(t) && address_result(AddressRules::FixedHash, t) is Ok)
                && (self@.erc721_handler_address matches Some(t) && address_result(AddressRules::FixedHash, t) is Ok)
                && address_result(AddressRules::FixedHash, self@.from) is Ok && endpoint_transport(self@.endpoint) is Some
                && !(endpoint_transport(self@.endpoint) == Some(Transport::Http) && None::<Seq<char>> is Some) ==> r is Ok,
            r matches Err(BuildError::UnsupportedEndpoint(e)) ==> endpoint_transport(self@.endpoint) is None
                && e@ == self@.endpoint,
            r matches Err(BuildError::MissingAddress(p)) ==> (p == AddressParam::Bridge && self@.bridge_address is None)
                || (p == AddressParam::Erc20Handler && self@.erc20_handler_address is None)
                || (p == AddressParam::Erc721Handler && self@.erc721_handler_address is None),
            r matches Err(BuildError::InvalidEndpointUrl(e)) ==> endpoint_transport(self@.endpoint) == Some(
                Transport::Http,
            ) && None::<Seq<char>> == Some(e@),
            r matches Ok(p) ==> p.endpoint@ == self@.endpoint && endpoint_transport(self@.endpoint) == Some(
                p.transport,
            ),
    {
        self.plan_with(AddressRules::FixedHash, None)
    }
}

} // verus!
