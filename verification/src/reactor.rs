//! The reactor: it reads the bridge configuration and decides, chain by
//! chain, which services to build.

use vstd::prelude::*;

use crate::text::{parse_u16, parsed_u16};
use crate::types::{BridgeConfig, ChainConfig, ChainType};

verus! {

/// The number of block confirmations used when a chain does not set one.
pub const DEFAULT_BLOCK_CONFIRMATIONS: u16 = 12;

/// Everything needed to build the services of one EVM chain and register it.
pub struct ChainSetup {
    pub identifier: u8,
    pub name: String,
    pub endpoint: String,
    pub from: String,
    pub start_block: u64,
    pub block_confirmations: u16,
    pub bridge: String,
    pub erc20_handler: String,
    pub erc721_handler: String,
}

/// A chain setup as plain values.
pub ghost struct SetupView {
    pub identifier: u8,
    pub name: Seq<char>,
    pub endpoint: Seq<char>,
    pub from: Seq<char>,
    pub start_block: u64,
    pub block_confirmations: u16,
    pub bridge: Seq<char>,
    pub erc20_handler: Seq<char>,
    pub erc721_handler: Seq<char>,
}

impl View for ChainSetup {
    type V = SetupView;

    open spec fn view(&self) -> SetupView {
        SetupView {
            identifier: self.identifier,
            name: self.name@,
            endpoint: self.endpoint@,
            from: self.from@,
            start_block: self.start_block,
            block_confirmations: self.block_confirmations,
            bridge: self.bridge@,
            erc20_handler: self.erc20_handler@,
            erc721_handler: self.erc721_handler@,
        }
    }
}

/// Why an EVM chain's configuration cannot be set up.
#[derive(Debug)]
pub enum SetupError {
    /// `block_confirmations` is given but is not a 16-bit number; the text
    /// is kept.
    InvalidBlockConfirmations(String),
    /// `bridge` is missing.
    MissingBridge,
    /// `erc20_handler` is missing.
    MissingErc20Handler,
    /// `erc721_handler` is missing.
    MissingErc721Handler,
}

/// A setup error as plain values.
pub ghost enum SetupFailure {
    InvalidBlockConfirmations(Seq<char>),
    MissingBridge,
    MissingErc20Handler,
    MissingErc721Handler,
}

impl View for SetupError {
    type V = SetupFailure;

    open spec fn view(&self) -> SetupFailure {
        match self {
            SetupError::InvalidBlockConfirmations(t) => SetupFailure::InvalidBlockConfirmations(t@),
            SetupError::MissingBridge => SetupFailure::MissingBridge,
            SetupError::MissingErc20Handler => SetupFailure::MissingErc20Handler,
            SetupError::MissingErc721Handler => SetupFailure::MissingErc721Handler,
        }
    }
}

/// What the reactor makes of one chain.
pub ghost enum ChainOutcome {
    /// The chain is not an EVM chain and is passed over.
    Skip,
    /// The chain is set up with these settings.
    Setup(SetupView),
    /// The chain's configuration is refused.
    Fail(SetupFailure),
}

/// What the reactor makes of one chain: EVM chains read
/// `block_confirmations` (12 when absent), `bridge`, `erc20_handler` and
/// `erc721_handler` from `extra`, checked in that order.
pub open spec fn chain_outcome(c: ChainConfig) -> ChainOutcome {
    let extra = c.extra@;
    match c.typ {
        ChainType::Substrate => ChainOutcome::Skip,
        ChainType::Ethereum => {
            if extra.contains_key("block_confirmations"@) && parsed_u16(
                extra["block_confirmations"@],
            ) is None {
                ChainOutcome::Fail(
                    SetupFailure::InvalidBlockConfirmations(extra["block_confirmations"@]),
                )
            } else if !extra.contains_key("bridge"@) {
                ChainOutcome::Fail(SetupFailure::MissingBridge)
            } else if !extra.contains_key("erc20_handler"@) {
                ChainOutcome::Fail(SetupFailure::MissingErc20Handler)
            } else if !extra.contains_key("erc721_handler"@) {
                ChainOutcome::Fail(SetupFailure::MissingErc721Handler)
            } else {
                ChainOutcome::Setup(
                    SetupView {
                        identifier: c.identifier,
                        name: c.name@,
                        endpoint: c.endpoint@,
                        from: c.from@,
                        start_block: c.start_block,
                        block_confirmations: if extra.contains_key("block_confirmations"@) {
                            parsed_u16(extra["block_confirmations"@]).unwrap()
                        } else {
                            DEFAULT_BLOCK_CONFIRMATIONS
                        },
                        bridge: extra["bridge"@],
                        erc20_handler: extra["erc20_handler"@],
                        erc721_handler: extra["erc721_handler"@],
                    },
                )
            }
        },
    }
}

/// What the reactor makes of a list of chains: the setups of the EVM chains
/// in order, up to the first chain that is refused, and that refusal.
pub open spec fn plan_outcome(chains: Seq<ChainConfig>) -> (Seq<SetupView>, Option<SetupFailure>)
    decreases chains.len(),
{
    if chains.len() == 0 {
        (Seq::empty(), None)
    } else {
        match chain_outcome(chains[0]) {
            ChainOutcome::Skip => plan_outcome(chains.drop_first()),
            ChainOutcome::Fail(f) => (Seq::empty(), Some(f)),
            ChainOutcome::Setup(s) => {
                let rest = plan_outcome(chains.drop_first());
                (seq![s] + rest.0, rest.1)
            },
        }
    }
}

/// The views of a list of setups.
pub open spec fn setup_views(s: Seq<ChainSetup>) -> Seq<SetupView> {
    s.map_values(|x: ChainSetup| x@)
}

/// What the reactor decides for the configured chains.
pub struct ReactorPlan {
    /// The EVM chains to build and register, in configuration order.
    pub setups: Vec<ChainSetup>,
    /// The refusal that ends the plan, if a chain was refused.
    pub failure: Option<SetupError>,
}

/// Sets up one chain; `Ok(None)` for a chain that is passed over.
pub fn chain_setup(c: &ChainConfig) -> (r: Result<Option<ChainSetup>, SetupError>)
    ensures
        match r {
            Ok(None) => chain_outcome(*c) == ChainOutcome::Skip,
            Ok(Some(s)) => chain_outcome(*c) == ChainOutcome::Setup(s@),
            Err(e) => chain_outcome(*c) == ChainOutcome::Fail(e@),
        },
        r matches Ok(None) <==> c.typ == ChainType::Substrate,
        r matches Ok(Some(s)) ==> {
            &&& c.typ == ChainType::Ethereum
            &&& s.identifier == c.identifier
            &&& s.name@ == c.name@
            &&& s.endpoint@ == c.endpoint@
            &&& s.from@ == c.from@
            &&& s.start_block == c.start_block
            &&& c.extra@.contains_key("bridge"@) && s.bridge@ == c.extra@["bridge"@]
            &&& c.extra@.contains_key("erc20_handler"@) && s.erc20_handler@ == c.extra@["erc20_handler"@]
            &&& c.extra@.contains_key("erc721_handler"@) && s.erc721_handler@ == c.extra@["erc721_handler"@]
            &&& c.extra@.contains_key("block_confirmations"@) ==> parsed_u16(c.extra@["block_confirmations"@])
                == Some(s.block_confirmations)
            &&& !c.extra@.contains_key("block_confirmations"@) ==> s.block_confirmations == 12
        },
        c.typ == ChainType::Ethereum && c.extra@.contains_key("bridge"@) && c.extra@.contains_key(
            "erc20_handler"@,
        ) && c.extra@.contains_key("erc721_handler"@) && (c.extra@.contains_key("block_confirmations"@)
            ==> parsed_u16(c.extra@["block_confirmations"@]) is Some) ==> r matches Ok(Some(_)),
{
    match c.typ {
        ChainType::Substrate => Ok(None),
        ChainType::Ethereum => {
            let block_confirmations = match c.extra.get("block_confirmations") {
                Some(text) => match parse_u16(text.as_str()) {
                    Some(n) => n,
                    None => return Err(SetupError::InvalidBlockConfirmations(text.clone())),
                },
                None => DEFAULT_BLOCK_CONFIRMATIONS,
            };
            let bridge = match c.extra.get("bridge") {
                Some(a) => a.clone(),
                None => return Err(SetupError::MissingBridge),
            };
            let erc20_handler = match c.extra.get("erc20_handler") {
                Some(a) => a.clone(),
                None => return Err(SetupError::MissingErc20Handler),
            };
            let erc721_handler = match c.extra.get("erc721_handler") {
                Some(a) => a.clone(),
                None => return Err(SetupError::MissingErc721Handler),
            };
            Ok(
                Some(
                    ChainSetup {
                        identifier: c.identifier,
                        name: c.name.clone(),
                        endpoint: c.endpoint.clone(),
                        from: c.from.clone(),
                        start_block: c.start_block,
                        block_confirmations,
                        bridge,
                        erc20_handler,
                        erc721_handler,
                    },
                ),
            )
        },
    }
}

/// What the reactor does once it tried to build a chain's services.
#[derive(Clone, Copy, Debug, PartialEq, Eq, Structural)]
pub enum ReactorAction {
    /// Register the chain with the router and go on to the next one.
    RegisterChain,
    /// Stop without running any service.
    Stop,
}

/// The reactor registers a chain whose services were built and stops at
/// the first chain whose build failed.
pub fn after_build(built: bool) -> (a: ReactorAction)
    ensures
        a == (if built { ReactorAction::RegisterChain } else { ReactorAction::Stop }),
{
    if built {
        ReactorAction::RegisterChain
    } else {
        ReactorAction::Stop
    }
}

/// Runs the bridge for a configuration.
pub struct Reactor {
    config: BridgeConfig,
}

impl Reactor {
    /// The configuration the reactor runs.
    pub closed spec fn configuration(&self) -> BridgeConfig {
        self.config
    }

    /// A reactor for `config`.
    pub fn new(config: BridgeConfig) -> (r: Self)
        ensures
            r.configuration() == config,
    {
        Reactor { config }
    }

    /// Decides which chains to build: the EVM chains in configuration order,
    /// stopping at the first whose configuration is refused.
    pub fn plan(&self) -> (p: ReactorPlan)
        ensures
            plan_outcome(self.configuration().chains@) == (setup_views(p.setups@), match p.failure {
                Some(e) => Some(e@),
                None => None,
            }),
    {
        let chains = &self.config.chains;
        let ghost all = chains@;
        let mut setups: Vec<ChainSetup> = Vec::new();
        let mut i: usize = 0;
        assert(all.skip(0) =~= all);
        while i < chains.len()
            invariant
                all == chains@,
                all == self.config.chains@,
                i <= all.len(),
                plan_outcome(all) == (setup_views(setups@) + plan_outcome(all.skip(i as int)).0,
                    plan_outcome(all.skip(i as int)).1),
            decreases all.len() - i,
        {
            let ghost before = setups@;
            let ghost rest = all.skip(i as int);
            assert(rest[0] == all[i as int]);
            assert(rest.drop_first() =~= all.skip(i + 1));
            match chain_setup(&chains[i]) {
                Ok(None) => {},
                Ok(Some(s)) => {
                    setups.push(s);
                    assert(setup_views(setups@) =~= setup_views(before) + seq![s@]);
                    assert(setup_views(setups@) + plan_outcome(all.skip(i + 1)).0 =~= setup_views(
                        before,
                    ) + plan_outcome(rest).0);
                },
                Err(e) => {
                    assert(chain_outcome(rest[0]) == ChainOutcome::Fail(e@));
                    assert(plan_outcome(rest) == (Seq::<SetupView>::empty(), Some(e@)));
                    assert(setup_views(setups@) + plan_outcome(rest).0 =~= setup_views(setups@));
                    return ReactorPlan { setups, failure: Some(e) };
                },
            }
            i = i + 1;
        }
        assert(all.skip(i as int) =~= Seq::<ChainConfig>::empty());
        assert(setup_views(setups@) + Seq::<SetupView>::empty() =~= setup_views(setups@));
        ReactorPlan { setups, failure: None }
    }
}

} // verus!
