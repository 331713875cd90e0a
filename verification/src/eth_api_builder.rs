//! Settings of the eth API builder, and the plan that building the API follows.
//!
//! Building the API alternates async outside work (connecting the sequencer
//! client, spawning the flashblocks service) with decisions. The decisions
//! stand here: [`ConduitOpEthApiBuilder::into_build_plan`] turns the settings
//! into what is to be launched, and with which values.

use alloy_primitives::U256;
use reqwest::Url;
use std::marker::PhantomData;
use vstd::prelude::*;

verus! {

#[verifier::external_type_specification]
#[verifier::external_body]
pub struct ExUrl(Url);

#[verifier::external_type_specification]
#[verifier::external_body]
pub struct ExUint<const BITS: usize, const LIMBS: usize>(alloy_primitives::ruint::Uint<BITS, LIMBS>);

/// The minimum suggested priority fee (in wei) of a builder with default settings.
pub const DEFAULT_MIN_SUGGESTED_PRIORITY_FEE: u64 = 1_000_000;

/// `Clone::clone` of `url::Url` (re-exported by reqwest), whose `Clone` is derived:
/// the copy is the same URL.
#[verifier::external_body]
pub(crate) fn clone_url(url: &Url) -> (res: Url)
    ensures
        res == *url,
{
    url.clone()
}

/// The 256-bit unsigned integer with the value of `value`.
pub uninterp spec fn u256_of(value: u64) -> U256;

/// `U256::from(u64)` of alloy-primitives: the 256-bit integer with the value of
/// `value` (the conversion cannot overflow).
#[verifier::external_body]
fn u256_from_u64(value: u64) -> (res: U256)
    ensures
        res == u256_of(value),
{
    U256::from(value)
}

/// The settings of a [`ConduitOpEthApiBuilder`], as mathematical values.
pub struct EthApiBuilderView {
    pub sequencer_url: Option<Seq<char>>,
    pub sequencer_headers: Seq<Seq<char>>,
    pub min_suggested_priority_fee: u64,
    pub flashblocks_url: Option<Url>,
    pub flashblock_consensus: bool,
}

impl EthApiBuilderView {
    /// The settings of a new builder: no sequencer, no headers, the default
    /// minimum priority fee, no flashblocks, no flashblock consensus client.
    pub open spec fn default_settings() -> EthApiBuilderView {
        EthApiBuilderView {
            sequencer_url: None,
            sequencer_headers: Seq::empty(),
            min_suggested_priority_fee: DEFAULT_MIN_SUGGESTED_PRIORITY_FEE,
            flashblocks_url: None,
            flashblock_consensus: false,
        }
    }

    pub open spec fn set_sequencer_url(self, v: Option<Seq<char>>) -> EthApiBuilderView {
        EthApiBuilderView { sequencer_url: v, ..self }
    }

    pub open spec fn set_sequencer_headers(self, v: Seq<Seq<char>>) -> EthApiBuilderView {
        EthApiBuilderView { sequencer_headers: v, ..self }
    }

    pub open spec fn set_min_suggested_priority_fee(self, v: u64) -> EthApiBuilderView {
        EthApiBuilderView { min_suggested_priority_fee: v, ..self }
    }

    pub open spec fn set_flashblocks_url(self, v: Option<Url>) -> EthApiBuilderView {
        EthApiBuilderView { flashblocks_url: v, ..self }
    }

    pub open spec fn set_flashblock_consensus(self, v: bool) -> EthApiBuilderView {
        EthApiBuilderView { flashblock_consensus: v, ..self }
    }
}

/// The sequencer client to connect before the API is built.
pub struct SequencerClientPlan {
    /// The sequencer's URL.
    pub url: String,
    /// The headers that the client sends with each request.
    pub headers: Vec<String>,
}

impl SequencerClientPlan {
    /// The context added to the error of a failed sequencer client init.
    pub fn init_error_context(&self) -> (res: String)
        ensures
            res@ == "Failed to init sequencer client with: "@ + self.url@,
    {
        let mut res = String::from_str("Failed to init sequencer client with: ");
        res.append(self.url.as_str());
        res
    }
}

/// The flashblocks service to launch before the API is built.
pub struct FlashblocksPlan {
    /// The websocket URL that the flashblock stream reads from.
    pub ws_url: Url,
    /// Whether a flashblock consensus client is launched beside the service.
    pub launch_consensus_client: bool,
}

/// What building the eth API launches, and with which values.
pub struct EthApiBuildPlan {
    /// The sequencer client to connect, if any.
    pub sequencer: Option<SequencerClientPlan>,
    /// The flashblocks service to launch, if any.
    pub flashblocks: Option<FlashblocksPlan>,
    /// The minimum suggested priority fee handed to the API.
    pub min_suggested_priority_fee: U256,
}

impl EthApiBuildPlan {
    /// `plan` is what building the API with the settings `b` launches: a
    /// sequencer client exactly when a sequencer URL is set, with that URL and
    /// the configured headers; a flashblocks service exactly when a flashblocks
    /// URL is set, reading from that URL, with a consensus client exactly when
    /// flashblock consensus is also enabled; and the minimum suggested priority
    /// fee is the configured one, as a `U256`.
    pub open spec fn follows(self, b: EthApiBuilderView) -> bool {
        &&& self.min_suggested_priority_fee == u256_of(b.min_suggested_priority_fee)
        &&& (self.sequencer is Some <==> b.sequencer_url is Some)
        &&& (self.sequencer matches Some(s) ==> {
            &&& b.sequencer_url == Some(s.url@)
            &&& s.headers.deep_view() == b.sequencer_headers
        })
        &&& (self.flashblocks is Some <==> b.flashblocks_url is Some)
        &&& (self.flashblocks matches Some(f) ==> {
            &&& b.flashblocks_url == Some(f.ws_url)
            &&& f.launch_consensus_client == b.flashblock_consensus
        })
    }

    /// A flashblock consensus client is launched only together with the
    /// flashblocks service.
    pub open spec fn launches_consensus_client(self) -> bool {
        self.flashblocks matches Some(f) && f.launch_consensus_client
    }
}

/// The last step of building the API that has been carried out.
#[derive(Debug, Clone, Copy, PartialEq, Eq, Structural)]
pub enum BuildStep {
    /// Nothing has been launched yet.
    Start,
    /// The sequencer client is connected.
    SequencerConnected,
    /// The flashblocks service is spawned.
    FlashblocksServiceSpawned,
    /// The flashblock consensus client is launched.
    ConsensusClientLaunched,
    /// The eth API is built.
    ApiBuilt,
}

/// What building the API does next.
#[derive(Debug, Clone, Copy, PartialEq, Eq, Structural)]
pub enum BuildAction {
    /// Connect the sequencer client (this may fail).
    ConnectSequencer,
    /// Spawn the flashblocks service.
    SpawnFlashblocksService,
    /// Launch the flashblock consensus client (this may fail).
    LaunchConsensusClient,
    /// Build the eth API from what has been launched.
    BuildApi,
    /// Stop and return the error of the step that failed.
    Abort,
    /// Return the built API.
    Finish,
}

/// The step that is carried out once `action` has succeeded.
pub open spec fn step_completed_by(action: BuildAction) -> BuildStep {
    match action {
        BuildAction::ConnectSequencer => BuildStep::SequencerConnected,
        BuildAction::SpawnFlashblocksService => BuildStep::FlashblocksServiceSpawned,
        BuildAction::LaunchConsensusClient => BuildStep::ConsensusClientLaunched,
        _ => BuildStep::ApiBuilt,
    }
}

impl EthApiBuildPlan {
    /// What building the API does after `done`, given whether that step failed:
    /// any failure aborts; otherwise the planned launches come in the order
    /// sequencer client, flashblocks service, flashblock consensus client, and
    /// then the API is built.
    pub open spec fn spec_next_action(self, done: BuildStep, failed: bool) -> BuildAction {
        if failed {
            BuildAction::Abort
        } else {
            match done {
                BuildStep::Start => if self.sequencer is Some {
                    BuildAction::ConnectSequencer
                } else if self.flashblocks is Some {
                    BuildAction::SpawnFlashblocksService
                } else {
                    BuildAction::BuildApi
                },
                BuildStep::SequencerConnected => if self.flashblocks is Some {
                    BuildAction::SpawnFlashblocksService
                } else {
                    BuildAction::BuildApi
                },
                BuildStep::FlashblocksServiceSpawned => if self.launches_consensus_client() {
                    BuildAction::LaunchConsensusClient
                } else {
                    BuildAction::BuildApi
                },
                BuildStep::ConsensusClientLaunched => BuildAction::BuildApi,
                BuildStep::ApiBuilt => BuildAction::Finish,
            }
        }
    }

    /// The actions of a build in which no step fails, from `done` on, with at
    /// most `fuel` actions.
    pub open spec fn spec_run(self, done: BuildStep, fuel: nat) -> Seq<BuildAction>
        decreases fuel,
    {
        if fuel == 0 {
            Seq::empty()
        } else {
            let a = self.spec_next_action(done, false);
            if a == BuildAction::Finish {
                seq![a]
            } else {
                seq![a] + self.spec_run(step_completed_by(a), (fuel - 1) as nat)
            }
        }
    }

    /// The actions of a build in which no step fails: each planned launch in
    /// turn, then building the API, then finishing.
    pub open spec fn spec_successful_actions(self) -> Seq<BuildAction> {
        (if self.sequencer is Some { seq![BuildAction::ConnectSequencer] } else { seq![] })
            + (if self.flashblocks is Some {
            seq![BuildAction::SpawnFlashblocksService]
        } else {
            seq![]
        }) + (if self.launches_consensus_client() {
            seq![BuildAction::LaunchConsensusClient]
        } else {
            seq![]
        }) + seq![BuildAction::BuildApi, BuildAction::Finish]
    }

    /// Decides what building the API does after the step `done`, given whether
    /// that step failed.
    pub fn next_action(&self, done: BuildStep, failed: bool) -> (res: BuildAction)
        ensures
            res == self.spec_next_action(done, failed),
    {
        if failed {
            return BuildAction::Abort;
        }
        match done {
            BuildStep::Start => if self.sequencer.is_some() {
                BuildAction::ConnectSequencer
            } else if self.flashblocks.is_some() {
                BuildAction::SpawnFlashblocksService
            } else {
                BuildAction::BuildApi
            },
            BuildStep::SequencerConnected => if self.flashblocks.is_some() {
                BuildAction::SpawnFlashblocksService
            } else {
                BuildAction::BuildApi
            },
            BuildStep::FlashblocksServiceSpawned => match &self.flashblocks {
                Some(f) => if f.launch_consensus_client {
                    BuildAction::LaunchConsensusClient
                } else {
                    BuildAction::BuildApi
                },
                None => BuildAction::BuildApi,
            },
            BuildStep::ConsensusClientLaunched => BuildAction::BuildApi,
            BuildStep::ApiBuilt => BuildAction::Finish,
        }
    }
}

/// A build in which no step fails carries out each planned launch once, in
/// the order sequencer client, flashblocks service, flashblock consensus
/// client, then builds the API and finishes.
pub proof fn lemma_build_runs_in_order(plan: EthApiBuildPlan)
    ensures
        plan.spec_run(BuildStep::Start, 5) == plan.spec_successful_actions(),
{
    reveal_with_fuel(EthApiBuildPlan::spec_run, 6);
    assert(plan.spec_run(BuildStep::Start, 5) =~= plan.spec_successful_actions());
}

/// A failed step aborts the build at once: after a failed sequencer
/// connection no flashblocks service is spawned, and after a failed consensus
/// client launch the API is not built. The flashblocks service is spawned only
/// once a planned sequencer client is connected, and the consensus client only
/// once the service is spawned.
pub proof fn lemma_build_aborts_and_orders(plan: EthApiBuildPlan, done: BuildStep)
    ensures
        plan.spec_next_action(done, true) == BuildAction::Abort,
        plan.spec_next_action(done, false) == BuildAction::SpawnFlashblocksService ==> {
            &&& plan.flashblocks is Some
            &&& (done == BuildStep::SequencerConnected || (done == BuildStep::Start
                && plan.sequencer is None))
        },
        plan.spec_next_action(done, false) == BuildAction::LaunchConsensusClient ==> {
            &&& plan.launches_consensus_client()
            &&& done == BuildStep::FlashblocksServiceSpawned
        },
        plan.spec_next_action(done, false) == BuildAction::ConnectSequencer ==> done
            == BuildStep::Start,
        plan.spec_next_action(done, false) == BuildAction::Finish <==> done
            == BuildStep::ApiBuilt,
        plan.spec_next_action(done, false) != BuildAction::Abort,
{
}

/// Setting one of the builder's settings twice keeps only the value set
/// last.
pub proof fn lemma_builder_last_setting_wins(
    b: EthApiBuilderView,
    url1: Option<Seq<char>>,
    url2: Option<Seq<char>>,
    headers1: Seq<Seq<char>>,
    headers2: Seq<Seq<char>>,
    fee1: u64,
    fee2: u64,
    ws1: Option<Url>,
    ws2: Option<Url>,
    consensus1: bool,
    consensus2: bool,
)
    ensures
        b.set_sequencer_url(url1).set_sequencer_url(url2) == b.set_sequencer_url(url2),
        b.set_sequencer_headers(headers1).set_sequencer_headers(headers2)
            == b.set_sequencer_headers(headers2),
        b.set_min_suggested_priority_fee(fee1).set_min_suggested_priority_fee(fee2)
            == b.set_min_suggested_priority_fee(fee2),
        b.set_flashblocks_url(ws1).set_flashblocks_url(ws2) == b.set_flashblocks_url(ws2),
        b.set_flashblock_consensus(consensus1).set_flashblock_consensus(consensus2)
            == b.set_flashblock_consensus(consensus2),
{
}

/// The builder's setters are independent of one another: setting two
/// different settings gives the same builder in either order.
pub proof fn lemma_builder_settings_independent(
    b: EthApiBuilderView,
    url: Option<Seq<char>>,
    headers: Seq<Seq<char>>,
    fee: u64,
    ws: Option<Url>,
    consensus: bool,
)
    ensures
        b.set_sequencer_url(url).set_sequencer_headers(headers)
            == b.set_sequencer_headers(headers).set_sequencer_url(url),
        b.set_sequencer_url(url).set_min_suggested_priority_fee(fee)
            == b.set_min_suggested_priority_fee(fee).set_sequencer_url(url),
        b.set_sequencer_url(url).set_flashblocks_url(ws)
            == b.set_flashblocks_url(ws).set_sequencer_url(url),
        b.set_sequencer_url(url).set_flashblock_consensus(consensus)
            == b.set_flashblock_consensus(consensus).set_sequencer_url(url),
        b.set_sequencer_headers(headers).set_min_suggested_priority_fee(fee)
            == b.set_min_suggested_priority_fee(fee).set_sequencer_headers(headers),
        b.set_sequencer_headers(headers).set_flashblocks_url(ws)
            == b.set_flashblocks_url(ws).set_sequencer_headers(headers),
        b.set_sequencer_headers(headers).set_flashblock_consensus(consensus)
            == b.set_flashblock_consensus(consensus).set_sequencer_headers(headers),
        b.set_min_suggested_priority_fee(fee).set_flashblocks_url(ws)
            == b.set_flashblocks_url(ws).set_min_suggested_priority_fee(fee),
        b.set_min_suggested_priority_fee(fee).set_flashblock_consensus(consensus)
            == b.set_flashblock_consensus(consensus).set_min_suggested_priority_fee(fee),
        b.set_flashblocks_url(ws).set_flashblock_consensus(consensus)
            == b.set_flashblock_consensus(consensus).set_flashblocks_url(ws),
{
}

/// Building the API from a builder with default settings launches
/// nothing: no sequencer client, no flashblocks service and no flashblock
/// consensus client; the API gets the default minimum priority fee.
pub proof fn lemma_default_settings_launch_nothing(plan: EthApiBuildPlan)
    requires
        plan.follows(EthApiBuilderView::default_settings()),
    ensures
        plan.sequencer is None,
        plan.flashblocks is None,
        !plan.launches_consensus_client(),
        plan.min_suggested_priority_fee == u256_of(DEFAULT_MIN_SUGGESTED_PRIORITY_FEE),
{
}

/// Builds the OP eth API using the conduit receipt converter.
#[derive(Debug)]
pub struct ConduitOpEthApiBuilder<NetworkT> {
    sequencer_url: Option<String>,
    sequencer_headers: Vec<String>,
    min_suggested_priority_fee: u64,
    flashblocks_url: Option<Url>,
    flashblock_consensus: bool,
    _nt: PhantomData<NetworkT>,
}

impl<NetworkT> View for ConduitOpEthApiBuilder<NetworkT> {
    type V = EthApiBuilderView;

    closed spec fn view(&self) -> EthApiBuilderView {
        EthApiBuilderView {
            sequencer_url: self.sequencer_url.deep_view(),
            sequencer_headers: self.sequencer_headers.deep_view(),
            min_suggested_priority_fee: self.min_suggested_priority_fee,
            flashblocks_url: self.flashblocks_url,
            flashblock_consensus: self.flashblock_consensus,
        }
    }
}

impl<NetworkT> Default for ConduitOpEthApiBuilder<NetworkT> {
    fn default() -> (res: Self)
        ensures
            res@ == EthApiBuilderView::default_settings(),
    {
        Self::new()
    }
}

impl<NetworkT> ConduitOpEthApiBuilder<NetworkT> {
    /// Creates a new [`ConduitOpEthApiBuilder`] with default settings.
    pub fn new() -> (res: Self)
        ensures
            res@ == EthApiBuilderView::default_settings(),
    {
        let res = Self {
            sequencer_url: None,
            sequencer_headers: Vec::new(),
            min_suggested_priority_fee: DEFAULT_MIN_SUGGESTED_PRIORITY_FEE,
            flashblocks_url: None,
            flashblock_consensus: false,
            _nt: PhantomData,
        };
        assert(res.sequencer_headers.deep_view() =~= Seq::<Seq<char>>::empty());
        res
    }

    /// With a sequencer URL.
    pub fn with_sequencer(self, sequencer_url: Option<String>) -> (res: Self)
        ensures
            res@ == self@.set_sequencer_url(sequencer_url.deep_view()),
    {
        let mut s = self;
        s.sequencer_url = sequencer_url;
        s
    }

    /// With sequencer client headers.
    pub fn with_sequencer_headers(self, sequencer_headers: Vec<String>) -> (res: Self)
        ensures
            res@ == self@.set_sequencer_headers(sequencer_headers.deep_view()),
    {
        let mut s = self;
        s.sequencer_headers = sequencer_headers;
        s
    }

    /// With minimum suggested priority fee.
    pub fn with_min_suggested_priority_fee(self, min: u64) -> (res: Self)
        ensures
            res@ == self@.set_min_suggested_priority_fee(min),
    {
        let mut s = self;
        s.min_suggested_priority_fee = min;
        s
    }

    /// With a flashblocks websocket URL.
    pub fn with_flashblocks(self, flashblocks_url: Option<Url>) -> (res: Self)
        ensures
            res@ == self@.set_flashblocks_url(flashblocks_url),
    {
        let mut s = self;
        s.flashblocks_url = flashblocks_url;
        s
    }

    /// With flashblock consensus client enabled.
    pub fn with_flashblock_consensus(self, flashblock_consensus: bool) -> (res: Self)
        ensures
            res@ == self@.set_flashblock_consensus(flashblock_consensus),
    {
        let mut s = self;
        s.flashblock_consensus = flashblock_consensus;
        s
    }
    /// Consumes the settings and decides what building the API launches.
    pub fn into_build_plan(self) -> (plan: EthApiBuildPlan)
        ensures
            plan.follows(self@),
            plan.launches_consensus_client() <==> (self@.flashblocks_url is Some
                && self@.flashblock_consensus),
    {
        let ConduitOpEthApiBuilder {
            sequencer_url,
            sequencer_headers,
            min_suggested_priority_fee,
            flashblocks_url,
            flashblock_consensus,
            ..
        } = self;
        let sequencer = match sequencer_url {
            Some(url) => Some(SequencerClientPlan { url, headers: sequencer_headers }),
            None => None,
        };
        let flashblocks = match flashblocks_url {
            Some(ws_url) => Some(
                FlashblocksPlan { ws_url, launch_consensus_client: flashblock_consensus },
            ),
            None => None,
        };
        EthApiBuildPlan {
            sequencer,
            flashblocks,
            min_suggested_priority_fee: u256_from_u64(min_suggested_priority_fee),
        }
    }
}

} // verus!
