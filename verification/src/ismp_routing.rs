//! ISMP on Pop: which chain this runtime is, which consensus clients it
//! trusts, and where incoming requests, responses and timeouts go: on to
//! another chain, to the demo module, or back with an error.
//!
//! The message types here hold what the routing reads of ISMP's messages:
//! their source and destination chains and their module identifiers. Module
//! identifiers are read from their bytes with the ISMP pallet's reader.
use vstd::prelude::*;

use vstd::std_specs::cmp::PartialEqSpecImpl;

verus! {

/// Identifier of a consensus state.
pub type ConsensusStateId = [u8; 4];

/// Identifier of a consensus client.
pub type ConsensusClientId = [u8; 4];

/// Whether two byte arrays hold the same bytes.
fn same_bytes<const N: usize>(a: &[u8; N], b: &[u8; N]) -> (r: bool)
    ensures
        r == (*a == *b),
{
    let mut i: usize = 0;
    while i < N
        invariant
            i <= N,
            a@.len() == N,
            b@.len() == N,
            forall|j: int| 0 <= j < i ==> a@[j] == b@[j],
        decreases N - i,
    {
        if a[i] != b[i] {
            assert(a@[i as int] != b@[i as int]);
            return false;
        }
        i = i + 1;
    }
    assert(*a =~= *b);
    true
}

/// A state machine that ISMP can address.
#[derive(Clone, Copy, Debug)]
pub enum StateMachine {
    /// An EVM chain, by chain id.
    Evm(u32),
    /// A Polkadot parachain, by para id.
    Polkadot(u32),
    /// A Kusama parachain, by para id.
    Kusama(u32),
    /// A standalone Substrate chain.
    Substrate(ConsensusStateId),
    /// A Tendermint chain.
    Tendermint(ConsensusStateId),
    /// A parachain of another relay chain.
    Relay { relay: ConsensusStateId, para_id: u32 },
}

impl PartialEq for StateMachine {
    fn eq(&self, other: &Self) -> (r: bool) {
        match (self, other) {
            (StateMachine::Evm(a), StateMachine::Evm(b)) => *a == *b,
            (StateMachine::Polkadot(a), StateMachine::Polkadot(b)) => *a == *b,
            (StateMachine::Kusama(a), StateMachine::Kusama(b)) => *a == *b,
            (StateMachine::Substrate(a), StateMachine::Substrate(b)) => same_bytes(a, b),
            (StateMachine::Tendermint(a), StateMachine::Tendermint(b)) => same_bytes(a, b),
            (
                StateMachine::Relay { relay: ra, para_id: pa },
                StateMachine::Relay { relay: rb, para_id: pb },
            ) => *pa == *pb && same_bytes(ra, rb),
            _ => false,
        }
    }
}

impl PartialEqSpecImpl for StateMachine {
    open spec fn obeys_eq_spec() -> bool {
        true
    }

    open spec fn eq_spec(&self, other: &StateMachine) -> bool {
        *self == *other
    }
}

impl Eq for StateMachine {}

/// The identifier of a module, as the ISMP pallet reads it from a message: a
/// pallet by its 8-byte id, a contract account by its 32 bytes, an EVM contract
/// by its 20-byte address.
#[derive(Clone, Copy, Debug)]
pub enum ModuleId {
    /// A pallet of the runtime.
    Pallet([u8; 8]),
    /// A contract account.
    Contract([u8; 32]),
    /// An EVM contract address.
    Evm([u8; 20]),
}

impl PartialEq for ModuleId {
    fn eq(&self, other: &Self) -> (r: bool) {
        match (self, other) {
            (ModuleId::Pallet(a), ModuleId::Pallet(b)) => same_bytes(a, b),
            (ModuleId::Contract(a), ModuleId::Contract(b)) => same_bytes(a, b),
            (ModuleId::Evm(a), ModuleId::Evm(b)) => same_bytes(a, b),
            _ => false,
        }
    }
}

impl PartialEqSpecImpl for ModuleId {
    open spec fn obeys_eq_spec() -> bool {
        true
    }

    open spec fn eq_spec(&self, other: &ModuleId) -> bool {
        *self == *other
    }
}

impl Eq for ModuleId {}

/// The bytes a module identifier is written as.
pub open spec fn module_bytes(id: ModuleId) -> Seq<u8> {
    match id {
        ModuleId::Pallet(a) => a@,
        ModuleId::Contract(a) => a@,
        ModuleId::Evm(a) => a@,
    }
}

/// Whether bytes have the length of some module identifier.
pub open spec fn is_module_id_len(len: nat) -> bool {
    len == 8 || len == 32 || len == 20
}

proof fn lemma_module_bytes_len(id: ModuleId)
    ensures
        module_bytes(id).len() == match id {
            ModuleId::Pallet(_) => 8nat,
            ModuleId::Contract(_) => 32nat,
            ModuleId::Evm(_) => 20nat,
        },
{
}

/// Module identifiers written as the same bytes are the same identifier.
proof fn lemma_module_bytes_injective(a: ModuleId, b: ModuleId)
    requires
        module_bytes(a) == module_bytes(b),
    ensures
        a == b,
{
    match (a, b) {
        (ModuleId::Pallet(x), ModuleId::Pallet(y)) => { assert(x =~= y); },
        (ModuleId::Contract(x), ModuleId::Contract(y)) => { assert(x =~= y); },
        (ModuleId::Evm(x), ModuleId::Evm(y)) => { assert(x =~= y); },
        _ => {
            lemma_module_bytes_len(a);
            lemma_module_bytes_len(b);
        },
    }
}

/// Reads a module identifier with `pallet_ismp::ModuleId::from_bytes`, whose
/// source reads 8 bytes as a pallet id, 32 bytes as a contract account and 20
/// bytes as an EVM address, and refuses any other length with "Unknown Module
/// ID format". Claimed: exactly that; the pallet's identifier is turned into
/// this library's by moving its bytes.
#[verifier::external_body]
fn read_module_id(bytes: &[u8]) -> (res: Result<ModuleId, &'static str>)
    ensures
        res is Ok <==> is_module_id_len(bytes@.len()),
        res matches Ok(id) ==> module_bytes(id) == bytes@,
        res matches Err(text) ==> text@ == "Unknown Module ID format"@,
{
    match pallet_ismp::ModuleId::from_bytes(bytes) {
        Ok(pallet_ismp::ModuleId::Pallet(pallet_id)) => Ok(ModuleId::Pallet(pallet_id.0)),
        Ok(pallet_ismp::ModuleId::Contract(account)) => Ok(ModuleId::Contract(account.into())),
        Ok(pallet_ismp::ModuleId::Evm(address)) => Ok(ModuleId::Evm(address.0)),
        Err(text) => Err(text),
    }
}

/// An error of an ISMP module, with its description.
#[derive(Clone, Debug, PartialEq, Eq)]
pub enum IsmpError {
    ImplementationSpecific(String),
}

impl View for IsmpError {
    type V = Seq<char>;

    /// The description.
    open spec fn view(&self) -> Seq<char> {
        match self {
            IsmpError::ImplementationSpecific(s) => s@,
        }
    }
}

/// The addressing of an ISMP POST request.
#[derive(Clone, Debug, PartialEq, Eq)]
pub struct PostRequest {
    /// The chain the request was sent from.
    pub source: StateMachine,
    /// The chain the request is addressed to.
    pub dest: StateMachine,
    /// Identifier of the sending module.
    pub from: Vec<u8>,
    /// Identifier of the receiving module.
    pub to: Vec<u8>,
}

/// The addressing of an ISMP GET request.
#[derive(Clone, Debug, PartialEq, Eq)]
pub struct GetRequest {
    /// The chain the request was sent from.
    pub source: StateMachine,
    /// The chain whose state is read.
    pub dest: StateMachine,
    /// Identifier of the requesting module.
    pub from: Vec<u8>,
}

/// An ISMP request.
#[derive(Clone, Debug, PartialEq, Eq)]
pub enum Request {
    Post(PostRequest),
    Get(GetRequest),
}

/// An ISMP response, with the request it answers.
#[derive(Clone, Debug, PartialEq, Eq)]
pub enum Response {
    Post(PostRequest),
    Get(GetRequest),
}

/// The addressing of a POST request, with identifiers as byte sequences.
pub struct PostRequestView {
    pub source: StateMachine,
    pub dest: StateMachine,
    pub from: Seq<u8>,
    pub to: Seq<u8>,
}

/// The addressing of a GET request, with its identifier as a byte sequence.
pub struct GetRequestView {
    pub source: StateMachine,
    pub dest: StateMachine,
    pub from: Seq<u8>,
}

/// A request, with identifiers as byte sequences.
pub enum RequestView {
    Post(PostRequestView),
    Get(GetRequestView),
}

impl View for PostRequest {
    type V = PostRequestView;

    open spec fn view(&self) -> PostRequestView {
        PostRequestView { source: self.source, dest: self.dest, from: self.from@, to: self.to@ }
    }
}

impl View for GetRequest {
    type V = GetRequestView;

    open spec fn view(&self) -> GetRequestView {
        GetRequestView { source: self.source, dest: self.dest, from: self.from@ }
    }
}

impl View for Request {
    type V = RequestView;

    open spec fn view(&self) -> RequestView {
        match self {
            Request::Post(post) => RequestView::Post(post@),
            Request::Get(get) => RequestView::Get(get@),
        }
    }
}

impl View for Response {
    /// A response is seen as the request it answers.
    type V = RequestView;

    open spec fn view(&self) -> RequestView {
        match self {
            Response::Post(post) => RequestView::Post(post@),
            Response::Get(get) => RequestView::Get(get@),
        }
    }
}

/// The chain a request was sent from.
pub open spec fn request_source(request: RequestView) -> StateMachine {
    match request {
        RequestView::Post(post) => post.source,
        RequestView::Get(get) => get.source,
    }
}

/// The identifier of the module that sent a request.
pub open spec fn request_from(request: RequestView) -> Seq<u8> {
    match request {
        RequestView::Post(post) => post.from,
        RequestView::Get(get) => get.from,
    }
}

fn copy_bytes(bytes: &Vec<u8>) -> (out: Vec<u8>)
    ensures
        out@ == bytes@,
{
    let mut out: Vec<u8> = Vec::new();
    for i in 0..bytes.len()
        invariant
            out@ == bytes@.take(i as int),
    {
        out.push(bytes[i]);
        assert(bytes@.take(i + 1) =~= bytes@.take(i as int).push(bytes@[i as int]));
    }
    assert(bytes@.take(bytes@.len() as int) =~= bytes@);
    out
}

impl Request {
    /// The identifier of the module that sent the request.
    pub fn source_module(&self) -> (from: Vec<u8>)
        ensures
            from@ == request_from(self@),
    {
        match self {
            Request::Post(post) => copy_bytes(&post.from),
            Request::Get(get) => copy_bytes(&get.from),
        }
    }
}

impl Response {
    /// The chain a response goes to: the chain its request came from.
    pub fn dest_chain(&self) -> (chain: StateMachine)
        ensures
            chain == request_source(self@),
    {
        match self {
            Response::Post(post) => post.source,
            Response::Get(get) => get.source,
        }
    }

    /// The request the response answers.
    pub fn request(&self) -> (request: Request)
        ensures
            request@ == self@,
    {
        match self {
            Response::Post(post) => Request::Post(PostRequest {
                source: post.source,
                dest: post.dest,
                from: copy_bytes(&post.from),
                to: copy_bytes(&post.to),
            }),
            Response::Get(get) => Request::Get(GetRequest {
                source: get.source,
                dest: get.dest,
                from: copy_bytes(&get.from),
            }),
        }
    }
}

/// What the runtime around the routing provides: the identifier of the
/// parachain consensus client, and the identifier of the demo module that
/// receives the messages addressed to this chain. (This chain's para id is
/// given where it is needed, with each incoming request or response.)
#[derive(Clone, Copy, Debug)]
pub struct IsmpConfig {
    pub parachain_consensus_id: ConsensusClientId,
    pub demo_module: ModuleId,
}

/// The state machine of this chain: the Polkadot parachain with this para id.
pub open spec fn host_of(para_id: u32) -> StateMachine {
    StateMachine::Polkadot(para_id)
}

/// Provides the state machine of this chain.
#[derive(Clone, Copy, Debug)]
pub struct StateMachineProvider;

impl StateMachineProvider {
    /// This chain as ISMP addresses it: the Polkadot parachain with the chain's
    /// para id.
    pub fn get(para_id: u32) -> (host: StateMachine)
        ensures
            host == host_of(para_id),
    {
        StateMachine::Polkadot(para_id)
    }
}

/// The consensus clients this chain runs.
#[derive(Clone, Copy, Debug, PartialEq, Eq)]
pub enum ConsensusClientKind {
    /// The client that follows the parachain's relay chain.
    Parachain,
}

/// Provides the consensus client for a client identifier.
#[derive(Clone, Copy, Debug)]
pub struct ConsensusProvider;

impl ConsensusProvider {
    /// The consensus client with identifier `id`: the parachain client for the
    /// parachain consensus identifier, and for any other identifier the error
    /// "Unknown consensus client".
    pub fn consensus_client(config: &IsmpConfig, id: ConsensusClientId) -> (res: Result<ConsensusClientKind, IsmpError>)
        ensures
            id == config.parachain_consensus_id <==> res is Ok,
            res matches Ok(kind) ==> kind == ConsensusClientKind::Parachain,
            res matches Err(e) ==> e@ == "Unknown consensus client"@,
    {
        if same_bytes(&id, &config.parachain_consensus_id) {
            Ok(ConsensusClientKind::Parachain)
        } else {
            Err(IsmpError::ImplementationSpecific("Unknown consensus client".to_owned()))
        }
    }
}

/// Where a message goes.
#[derive(Clone, Copy, Debug, PartialEq, Eq, Structural)]
pub enum Route {
    /// It is not for this chain: it goes back to the ISMP pallet, which sends
    /// it on.
    Forward,
    /// It goes to the demo module of this chain.
    Demo,
}

/// The outcome of a routing decision, with an error seen as its description.
pub open spec fn decision_view(res: Result<Route, IsmpError>) -> Result<Route, Seq<char>> {
    match res {
        Ok(route) => Ok(route),
        Err(e) => Err(e@),
    }
}

/// Where a message for this chain goes, given the bytes of the module it
/// names: bytes that are no module identifier are refused with the reader's
/// "Unknown Module ID format"; the demo module's identifier goes to the demo
/// module; any other module is "Destination module not found".
pub open spec fn spec_deliver_locally(config: IsmpConfig, module: Seq<u8>) -> Result<Route, Seq<char>> {
    if !is_module_id_len(module.len()) {
        Err("Unknown Module ID format"@)
    } else if module == module_bytes(config.demo_module) {
        Ok(Route::Demo)
    } else {
        Err("Destination module not found"@)
    }
}

/// Where an incoming request goes: on, when it is addressed to another chain;
/// else to the module its receiving identifier names.
pub open spec fn spec_on_accept(config: IsmpConfig, para_id: u32, request: PostRequestView) -> Result<Route, Seq<char>> {
    if request.dest != host_of(para_id) {
        Ok(Route::Forward)
    } else {
        spec_deliver_locally(config, request.to)
    }
}

/// Where an incoming response goes: on, when it is addressed to another chain
/// (the chain its request came from); else to the module that sent that
/// request.
pub open spec fn spec_on_response(config: IsmpConfig, para_id: u32, response: RequestView) -> Result<Route, Seq<char>> {
    if request_source(response) != host_of(para_id) {
        Ok(Route::Forward)
    } else {
        spec_deliver_locally(config, request_from(response))
    }
}

/// Where a timed-out request goes: always to the module that sent it.
pub open spec fn spec_on_timeout(config: IsmpConfig, request: RequestView) -> Result<Route, Seq<char>> {
    spec_deliver_locally(config, request_from(request))
}

/// A message addressed to another chain is always sent on, whatever module it
/// names: requests by their destination, responses by the chain their request
/// came from.
pub proof fn lemma_foreign_messages_forwarded(config: IsmpConfig, para_id: u32, request: PostRequestView, response: RequestView)
    ensures
        request.dest != host_of(para_id) ==> spec_on_accept(config, para_id, request) == Ok::<Route, Seq<char>>(Route::Forward),
        request_source(response) != host_of(para_id) ==> spec_on_response(config, para_id, response) == Ok::<Route, Seq<char>>(Route::Forward),
{
}

/// A message for this chain is delivered to the demo module exactly when the
/// module it names is the demo module; nothing delivered locally is sent on,
/// so a timed-out request never is. Requests, responses and timeouts for this
/// chain are routed by the same rule, applied to the receiving module of a
/// request and to the sending module of the request that a response answers
/// or that timed out.
pub proof fn lemma_local_delivery(config: IsmpConfig, para_id: u32, request: PostRequestView, response: RequestView, module: Seq<u8>)
    ensures
        spec_deliver_locally(config, module) == Ok::<Route, Seq<char>>(Route::Demo)
            <==> module == module_bytes(config.demo_module),
        spec_deliver_locally(config, module) != Ok::<Route, Seq<char>>(Route::Forward),
        spec_on_timeout(config, response) != Ok::<Route, Seq<char>>(Route::Forward),
        request.dest == host_of(para_id) ==> spec_on_accept(config, para_id, request)
            == spec_deliver_locally(config, request.to),
        request_source(response) == host_of(para_id) ==> spec_on_response(config, para_id, response)
            == spec_on_timeout(config, response),
{
    lemma_module_bytes_len(config.demo_module);
}

/// The module that receives every ISMP message of this chain and passes it on.
#[derive(Clone, Copy, Debug, Default, PartialEq, Eq, Structural)]
pub struct ProxyModule;

impl ProxyModule {
    fn deliver_locally(config: &IsmpConfig, module: &[u8]) -> (res: Result<Route, IsmpError>)
        ensures
            decision_view(res) == spec_deliver_locally(*config, module@),
    {
        match read_module_id(module) {
            Err(text) => Err(IsmpError::ImplementationSpecific(text.to_owned())),
            Ok(id) => {
                proof {
                    if module@ == module_bytes(config.demo_module) {
                        lemma_module_bytes_injective(id, config.demo_module);
                    }
                }
                if id == config.demo_module {
                    Ok(Route::Demo)
                } else {
                    Err(IsmpError::ImplementationSpecific("Destination module not found".to_owned()))
                }
            },
        }
    }

    /// Routes an incoming POST request arriving at the chain with this para id.
    pub fn on_accept(&self, config: &IsmpConfig, para_id: u32, request: &PostRequest) -> (res: Result<Route, IsmpError>)
        ensures
            decision_view(res) == spec_on_accept(*config, para_id, request@),
    {
        if request.dest != StateMachineProvider::get(para_id) {
            return Ok(Route::Forward);
        }
        Self::deliver_locally(config, request.to.as_slice())
    }

    /// Routes an incoming response arriving at the chain with this para id.
    pub fn on_response(&self, config: &IsmpConfig, para_id: u32, response: &Response) -> (res: Result<Route, IsmpError>)
        ensures
            decision_view(res) == spec_on_response(*config, para_id, response@),
    {
        if response.dest_chain() != StateMachineProvider::get(para_id) {
            return Ok(Route::Forward);
        }
        let request = response.request();
        let from = request.source_module();
        Self::deliver_locally(config, from.as_slice())
    }

    /// Routes a request that timed out.
    pub fn on_timeout(&self, config: &IsmpConfig, request: &Request) -> (res: Result<Route, IsmpError>)
        ensures
            decision_view(res) == spec_on_timeout(*config, request@),
    {
        let from = request.source_module();
        Self::deliver_locally(config, from.as_slice())
    }
}

/// Dispatches every ISMP module identifier to the proxy module.
#[derive(Clone, Copy, Debug, Default)]
pub struct Router;

impl Router {
    /// The module for any identifier: the proxy module, which routes further.
    pub fn module_for_id(&self, bytes: Vec<u8>) -> (module: ProxyModule)
        ensures
            module == ProxyModule,
    {
        ProxyModule
    }
}

/// The key of a state machine's latest height in the ISMP pallet.
#[derive(Clone, Copy, Debug, PartialEq, Eq)]
pub struct StateMachineId {
    pub state_id: StateMachine,
    pub consensus_state_id: ConsensusStateId,
}

/// Reads the latest height the ISMP pallet knows of a state machine.
#[derive(Clone, Copy, Debug)]
pub struct StateMachineHeight;

impl StateMachineHeight {
    /// The key under which the latest height of `id` stands: the state machine
    /// as tracked by the parachain consensus client.
    pub fn latest_height_key(config: &IsmpConfig, id: StateMachine) -> (key: StateMachineId)
        ensures
            key == (StateMachineId { state_id: id, consensus_state_id: config.parachain_consensus_id }),
    {
        StateMachineId { state_id: id, consensus_state_id: config.parachain_consensus_id }
    }
}

/// This chain is the Polkadot parachain with its para id, for every para id;
/// so a request addressed to `Polkadot(para_id)` is never sent on by that
/// chain, and a request addressed to any other state machine always is.
pub proof fn lemma_host_is_polkadot_parachain(config: IsmpConfig, para_id: u32, request: PostRequestView)
    ensures
        host_of(para_id) == StateMachine::Polkadot(para_id),
        request.dest == StateMachine::Polkadot(para_id) ==> spec_on_accept(config, para_id, request)
            != Ok::<Route, Seq<char>>(Route::Forward),
        request.dest != StateMachine::Polkadot(para_id) ==> spec_on_accept(config, para_id, request)
            == Ok::<Route, Seq<char>>(Route::Forward),
{
    lemma_module_bytes_len(config.demo_module);
}

/// A response goes to the chain its request came from, whatever chain that
/// request was addressed to: its destination is the `source` of the GET or
/// POST request it answers. A response to a request that this chain sent is
/// never sent on; it goes to the module that sent the request (its `from`),
/// and reaches the demo module exactly when that sender is the demo module.
pub proof fn lemma_response_goes_to_asker(config: IsmpConfig, para_id: u32, get: GetRequestView, post: PostRequestView)
    ensures
        request_source(RequestView::Get(get)) == get.source,
        request_source(RequestView::Post(post)) == post.source,
        request_from(RequestView::Get(get)) == get.from,
        request_from(RequestView::Post(post)) == post.from,
        get.source == StateMachine::Polkadot(para_id) ==> spec_on_response(config, para_id, RequestView::Get(get))
            != Ok::<Route, Seq<char>>(Route::Forward),
        get.source != StateMachine::Polkadot(para_id) ==> spec_on_response(config, para_id, RequestView::Get(get))
            == Ok::<Route, Seq<char>>(Route::Forward),
        post.source == StateMachine::Polkadot(para_id) ==> spec_on_response(config, para_id, RequestView::Post(post))
            != Ok::<Route, Seq<char>>(Route::Forward),
        post.source != StateMachine::Polkadot(para_id) ==> spec_on_response(config, para_id, RequestView::Post(post))
            == Ok::<Route, Seq<char>>(Route::Forward),
        get.source == StateMachine::Polkadot(para_id) ==> (spec_on_response(config, para_id, RequestView::Get(get))
            == Ok::<Route, Seq<char>>(Route::Demo) <==> get.from == module_bytes(config.demo_module)),
{
    lemma_module_bytes_len(config.demo_module);
}

/// A timed-out request goes back to the module that sent it (its `from`),
/// whatever its destination chain and receiving module: it reaches the demo
/// module exactly when its sender is the demo module, and two requests with
/// the same sender are routed alike. A module identifier is written as its
/// own bytes.
pub proof fn lemma_timeout_goes_to_sender(config: IsmpConfig, post: PostRequestView, other: PostRequestView, get: GetRequestView)
    ensures
        spec_on_timeout(config, RequestView::Post(post)) == Ok::<Route, Seq<char>>(Route::Demo)
            <==> post.from == module_bytes(config.demo_module),
        spec_on_timeout(config, RequestView::Get(get)) == Ok::<Route, Seq<char>>(Route::Demo)
            <==> get.from == module_bytes(config.demo_module),
        post.from == other.from ==> spec_on_timeout(config, RequestView::Post(post))
            == spec_on_timeout(config, RequestView::Post(other)),
        post.from == get.from ==> spec_on_timeout(config, RequestView::Post(post))
            == spec_on_timeout(config, RequestView::Get(get)),
        forall|a: [u8; 8]| #[trigger] module_bytes(ModuleId::Pallet(a)) == a@,
        forall|a: [u8; 32]| #[trigger] module_bytes(ModuleId::Contract(a)) == a@,
        forall|a: [u8; 20]| #[trigger] module_bytes(ModuleId::Evm(a)) == a@,
{
    lemma_module_bytes_len(config.demo_module);
}

} // verus!
