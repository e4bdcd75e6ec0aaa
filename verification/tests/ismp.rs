use pop_runtime::ismp_routing::{
    ConsensusClientKind, ConsensusProvider, GetRequest, IsmpConfig, IsmpError, ModuleId,
    PostRequest, ProxyModule, Request, Response, Route, Router, StateMachine, StateMachineHeight,
    StateMachineId, StateMachineProvider,
};

const DEMO: ModuleId = ModuleId::Pallet(*b"ismp-ast");

fn config() -> IsmpConfig {
    IsmpConfig { parachain_consensus_id: *b"PARA", demo_module: DEMO }
}

fn err(text: &str) -> Result<Route, IsmpError> {
    Err(IsmpError::ImplementationSpecific(text.to_string()))
}

fn post(dest: StateMachine, to: &[u8]) -> PostRequest {
    PostRequest { source: StateMachine::Evm(1), dest, from: vec![1, 2, 3], to: to.to_vec() }
}

#[test]
fn host_is_the_polkadot_parachain() {
    assert_eq!(StateMachineProvider::get(909), StateMachine::Polkadot(909));
}

#[test]
fn only_the_parachain_consensus_client_is_known() {
    let c = config();
    assert_eq!(ConsensusProvider::consensus_client(&c, *b"PARA"), Ok(ConsensusClientKind::Parachain));
    assert_eq!(
        ConsensusProvider::consensus_client(&c, *b"BEEF"),
        Err(IsmpError::ImplementationSpecific("Unknown consensus client".to_string()))
    );
}

#[test]
fn requests_for_other_chains_are_forwarded() {
    let c = config();
    for dest in [StateMachine::Polkadot(1000), StateMachine::Kusama(909), StateMachine::Evm(909)] {
        assert_eq!(ProxyModule.on_accept(&c, 909, &post(dest, b"ismp-ast")), Ok(Route::Forward));
        assert_eq!(ProxyModule.on_accept(&c, 909, &post(dest, &[1, 2, 3])), Ok(Route::Forward));
    }
}

#[test]
fn requests_for_this_chain_go_to_the_demo_module() {
    let c = config();
    let here = StateMachine::Polkadot(909);
    assert_eq!(ProxyModule.on_accept(&c, 909, &post(here, b"ismp-ast")), Ok(Route::Demo));
    assert_eq!(
        ProxyModule.on_accept(&c, 909, &post(here, b"other-id")),
        err("Destination module not found")
    );
    assert_eq!(
        ProxyModule.on_accept(&c, 909, &post(here, &[0u8; 20])),
        err("Destination module not found")
    );
    assert_eq!(
        ProxyModule.on_accept(&c, 909, &post(here, &[7u8; 32])),
        err("Destination module not found")
    );
    for bad in [&[][..], &[1, 2, 3][..], &[0u8; 9][..], &[0u8; 33][..]] {
        assert_eq!(ProxyModule.on_accept(&c, 909, &post(here, bad)), err("Unknown Module ID format"));
    }
}

#[test]
fn contract_and_evm_modules_can_be_the_demo_module() {
    let here = StateMachine::Polkadot(909);
    let contract = IsmpConfig { demo_module: ModuleId::Contract([7u8; 32]), ..config() };
    assert_eq!(ProxyModule.on_accept(&contract, 909, &post(here, &[7u8; 32])), Ok(Route::Demo));
    assert_eq!(
        ProxyModule.on_accept(&contract, 909, &post(here, b"ismp-ast")),
        err("Destination module not found")
    );
    let evm = IsmpConfig { demo_module: ModuleId::Evm([9u8; 20]), ..config() };
    assert_eq!(ProxyModule.on_accept(&evm, 909, &post(here, &[9u8; 20])), Ok(Route::Demo));
}

fn get_request(source: StateMachine, from: &[u8]) -> GetRequest {
    GetRequest { source, dest: StateMachine::Polkadot(2000), from: from.to_vec() }
}

#[test]
fn responses_go_back_to_the_chain_that_asked() {
    let c = config();
    let foreign = Response::Get(get_request(StateMachine::Polkadot(1), b"ismp-ast"));
    assert_eq!(foreign.dest_chain(), StateMachine::Polkadot(1));
    assert_eq!(ProxyModule.on_response(&c, 909, &foreign), Ok(Route::Forward));
    let ours = Response::Post(post(StateMachine::Polkadot(1), b"ismp-ast"));
    assert_eq!(ours.dest_chain(), StateMachine::Evm(1));
    assert_eq!(ProxyModule.on_response(&c, 909, &ours), Ok(Route::Forward));
    let local = Response::Get(get_request(StateMachine::Polkadot(909), b"ismp-ast"));
    assert_eq!(ProxyModule.on_response(&c, 909, &local), Ok(Route::Demo));
    let other = Response::Get(get_request(StateMachine::Polkadot(909), &[3u8; 32]));
    assert_eq!(ProxyModule.on_response(&c, 909, &other), err("Destination module not found"));
    let bad = Response::Get(get_request(StateMachine::Polkadot(909), &[3u8; 5]));
    assert_eq!(ProxyModule.on_response(&c, 909, &bad), err("Unknown Module ID format"));
}

#[test]
fn response_request_and_source_module() {
    let get = get_request(StateMachine::Polkadot(909), b"ismp-ast");
    let response = Response::Get(get.clone());
    let request = response.request();
    assert_eq!(request, Request::Get(get));
    assert_eq!(request.source_module(), b"ismp-ast".to_vec());
    let p = post(StateMachine::Kusama(3), b"ismp-ast");
    assert_eq!(Request::Post(p.clone()).source_module(), vec![1, 2, 3]);
    assert_eq!(Response::Post(p.clone()).request(), Request::Post(p));
}

#[test]
fn timeouts_are_never_forwarded() {
    let c = config();
    let from_demo = Request::Get(get_request(StateMachine::Polkadot(1), b"ismp-ast"));
    assert_eq!(ProxyModule.on_timeout(&c, &from_demo), Ok(Route::Demo));
    let from_other = Request::Get(get_request(StateMachine::Polkadot(1), &[0u8; 8]));
    assert_eq!(ProxyModule.on_timeout(&c, &from_other), err("Destination module not found"));
    let post_from_bad = Request::Post(post(StateMachine::Polkadot(2), b"ismp-ast"));
    assert_eq!(ProxyModule.on_timeout(&c, &post_from_bad), err("Unknown Module ID format"));
}

#[test]
fn every_module_id_is_served_by_the_proxy() {
    assert_eq!(Router.module_for_id(vec![]), ProxyModule);
    assert_eq!(Router.module_for_id(vec![1; 32]), ProxyModule);
}

#[test]
fn latest_height_is_keyed_by_the_parachain_consensus() {
    assert_eq!(
        StateMachineHeight::latest_height_key(&config(), StateMachine::Kusama(2)),
        StateMachineId { state_id: StateMachine::Kusama(2), consensus_state_id: *b"PARA" }
    );
}
