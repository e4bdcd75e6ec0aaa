use pop_runtime::extension::{
    convert_err, CallAction, CallEvent, CallState, DispatchError, FuncId, PopApiExtension,
    RawOrigin, RetVal, CALL_RUNTIME_FUNC_ID,
};

/// A decoded runtime call, an account and an error, for the tests.
type Call = &'static str;
type Account = [u8; 32];
type Event = CallEvent<Call, Account, u8>;
type Action = CallAction<Call, Account, u8>;

const CALLER: Account = [5u8; 32];

fn unimplemented() -> DispatchError<u8> {
    DispatchError::Other("Unimplemented func_id")
}

#[test]
fn call_runtime_func_id_is_recognised() {
    assert_eq!(CALL_RUNTIME_FUNC_ID, 0xfecb);
    assert_eq!(FuncId::try_from::<u8>(0xfecb), Ok(FuncId::CallRuntime));
}

#[test]
fn other_func_ids_are_refused() {
    for id in [0u16, 1, 0xfeca, 0xfecc, 0xffff] {
        assert_eq!(FuncId::try_from::<u8>(id), Err(unimplemented()));
    }
}

#[test]
fn convert_err_replaces_any_error() {
    assert_eq!(
        convert_err::<u8>("Pop API failed", DispatchError::Runtime(3)),
        DispatchError::Other("Pop API failed")
    );
    assert_eq!(
        convert_err::<u8>("x", DispatchError::Other("y")),
        DispatchError::Other("x")
    );
}

/// Runs a whole call, feeding each event in turn, and collects the actions.
fn run(events: Vec<Event>) -> (CallState<Call>, Vec<Action>) {
    let mut ext = PopApiExtension::new();
    let mut actions = Vec::new();
    for e in events {
        if let Some(a) = ext.step(e) {
            actions.push(a);
        }
    }
    (ext.state, actions)
}

fn full(func_id: u16, d: Result<Call, u8>, o: Result<Account, u8>, x: Result<(), u8>) -> Vec<Event> {
    vec![
        CallEvent::Invoked(func_id),
        CallEvent::CallDecoded(d),
        CallEvent::OriginResolved(o),
        CallEvent::Dispatched(x),
    ]
}

#[test]
fn successful_call_is_dispatched_signed_by_the_caller_and_converges() {
    let (state, actions) = run(full(0xfecb, Ok("remark"), Ok(CALLER), Ok(())));
    assert_eq!(state, CallState::Finished);
    assert_eq!(
        actions,
        vec![
            CallAction::ReadCall,
            CallAction::ResolveOrigin,
            CallAction::DispatchCall { call: "remark", origin: RawOrigin::Signed(CALLER) },
            CallAction::Return(Ok(RetVal::Converging(0))),
        ]
    );
}

#[test]
fn unknown_func_id_reads_nothing() {
    let (state, actions) = run(full(7, Ok("remark"), Ok(CALLER), Ok(())));
    assert_eq!(state, CallState::Finished);
    assert_eq!(actions, vec![CallAction::Return(Err(unimplemented()))]);
}

#[test]
fn decode_failure_is_returned_before_dispatch() {
    let (_, actions) = run(full(0xfecb, Err(1), Ok(CALLER), Ok(())));
    assert_eq!(
        actions,
        vec![CallAction::ReadCall, CallAction::Return(Err(DispatchError::Runtime(1)))]
    );
}

#[test]
fn origin_failure_is_returned_before_dispatch() {
    let (_, actions) = run(full(0xfecb, Ok("remark"), Err(2), Ok(())));
    assert_eq!(
        actions,
        vec![
            CallAction::ReadCall,
            CallAction::ResolveOrigin,
            CallAction::Return(Err(DispatchError::Runtime(2))),
        ]
    );
}

#[test]
fn dispatch_failure_is_passed_on() {
    let (_, actions) = run(full(0xfecb, Ok("transfer"), Ok(CALLER), Err(9)));
    assert_eq!(actions.last(), Some(&CallAction::Return(Err(DispatchError::Runtime(9)))));
    assert!(actions.contains(&CallAction::DispatchCall {
        call: "transfer",
        origin: RawOrigin::Signed(CALLER)
    }));
}

#[test]
fn events_out_of_turn_are_ignored() {
    let mut ext: PopApiExtension<Call> = PopApiExtension::new();
    assert_eq!(ext.step::<Account, u8>(CallEvent::Dispatched(Ok(()))), None);
    assert_eq!(ext.state, CallState::Idle);
    assert_eq!(ext.step::<Account, u8>(CallEvent::Invoked(0xfecb)), Some(CallAction::ReadCall));
    assert_eq!(ext.step::<Account, u8>(CallEvent::Invoked(0xfecb)), None);
    assert_eq!(ext.state, CallState::ReadingCall);
    assert_eq!(ext.step::<Account, u8>(CallEvent::CallDecoded(Ok("remark"))), Some(CallAction::ResolveOrigin));
    assert_eq!(ext.step::<Account, u8>(CallEvent::Dispatched(Ok(()))), None);
    assert_eq!(ext.state, CallState::ResolvingOrigin("remark"));
}

#[test]
fn finished_call_asks_for_nothing_more() {
    let mut ext: PopApiExtension<Call> = PopApiExtension::new();
    ext.step::<Account, u8>(CallEvent::Invoked(1));
    assert_eq!(ext.state, CallState::Finished);
    assert_eq!(ext.step::<Account, u8>(CallEvent::Invoked(0xfecb)), None);
    assert_eq!(ext.step::<Account, u8>(CallEvent::CallDecoded(Ok("remark"))), None);
    assert_eq!(ext.state, CallState::Finished);
}
