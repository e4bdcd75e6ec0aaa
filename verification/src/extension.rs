//! The Pop API chain extension: how a contract's call into the runtime is
//! admitted, carried out step by step, and answered.
//!
//! The runtime work (reading the contract's input buffer, decoding the call,
//! resolving the caller's origin, dispatching) is done by the host around
//! this module; here stands the decision of what to do next after each step,
//! and what the contract gets back in the end.
use vstd::prelude::*;

verus! {

/// The function id under which a contract asks the runtime to dispatch a call.
pub const CALL_RUNTIME_FUNC_ID: u16 = 0xfecb;

/// The functions this chain extension offers.
#[derive(Clone, Copy, Debug, PartialEq, Eq, Structural)]
pub enum FuncId {
    /// Decode a runtime call from the contract's input and dispatch it with the
    /// contract as signed origin.
    CallRuntime,
}

/// A failed dispatch as the contract sees it: either an error raised by the
/// extension itself, with its static description, or an error that one of the
/// runtime steps raised, handed on unchanged.
#[derive(Debug, PartialEq, Eq)]
pub enum DispatchError<E> {
    /// An error of the extension, with its description.
    Other(&'static str),
    /// An error raised by a runtime step.
    Runtime(E),
}

/// What the extension answers a contract that was served: the call converged
/// with the given status code.
#[derive(Clone, Copy, Debug, PartialEq, Eq, Structural)]
pub enum RetVal {
    Converging(u32),
}

/// The error that a function id that the extension does not offer is refused with.
pub open spec fn unimplemented_func_id<E>() -> DispatchError<E> {
    DispatchError::Other("Unimplemented func_id")
}

/// The function that a function id selects, if any.
pub open spec fn spec_func_id(func_id: u16) -> Option<FuncId> {
    if func_id == CALL_RUNTIME_FUNC_ID {
        Some(FuncId::CallRuntime)
    } else {
        None
    }
}

impl FuncId {
    /// Decodes a function id: the call-runtime id selects `CallRuntime`, any
    /// other id is refused with `Other("Unimplemented func_id")`.
    pub fn try_from<E>(func_id: u16) -> (res: Result<FuncId, DispatchError<E>>)
        ensures
            func_id == CALL_RUNTIME_FUNC_ID <==> res is Ok,
            res matches Ok(id) ==> Some(id) == spec_func_id(func_id),
            res matches Err(e) ==> e == unimplemented_func_id::<E>(),
    {
        if func_id == CALL_RUNTIME_FUNC_ID {
            Ok(FuncId::CallRuntime)
        } else {
            Err(DispatchError::Other("Unimplemented func_id"))
        }
    }
}

/// Replaces whatever error a step raised with the extension's own error
/// carrying `err_msg`.
pub fn convert_err<E>(err_msg: &'static str, err: DispatchError<E>) -> (res: DispatchError<E>)
    ensures
        res == DispatchError::<E>::Other(err_msg),
{
    DispatchError::Other(err_msg)
}

/// The origin a runtime call is dispatched with.
#[derive(Clone, Copy, Debug, PartialEq, Eq)]
pub enum RawOrigin<A> {
    /// The system itself.
    Root,
    /// Signed by this account.
    Signed(A),
    /// Signed by nobody (the runtime's `None` origin).
    Unsigned,
    /// Signed by nobody, authorized by the runtime.
    Authorized,
}

/// Where a call into the extension stands.
#[derive(Debug, PartialEq, Eq)]
pub enum CallState<C> {
    /// Nothing has happened yet.
    Idle,
    /// The function id was accepted; the call is being read from the input.
    ReadingCall,
    /// This call was decoded; the calling contract's account is being resolved.
    ResolvingOrigin(C),
    /// The call is being dispatched.
    Dispatching,
    /// The answer has been given.
    Finished,
}

/// What the host reports to the extension.
#[derive(Debug, PartialEq, Eq)]
pub enum CallEvent<C, A, E> {
    /// A contract called the extension with this function id.
    Invoked(u16),
    /// Reading and decoding the runtime call from the input gave this call, or failed so.
    CallDecoded(Result<C, E>),
    /// Resolving the calling contract gave this account, or failed so.
    OriginResolved(Result<A, E>),
    /// Dispatching the call ended so.
    Dispatched(Result<(), E>),
}

/// What the extension asks the host to do next.
#[derive(Debug, PartialEq, Eq)]
pub enum CallAction<C, A, E> {
    /// Read the whole input buffer and decode a runtime call from it.
    ReadCall,
    /// Resolve the account of the calling contract.
    ResolveOrigin,
    /// Dispatch this call with this origin.
    DispatchCall { call: C, origin: RawOrigin<A> },
    /// Answer the contract with this result; the call is over.
    Return(Result<RetVal, DispatchError<E>>),
}

/// The transition table of a call: the next state, and the action to take,
/// or `None` for an event that does not belong to the state it arrives in
/// (which leaves the state as it was). The decoded call is kept until the
/// caller's account is known, and then dispatched as signed by that account.
pub open spec fn spec_step<C, A, E>(state: CallState<C>, event: CallEvent<C, A, E>) -> (CallState<C>, Option<CallAction<C, A, E>>) {
    match (state, event) {
        (CallState::Idle, CallEvent::Invoked(func_id)) => {
            if func_id == CALL_RUNTIME_FUNC_ID {
                (CallState::ReadingCall, Some(CallAction::ReadCall))
            } else {
                (CallState::Finished, Some(CallAction::Return(Err(unimplemented_func_id()))))
            }
        },
        (CallState::ReadingCall, CallEvent::CallDecoded(r)) => match r {
            Ok(call) => (CallState::ResolvingOrigin(call), Some(CallAction::ResolveOrigin)),
            Err(e) => (CallState::Finished, Some(CallAction::Return(Err(DispatchError::Runtime(e))))),
        },
        (CallState::ResolvingOrigin(call), CallEvent::OriginResolved(r)) => match r {
            Ok(account) => (
                CallState::Dispatching,
                Some(CallAction::DispatchCall { call, origin: RawOrigin::Signed(account) }),
            ),
            Err(e) => (CallState::Finished, Some(CallAction::Return(Err(DispatchError::Runtime(e))))),
        },
        (CallState::Dispatching, CallEvent::Dispatched(r)) => match r {
            Ok(()) => (CallState::Finished, Some(CallAction::Return(Ok(RetVal::Converging(0))))),
            Err(e) => (CallState::Finished, Some(CallAction::Return(Err(DispatchError::Runtime(e))))),
        },
        (state, _) => (state, None),
    }
}

/// The chain extension for one call of a contract: the state of the call,
/// stepped by the events that the host reports.
#[derive(Debug, PartialEq, Eq)]
pub struct PopApiExtension<C> {
    pub state: CallState<C>,
}

impl<C> PopApiExtension<C> {
    /// A call that has not started.
    pub fn new() -> (ext: PopApiExtension<C>)
        ensures
            ext.state == CallState::<C>::Idle,
    {
        PopApiExtension { state: CallState::Idle }
    }

    /// Takes in what the host reports and says what to do next, following the
    /// transition table `spec_step`.
    pub fn step<A, E>(&mut self, event: CallEvent<C, A, E>) -> (action: Option<CallAction<C, A, E>>)
        ensures
            (final(self).state, action) == spec_step(old(self).state, event),
    {
        let mut state = CallState::Finished;
        core::mem::swap(&mut state, &mut self.state);
        match (state, event) {
            (CallState::Idle, CallEvent::Invoked(func_id)) => {
                match FuncId::try_from::<E>(func_id) {
                    Ok(FuncId::CallRuntime) => {
                        self.state = CallState::ReadingCall;
                        Some(CallAction::ReadCall)
                    },
                    Err(e) => Some(CallAction::Return(Err(e))),
                }
            },
            (CallState::ReadingCall, CallEvent::CallDecoded(r)) => match r {
                Ok(call) => {
                    self.state = CallState::ResolvingOrigin(call);
                    Some(CallAction::ResolveOrigin)
                },
                Err(e) => Some(CallAction::Return(Err(DispatchError::Runtime(e)))),
            },
            (CallState::ResolvingOrigin(call), CallEvent::OriginResolved(r)) => match r {
                Ok(account) => {
                    self.state = CallState::Dispatching;
                    Some(CallAction::DispatchCall { call, origin: RawOrigin::Signed(account) })
                },
                Err(e) => Some(CallAction::Return(Err(DispatchError::Runtime(e)))),
            },
            (CallState::Dispatching, CallEvent::Dispatched(r)) => match r {
                Ok(()) => Some(CallAction::Return(Ok(RetVal::Converging(0)))),
                Err(e) => Some(CallAction::Return(Err(DispatchError::Runtime(e)))),
            },
            (state, _) => {
                self.state = state;
                None
            },
        }
    }
}

/// Feeds `events` to a call in `state`, one after the other: the state reached
/// and the actions asked for on the way, in order.
pub open spec fn drive<C, A, E>(state: CallState<C>, events: Seq<CallEvent<C, A, E>>) -> (CallState<C>, Seq<CallAction<C, A, E>>)
    decreases events.len(),
{
    if events.len() == 0 {
        (state, Seq::empty())
    } else {
        let (next, action) = spec_step(state, events[0]);
        let (last, rest) = drive(next, events.drop_first());
        match action {
            Some(a) => (last, seq![a] + rest),
            None => (last, rest),
        }
    }
}

/// The events of a complete call, in the order the host reports them.
pub open spec fn call_events<C, A, E>(
    func_id: u16,
    decoded: Result<C, E>,
    origin: Result<A, E>,
    dispatched: Result<(), E>,
) -> Seq<CallEvent<C, A, E>> {
    seq![
        CallEvent::Invoked(func_id),
        CallEvent::CallDecoded(decoded),
        CallEvent::OriginResolved(origin),
        CallEvent::Dispatched(dispatched),
    ]
}

/// What the contract gets back: the first failure among the function id, the
/// decoding of the call, the origin and the dispatch, or `Converging(0)` when
/// all of them succeeded.
pub open spec fn call_outcome<C, A, E>(
    func_id: u16,
    decoded: Result<C, E>,
    origin: Result<A, E>,
    dispatched: Result<(), E>,
) -> Result<RetVal, DispatchError<E>> {
    if func_id != CALL_RUNTIME_FUNC_ID {
        Err(unimplemented_func_id())
    } else if let Err(e) = decoded {
        Err(DispatchError::Runtime(e))
    } else if let Err(e) = origin {
        Err(DispatchError::Runtime(e))
    } else if let Err(e) = dispatched {
        Err(DispatchError::Runtime(e))
    } else {
        Ok(RetVal::Converging(0))
    }
}

/// The actions of a complete call, in order: read the call, resolve the
/// caller, dispatch the decoded call signed by the caller, answer; cut short
/// by the answer at the first failure.
pub open spec fn call_actions<C, A, E>(
    func_id: u16,
    decoded: Result<C, E>,
    origin: Result<A, E>,
    dispatched: Result<(), E>,
) -> Seq<CallAction<C, A, E>> {
    let answer = CallAction::Return(call_outcome(func_id, decoded, origin, dispatched));
    if func_id != CALL_RUNTIME_FUNC_ID {
        seq![answer]
    } else if decoded is Err {
        seq![CallAction::ReadCall, answer]
    } else if origin is Err {
        seq![CallAction::ReadCall, CallAction::ResolveOrigin, answer]
    } else {
        seq![
            CallAction::ReadCall,
            CallAction::ResolveOrigin,
            CallAction::DispatchCall { call: decoded->Ok_0, origin: RawOrigin::Signed(origin->Ok_0) },
            answer,
        ]
    }
}

/// A call, whatever its steps report, ends finished with exactly one answer,
/// given as its last action, and that answer is the first failure among the
/// function id, the decoding, the origin and the dispatch, or `Converging(0)`
/// when all succeeded. A runtime call is dispatched if and only if the
/// function id is the call-runtime id and both the decoding and the origin
/// succeeded; then exactly one call is dispatched: the decoded call, signed by
/// the calling contract's account (never as root, unsigned or authorized).
pub proof fn lemma_call_outcome<C, A, E>(
    func_id: u16,
    decoded: Result<C, E>,
    origin: Result<A, E>,
    dispatched: Result<(), E>,
)
    ensures
        ({
            let (last, actions) = drive(
                CallState::<C>::Idle,
                call_events(func_id, decoded, origin, dispatched),
            );
            &&& last == CallState::<C>::Finished
            &&& actions == call_actions(func_id, decoded, origin, dispatched)
            &&& actions.len() > 0
            &&& actions.last() == CallAction::<C, A, E>::Return(
                call_outcome(func_id, decoded, origin, dispatched),
            )
            &&& forall|i: int|
                0 <= i < actions.len() - 1 ==> !(#[trigger] actions[i] is Return)
            &&& (exists|i: int| 0 <= i < actions.len() && #[trigger] actions[i] is DispatchCall)
                <==> (func_id == CALL_RUNTIME_FUNC_ID && decoded is Ok && origin is Ok)
            &&& forall|i: int| 0 <= i < actions.len() && #[trigger] actions[i] is DispatchCall
                ==> actions[i] == CallAction::<C, A, E>::DispatchCall {
                    call: decoded->Ok_0,
                    origin: RawOrigin::Signed(origin->Ok_0),
                }
            &&& forall|i: int, j: int| 0 <= i < actions.len() && 0 <= j < actions.len()
                && #[trigger] actions[i] is DispatchCall && #[trigger] actions[j] is DispatchCall
                ==> i == j
        }),
{
    let evs = call_events(func_id, decoded, origin, dispatched);
    reveal_with_fuel(drive, 5);
    assert(evs.drop_first().drop_first().drop_first().drop_first() =~= Seq::<CallEvent<C, A, E>>::empty());
    let (last, actions) = drive(CallState::<C>::Idle, evs);
    assert(actions =~= call_actions(func_id, decoded, origin, dispatched));
    if func_id == CALL_RUNTIME_FUNC_ID && decoded is Ok && origin is Ok {
        assert(actions[2] is DispatchCall);
    }
}

/// Once a call has been answered, nothing the host reports moves it or asks
/// for anything more.
pub proof fn lemma_finished_is_final<C, A, E>(event: CallEvent<C, A, E>)
    ensures
        spec_step(CallState::<C>::Finished, event) == (CallState::<C>::Finished, None::<CallAction<C, A, E>>),
{
}

/// The answers of a call, spelled out: with the call-runtime function id
/// 0xfecb and every step succeeding, the extension reads the call, resolves
/// the caller, dispatches the decoded call signed by the caller and answers
/// `Converging(0)`; any other function id is answered at once with
/// `Other("Unimplemented func_id")`; a failing step is answered with that
/// step's own error, and nothing after it is asked for.
pub proof fn lemma_call_answers<C, A, E>(func_id: u16, call: C, account: A, e: E)
    ensures
        drive(CallState::<C>::Idle, call_events::<C, A, E>(0xfecb, Ok(call), Ok(account), Ok(()))).1 == seq![
            CallAction::<C, A, E>::ReadCall,
            CallAction::ResolveOrigin,
            CallAction::DispatchCall { call, origin: RawOrigin::Signed(account) },
            CallAction::Return(Ok(RetVal::Converging(0))),
        ],
        func_id != 0xfecb ==> drive(CallState::<C>::Idle, call_events::<C, A, E>(func_id, Ok(call), Ok(account), Ok(()))).1
            == seq![CallAction::<C, A, E>::Return(Err(DispatchError::Other("Unimplemented func_id")))],
        drive(CallState::<C>::Idle, call_events::<C, A, E>(0xfecb, Err(e), Ok(account), Ok(()))).1 == seq![
            CallAction::<C, A, E>::ReadCall,
            CallAction::Return(Err(DispatchError::Runtime(e))),
        ],
        drive(CallState::<C>::Idle, call_events::<C, A, E>(0xfecb, Ok(call), Err(e), Ok(()))).1 == seq![
            CallAction::<C, A, E>::ReadCall,
            CallAction::ResolveOrigin,
            CallAction::Return(Err(DispatchError::Runtime(e))),
        ],
        drive(CallState::<C>::Idle, call_events::<C, A, E>(0xfecb, Ok(call), Ok(account), Err(e))).1 == seq![
            CallAction::<C, A, E>::ReadCall,
            CallAction::ResolveOrigin,
            CallAction::DispatchCall { call, origin: RawOrigin::Signed(account) },
            CallAction::Return(Err(DispatchError::Runtime(e))),
        ],
{
    lemma_call_outcome::<C, A, E>(0xfecb, Ok(call), Ok(account), Ok(()));
    lemma_call_outcome::<C, A, E>(func_id, Ok(call), Ok(account), Ok(()));
    lemma_call_outcome::<C, A, E>(0xfecb, Err(e), Ok(account), Ok(()));
    lemma_call_outcome::<C, A, E>(0xfecb, Ok(call), Err(e), Ok(()));
    lemma_call_outcome::<C, A, E>(0xfecb, Ok(call), Ok(account), Err(e));
}

} // verus!
