//! The fungibles API that Pop offers contracts: the keys of the asset state
//! they may read, with their wire format, and the dispatchables that move and
//! approve assets through the assets pallet.
use vstd::prelude::*;

use crate::weights::Weight;

verus! {

/// Identifier of an asset.
pub type AssetId = u32;

/// An account, as its 32 raw bytes.
pub type AccountId = [u8; 32];

/// An amount of an asset.
pub type Balance = u128;

/// The required input for state queries in pallet assets.
#[derive(Clone, Copy, Debug, PartialEq, Eq)]
pub enum AssetsKeys {
    /// Total supply of an asset.
    TotalSupply(AssetId),
    /// Balance of an account in an asset.
    BalanceOf(AssetId, AccountId),
    /// What a spender may still move of an owner's asset: asset, owner, spender.
    Allowance(AssetId, AccountId, AccountId),
    /// Name of an asset.
    TokenName(AssetId),
    /// Symbol of an asset.
    TokenSymbol(AssetId),
    /// Decimals of an asset.
    TokenDecimals(AssetId),
}

/// Why bytes could not be read as an `AssetsKeys`.
#[derive(Clone, Copy, Debug, PartialEq, Eq, Structural)]
pub enum DecodeError {
    /// The input is empty: there is no variant byte.
    NoVariantByte,
    /// The variant byte names no variant.
    UnknownVariant(u8),
    /// The input ends before the fields of the variant do.
    NotEnoughData,
}

/// The number of bytes that the largest key takes: the variant byte, an asset
/// id and two accounts.
pub const MAX_ENCODED_LEN: usize = 69;

/// The four little-endian bytes of a `u32`.
pub open spec fn u32_le(x: u32) -> Seq<u8> {
    seq![(x & 0xff) as u8, ((x >> 8u32) & 0xff) as u8, ((x >> 16u32) & 0xff) as u8, ((x >> 24u32) & 0xff) as u8]
}

/// The `u32` whose little-endian bytes are `b0, b1, b2, b3`.
pub open spec fn u32_from_le(b0: u8, b1: u8, b2: u8, b3: u8) -> u32 {
    (b0 as u32) | ((b1 as u32) << 8u32) | ((b2 as u32) << 16u32) | ((b3 as u32) << 24u32)
}

proof fn lemma_u32_le_roundtrip(x: u32)
    ensures
        u32_from_le(u32_le(x)[0], u32_le(x)[1], u32_le(x)[2], u32_le(x)[3]) == x,
{
    let b0 = (x & 0xff) as u8;
    let b1 = ((x >> 8u32) & 0xff) as u8;
    let b2 = ((x >> 16u32) & 0xff) as u8;
    let b3 = ((x >> 24u32) & 0xff) as u8;
    assert(((b0 as u32) | ((b1 as u32) << 8u32) | ((b2 as u32) << 16u32) | ((b3 as u32) << 24u32)) == x) by (bit_vector)
        requires
            b0 == (x & 0xff) as u8,
            b1 == ((x >> 8u32) & 0xff) as u8,
            b2 == ((x >> 16u32) & 0xff) as u8,
            b3 == ((x >> 24u32) & 0xff) as u8,
    ;
}

proof fn lemma_u32_from_le_bytes(b0: u8, b1: u8, b2: u8, b3: u8)
    ensures
        u32_le(u32_from_le(b0, b1, b2, b3)) == seq![b0, b1, b2, b3],
{
    let x = u32_from_le(b0, b1, b2, b3);
    assert((x & 0xff) as u8 == b0 && ((x >> 8u32) & 0xff) as u8 == b1
        && ((x >> 16u32) & 0xff) as u8 == b2 && ((x >> 24u32) & 0xff) as u8 == b3) by (bit_vector)
        requires
            x == (b0 as u32) | ((b1 as u32) << 8u32) | ((b2 as u32) << 16u32) | ((b3 as u32) << 24u32),
    ;
    assert(u32_le(x) =~= seq![b0, b1, b2, b3]);
}

/// The codec index of each variant, as the wire format writes it first.
pub open spec fn variant_index(key: AssetsKeys) -> u8 {
    match key {
        AssetsKeys::TotalSupply(_) => 0,
        AssetsKeys::BalanceOf(_, _) => 1,
        AssetsKeys::Allowance(_, _, _) => 2,
        AssetsKeys::TokenName(_) => 3,
        AssetsKeys::TokenSymbol(_) => 4,
        AssetsKeys::TokenDecimals(_) => 5,
    }
}

/// The number of bytes a key of the variant with this index takes.
pub open spec fn encoded_len_of_index(index: u8) -> nat {
    if index == 1 {
        37
    } else if index == 2 {
        69
    } else {
        5
    }
}

/// The wire format of a key: the variant's codec index, then its fields in
/// order, an asset id as four little-endian bytes and an account as its 32 bytes.
pub open spec fn spec_encode(key: AssetsKeys) -> Seq<u8> {
    match key {
        AssetsKeys::TotalSupply(id) => seq![0u8] + u32_le(id),
        AssetsKeys::BalanceOf(id, owner) => seq![1u8] + u32_le(id) + owner@,
        AssetsKeys::Allowance(id, owner, spender) => seq![2u8] + u32_le(id) + owner@ + spender@,
        AssetsKeys::TokenName(id) => seq![3u8] + u32_le(id),
        AssetsKeys::TokenSymbol(id) => seq![4u8] + u32_le(id),
        AssetsKeys::TokenDecimals(id) => seq![5u8] + u32_le(id),
    }
}

/// Appends the little-endian bytes of `x`.
fn push_u32_le(out: &mut Vec<u8>, x: u32)
    ensures
        final(out)@ == old(out)@ + u32_le(x),
{
    out.push((x & 0xff) as u8);
    out.push(((x >> 8u32) & 0xff) as u8);
    out.push(((x >> 16u32) & 0xff) as u8);
    out.push(((x >> 24u32) & 0xff) as u8);
    assert(final(out)@ =~= old(out)@ + u32_le(x));
}

/// Appends the bytes of an account.
fn push_account(out: &mut Vec<u8>, account: &AccountId)
    ensures
        final(out)@ == old(out)@ + account@,
{
    let ghost start = out@;
    for i in 0..32usize
        invariant
            out@ == start + account@.take(i as int),
    {
        out.push(account[i]);
        assert(start + account@.take(i + 1) =~= start + account@.take(i as int) + seq![account@[i as int]]);
    }
    assert(account@.take(32) =~= account@);
}

/// Reads the `u32` whose little-endian bytes start at `at`.
fn read_u32_le(input: &[u8], at: usize) -> (x: u32)
    requires
        at + 4 <= input@.len(),
    ensures
        u32_le(x) == input@.subrange(at as int, at + 4),
{
    let x = (input[at] as u32) | ((input[at + 1] as u32) << 8u32) | ((input[at + 2] as u32) << 16u32)
        | ((input[at + 3] as u32) << 24u32);
    proof {
        lemma_u32_from_le_bytes(input@[at as int], input@[at + 1], input@[at + 2], input@[at + 3]);
        assert(input@.subrange(at as int, at + 4) =~= seq![input@[at as int], input@[at + 1], input@[at + 2], input@[at + 3]]);
    }
    x
}

/// Reads the account whose bytes start at `at`.
fn read_account(input: &[u8], at: usize) -> (account: AccountId)
    requires
        at + 32 <= input@.len(),
    ensures
        account@ == input@.subrange(at as int, at + 32),
{
    let mut account: AccountId = [0u8; 32];
    for i in 0..32usize
        invariant
            at + 32 <= input@.len(),
            forall|j: int| 0 <= j < i ==> account@[j] == input@[at + j],
    {
        assert(input@.len() == input.len());
        account[i] = input[at + i];
    }
    assert(account@ =~= input@.subrange(at as int, at + 32));
    account
}

proof fn lemma_encode_len(key: AssetsKeys)
    ensures
        spec_encode(key).len() == encoded_len_of_index(variant_index(key)),
        spec_encode(key).len() <= MAX_ENCODED_LEN,
        spec_encode(key)[0] == variant_index(key),
{
}

/// Two keys with the same bytes are the same key.
proof fn lemma_encode_injective(a: AssetsKeys, b: AssetsKeys)
    requires
        spec_encode(a) == spec_encode(b),
    ensures
        a == b,
{
    let ea = spec_encode(a);
    let eb = spec_encode(b);
    assert(ea[0] == eb[0]);
    lemma_encode_len(a);
    lemma_encode_len(b);
    let ida = match a {
        AssetsKeys::TotalSupply(id) => id,
        AssetsKeys::BalanceOf(id, _) => id,
        AssetsKeys::Allowance(id, _, _) => id,
        AssetsKeys::TokenName(id) => id,
        AssetsKeys::TokenSymbol(id) => id,
        AssetsKeys::TokenDecimals(id) => id,
    };
    let idb = match b {
        AssetsKeys::TotalSupply(id) => id,
        AssetsKeys::BalanceOf(id, _) => id,
        AssetsKeys::Allowance(id, _, _) => id,
        AssetsKeys::TokenName(id) => id,
        AssetsKeys::TokenSymbol(id) => id,
        AssetsKeys::TokenDecimals(id) => id,
    };
    assert(ea.subrange(1, 5) =~= u32_le(ida));
    assert(eb.subrange(1, 5) =~= u32_le(idb));
    lemma_u32_le_roundtrip(ida);
    lemma_u32_le_roundtrip(idb);
    assert(ida == idb);
    match (a, b) {
        (AssetsKeys::BalanceOf(_, oa), AssetsKeys::BalanceOf(_, ob)) => {
            assert(ea.subrange(5, 37) =~= oa@);
            assert(eb.subrange(5, 37) =~= ob@);
            assert(oa =~= ob);
        },
        (AssetsKeys::Allowance(_, oa, sa), AssetsKeys::Allowance(_, ob, sb)) => {
            assert(ea.subrange(5, 37) =~= oa@);
            assert(eb.subrange(5, 37) =~= ob@);
            assert(oa =~= ob);
            assert(ea.subrange(37, 69) =~= sa@);
            assert(eb.subrange(37, 69) =~= sb@);
            assert(sa =~= sb);
        },
        _ => {},
    }
}

impl AssetsKeys {
    /// The most bytes that a key takes on the wire.
    pub fn max_encoded_len() -> (n: usize)
        ensures
            n == MAX_ENCODED_LEN,
            forall|key: AssetsKeys| #[trigger] spec_encode(key).len() <= n,
    {
        assert forall|key: AssetsKeys| #[trigger] spec_encode(key).len() <= MAX_ENCODED_LEN by {
            lemma_encode_len(key);
        }
        MAX_ENCODED_LEN
    }

    /// The key in its wire format.
    pub fn encode(&self) -> (bytes: Vec<u8>)
        ensures
            bytes@ == spec_encode(*self),
    {
        let mut out: Vec<u8> = Vec::new();
        match self {
            AssetsKeys::TotalSupply(id) => {
                out.push(0u8);
                push_u32_le(&mut out, *id);
            },
            AssetsKeys::BalanceOf(id, owner) => {
                out.push(1u8);
                push_u32_le(&mut out, *id);
                push_account(&mut out, owner);
            },
            AssetsKeys::Allowance(id, owner, spender) => {
                out.push(2u8);
                push_u32_le(&mut out, *id);
                push_account(&mut out, owner);
                push_account(&mut out, spender);
            },
            AssetsKeys::TokenName(id) => {
                out.push(3u8);
                push_u32_le(&mut out, *id);
            },
            AssetsKeys::TokenSymbol(id) => {
                out.push(4u8);
                push_u32_le(&mut out, *id);
            },
            AssetsKeys::TokenDecimals(id) => {
                out.push(5u8);
                push_u32_le(&mut out, *id);
            },
        }
        assert(out@ =~= spec_encode(*self));
        out
    }

    /// Reads a key from the start of `input`, as the wire format lays it out,
    /// and says how many bytes it took; bytes after the key are left alone.
    pub fn decode(input: &[u8]) -> (res: Result<(AssetsKeys, usize), DecodeError>)
        ensures
            input@.len() == 0 ==> res == Err::<(AssetsKeys, usize), DecodeError>(DecodeError::NoVariantByte),
            input@.len() > 0 && input@[0] > 5 ==> res == Err::<(AssetsKeys, usize), DecodeError>(
                DecodeError::UnknownVariant(input@[0])),
            input@.len() > 0 && input@[0] <= 5 && input@.len() < encoded_len_of_index(input@[0])
                ==> res == Err::<(AssetsKeys, usize), DecodeError>(DecodeError::NotEnoughData),
            input@.len() > 0 && input@[0] <= 5 && input@.len() >= encoded_len_of_index(input@[0])
                ==> res is Ok,
            res matches Ok((key, n)) ==> n == encoded_len_of_index(input@[0])
                && n <= MAX_ENCODED_LEN
                && spec_encode(key) == input@.take(n as int),
    {
        if input.len() == 0 {
            return Err(DecodeError::NoVariantByte);
        }
        let index = input[0];
        if index > 5 {
            return Err(DecodeError::UnknownVariant(index));
        }
        let needed: usize = if index == 1 {
            37
        } else if index == 2 {
            69
        } else {
            5
        };
        if input.len() < needed {
            return Err(DecodeError::NotEnoughData);
        }
        let id = read_u32_le(input, 1);
        let key = if index == 0 {
            AssetsKeys::TotalSupply(id)
        } else if index == 1 {
            AssetsKeys::BalanceOf(id, read_account(input, 5))
        } else if index == 2 {
            let owner = read_account(input, 5);
            let spender = read_account(input, 37);
            AssetsKeys::Allowance(id, owner, spender)
        } else if index == 3 {
            AssetsKeys::TokenName(id)
        } else if index == 4 {
            AssetsKeys::TokenSymbol(id)
        } else {
            AssetsKeys::TokenDecimals(id)
        };
        assert(spec_encode(key) =~= input@.take(needed as int));
        Ok((key, needed))
    }
}

/// Reading back what `encode` wrote gives the same key and consumes exactly its
/// bytes, whatever follows it in the input: the input starts with a known
/// variant byte, holds all the bytes that variant needs, and the only key whose
/// bytes are those is `key`.
pub proof fn lemma_decode_encode(key: AssetsKeys, rest: Seq<u8>)
    ensures
        ({
            let input = spec_encode(key) + rest;
            &&& input.len() > 0
            &&& input[0] <= 5
            &&& encoded_len_of_index(input[0]) == spec_encode(key).len()
            &&& input.len() >= encoded_len_of_index(input[0])
            &&& input.take(spec_encode(key).len() as int) == spec_encode(key)
            &&& forall|other: AssetsKeys|
                #[trigger] spec_encode(other) == input.take(spec_encode(key).len() as int)
                ==> other == key
        }),
{
    let input = spec_encode(key) + rest;
    lemma_encode_len(key);
    assert(input.take(spec_encode(key).len() as int) =~= spec_encode(key));
    assert forall|other: AssetsKeys|
        #[trigger] spec_encode(other) == input.take(spec_encode(key).len() as int)
        implies other == key by {
        lemma_encode_injective(other, key);
    }
}

/// Writing a key that was read gives back exactly the bytes it was read from.
pub proof fn lemma_encode_decode(input: Seq<u8>, key: AssetsKeys, n: int)
    requires
        input.len() > 0,
        n == encoded_len_of_index(input[0]),
        n <= input.len(),
        spec_encode(key) == input.take(n),
    ensures
        spec_encode(key) + input.skip(n) == input,
        variant_index(key) == input[0],
{
    lemma_encode_len(key);
    assert(input.take(n) + input.skip(n) =~= input);
}

/// Whether the sender pays the fee of a dispatch.
#[derive(Clone, Copy, Debug, PartialEq, Eq, Structural)]
pub enum Pays {
    Yes,
    No,
}

/// What a dispatch reports beside its outcome: the weight it actually used,
/// when that is known to differ from the declared one, and who pays.
#[derive(Clone, Copy, Debug, PartialEq, Eq, Structural)]
pub struct PostDispatchInfo {
    pub actual_weight: Option<Weight>,
    pub pays_fee: Pays,
}

/// A failed dispatch: the error, with what the dispatch reports beside it.
#[derive(Debug, PartialEq, Eq)]
pub struct DispatchErrorWithPostInfo<E> {
    pub post_info: PostDispatchInfo,
    pub error: E,
}

/// The info of a dispatch that used no more than it declared and is paid for.
pub open spec fn default_post_info() -> PostDispatchInfo {
    PostDispatchInfo { actual_weight: None, pays_fee: Pays::Yes }
}

/// `error`, reported as having used `weight`, paid by the sender.
pub open spec fn with_weight<E>(error: E, weight: Weight) -> DispatchErrorWithPostInfo<E> {
    DispatchErrorWithPostInfo {
        post_info: PostDispatchInfo { actual_weight: Some(weight), pays_fee: Pays::Yes },
        error,
    }
}

/// A call into the assets pallet, made with the origin of the dispatchable.
#[derive(Clone, Copy, Debug, PartialEq, Eq)]
pub enum AssetsCall {
    /// Move `amount` of asset `id` to `target`, keeping the sender's account alive.
    TransferKeepAlive { id: AssetId, target: AccountId, amount: Balance },
    /// Withdraw what the sender had approved `delegate` to move of asset `id`.
    CancelApproval { id: AssetId, delegate: AccountId },
    /// Approve `delegate` to move `amount` of the sender's asset `id`.
    ApproveTransfer { id: AssetId, delegate: AccountId, amount: Balance },
}

/// The fungibles pallet.
#[derive(Clone, Copy, Debug, PartialEq, Eq, Structural)]
pub struct Pallet;

impl Pallet {
    /// Transfers `amount` of asset `id` to `target`: the transfer is made with
    /// the assets pallet's keep-alive transfer, and its outcome is the outcome
    /// of the dispatchable.
    pub fn transfer(id: AssetId, target: AccountId, amount: Balance) -> (call: AssetsCall)
        ensures
            call == (AssetsCall::TransferKeepAlive { id, target, amount }),
    {
        AssetsCall::TransferKeepAlive { id, target, amount }
    }

    /// The weight that `approve` declares: that of cancelling an approval and
    /// that of approving, together.
    pub fn approve_weight(cancel_approval: Weight, approve_transfer: Weight) -> (w: Weight)
        requires
            cancel_approval.ref_time + approve_transfer.ref_time <= u64::MAX,
            cancel_approval.proof_size + approve_transfer.proof_size <= u64::MAX,
        ensures
            w.ref_time == cancel_approval.ref_time + approve_transfer.ref_time,
            w.proof_size == cancel_approval.proof_size + approve_transfer.proof_size,
    {
        cancel_approval.add(approve_transfer)
    }

    /// Approves `spender` to move `value` of the sender's asset `id`: first the
    /// approval standing for that spender is cancelled, then the new one is
    /// made. Returns the approval in progress and the first call to make.
    pub fn approve(
        id: AssetId,
        spender: AccountId,
        value: Balance,
        cancel_approval: Weight,
        approve_transfer: Weight,
    ) -> (res: (Approval, AssetsCall))
        requires
            cancel_approval.ref_time + approve_transfer.ref_time <= u64::MAX,
            cancel_approval.proof_size + approve_transfer.proof_size <= u64::MAX,
        ensures
            res.0.id == id,
            res.0.spender == spender,
            res.0.value == value,
            res.0.cancel_weight == cancel_approval,
            res.0.total_weight.ref_time == cancel_approval.ref_time + approve_transfer.ref_time,
            res.0.total_weight.proof_size == cancel_approval.proof_size + approve_transfer.proof_size,
            res.0.state == ApprovalState::Cancelling,
            res.1 == (AssetsCall::CancelApproval { id, delegate: spender }),
    {
        let total_weight = Self::approve_weight(cancel_approval, approve_transfer);
        (
            Approval {
                id,
                spender,
                value,
                cancel_weight: cancel_approval,
                total_weight,
                state: ApprovalState::Cancelling,
            },
            AssetsCall::CancelApproval { id, delegate: spender },
        )
    }
}

/// Where an approval stands.
#[derive(Clone, Copy, Debug, PartialEq, Eq, Structural)]
pub enum ApprovalState {
    /// The standing approval is being cancelled.
    Cancelling,
    /// The new approval is being made.
    Approving,
    /// The outcome has been given.
    Done,
}

/// An approval in progress: what is approved, the weights to report on
/// failure, and where it stands.
#[derive(Clone, Copy, Debug, PartialEq, Eq)]
pub struct Approval {
    pub id: AssetId,
    pub spender: AccountId,
    pub value: Balance,
    /// Reported when cancelling fails.
    pub cancel_weight: Weight,
    /// Reported when approving fails: cancelling and approving together.
    pub total_weight: Weight,
    pub state: ApprovalState,
}

/// What the assets pallet answered.
#[derive(Debug, PartialEq, Eq)]
pub enum ApprovalEvent<E> {
    /// Cancelling the standing approval ended so.
    Cancelled(Result<(), E>),
    /// Making the new approval ended so.
    Approved(Result<(), E>),
}

/// What to do next.
#[derive(Debug, PartialEq, Eq)]
pub enum ApprovalAction<E> {
    /// Make this call into the assets pallet.
    Call(AssetsCall),
    /// The dispatchable ends with this outcome.
    Finish(Result<PostDispatchInfo, DispatchErrorWithPostInfo<E>>),
}

/// The transition table of an approval: the next state, and the action to
/// take, or `None` for an answer that does not belong to the state it arrives
/// in (which leaves the approval as it was).
pub open spec fn spec_approval_step<E>(a: Approval, event: ApprovalEvent<E>) -> (Approval, Option<ApprovalAction<E>>) {
    match (a.state, event) {
        (ApprovalState::Cancelling, ApprovalEvent::Cancelled(r)) => match r {
            Ok(()) => (
                Approval { state: ApprovalState::Approving, ..a },
                Some(ApprovalAction::Call(AssetsCall::ApproveTransfer { id: a.id, delegate: a.spender, amount: a.value })),
            ),
            Err(e) => (
                Approval { state: ApprovalState::Done, ..a },
                Some(ApprovalAction::Finish(Err(with_weight(e, a.cancel_weight)))),
            ),
        },
        (ApprovalState::Approving, ApprovalEvent::Approved(r)) => match r {
            Ok(()) => (
                Approval { state: ApprovalState::Done, ..a },
                Some(ApprovalAction::Finish(Ok(default_post_info()))),
            ),
            Err(e) => (
                Approval { state: ApprovalState::Done, ..a },
                Some(ApprovalAction::Finish(Err(with_weight(e, a.total_weight)))),
            ),
        },
        _ => (a, None),
    }
}

impl Approval {
    /// Takes in what the assets pallet answered and says what to do next,
    /// following the transition table `spec_approval_step`.
    pub fn step<E>(&mut self, event: ApprovalEvent<E>) -> (action: Option<ApprovalAction<E>>)
        ensures
            (*final(self), action) == spec_approval_step(*old(self), event),
    {
        match (self.state, event) {
            (ApprovalState::Cancelling, ApprovalEvent::Cancelled(r)) => match r {
                Ok(()) => {
                    self.state = ApprovalState::Approving;
                    Some(ApprovalAction::Call(AssetsCall::ApproveTransfer {
                        id: self.id,
                        delegate: self.spender,
                        amount: self.value,
                    }))
                },
                Err(e) => {
                    self.state = ApprovalState::Done;
                    Some(ApprovalAction::Finish(Err(DispatchErrorWithPostInfo {
                        post_info: PostDispatchInfo {
                            actual_weight: Some(self.cancel_weight),
                            pays_fee: Pays::Yes,
                        },
                        error: e,
                    })))
                },
            },
            (ApprovalState::Approving, ApprovalEvent::Approved(r)) => {
                self.state = ApprovalState::Done;
                match r {
                    Ok(()) => Some(ApprovalAction::Finish(Ok(PostDispatchInfo {
                        actual_weight: None,
                        pays_fee: Pays::Yes,
                    }))),
                    Err(e) => Some(ApprovalAction::Finish(Err(DispatchErrorWithPostInfo {
                        post_info: PostDispatchInfo {
                            actual_weight: Some(self.total_weight),
                            pays_fee: Pays::Yes,
                        },
                        error: e,
                    }))),
                }
            },
            _ => None,
        }
    }
}

/// The outcome of `approve` for the given answers of the assets pallet.
pub open spec fn approve_outcome<E>(
    cancel_weight: Weight,
    approve_weight: Weight,
    cancelled: Result<(), E>,
    approved: Result<(), E>,
) -> Result<PostDispatchInfo, DispatchErrorWithPostInfo<E>> {
    if let Err(e) = cancelled {
        Err(with_weight(e, cancel_weight))
    } else if let Err(e) = approved {
        Err(with_weight(e, Weight {
            ref_time: (cancel_weight.ref_time + approve_weight.ref_time) as u64,
            proof_size: (cancel_weight.proof_size + approve_weight.proof_size) as u64,
        }))
    } else {
        Ok(default_post_info())
    }
}

/// An approval, whatever the assets pallet answers: it cancels the standing
/// approval for the spender first; it asks to approve only if cancelling
/// succeeded, and then for the same asset, spender and amount; and it ends
/// with the first failure, reported with the weight used up to it
/// (cancelling alone, or cancelling and approving), or with success at the
/// declared weight, paid by the sender.
pub proof fn lemma_approve_outcome<E>(
    id: AssetId,
    spender: AccountId,
    value: Balance,
    cancel_weight: Weight,
    approve_weight: Weight,
    cancelled: Result<(), E>,
    approved: Result<(), E>,
)
    requires
        cancel_weight.ref_time + approve_weight.ref_time <= u64::MAX,
        cancel_weight.proof_size + approve_weight.proof_size <= u64::MAX,
    ensures
        ({
            let a0 = Approval {
                id,
                spender,
                value,
                cancel_weight,
                total_weight: Weight {
                    ref_time: (cancel_weight.ref_time + approve_weight.ref_time) as u64,
                    proof_size: (cancel_weight.proof_size + approve_weight.proof_size) as u64,
                },
                state: ApprovalState::Cancelling,
            };
            let (a1, act1) = spec_approval_step(a0, ApprovalEvent::Cancelled(cancelled));
            let (a2, act2) = spec_approval_step(a1, ApprovalEvent::Approved(approved));
            &&& a2.state == ApprovalState::Done
            &&& (cancelled is Ok <==> act1 == Some(ApprovalAction::<E>::Call(
                AssetsCall::ApproveTransfer { id, delegate: spender, amount: value })))
            &&& (cancelled is Err ==> act1 == Some(ApprovalAction::Finish(approve_outcome(
                cancel_weight, approve_weight, cancelled, approved))) && act2 is None)
            &&& (cancelled is Ok ==> act2 == Some(ApprovalAction::Finish(approve_outcome(
                cancel_weight, approve_weight, cancelled, approved))))
        }),
{
}

/// The four little-endian bytes of an asset id, by arithmetic: least
/// significant byte first.
proof fn lemma_u32_le_arith(x: u32)
    ensures
        u32_le(x) == seq![(x % 256) as u8, ((x / 256) % 256) as u8, ((x / 65536) % 256) as u8, (x / 16777216) as u8],
{
    assert((x & 0xff) == x % 256 && ((x >> 8u32) & 0xff) == (x / 256) % 256
        && ((x >> 16u32) & 0xff) == (x / 65536) % 256 && ((x >> 24u32) & 0xff) == x / 16777216) by (bit_vector);
    assert(u32_le(x) =~= seq![(x % 256) as u8, ((x / 256) % 256) as u8, ((x / 65536) % 256) as u8, (x / 16777216) as u8]);
}

/// The wire format of every key, byte by byte: first the variant's fixed codec
/// index (0 total supply, 1 balance, 2 allowance, 3 token name, 4 token
/// symbol, 5 token decimals), whatever the fields; then the asset id, least
/// significant byte first; then the owner's and the spender's 32 bytes, where
/// the key has them. This is what `encode` writes and what `decode` reads.
pub proof fn lemma_key_wire_format(id: AssetId, owner: AccountId, spender: AccountId)
    ensures
        ({
            let le = seq![(id % 256) as u8, ((id / 256) % 256) as u8, ((id / 65536) % 256) as u8, (id / 16777216) as u8];
            &&& spec_encode(AssetsKeys::TotalSupply(id)) == seq![0u8] + le
            &&& spec_encode(AssetsKeys::BalanceOf(id, owner)) == seq![1u8] + le + owner@
            &&& spec_encode(AssetsKeys::Allowance(id, owner, spender)) == seq![2u8] + le + owner@ + spender@
            &&& spec_encode(AssetsKeys::TokenName(id)) == seq![3u8] + le
            &&& spec_encode(AssetsKeys::TokenSymbol(id)) == seq![4u8] + le
            &&& spec_encode(AssetsKeys::TokenDecimals(id)) == seq![5u8] + le
            &&& variant_index(AssetsKeys::TotalSupply(id)) == 0
            &&& variant_index(AssetsKeys::BalanceOf(id, owner)) == 1
            &&& variant_index(AssetsKeys::Allowance(id, owner, spender)) == 2
            &&& variant_index(AssetsKeys::TokenName(id)) == 3
            &&& variant_index(AssetsKeys::TokenSymbol(id)) == 4
            &&& variant_index(AssetsKeys::TokenDecimals(id)) == 5
        }),
{
    lemma_u32_le_arith(id);
}

/// Every failed approval is paid by the sender and reports the weight it
/// used: the cancel weight when cancelling fails, cancel and approve together
/// when approving fails; a successful approval reports no actual weight and is
/// paid by the sender. The error of the assets pallet is handed on unchanged.
pub proof fn lemma_approval_fees<E>(a: Approval, e: E)
    ensures
        a.state == ApprovalState::Cancelling ==> spec_approval_step(a, ApprovalEvent::Cancelled(Err(e))).1
            == Some(ApprovalAction::Finish(Err::<PostDispatchInfo, DispatchErrorWithPostInfo<E>>(DispatchErrorWithPostInfo {
                post_info: PostDispatchInfo { actual_weight: Some(a.cancel_weight), pays_fee: Pays::Yes },
                error: e,
            }))),
        a.state == ApprovalState::Approving ==> spec_approval_step(a, ApprovalEvent::Approved(Err(e))).1
            == Some(ApprovalAction::Finish(Err::<PostDispatchInfo, DispatchErrorWithPostInfo<E>>(DispatchErrorWithPostInfo {
                post_info: PostDispatchInfo { actual_weight: Some(a.total_weight), pays_fee: Pays::Yes },
                error: e,
            }))),
        a.state == ApprovalState::Approving ==> spec_approval_step(a, ApprovalEvent::<E>::Approved(Ok(()))).1
            == Some(ApprovalAction::Finish(Ok::<PostDispatchInfo, DispatchErrorWithPostInfo<E>>(
                PostDispatchInfo { actual_weight: None, pays_fee: Pays::Yes }))),
{
}

} // verus!
