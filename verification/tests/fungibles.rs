use parity_scale_codec::Encode;
use pop_runtime::fungibles::{
    Approval, ApprovalAction, ApprovalEvent, ApprovalState, AssetsCall, AssetsKeys, DecodeError,
    DispatchErrorWithPostInfo, Pallet, Pays, PostDispatchInfo, MAX_ENCODED_LEN,
};
use pop_runtime::weights::Weight;

const ALICE: [u8; 32] = [1u8; 32];
const BOB: [u8; 32] = [2u8; 32];

fn all_keys() -> Vec<AssetsKeys> {
    vec![
        AssetsKeys::TotalSupply(42),
        AssetsKeys::BalanceOf(7, ALICE),
        AssetsKeys::Allowance(0xdead_beef, ALICE, BOB),
        AssetsKeys::TokenName(1),
        AssetsKeys::TokenSymbol(u32::MAX),
        AssetsKeys::TokenDecimals(0),
    ]
}

#[test]
fn encoding_matches_the_scale_codec() {
    assert_eq!(AssetsKeys::TotalSupply(42).encode(), (0u8, 42u32).encode());
    assert_eq!(AssetsKeys::BalanceOf(7, ALICE).encode(), (1u8, 7u32, ALICE).encode());
    assert_eq!(
        AssetsKeys::Allowance(0xdead_beef, ALICE, BOB).encode(),
        (2u8, 0xdead_beefu32, ALICE, BOB).encode()
    );
    assert_eq!(AssetsKeys::TokenName(1).encode(), (3u8, 1u32).encode());
    assert_eq!(AssetsKeys::TokenSymbol(u32::MAX).encode(), (4u8, u32::MAX).encode());
    assert_eq!(AssetsKeys::TokenDecimals(0).encode(), (5u8, 0u32).encode());
}

#[test]
fn encoding_exact_bytes() {
    assert_eq!(AssetsKeys::TotalSupply(0x0102_0304).encode(), vec![0, 4, 3, 2, 1]);
    let mut expected = vec![1u8, 7, 0, 0, 0];
    expected.extend_from_slice(&ALICE);
    assert_eq!(AssetsKeys::BalanceOf(7, ALICE).encode(), expected);
}

#[test]
fn max_encoded_len_is_the_allowance_key() {
    assert_eq!(AssetsKeys::max_encoded_len(), 69);
    assert_eq!(MAX_ENCODED_LEN, 69);
    for key in all_keys() {
        assert!(key.encode().len() <= AssetsKeys::max_encoded_len());
    }
    assert_eq!(AssetsKeys::Allowance(0, ALICE, BOB).encode().len(), 69);
}

#[test]
fn decode_reads_back_what_encode_wrote() {
    for key in all_keys() {
        let mut bytes = key.encode();
        let n = bytes.len();
        assert_eq!(AssetsKeys::decode(&bytes), Ok((key, n)));
        bytes.extend_from_slice(&[9, 9, 9]);
        assert_eq!(AssetsKeys::decode(&bytes), Ok((key, n)));
    }
}

#[test]
fn decode_errors() {
    assert_eq!(AssetsKeys::decode(&[]), Err(DecodeError::NoVariantByte));
    assert_eq!(AssetsKeys::decode(&[6, 0, 0, 0, 0]), Err(DecodeError::UnknownVariant(6)));
    assert_eq!(AssetsKeys::decode(&[255]), Err(DecodeError::UnknownVariant(255)));
    assert_eq!(AssetsKeys::decode(&[0, 1, 2, 3]), Err(DecodeError::NotEnoughData));
    assert_eq!(AssetsKeys::decode(&[1, 1, 2, 3, 4]), Err(DecodeError::NotEnoughData));
    let mut short = AssetsKeys::Allowance(3, ALICE, BOB).encode();
    short.pop();
    assert_eq!(AssetsKeys::decode(&short), Err(DecodeError::NotEnoughData));
}

#[test]
fn encode_of_decoded_bytes_gives_them_back() {
    let mut bytes = vec![2u8, 9, 8, 7, 6];
    bytes.extend_from_slice(&BOB);
    bytes.extend_from_slice(&ALICE);
    let (key, n) = AssetsKeys::decode(&bytes).unwrap();
    assert_eq!(n, bytes.len());
    assert_eq!(key, AssetsKeys::Allowance(0x0607_0809, BOB, ALICE));
    assert_eq!(key.encode(), bytes);
}

#[test]
fn weight_add_is_component_wise() {
    let a = Weight { ref_time: 1, proof_size: 2 };
    let b = Weight { ref_time: 30, proof_size: 40 };
    assert_eq!(a.add(b), Weight { ref_time: 31, proof_size: 42 });
    assert_eq!(
        Pallet::approve_weight(a, b),
        Weight { ref_time: 31, proof_size: 42 }
    );
}

#[test]
fn transfer_keeps_the_sender_alive() {
    assert_eq!(
        Pallet::transfer(5, BOB, 1_000),
        AssetsCall::TransferKeepAlive { id: 5, target: BOB, amount: 1_000 }
    );
}

fn start() -> Approval {
    let (approval, first) = Pallet::approve(
        3,
        BOB,
        500,
        Weight { ref_time: 10, proof_size: 1 },
        Weight { ref_time: 20, proof_size: 2 },
    );
    assert_eq!(first, AssetsCall::CancelApproval { id: 3, delegate: BOB });
    assert_eq!(approval.state, ApprovalState::Cancelling);
    approval
}

#[test]
fn approve_cancels_then_approves() {
    let mut approval = start();
    assert_eq!(
        approval.step::<u8>(ApprovalEvent::Cancelled(Ok(()))),
        Some(ApprovalAction::Call(AssetsCall::ApproveTransfer { id: 3, delegate: BOB, amount: 500 }))
    );
    assert_eq!(
        approval.step::<u8>(ApprovalEvent::Approved(Ok(()))),
        Some(ApprovalAction::Finish(Ok(PostDispatchInfo { actual_weight: None, pays_fee: Pays::Yes })))
    );
    assert_eq!(approval.state, ApprovalState::Done);
}

#[test]
fn approve_fails_with_cancel_weight_when_cancelling_fails() {
    let mut approval = start();
    assert_eq!(
        approval.step::<u8>(ApprovalEvent::Cancelled(Err(4))),
        Some(ApprovalAction::Finish(Err(DispatchErrorWithPostInfo {
            post_info: PostDispatchInfo {
                actual_weight: Some(Weight { ref_time: 10, proof_size: 1 }),
                pays_fee: Pays::Yes,
            },
            error: 4,
        })))
    );
    assert_eq!(approval.step::<u8>(ApprovalEvent::Approved(Ok(()))), None);
}

#[test]
fn approve_fails_with_both_weights_when_approving_fails() {
    let mut approval = start();
    approval.step::<u8>(ApprovalEvent::Cancelled(Ok(())));
    assert_eq!(
        approval.step::<u8>(ApprovalEvent::Approved(Err(5))),
        Some(ApprovalAction::Finish(Err(DispatchErrorWithPostInfo {
            post_info: PostDispatchInfo {
                actual_weight: Some(Weight { ref_time: 30, proof_size: 3 }),
                pays_fee: Pays::Yes,
            },
            error: 5,
        })))
    );
}

#[test]
fn approval_ignores_answers_out_of_turn() {
    let mut approval = start();
    assert_eq!(approval.step::<u8>(ApprovalEvent::Approved(Ok(()))), None);
    assert_eq!(approval.state, ApprovalState::Cancelling);
}
