//! Settlement of inbound transfers: direct and relayed completion.

use swap_layer::complete_transfer::{
    complete_transfer_direct, complete_transfer_relay, RelaySettlement,
};
use swap_layer::error::SwapLayerError;
use swap_layer::messages::{
    FillType, JupiterV6SwapParameters, OutputSwap, OutputToken, PreparedFill, RedeemMode,
    SwapMessageV1, SwapType,
};
use swap_layer::state::SwapTimeLimit;

fn addr(tag: u8) -> [u8; 32] {
    let mut a = [0u8; 32];
    a[0] = tag;
    a
}

fn gas_output() -> OutputToken {
    OutputToken::Gas(OutputSwap {
        deadline: 0,
        limit_amount: 0,
        swap_type: SwapType::JupiterV6(JupiterV6SwapParameters {
            dex_program_id: None,
            mint: addr(9),
        }),
    })
}

fn fill(redeem_mode: RedeemMode, output_token: OutputToken, fill_type: FillType) -> PreparedFill {
    PreparedFill {
        fill_type,
        timestamp: 1_000,
        source_chain: 23,
        message: SwapMessageV1 {
            recipient: addr(1),
            redeem_mode,
            output_token,
        },
    }
}

fn limits() -> SwapTimeLimit {
    SwapTimeLimit {
        fast_limit: 10,
        finalized_limit: 30,
    }
}

#[test]
fn relay_self_redemption_releases_everything() {
    let f = fill(
        RedeemMode::Relay {
            gas_dropoff: 50_000,
            relaying_fee: 100,
        },
        OutputToken::Usdc,
        FillType::FastFill,
    );
    let settlement =
        complete_transfer_relay(&f, 1_000, &limits(), &addr(1), &addr(1), 1_000).unwrap();

    assert_eq!(
        settlement,
        RelaySettlement {
            user_amount: 1_000,
            fee_amount: 0,
            gas_dropoff_lamports: 0,
        }
    );
}

#[test]
fn relay_fee_split_conserves_fill_amount() {
    let f = fill(
        RedeemMode::Relay {
            gas_dropoff: 2,
            relaying_fee: 100,
        },
        OutputToken::Usdc,
        FillType::FastFill,
    );
    let settlement =
        complete_transfer_relay(&f, 1_000, &limits(), &addr(2), &addr(1), 1_000).unwrap();

    assert_eq!(settlement.user_amount, 900);
    assert_eq!(settlement.fee_amount, 100);
    assert_eq!(settlement.user_amount + settlement.fee_amount, 1_000);
    assert_eq!(settlement.gas_dropoff_lamports, 2_000);
}

#[test]
fn relay_fee_exceeding_fill_amount_is_refused() {
    let f = fill(
        RedeemMode::Relay {
            gas_dropoff: 0,
            relaying_fee: 1_001,
        },
        OutputToken::Usdc,
        FillType::FastFill,
    );
    let r = complete_transfer_relay(&f, 1_000, &limits(), &addr(2), &addr(1), 1_000);

    assert_eq!(r.unwrap_err(), SwapLayerError::InvalidRelayerFee);
}

#[test]
fn relay_refuses_other_redeem_modes() {
    let f = fill(RedeemMode::Direct, OutputToken::Usdc, FillType::FastFill);
    let r = complete_transfer_relay(&f, 1_000, &limits(), &addr(1), &addr(1), 1_000);

    assert_eq!(r.unwrap_err(), SwapLayerError::InvalidRedeemMode);
}

#[test]
fn relay_refuses_wrong_recipient() {
    let f = fill(
        RedeemMode::Relay {
            gas_dropoff: 0,
            relaying_fee: 1,
        },
        OutputToken::Usdc,
        FillType::FastFill,
    );
    let r = complete_transfer_relay(&f, 1_000, &limits(), &addr(3), &addr(3), 1_000);

    assert_eq!(r.unwrap_err(), SwapLayerError::InvalidRecipient);
}

#[test]
fn relay_time_limit_blocks_fast_fill_before_limit() {
    let f = fill(
        RedeemMode::Relay {
            gas_dropoff: 0,
            relaying_fee: 100,
        },
        gas_output(),
        FillType::FastFill,
    );
    // The fill is 9 seconds old; the fast window is 10 seconds.
    let early = complete_transfer_relay(&f, 1_009, &limits(), &addr(2), &addr(1), 1_000);
    assert_eq!(early.unwrap_err(), SwapLayerError::SwapTimeLimitNotExceeded);

    // At exactly the window the relayer may force-redeem.
    let on_time = complete_transfer_relay(&f, 1_010, &limits(), &addr(2), &addr(1), 1_000);
    assert_eq!(on_time.unwrap().fee_amount, 100);
}

#[test]
fn relay_time_limit_blocks_finalized_fill_before_limit() {
    let f = fill(
        RedeemMode::Relay {
            gas_dropoff: 0,
            relaying_fee: 100,
        },
        gas_output(),
        FillType::WormholeCctpDeposit,
    );
    let early = complete_transfer_relay(&f, 1_029, &limits(), &addr(2), &addr(1), 1_000);
    assert_eq!(early.unwrap_err(), SwapLayerError::SwapTimeLimitNotExceeded);

    let on_time = complete_transfer_relay(&f, 1_030, &limits(), &addr(2), &addr(1), 1_000);
    assert!(on_time.is_ok());
}

#[test]
fn relay_refuses_unset_fill_type() {
    let f = fill(
        RedeemMode::Relay {
            gas_dropoff: 0,
            relaying_fee: 100,
        },
        gas_output(),
        FillType::Unset,
    );
    let r = complete_transfer_relay(&f, 9_999, &limits(), &addr(2), &addr(1), 1_000);

    assert_eq!(r.unwrap_err(), SwapLayerError::UnsupportedFillType);
}

#[test]
fn relay_time_limit_does_not_apply_to_usdc() {
    let f = fill(
        RedeemMode::Relay {
            gas_dropoff: 0,
            relaying_fee: 100,
        },
        OutputToken::Usdc,
        FillType::FastFill,
    );
    // Immediately after the fill, a relayer may still complete a
    // bridging-asset redemption.
    let r = complete_transfer_relay(&f, 1_000, &limits(), &addr(2), &addr(1), 1_000);

    assert_eq!(r.unwrap().user_amount, 900);
}

#[test]
fn relay_time_limit_does_not_apply_to_recipient() {
    let f = fill(
        RedeemMode::Relay {
            gas_dropoff: 7,
            relaying_fee: 100,
        },
        gas_output(),
        FillType::FastFill,
    );
    // The recipient redeems their own fill right away, with no fee and no
    // drop-off.
    let settlement =
        complete_transfer_relay(&f, 1_000, &limits(), &addr(1), &addr(1), 1_000).unwrap();

    assert_eq!(
        settlement,
        RelaySettlement {
            user_amount: 1_000,
            fee_amount: 0,
            gas_dropoff_lamports: 0,
        }
    );
}

#[test]
fn relay_time_limit_handles_extreme_timestamps() {
    let mut f = fill(
        RedeemMode::Relay {
            gas_dropoff: 0,
            relaying_fee: 100,
        },
        gas_output(),
        FillType::FastFill,
    );

    // A fill stamped far in the future has not aged at all.
    f.timestamp = i64::MAX;
    let early = complete_transfer_relay(&f, 0, &limits(), &addr(2), &addr(1), 1_000);
    assert_eq!(early.unwrap_err(), SwapLayerError::SwapTimeLimitNotExceeded);

    // The age computation saturates instead of wrapping around.
    f.timestamp = i64::MIN;
    let ancient = complete_transfer_relay(&f, 0, &limits(), &addr(2), &addr(1), 1_000);
    assert!(ancient.is_ok());
}

#[test]
fn direct_releases_full_amount() {
    let f = fill(RedeemMode::Direct, OutputToken::Usdc, FillType::FastFill);
    let r = complete_transfer_direct(&f, &addr(2), &addr(1), 777);

    assert_eq!(r.unwrap(), 777);
}

#[test]
fn direct_refuses_other_redeem_modes() {
    let f = fill(
        RedeemMode::Payload(vec![1, 2]),
        OutputToken::Usdc,
        FillType::FastFill,
    );
    let r = complete_transfer_direct(&f, &addr(1), &addr(1), 777);

    assert_eq!(r.unwrap_err(), SwapLayerError::InvalidRedeemMode);
}

#[test]
fn direct_non_usdc_output_is_for_the_recipient_alone() {
    let f = fill(RedeemMode::Direct, gas_output(), FillType::FastFill);

    let relayer = complete_transfer_direct(&f, &addr(2), &addr(1), 777);
    assert_eq!(relayer.unwrap_err(), SwapLayerError::InvalidRedeemer);

    let recipient = complete_transfer_direct(&f, &addr(1), &addr(1), 777);
    assert_eq!(recipient.unwrap(), 777);
}

#[test]
fn direct_refuses_wrong_recipient() {
    let f = fill(RedeemMode::Direct, OutputToken::Usdc, FillType::FastFill);
    let r = complete_transfer_direct(&f, &addr(3), &addr(3), 777);

    assert_eq!(r.unwrap_err(), SwapLayerError::InvalidRecipient);
}
