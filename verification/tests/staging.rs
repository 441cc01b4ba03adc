//! Staging an outbound transfer and sizing its records.

use swap_layer::error::SwapLayerError;
use swap_layer::jupiter::{compute_min_amount_out, SharedAccountsRouteArgs};
use swap_layer::messages::OutputToken;
use swap_layer::stage::{stage_outbound, StageOutboundArgs};
use swap_layer::state::{
    ExecutionParams, Peer, RedeemOption, RelayParams, StagedInput, StagedOutbound, StagedRedeem,
    StagedTransfer, SwapTimeLimit,
};

fn addr(tag: u8) -> [u8; 32] {
    let mut a = [0u8; 32];
    a[0] = tag;
    a
}

fn usdc_mint() -> [u8; 32] {
    addr(100)
}

fn peer() -> Peer {
    Peer {
        chain: 23,
        address: addr(50),
        relay_params: RelayParams {
            base_fee: 1_500_000,
            native_token_price: 200_000_000,
            max_gas_dropoff: 500_000,
            gas_dropoff_margin: 500_000,
            execution_params: ExecutionParams::Evm {
                gas_price: 10_000,
                gas_price_margin: 250_000,
            },
            swap_time_limit: SwapTimeLimit {
                fast_limit: 10,
                finalized_limit: 30,
            },
        },
    }
}

fn args(staged_input: StagedInput, redeem_option: Option<RedeemOption>) -> StageOutboundArgs {
    StageOutboundArgs {
        staged_input,
        target_chain: 23,
        recipient: addr(1),
        redeem_option,
        encoded_output_token: None,
    }
}

fn stage(
    a: StageOutboundArgs,
    swap_args: Option<SharedAccountsRouteArgs>,
    src_mint: [u8; 32],
) -> Result<swap_layer::stage::StageOutboundOutcome, SwapLayerError> {
    stage_outbound(
        &peer(),
        a,
        None,
        swap_args,
        src_mint,
        usdc_mint(),
        Some(addr(7)),
        None,
        addr(8),
        255,
        addr(9),
    )
}

fn route_args(in_amount: u64, quoted_out_amount: u64, slippage_bps: u16) -> SharedAccountsRouteArgs {
    SharedAccountsRouteArgs {
        in_amount,
        quoted_out_amount,
        slippage_bps,
        route_plan_len: 1,
    }
}

#[test]
fn stage_usdc_direct_reserves_the_amount() {
    let outcome = stage(
        args(StagedInput::Usdc { amount: 500 }, None),
        None,
        usdc_mint(),
    )
    .unwrap();

    assert_eq!(outcome.transfer_amount, 500);
    assert_eq!(outcome.sender, addr(7));
    assert!(matches!(outcome.staged.staged_redeem, StagedRedeem::Direct));
    assert_eq!(outcome.staged.info.target_chain, 23);
    assert_eq!(outcome.staged.info.recipient, addr(1));
    assert_eq!(outcome.staged.info.src_mint, usdc_mint());
    assert_eq!(outcome.staged.info.prepared_by, addr(9));
    assert_eq!(outcome.staged.info.custody_token_bump, 255);
}

#[test]
fn stage_usdc_relay_reserves_amount_plus_fee() {
    // With these relay parameters and no drop-off the fee is 2.2 USDC.
    let outcome = stage(
        args(
            StagedInput::Usdc { amount: 500 },
            Some(RedeemOption::Relay {
                gas_dropoff: 0,
                max_relayer_fee: 10_000_000,
            }),
        ),
        None,
        usdc_mint(),
    )
    .unwrap();

    assert_eq!(outcome.transfer_amount, 500 + 2_200_000);
    assert!(matches!(
        outcome.staged.staged_redeem,
        StagedRedeem::Relay {
            gas_dropoff: 0,
            relaying_fee: 2_200_000,
        }
    ));
}

#[test]
fn stage_relay_fee_above_the_cap_is_refused() {
    let r = stage(
        args(
            StagedInput::Usdc { amount: 500 },
            Some(RedeemOption::Relay {
                gas_dropoff: 0,
                max_relayer_fee: 2_199_999,
            }),
        ),
        None,
        usdc_mint(),
    );

    assert_eq!(r.unwrap_err(), SwapLayerError::ExceedsMaxRelayingFee);
}

#[test]
fn stage_refuses_the_zero_recipient() {
    let mut a = args(StagedInput::Usdc { amount: 500 }, None);
    a.recipient = [0; 32];
    let r = stage(a, None, usdc_mint());

    assert_eq!(r.unwrap_err(), SwapLayerError::InvalidRecipient);
}

#[test]
fn stage_refuses_a_foreign_chain() {
    let mut a = args(StagedInput::Usdc { amount: 500 }, None);
    a.target_chain = 24;
    let r = stage(a, None, usdc_mint());

    assert_eq!(r.unwrap_err(), SwapLayerError::InvalidTargetChain);
}

#[test]
fn stage_checks_mint_consistency() {
    // A bridging-asset input must come from the bridging-asset mint.
    let wrong = stage(args(StagedInput::Usdc { amount: 500 }, None), None, addr(2));
    assert_eq!(wrong.unwrap_err(), SwapLayerError::InvalidSourceMint);

    // A swap input must not already be the bridging asset.
    let also_wrong = stage(
        args(
            StagedInput::SwapExactIn {
                instruction_data: vec![1, 2, 3],
            },
            None,
        ),
        Some(route_args(777, 1_000, 0)),
        usdc_mint(),
    );
    assert_eq!(also_wrong.unwrap_err(), SwapLayerError::InvalidSourceMint);
}

#[test]
fn stage_swap_input_reserves_the_encoded_in_amount() {
    let outcome = stage(
        args(
            StagedInput::SwapExactIn {
                instruction_data: vec![1, 2, 3],
            },
            None,
        ),
        Some(route_args(777, 1_000, 100)),
        addr(2),
    )
    .unwrap();

    assert_eq!(outcome.transfer_amount, 777);
    assert!(matches!(
        outcome.staged.staged_input,
        StagedInput::SwapExactIn { .. }
    ));
}

#[test]
fn stage_swap_input_needs_a_positive_minimum_out() {
    let r = stage(
        args(
            StagedInput::SwapExactIn {
                instruction_data: vec![1, 2, 3],
            },
            None,
        ),
        Some(route_args(777, 0, 0)),
        addr(2),
    );

    assert_eq!(r.unwrap_err(), SwapLayerError::ZeroMinAmountOut);
}

#[test]
fn stage_swap_relay_minimum_out_must_cover_the_fee() {
    // The fee under these parameters is exactly 2.2 USDC; a quote equal to
    // it does not cover it strictly.
    let relay = Some(RedeemOption::Relay {
        gas_dropoff: 0,
        max_relayer_fee: 10_000_000,
    });
    let short = stage(
        args(
            StagedInput::SwapExactIn {
                instruction_data: vec![1, 2, 3],
            },
            relay.clone(),
        ),
        Some(route_args(777, 2_200_000, 0)),
        addr(2),
    );
    assert_eq!(
        short.unwrap_err(),
        SwapLayerError::RelayingFeeExceedsMinAmountOut
    );

    let enough = stage(
        args(
            StagedInput::SwapExactIn {
                instruction_data: vec![1, 2, 3],
            },
            relay,
        ),
        Some(route_args(777, 2_200_001, 0)),
        addr(2),
    );
    assert_eq!(enough.unwrap().transfer_amount, 777);
}

#[test]
fn stage_usdc_relay_overflow_is_refused() {
    let r = stage(
        args(
            StagedInput::Usdc { amount: u64::MAX },
            Some(RedeemOption::Relay {
                gas_dropoff: 0,
                max_relayer_fee: 10_000_000,
            }),
        ),
        None,
        usdc_mint(),
    );

    assert_eq!(r.unwrap_err(), SwapLayerError::U64Overflow);
}

#[test]
fn stage_needs_exactly_one_transfer_signer() {
    let both = stage_outbound(
        &peer(),
        args(StagedInput::Usdc { amount: 1 }, None),
        None,
        None,
        usdc_mint(),
        usdc_mint(),
        Some(addr(7)),
        Some(addr(6)),
        addr(8),
        255,
        addr(9),
    );
    assert_eq!(
        both.unwrap_err(),
        SwapLayerError::EitherSenderOrProgramTransferAuthority
    );

    let neither = stage_outbound(
        &peer(),
        args(StagedInput::Usdc { amount: 1 }, None),
        None,
        None,
        usdc_mint(),
        usdc_mint(),
        None,
        None,
        addr(8),
        255,
        addr(9),
    );
    assert_eq!(
        neither.unwrap_err(),
        SwapLayerError::EitherSenderOrProgramTransferAuthority
    );

    // Under a program transfer authority the token account's owner is the
    // sender.
    let delegated = stage_outbound(
        &peer(),
        args(StagedInput::Usdc { amount: 1 }, None),
        None,
        None,
        usdc_mint(),
        usdc_mint(),
        None,
        Some(addr(6)),
        addr(8),
        255,
        addr(9),
    )
    .unwrap();
    assert_eq!(delegated.sender, addr(8));
}

#[test]
fn stage_refuses_undecodable_descriptor_bytes() {
    let mut a = args(StagedInput::Usdc { amount: 1 }, None);
    a.encoded_output_token = Some(vec![0xff]);
    let r = stage(a, None, usdc_mint());

    assert_eq!(r.unwrap_err(), SwapLayerError::InvalidOutputToken);
}

#[test]
fn staged_outbound_sizes_add_up() {
    // Fixed part, plus eight bytes for a bridging-asset amount.
    let plain = StagedOutbound::try_compute_size(
        &StagedInput::Usdc { amount: 1 },
        &None,
        &None,
        None,
    )
    .unwrap();
    assert_eq!(plain, 118);

    // A ten-byte venue blob, a relay redeem, and a seven-byte descriptor.
    let full = StagedOutbound::try_compute_size(
        &StagedInput::SwapExactIn {
            instruction_data: vec![0; 10],
        },
        &Some(RedeemOption::Relay {
            gas_dropoff: 1,
            max_relayer_fee: 2,
        }),
        &Some(vec![0; 7]),
        Some(&OutputToken::Usdc),
    )
    .unwrap();
    assert_eq!(full, 110 + 14 + 8 + 11);

    // A five-byte payload redeem.
    let with_payload = StagedOutbound::try_compute_size(
        &StagedInput::Usdc { amount: 1 },
        &Some(RedeemOption::Payload(vec![0; 5])),
        &None,
        None,
    )
    .unwrap();
    assert_eq!(with_payload, 118 + 9);
}

#[test]
fn staged_outbound_size_refuses_undecodable_descriptor_bytes() {
    let r = StagedOutbound::try_compute_size(
        &StagedInput::Usdc { amount: 1 },
        &None,
        &Some(vec![0xff]),
        None,
    );

    assert_eq!(r.unwrap_err(), SwapLayerError::InvalidOutputToken);
}

#[test]
fn staged_transfer_size_is_checked() {
    assert_eq!(StagedTransfer::checked_compute_size(10), Some(121));
    assert_eq!(StagedTransfer::checked_compute_size(usize::MAX), None);
}

#[test]
fn staged_input_defaults_to_zero_usdc() {
    assert!(matches!(
        StagedInput::default(),
        StagedInput::Usdc { amount: 0 }
    ));
}

#[test]
fn minimum_out_follows_the_quote_and_slippage() {
    // One percent slippage keeps 99 percent of the quote, rounded down.
    assert_eq!(compute_min_amount_out(&route_args(0, 1_000, 100)), 990);
    assert_eq!(compute_min_amount_out(&route_args(0, 999, 100)), 989);
    // No slippage keeps the whole quote.
    assert_eq!(compute_min_amount_out(&route_args(0, 1_000, 0)), 1_000);
    // Full slippage accepts anything.
    assert_eq!(compute_min_amount_out(&route_args(0, 1_000, 10_000)), 0);
    assert_eq!(compute_min_amount_out(&route_args(0, 1_000, 60_000)), 0);
}
