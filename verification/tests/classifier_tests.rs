use dlmm_monitor::address::Address;
use dlmm_monitor::classifier::{
    classify, detect_lp_activity, inner_instruction_report, instruction_name, notification_for,
    passes_gate, plan_resolutions, resolution_plan, Event, EventKind,
};
use dlmm_monitor::instruction::{
    AccountRoles, BinLiquidityReduction, InstructionVariant, LiquidityChangeDetails,
    TransactionContext,
};
use dlmm_monitor::metadata::{MetadataError, TokenMetadata};
use dlmm_monitor::watchlist::Watchlist;

fn addr(b: u8) -> Address {
    Address::new([b; 32])
}

fn ctx(fee_payer: Address, keys: Vec<Address>) -> TransactionContext {
    TransactionContext {
        fee_payer,
        account_keys: keys,
        signature: "sig".to_string(),
        has_inner_instructions: false,
    }
}

fn token(name: &str, symbol: &str) -> TokenMetadata {
    TokenMetadata { name: name.to_string(), symbol: symbol.to_string() }
}

fn roles() -> Option<AccountRoles> {
    Some(AccountRoles { token_x_mint: addr(10), token_y_mint: addr(11) })
}

fn change_details() -> LiquidityChangeDetails {
    LiquidityChangeDetails {
        lb_pair: addr(20),
        from: addr(21),
        position: addr(22),
        amounts: [100, 200],
        active_bin_id: -3,
    }
}

#[test]
fn gate_disabled_always_passes() {
    let w = Watchlist::from_entries(Vec::new());
    assert!(passes_gate(false, &w, &ctx(addr(1), vec![addr(2)])));
    let w2 = Watchlist::from_entries(vec![addr(1)]);
    assert!(passes_gate(false, &w2, &ctx(addr(1), vec![])));
}

#[test]
fn gate_enabled_requires_a_watched_wallet() {
    let w = Watchlist::from_entries(vec![addr(5)]);
    assert!(!passes_gate(true, &w, &ctx(addr(1), vec![addr(2), addr(3)])));
    assert!(passes_gate(true, &w, &ctx(addr(5), vec![addr(2)])));
    assert!(passes_gate(true, &w, &ctx(addr(1), vec![addr(2), addr(5)])));
}

#[test]
fn fast_reject_requests_no_resolution() {
    let w = Watchlist::from_entries(vec![addr(5)]);
    let instr = InstructionVariant::Swap { amount_in: 1, min_amount_out: 1 };
    let plan = plan_resolutions(true, &w, &ctx(addr(1), vec![addr(2)]), &instr, &roles());
    assert!(plan.is_none());
    let plan2 = plan_resolutions(false, &w, &ctx(addr(1), vec![addr(2)]), &instr, &roles());
    assert!(plan2.is_some());
}

#[test]
fn lp_activity_reports_matched_keys() {
    let w = Watchlist::from_entries(vec![addr(5), addr(7)]);
    let e = detect_lp_activity(&w, &ctx(addr(5), vec![addr(1), addr(7), addr(2)]));
    match e {
        Some(Event::LpActivityDetected { fee_payer_matched, matched_keys }) => {
            assert!(fee_payer_matched);
            assert_eq!(matched_keys.len(), 1);
            assert!(matched_keys[0].same_as(&addr(7)));
        }
        _ => panic!("expected watch activity"),
    }
    assert!(detect_lp_activity(&w, &ctx(addr(1), vec![addr(2)])).is_none());
}

#[test]
fn log_events_plan_no_resolution() {
    let add = InstructionVariant::AddLiquidityEvent(change_details());
    let remove = InstructionVariant::RemoveLiquidityEvent(change_details());
    assert!(resolution_plan(&add, &roles()).is_none());
    assert!(resolution_plan(&remove, &roles()).is_none());
    assert!(resolution_plan(&add, &None).is_none());
    let other = InstructionVariant::Other { name: "InitializePosition".to_string() };
    assert!(resolution_plan(&other, &roles()).is_none());
}

#[test]
fn pair_instructions_plan_both_mints() {
    let swap = InstructionVariant::Swap { amount_in: 1, min_amount_out: 1 };
    let plan = resolution_plan(&swap, &roles()).unwrap();
    assert!(plan.0.same_as(&addr(10)));
    assert!(plan.1.same_as(&addr(11)));
    assert!(resolution_plan(&swap, &None).is_none());
    let add = InstructionVariant::AddLiquidity { amount_x: 1, amount_y: 2 };
    assert!(resolution_plan(&add, &roles()).is_some());
    let remove = InstructionVariant::RemoveLiquidity { bin_liquidity_removal: Vec::new() };
    assert!(resolution_plan(&remove, &roles()).is_some());
}

#[test]
fn log_events_classify_as_informational() {
    let add = InstructionVariant::AddLiquidityEvent(change_details());
    let e = classify(&add, &None, &None, &None).unwrap();
    assert_eq!(e.kind(), EventKind::Informational);
    match e {
        Event::LiquidityChanged { added, details } => {
            assert!(added);
            assert_eq!(details.amounts, [100, 200]);
            assert_eq!(details.active_bin_id, -3);
        }
        _ => panic!("expected a liquidity change event"),
    }
    assert!(notification_for(&e_clone_remove()).is_none());
}

fn e_clone_remove() -> Event {
    let remove = InstructionVariant::RemoveLiquidityEvent(change_details());
    let e = classify(&remove, &None, &None, &None).unwrap();
    assert_eq!(e.kind(), EventKind::Informational);
    e
}

#[test]
fn swap_with_both_symbols_is_notable_and_dispatched() {
    let swap = InstructionVariant::Swap { amount_in: 1000, min_amount_out: 950 };
    let rx = Some(Ok(token("USD Coin", "USDC")));
    let ry = Some(Ok(token("Wrapped SOL", "SOL")));
    let e = classify(&swap, &roles(), &rx, &ry).unwrap();
    assert_eq!(e.kind(), EventKind::SwapNotable);
    let m = notification_for(&e).expect("a notable swap is dispatched");
    assert!(m.destination.is_none());
    assert!(m.text.contains("USDC"));
    assert!(m.text.contains("SOL"));
    assert!(m.text.contains("1000"));
    assert!(m.text.contains("950"));
    assert_eq!(
        m.text,
        "Swap Instruction:\nToken X: USDC\nToken Y: SOL\nAmount In: 1000\nMin Amount Out: 950"
    );
}

#[test]
fn swap_with_a_failed_resolution_is_not_dispatched() {
    let swap = InstructionVariant::Swap { amount_in: 1000, min_amount_out: 950 };
    let rx = Some(Ok(token("USD Coin", "USDC")));
    let ry = Some(Err(MetadataError::RpcError));
    let e = classify(&swap, &roles(), &rx, &ry).unwrap();
    assert_eq!(e.kind(), EventKind::Informational);
    match &e {
        Event::SwapObserved { symbol_x, symbol_y, amount_in, min_amount_out } => {
            assert_eq!(symbol_x.as_deref(), Some("USDC"));
            assert!(symbol_y.is_none());
            assert_eq!(*amount_in, 1000);
            assert_eq!(*min_amount_out, 950);
        }
        _ => panic!("expected a degraded swap event"),
    }
    assert!(notification_for(&e).is_none());
}

#[test]
fn add_liquidity_with_one_failure_keeps_the_other_symbol() {
    let add = InstructionVariant::AddLiquidity { amount_x: 500, amount_y: 500 };
    let rx = Some(Ok(token("USD Coin", "USDC")));
    let ry = Some(Err(MetadataError::RpcError));
    let e = classify(&add, &roles(), &rx, &ry).unwrap();
    assert_eq!(e.kind(), EventKind::Informational);
    match &e {
        Event::LiquidityProvided { symbol_x, symbol_y, amount_x, amount_y } => {
            assert_eq!(symbol_x.as_deref(), Some("USDC"));
            assert!(symbol_y.is_none());
            assert_eq!(*amount_x, 500);
            assert_eq!(*amount_y, 500);
        }
        _ => panic!("expected a liquidity provision event"),
    }
    assert!(notification_for(&e).is_none());
}

#[test]
fn remove_liquidity_counts_bins() {
    let remove = InstructionVariant::RemoveLiquidity {
        bin_liquidity_removal: vec![
            BinLiquidityReduction { bin_id: 1, bps_to_remove: 100 },
            BinLiquidityReduction { bin_id: 2, bps_to_remove: 200 },
        ],
    };
    let rx = Some(Ok(token("USD Coin", "USDC")));
    let ry = Some(Ok(token("Wrapped SOL", "SOL")));
    let e = classify(&remove, &roles(), &rx, &ry).unwrap();
    match &e {
        Event::LiquidityRemoved { symbol_x, symbol_y, bin_count } => {
            assert_eq!(symbol_x.as_deref(), Some("USDC"));
            assert_eq!(symbol_y.as_deref(), Some("SOL"));
            assert_eq!(*bin_count, 2);
        }
        _ => panic!("expected a liquidity removal event"),
    }
    assert!(notification_for(&e).is_none());
}

#[test]
fn pair_instruction_without_arranged_accounts_yields_nothing() {
    let swap = InstructionVariant::Swap { amount_in: 1, min_amount_out: 1 };
    assert!(classify(&swap, &None, &None, &None).is_none());
}

#[test]
fn other_instructions_carry_their_tag() {
    let other = InstructionVariant::Other { name: "InitializeLbPair".to_string() };
    let e = classify(&other, &None, &None, &None).unwrap();
    match &e {
        Event::OtherInstruction { name } => assert_eq!(name, "InitializeLbPair"),
        _ => panic!("expected a tagged event"),
    }
    assert_eq!(instruction_name(&other), "InitializeLbPair");
    let swap = InstructionVariant::Swap { amount_in: 1, min_amount_out: 1 };
    assert_eq!(instruction_name(&swap), "Swap");
    assert_eq!(
        instruction_name(&InstructionVariant::AddLiquidityEvent(change_details())),
        "AddLiquidityEvent"
    );
}

#[test]
fn inner_instruction_note_reports_the_signature() {
    let mut c = ctx(addr(1), vec![]);
    assert!(inner_instruction_report(&c).is_none());
    c.has_inner_instructions = true;
    assert_eq!(inner_instruction_report(&c).as_deref(), Some("sig"));
}
