//! Classification of decoded instructions: the relevance gate, the
//! resolution plan, and the mapping from an instruction plus its
//! resolution outcomes to the emitted event and its notification.

use vstd::prelude::*;
use vstd::string::StringExecFns;

use crate::address::Address;
use crate::instruction::{AccountRoles, InstructionVariant, LiquidityChangeDetails,
    TransactionContext};
use crate::metadata::{MetadataError, TokenMetadata};
use crate::notify::{swap_message, swap_message_seq, NotificationMessage};
use crate::watchlist::Watchlist;

verus! {

/// The three kinds of emitted events.
#[derive(Clone, Copy, Debug, PartialEq, Eq, Structural)]
pub enum EventKind {
    /// A watched wallet takes part in the transaction.
    LpActivityDetected,
    /// A swap whose token pair resolved fully; the one kind that is
    /// dispatched externally.
    SwapNotable,
    /// Everything else: logged locally, never dispatched.
    Informational,
}

/// The classifier's output: what happened, with the relevant addresses,
/// the resolved token symbols where available, and the numeric amounts.
#[derive(Debug)]
#[allow(inconsistent_fields)]
pub enum Event {
    /// The fee payer or at least one account key is on the watchlist.
    LpActivityDetected { fee_payer_matched: bool, matched_keys: Vec<Address> },
    /// A swap whose two mint resolutions both succeeded.
    SwapNotable { symbol_x: String, symbol_y: String, amount_in: u64, min_amount_out: u64 },
    /// A liquidity-change log event, purely informational.
    LiquidityChanged { added: bool, details: LiquidityChangeDetails },
    /// A liquidity deposit, with whatever symbols resolved.
    LiquidityProvided {
        symbol_x: Option<String>,
        symbol_y: Option<String>,
        amount_x: u64,
        amount_y: u64,
    },
    /// A liquidity withdrawal, with whatever symbols resolved and the
    /// number of bins drained.
    LiquidityRemoved { symbol_x: Option<String>, symbol_y: Option<String>, bin_count: usize },
    /// A swap at least one of whose mint resolutions failed.
    SwapObserved {
        symbol_x: Option<String>,
        symbol_y: Option<String>,
        amount_in: u64,
        min_amount_out: u64,
    },
    /// Any other instruction, identified by its type tag only.
    OtherInstruction { name: String },
}

impl Event {
    /// The kind an event belongs to.
    pub open spec fn kind_spec(&self) -> EventKind {
        match self {
            Event::LpActivityDetected { .. } => EventKind::LpActivityDetected,
            Event::SwapNotable { .. } => EventKind::SwapNotable,
            _ => EventKind::Informational,
        }
    }

    /// Returns the kind this event belongs to.
    pub fn kind(&self) -> (r: EventKind)
        ensures
            r == self.kind_spec(),
    {
        match self {
            Event::LpActivityDetected { .. } => EventKind::LpActivityDetected,
            Event::SwapNotable { .. } => EventKind::SwapNotable,
            _ => EventKind::Informational,
        }
    }
}

/// Whether the transaction touches the watchlist: its fee payer or at
/// least one of its account keys is a member.
pub open spec fn relevant_spec(watched: Set<Seq<u8>>, ctx: TransactionContext) -> bool {
    watched.contains(ctx.fee_payer@) || exists|i: int|
        0 <= i < ctx.account_keys@.len() && watched.contains(ctx.account_keys@[i]@)
}

/// Whether an instruction is processed further: always when filtering
/// is disabled, and only for transactions touching the watchlist when
/// it is enabled.
pub open spec fn passes_gate_spec(
    gate_enabled: bool,
    watched: Set<Seq<u8>>,
    ctx: TransactionContext,
) -> bool {
    !gate_enabled || relevant_spec(watched, ctx)
}

/// Decides whether an instruction is processed further. A fast reject:
/// with filtering enabled and no watched wallet in the transaction,
/// processing stops before any resolution work.
pub fn passes_gate(gate_enabled: bool, watched: &Watchlist, ctx: &TransactionContext) -> (r: bool)
    ensures
        r == passes_gate_spec(gate_enabled, watched@, *ctx),
{
    if !gate_enabled {
        true
    } else if watched.contains(&ctx.fee_payer) {
        true
    } else {
        watched.any_in(&ctx.account_keys)
    }
}

/// Reports watchlist activity in a transaction: the event naming the fee
/// payer's membership and exactly the account keys that are watched, or
/// nothing when the transaction touches no watched wallet.
pub fn detect_lp_activity(watched: &Watchlist, ctx: &TransactionContext) -> (r: Option<Event>)
    ensures
        r is Some <==> relevant_spec(watched@, *ctx),
        r matches Some(e) ==> e matches Event::LpActivityDetected { fee_payer_matched, matched_keys }
            && fee_payer_matched == watched@.contains(ctx.fee_payer@)
            && matched_keys@ == ctx.account_keys@.filter(|a: Address| watched@.contains(a@)),
{
    let fee_payer_matched = watched.contains(&ctx.fee_payer);
    let ghost pred = |a: Address| watched@.contains(a@);
    let n = ctx.account_keys.len();
    let mut matched: Vec<Address> = Vec::new();
    let mut i: usize = 0;
    proof {
        reveal(Seq::filter);
        assert(ctx.account_keys@.take(0).filter(pred) =~= matched@);
    }
    while i < n
        invariant
            0 <= i <= n,
            n == ctx.account_keys@.len(),
            matched@ == ctx.account_keys@.take(i as int).filter(pred),
            pred == (|a: Address| watched@.contains(a@)),
            (matched@.len() > 0) <==> (exists|j: int|
                0 <= j < i && watched@.contains(ctx.account_keys@[j]@)),
        decreases n - i,
    {
        let ghost prev = matched@;
        if watched.contains(&ctx.account_keys[i]) {
            matched.push(ctx.account_keys[i]);
        }
        proof {
            reveal(Seq::filter);
            let taken = ctx.account_keys@.take(i as int + 1);
            assert(taken.drop_last() =~= ctx.account_keys@.take(i as int));
            assert(taken.last() == ctx.account_keys@[i as int]);
            if watched@.contains(ctx.account_keys@[i as int]@) {
                assert(taken.filter(pred) == prev.push(taken.last()));
            } else {
                assert(taken.filter(pred) == prev);
            }
        }
        i += 1;
    }
    proof {
        assert(ctx.account_keys@.take(n as int) =~= ctx.account_keys@);
    }
    if fee_payer_matched || matched.len() > 0 {
        Some(Event::LpActivityDetected { fee_payer_matched, matched_keys: matched })
    } else {
        None
    }
}

/// The mint pair whose metadata an instruction asks to have resolved:
/// the two token mints for a swap or a liquidity change whose accounts
/// were arranged, and nothing for every other instruction — in
/// particular the liquidity-change log events never resolve metadata.
pub open spec fn resolution_plan_spec(
    instr: InstructionVariant,
    accounts: Option<AccountRoles>,
) -> Option<(Address, Address)> {
    match instr {
        InstructionVariant::AddLiquidity { .. }
        | InstructionVariant::RemoveLiquidity { .. }
        | InstructionVariant::Swap { .. } => match accounts {
            Some(roles) => Some((roles.token_x_mint, roles.token_y_mint)),
            None => None,
        },
        _ => None,
    }
}

/// Names the mint pair to resolve for an instruction, if any.
pub fn resolution_plan(instr: &InstructionVariant, accounts: &Option<AccountRoles>) -> (r: Option<
    (Address, Address),
>)
    ensures
        r == resolution_plan_spec(*instr, *accounts),
{
    match instr {
        InstructionVariant::AddLiquidity { .. }
        | InstructionVariant::RemoveLiquidity { .. }
        | InstructionVariant::Swap { .. } => match accounts {
            Some(roles) => Some((roles.token_x_mint, roles.token_y_mint)),
            None => None,
        },
        _ => None,
    }
}

/// The resolution work one processing pass performs: none when the
/// relevance check rejects the transaction, the instruction's own plan
/// otherwise.
pub open spec fn requested_resolutions_spec(
    gate_enabled: bool,
    watched: Set<Seq<u8>>,
    ctx: TransactionContext,
    instr: InstructionVariant,
    accounts: Option<AccountRoles>,
) -> Option<(Address, Address)> {
    if passes_gate_spec(gate_enabled, watched, ctx) {
        resolution_plan_spec(instr, accounts)
    } else {
        None
    }
}

/// Runs the relevance check and names the mint pair to resolve, if
/// any: the first phase of one processing pass.
pub fn plan_resolutions(
    gate_enabled: bool,
    watched: &Watchlist,
    ctx: &TransactionContext,
    instr: &InstructionVariant,
    accounts: &Option<AccountRoles>,
) -> (r: Option<(Address, Address)>)
    ensures
        r == requested_resolutions_spec(gate_enabled, watched@, *ctx, *instr, *accounts),
{
    if passes_gate(gate_enabled, watched, ctx) {
        resolution_plan(instr, accounts)
    } else {
        None
    }
}

/// The symbol a resolution outcome contributes: the resolved record's
/// symbol, or nothing when resolution failed or was not performed.
pub open spec fn symbol_of(outcome: Option<Result<TokenMetadata, MetadataError>>) -> Option<
    String,
> {
    match outcome {
        Some(Ok(tm)) => Some(tm.symbol),
        _ => None,
    }
}

/// Copies the symbol a resolution outcome contributes.
fn clone_symbol(outcome: &Option<Result<TokenMetadata, MetadataError>>) -> (r: Option<String>)
    ensures
        r == symbol_of(*outcome),
{
    match outcome {
        Some(Ok(tm)) => Some(tm.symbol.clone()),
        _ => None,
    }
}

/// The event one instruction classifies into, given the two resolution
/// outcomes (empty where no resolution was planned). The swap is notable
/// exactly when both resolutions succeeded; every failure degrades to a
/// missing symbol. Instructions carrying a token pair classify to
/// nothing when their accounts could not be arranged.
pub open spec fn classify_spec(
    instr: InstructionVariant,
    accounts: Option<AccountRoles>,
    resolved_x: Option<Result<TokenMetadata, MetadataError>>,
    resolved_y: Option<Result<TokenMetadata, MetadataError>>,
) -> Option<Event> {
    match instr {
        InstructionVariant::AddLiquidityEvent(details) => Some(
            Event::LiquidityChanged { added: true, details },
        ),
        InstructionVariant::RemoveLiquidityEvent(details) => Some(
            Event::LiquidityChanged { added: false, details },
        ),
        InstructionVariant::AddLiquidity { amount_x, amount_y } => match accounts {
            Some(_) => Some(
                Event::LiquidityProvided {
                    symbol_x: symbol_of(resolved_x),
                    symbol_y: symbol_of(resolved_y),
                    amount_x,
                    amount_y,
                },
            ),
            None => None,
        },
        InstructionVariant::RemoveLiquidity { bin_liquidity_removal } => match accounts {
            Some(_) => Some(
                Event::LiquidityRemoved {
                    symbol_x: symbol_of(resolved_x),
                    symbol_y: symbol_of(resolved_y),
                    bin_count: bin_liquidity_removal@.len() as usize,
                },
            ),
            None => None,
        },
        InstructionVariant::Swap { amount_in, min_amount_out } => match accounts {
            Some(_) => match (resolved_x, resolved_y) {
                (Some(Ok(tx)), Some(Ok(ty))) => Some(
                    Event::SwapNotable {
                        symbol_x: tx.symbol,
                        symbol_y: ty.symbol,
                        amount_in,
                        min_amount_out,
                    },
                ),
                _ => Some(
                    Event::SwapObserved {
                        symbol_x: symbol_of(resolved_x),
                        symbol_y: symbol_of(resolved_y),
                        amount_in,
                        min_amount_out,
                    },
                ),
            },
            None => None,
        },
        InstructionVariant::Other { name } => Some(Event::OtherInstruction { name }),
    }
}

/// Classifies one instruction, given the outcomes of the resolutions its
/// plan asked for. Pure: no resolution and no dispatch happens here.
pub fn classify(
    instr: &InstructionVariant,
    accounts: &Option<AccountRoles>,
    resolved_x: &Option<Result<TokenMetadata, MetadataError>>,
    resolved_y: &Option<Result<TokenMetadata, MetadataError>>,
) -> (r: Option<Event>)
    requires
        resolved_x is Some <==> resolution_plan_spec(*instr, *accounts) is Some,
        resolved_y is Some <==> resolution_plan_spec(*instr, *accounts) is Some,
    ensures
        r == classify_spec(*instr, *accounts, *resolved_x, *resolved_y),
{
    match instr {
        InstructionVariant::AddLiquidityEvent(details) => Some(
            Event::LiquidityChanged { added: true, details: *details },
        ),
        InstructionVariant::RemoveLiquidityEvent(details) => Some(
            Event::LiquidityChanged { added: false, details: *details },
        ),
        InstructionVariant::AddLiquidity { amount_x, amount_y } => match accounts {
            Some(_) => Some(
                Event::LiquidityProvided {
                    symbol_x: clone_symbol(resolved_x),
                    symbol_y: clone_symbol(resolved_y),
                    amount_x: *amount_x,
                    amount_y: *amount_y,
                },
            ),
            None => None,
        },
        InstructionVariant::RemoveLiquidity { bin_liquidity_removal } => match accounts {
            Some(_) => Some(
                Event::LiquidityRemoved {
                    symbol_x: clone_symbol(resolved_x),
                    symbol_y: clone_symbol(resolved_y),
                    bin_count: bin_liquidity_removal.len(),
                },
            ),
            None => None,
        },
        InstructionVariant::Swap { amount_in, min_amount_out } => match accounts {
            Some(_) => match (resolved_x, resolved_y) {
                (Some(Ok(tx)), Some(Ok(ty))) => Some(
                    Event::SwapNotable {
                        symbol_x: tx.symbol.clone(),
                        symbol_y: ty.symbol.clone(),
                        amount_in: *amount_in,
                        min_amount_out: *min_amount_out,
                    },
                ),
                _ => Some(
                    Event::SwapObserved {
                        symbol_x: clone_symbol(resolved_x),
                        symbol_y: clone_symbol(resolved_y),
                        amount_in: *amount_in,
                        min_amount_out: *min_amount_out,
                    },
                ),
            },
            None => None,
        },
        InstructionVariant::Other { name } => Some(Event::OtherInstruction { name: name.clone() }),
    }
}

/// Builds the outbound message for an event. Exactly the notable swaps
/// are dispatched: their message carries both symbols and both amounts,
/// and goes to the dispatcher's configured destination; every other
/// event produces no message.
pub fn notification_for(event: &Event) -> (r: Option<NotificationMessage>)
    ensures
        r is Some <==> *event is SwapNotable,
        *event matches Event::SwapNotable { symbol_x, symbol_y, amount_in, min_amount_out }
            ==> r matches Some(m) && m.text@ == swap_message_seq(
            symbol_x@,
            symbol_y@,
            amount_in,
            min_amount_out,
        ) && m.destination is None,
{
    match event {
        Event::SwapNotable { symbol_x, symbol_y, amount_in, min_amount_out } => {
            let text = swap_message(
                symbol_x.as_str(),
                symbol_y.as_str(),
                *amount_in,
                *min_amount_out,
            );
            Some(NotificationMessage { text, destination: None })
        },
        _ => None,
    }
}

/// A swap both of whose mint resolutions succeeded classifies as the
/// notable event, carrying exactly the two resolved symbols and the two
/// swap amounts — the one event kind a notification is built for. A swap
/// where either resolution failed classifies as informational, so
/// nothing is dispatched for it.
pub proof fn lemma_swap_notification(
    instr: InstructionVariant,
    accounts: Option<AccountRoles>,
    resolved_x: Option<Result<TokenMetadata, MetadataError>>,
    resolved_y: Option<Result<TokenMetadata, MetadataError>>,
)
    requires
        instr matches InstructionVariant::Swap { .. },
        accounts is Some,
        resolved_x is Some,
        resolved_y is Some,
    ensures
        resolved_x matches Some(Ok(tx)) ==> resolved_y matches Some(Ok(ty))
            ==> classify_spec(instr, accounts, resolved_x, resolved_y) == Some(
            Event::SwapNotable {
                symbol_x: tx.symbol,
                symbol_y: ty.symbol,
                amount_in: instr->amount_in,
                min_amount_out: instr->min_amount_out,
            },
        ),
        (resolved_x matches Some(Err(_)) || resolved_y matches Some(Err(_))) ==> (classify_spec(
            instr,
            accounts,
            resolved_x,
            resolved_y,
        ) matches Some(e) && e.kind_spec() == EventKind::Informational),
{
    match (instr, resolved_x, resolved_y) {
        (
            InstructionVariant::Swap { amount_in, min_amount_out },
            Some(Ok(tx)),
            Some(Ok(ty)),
        ) => {
            assert(instr->amount_in == amount_in);
            assert(instr->min_amount_out == min_amount_out);
            assert(classify_spec(instr, accounts, resolved_x, resolved_y) == Some(
                Event::SwapNotable {
                    symbol_x: tx.symbol,
                    symbol_y: ty.symbol,
                    amount_in,
                    min_amount_out,
                },
            ));
        },
        _ => {},
    }
}

/// The liquidity-change log events are passive: whatever the watchlist,
/// the filtering toggle and the transaction context, they plan no metadata
/// resolution, and they classify as informational, so no notification is
/// dispatched for them.
pub proof fn lemma_log_events_are_passive(
    gate_enabled: bool,
    watched: Set<Seq<u8>>,
    ctx: TransactionContext,
    instr: InstructionVariant,
    accounts: Option<AccountRoles>,
)
    requires
        instr matches InstructionVariant::AddLiquidityEvent(_) || instr
            matches InstructionVariant::RemoveLiquidityEvent(_),
    ensures
        resolution_plan_spec(instr, accounts) is None,
        requested_resolutions_spec(gate_enabled, watched, ctx, instr, accounts) is None,
        classify_spec(instr, accounts, None, None) matches Some(e) && e.kind_spec()
            == EventKind::Informational,
{
}

/// With the relevance gate enabled and neither the fee payer nor any
/// account key on the watchlist, a processing pass is a fast reject: the
/// gate fails and no metadata resolution is requested, so no event and
/// no notification follow.
pub proof fn lemma_gate_fast_reject(
    gate_enabled: bool,
    watched: Set<Seq<u8>>,
    ctx: TransactionContext,
    instr: InstructionVariant,
    accounts: Option<AccountRoles>,
)
    requires
        gate_enabled,
        !relevant_spec(watched, ctx),
    ensures
        !passes_gate_spec(gate_enabled, watched, ctx),
        requested_resolutions_spec(gate_enabled, watched, ctx, instr, accounts) is None,
{
}

/// With the relevance gate disabled, processing proceeds regardless of
/// watchlist membership: every watchlist and every transaction context
/// request exactly the instruction's own resolution plan.
pub proof fn lemma_gate_disabled(
    watched_a: Set<Seq<u8>>,
    watched_b: Set<Seq<u8>>,
    ctx_a: TransactionContext,
    ctx_b: TransactionContext,
    instr: InstructionVariant,
    accounts: Option<AccountRoles>,
)
    ensures
        requested_resolutions_spec(false, watched_a, ctx_a, instr, accounts)
            == resolution_plan_spec(instr, accounts),
        requested_resolutions_spec(false, watched_a, ctx_a, instr, accounts)
            == requested_resolutions_spec(false, watched_b, ctx_b, instr, accounts),
{
}

/// Reports the transaction's signature when it carried inner
/// cross-program instructions: an observational side note, independent
/// of classification, never a control-flow branch.
pub fn inner_instruction_report(ctx: &TransactionContext) -> (r: Option<String>)
    ensures
        r is Some <==> ctx.has_inner_instructions,
        r matches Some(sig) ==> sig@ == ctx.signature@,
{
    if ctx.has_inner_instructions {
        Some(ctx.signature.clone())
    } else {
        None
    }
}

/// The type tag an instruction is reported under when no richer
/// classification applies.
pub open spec fn instruction_name_spec(instr: InstructionVariant) -> Seq<char> {
    match instr {
        InstructionVariant::AddLiquidityEvent(_) => "AddLiquidityEvent"@,
        InstructionVariant::RemoveLiquidityEvent(_) => "RemoveLiquidityEvent"@,
        InstructionVariant::AddLiquidity { .. } => "AddLiquidity"@,
        InstructionVariant::RemoveLiquidity { .. } => "RemoveLiquidity"@,
        InstructionVariant::Swap { .. } => "Swap"@,
        InstructionVariant::Other { name } => name@,
    }
}

/// Returns the instruction's type tag.
pub fn instruction_name(instr: &InstructionVariant) -> (r: String)
    ensures
        r@ == instruction_name_spec(*instr),
{
    match instr {
        InstructionVariant::AddLiquidityEvent(_) => String::from_str("AddLiquidityEvent"),
        InstructionVariant::RemoveLiquidityEvent(_) => String::from_str("RemoveLiquidityEvent"),
        InstructionVariant::AddLiquidity { .. } => String::from_str("AddLiquidity"),
        InstructionVariant::RemoveLiquidity { .. } => String::from_str("RemoveLiquidity"),
        InstructionVariant::Swap { .. } => String::from_str("Swap"),
        InstructionVariant::Other { name } => name.clone(),
    }
}

} // verus!
