//! The program's instructions, as steps from the state they are given to
//! the state they leave and the transfer they order.

use vstd::prelude::*;
use crate::bytes::array_eq;
use crate::emitter::EmitterRegistry;
use crate::error::AirdropError;
use crate::ledger::{ClaimLedger, ClaimStatus, CreateOutcome};
use crate::message::{parse, AirdropMessage, MessageView, MESSAGE_LEN};

verus! {

/// The number of tokens that one claim pays out.
pub const CLAIM_AMOUNT: u64 = 100;

/// A token account, as far as the program reads it: its balance.
#[derive(Clone, Copy, Debug, PartialEq, Eq, Structural)]
pub struct TokenAccount {
    pub amount: u64,
}

/// An attested message as it was posted: where it came from and what it
/// carries. That it is genuine was settled before it was posted.
#[derive(Debug, PartialEq, Eq)]
pub struct PostedMessage {
    /// The chain on which the message was emitted.
    pub emitter_chain: u16,
    /// The sender of the message on that chain.
    pub emitter_address: [u8; 32],
    /// The encoded message.
    pub payload: Vec<u8>,
}

/// The transfer that a successful claim orders.
#[derive(Clone, Copy, Debug, PartialEq, Eq)]
pub struct TransferReceipt {
    /// The claimant, who receives the tokens.
    pub to: [u8; 32],
    /// The number of tokens to move out of the custody account.
    pub amount: u64,
    /// The bump with which the custody account signs for the transfer.
    pub authority_bump: u8,
}

/// What `initialize` sets up.
#[derive(Clone, Copy, Debug, PartialEq, Eq, Structural)]
pub struct Initialize {
    /// The custody account, out of which claims are paid.
    pub destination_account: TokenAccount,
}

/// What `deposit` works on.
#[derive(Clone, Copy, Debug, PartialEq, Eq, Structural)]
pub struct Deposit {
    /// The depositor's account.
    pub source_account: TokenAccount,
    /// The custody account.
    pub destination_account: TokenAccount,
}

/// What `claim` works on.
pub struct Claim {
    /// The attested message that the claim rests on.
    pub posted: PostedMessage,
    /// The emitters that are trusted, one per foreign chain.
    pub foreign_emitters: EmitterRegistry,
    /// The claims that were honoured so far.
    pub claim_statuses: ClaimLedger,
    /// The custody account.
    pub from: TokenAccount,
    /// The caller, who submits the claim.
    pub user: [u8; 32],
}

impl Claim {
    /// The registry and the ledger are valid.
    pub open spec fn wf(&self) -> bool {
        self.foreign_emitters.wf() && self.claim_statuses.wf()
    }
}

/// The record that a claim of `(nft, id)` leaves in the ledger.
pub open spec fn claimed(nft: [u8; 20], id: u16) -> ClaimStatus {
    ClaimStatus { is_claimed: true, nft_eth_address: nft, nft_id: id }
}

/// The error, if any, with which a claim of `(nft, id)` on `ctx` is
/// rejected. The tests are made in this order, and the first that fails
/// decides.
pub open spec fn claim_error(ctx: Claim, nft: Seq<u8>, id: u16) -> Option<AirdropError> {
    match parse(ctx.posted.payload@) {
        Err(_) => Some(AirdropError::InvalidMessage),
        Ok(message) => {
            if message.account != ctx.user@ {
                Some(AirdropError::VerificationFailed)
            } else if ctx.foreign_emitters.registered(ctx.posted.emitter_chain) != Some(
                ctx.posted.emitter_address@,
            ) {
                Some(AirdropError::InvalidForeignEmitter)
            } else if message.nft != nft || message.id != id {
                Some(AirdropError::InvalidMessage)
            } else if ctx.from.amount < CLAIM_AMOUNT {
                Some(AirdropError::InsufficientCustody)
            } else if ctx.claim_statuses@.contains_key((nft, id)) {
                Some(AirdropError::DropAlreadyClaimed)
            } else {
                None
            }
        },
    }
}

/// The error, if any, with which a deposit of `amount` on `ctx` is rejected.
pub open spec fn deposit_error(ctx: Deposit, amount: u64) -> Option<AirdropError> {
    if ctx.source_account.amount < amount {
        Some(AirdropError::InsufficientFunds)
    } else if ctx.destination_account.amount + amount > u64::MAX {
        Some(AirdropError::NumericalOverflow)
    } else {
        None
    }
}

/// Sets up the custody account, empty.
pub fn initialize() -> (ctx: Initialize)
    ensures
        ctx.destination_account.amount == 0,
{
    Initialize { destination_account: TokenAccount { amount: 0 } }
}

/// Moves `amount` tokens from the depositor's account into the custody
/// account, or rejects the deposit and changes nothing.
pub fn deposit(ctx: &mut Deposit, amount: u64) -> (r: Result<(), AirdropError>)
    ensures
        match r {
            Ok(()) => {
                &&& deposit_error(*old(ctx), amount) is None
                &&& final(ctx).source_account.amount == old(ctx).source_account.amount - amount
                &&& final(ctx).destination_account.amount == old(ctx).destination_account.amount
                    + amount
            },
            Err(e) => deposit_error(*old(ctx), amount) == Some(e) && *final(ctx) == *old(ctx),
        },
{
    if ctx.source_account.amount < amount {
        return Err(AirdropError::InsufficientFunds);
    }
    if amount > u64::MAX - ctx.destination_account.amount {
        return Err(AirdropError::NumericalOverflow);
    }
    ctx.source_account.amount = ctx.source_account.amount - amount;
    ctx.destination_account.amount = ctx.destination_account.amount + amount;
    Ok(())
}

/// Honours the claim of the item `(nft_eth_address, nft_id)` by the caller,
/// or rejects it and changes nothing.
///
/// The claim is honoured if the posted message decodes, names the caller as
/// claimant, comes from the emitter registered for its chain, attests the
/// item named, the custody account holds one payout, and the item was not
/// claimed before. Then the item's slot is created in the ledger, the
/// custody account is debited, and the receipt orders the transfer to the
/// claimant, signed with `claim_bump`. `_vaa_hash` is the hash under which
/// the message was posted; it serves to find the message and decides
/// nothing.
pub fn claim(
    ctx: &mut Claim,
    claim_bump: u8,
    nft_eth_address: [u8; 20],
    nft_id: u16,
    _vaa_hash: [u8; 32],
) -> (r: Result<TransferReceipt, AirdropError>)
    requires
        old(ctx).wf(),
    ensures
        final(ctx).wf(),
        final(ctx).posted == old(ctx).posted,
        final(ctx).foreign_emitters == old(ctx).foreign_emitters,
        final(ctx).user == old(ctx).user,
        match r {
            Ok(receipt) => {
                &&& claim_error(*old(ctx), nft_eth_address@, nft_id) is None
                &&& receipt == (TransferReceipt {
                    to: old(ctx).user,
                    amount: CLAIM_AMOUNT,
                    authority_bump: claim_bump,
                })
                &&& final(ctx).from.amount == old(ctx).from.amount - CLAIM_AMOUNT
                &&& final(ctx).claim_statuses@ == old(ctx).claim_statuses@.insert(
                    (nft_eth_address@, nft_id),
                    claimed(nft_eth_address, nft_id),
                )
            },
            Err(e) => {
                &&& claim_error(*old(ctx), nft_eth_address@, nft_id) == Some(e)
                &&& *final(ctx) == *old(ctx)
            },
        },
{
    let message = match AirdropMessage::decode(ctx.posted.payload.as_slice()) {
        Ok(message) => message,
        Err(_) => {
            return Err(AirdropError::InvalidMessage);
        },
    };
    if !array_eq(&message.account, &ctx.user) {
        return Err(AirdropError::VerificationFailed);
    }
    if !ctx.foreign_emitters.verify(ctx.posted.emitter_chain, &ctx.posted.emitter_address) {
        return Err(AirdropError::InvalidForeignEmitter);
    }
    if !(array_eq(&message.nft, &nft_eth_address) && message.id == nft_id) {
        return Err(AirdropError::InvalidMessage);
    }
    if ctx.from.amount < CLAIM_AMOUNT {
        return Err(AirdropError::InsufficientCustody);
    }
    let record = ClaimStatus { is_claimed: true, nft_eth_address, nft_id };
    match ctx.claim_statuses.create_if_absent(&nft_eth_address, nft_id, record) {
        CreateOutcome::AlreadyExists => Err(AirdropError::DropAlreadyClaimed),
        CreateOutcome::Created => {
            ctx.from.amount = ctx.from.amount - CLAIM_AMOUNT;
            Ok(TransferReceipt { to: ctx.user, amount: CLAIM_AMOUNT, authority_bump: claim_bump })
        },
    }
}

/// A claim that rests on a buffer shorter than one message is rejected as
/// an invalid message, whoever submits it.
pub proof fn lemma_short_payload_rejected(ctx: Claim, nft: Seq<u8>, id: u16)
    requires
        ctx.posted.payload@.len() < MESSAGE_LEN,
    ensures
        claim_error(ctx, nft, id) == Some(AirdropError::InvalidMessage),
{
}

/// A claim whose message names another claimant than the caller is
/// rejected as unverified, whatever the emitter, the item, the custody
/// account and the ledger are.
pub proof fn lemma_wrong_claimant_rejected(ctx: Claim, nft: Seq<u8>, id: u16)
    requires
        parse(ctx.posted.payload@) is Ok,
        parse(ctx.posted.payload@)->Ok_0.account != ctx.user@,
    ensures
        claim_error(ctx, nft, id) == Some(AirdropError::VerificationFailed),
{
}

/// A claim by the right claimant whose message does not come from the
/// emitter registered for its chain, or comes from a chain without one, is
/// rejected for its emitter.
pub proof fn lemma_unknown_emitter_rejected(ctx: Claim, nft: Seq<u8>, id: u16)
    requires
        parse(ctx.posted.payload@) is Ok,
        parse(ctx.posted.payload@)->Ok_0.account == ctx.user@,
        ctx.foreign_emitters.registered(ctx.posted.emitter_chain) != Some(
            ctx.posted.emitter_address@,
        ),
    ensures
        claim_error(ctx, nft, id) == Some(AirdropError::InvalidForeignEmitter),
{
}

/// A claim by the right claimant, from the right emitter, whose message
/// attests another item than the one the caller names is rejected as an
/// invalid message, though the message decodes.
pub proof fn lemma_other_item_rejected(ctx: Claim, nft: Seq<u8>, id: u16)
    requires
        parse(ctx.posted.payload@) is Ok,
        parse(ctx.posted.payload@)->Ok_0.account == ctx.user@,
        ctx.foreign_emitters.registered(ctx.posted.emitter_chain) == Some(
            ctx.posted.emitter_address@,
        ),
        parse(ctx.posted.payload@)->Ok_0.nft != nft || parse(ctx.posted.payload@)->Ok_0.id != id,
    ensures
        claim_error(ctx, nft, id) == Some(AirdropError::InvalidMessage),
{
}

/// An item that was claimed is never paid again: whoever claims it, with
/// whatever message, is rejected.
pub proof fn lemma_claimed_item_rejected(ctx: Claim, nft: Seq<u8>, id: u16)
    requires
        ctx.claim_statuses@.contains_key((nft, id)),
    ensures
        claim_error(ctx, nft, id) is Some,
        parse(ctx.posted.payload@) is Ok && parse(ctx.posted.payload@)->Ok_0 == (MessageView {
            account: ctx.user@,
            nft,
            id,
        }) && ctx.foreign_emitters.registered(ctx.posted.emitter_chain) == Some(
            ctx.posted.emitter_address@,
        ) && ctx.from.amount >= CLAIM_AMOUNT ==> claim_error(ctx, nft, id) == Some(
            AirdropError::DropAlreadyClaimed,
        ),
{
}

/// A claim is rejected for want of custody only before anything is written:
/// with less than one payout in custody no claim is honoured.
pub proof fn lemma_empty_custody_rejected(ctx: Claim, nft: Seq<u8>, id: u16)
    requires
        ctx.from.amount < CLAIM_AMOUNT,
    ensures
        claim_error(ctx, nft, id) is Some,
{
}

} // verus!
