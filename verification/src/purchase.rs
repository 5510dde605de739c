use vstd::prelude::*;
use crate::arith::{checked_sub_u64, le_u64, parse_u64_le};
use crate::error::GameError;
use crate::identity::{is_unset, is_whitelisted, listed, require_identity_initialized, Identity};
use crate::record::{
    decode, lemma_decode_encode, lemma_encode_decode, load, store, GameState, GameStateView,
};
use crate::token::{
    is_transfer, token_account_amount, token_program_id, transfer_instruction,
    unpacked_token_amount, TransferOrder,
};

verus! {

/// Number of bytes of the claimed price at the head of a purchase payload.
pub const PRICE_LEN: usize = 8;

/// A purchase that has been decided and committed to the record, and whose
/// token transfer is still to be carried out.
#[derive(Clone, Copy, Debug, PartialEq, Eq)]
pub struct Settlement {
    /// The amount to move from the buyer to the treasury: the agreed price.
    pub amount: u64,
    /// The buyer now recorded on the record.
    pub buyer: Identity,
    /// The record as it was read, before it was marked as sold.
    pub before: GameState,
}

/// The accounts between which a purchase is settled.
#[derive(Clone, Copy, Debug, PartialEq, Eq)]
pub struct TransferParties {
    /// The program that carries out the transfer.
    pub token_program: Identity,
    /// The buyer's funding account.
    pub source: Identity,
    /// The platform's treasury.
    pub destination: Identity,
}

/// A committed purchase together with the transfer that settles it.
#[derive(Debug, PartialEq, Eq)]
pub struct Purchase {
    /// What was decided, and the record as it was before.
    pub settlement: Settlement,
    /// The transfer of exactly the settlement's amount, from the buyer's
    /// funding account to the treasury.
    pub transfer: TransferOrder,
}

/// A buyer is authorized who signed the request and stands on the whitelist.
pub open spec fn authorized(buyer: Seq<u8>, signed: bool, whitelist: Seq<Identity>) -> bool {
    signed && listed(whitelist, buyer)
}

/// What a purchase decides, check by check in the order of the protocol: the
/// record as it was read, where the purchase goes through, or the first
/// refusal. `balance` is what the buyer's funding account holds, `None` where
/// its data is no token account; no transfer can be had from a program other
/// than the token program.
pub open spec fn purchase_outcome(
    buyer: Seq<u8>,
    signed: bool,
    whitelist: Seq<Identity>,
    balance: Option<u64>,
    token_program: Seq<u8>,
    record: Seq<u8>,
    payload: Seq<u8>,
) -> Result<GameStateView, GameError> {
    if !authorized(buyer, signed, whitelist) {
        Err(GameError::Unauthorized)
    } else if is_unset(buyer) {
        Err(GameError::UninitializedParticipant)
    } else if payload.len() < 8 {
        Err(GameError::MalformedInput)
    } else {
        match decode(record) {
            None => Err(GameError::Malformed),
            Some(state) => if !state.game_active {
                Err(GameError::Inactive)
            } else if le_u64(payload.subrange(0, 8)) != state.last_price {
                Err(GameError::PriceMismatch)
            } else {
                match balance {
                    None => Err(GameError::MalformedInput),
                    Some(held) => if held < state.last_price {
                        Err(GameError::InsufficientFunds)
                    } else if token_program != token_program_id() {
                        Err(GameError::TransferFailed)
                    } else {
                        Ok(state)
                    },
                }
            },
        }
    }
}

/// Whether a settlement is one that a purchase can have produced: taken on an
/// active record without a buyer, for a real buyer, at the record's price.
pub open spec fn settlement_valid(settlement: Settlement) -> bool {
    &&& settlement.before@.game_active
    &&& settlement.before@.player2 is None
    &&& !is_unset(settlement.buyer@)
    &&& settlement.amount == settlement.before@.last_price
}

/// What settling does once the transfer has been tried. `Ok(None)`: the
/// transfer went through and the record stays sold. `Ok(Some(bytes))`: it
/// failed and the record goes back to `bytes`. `Err`: the settlement is not
/// valid, or the record is no longer the one that the purchase committed.
pub open spec fn settle_outcome(record: Seq<u8>, settlement: Settlement, transferred: bool) -> Result<
    Option<Seq<u8>>,
    GameError,
> {
    if !settlement_valid(settlement) || decode(record) != Some(
        settlement.before@.sold_to(settlement.buyer@),
    ) {
        Err(GameError::Malformed)
    } else if transferred {
        Ok(None)
    } else {
        Ok(Some(settlement.before@.encode()))
    }
}

/// Decides a purchase for a funding account whose balance is already known,
/// and commits it: on success the record is marked as sold to `buyer` before
/// this returns, and the settlement names the exact amount to transfer. On any
/// refusal the record stays as it was.
pub fn purchase_with_balance(
    buyer: &Identity,
    buyer_signed: bool,
    whitelist: &[Identity],
    balance: Option<u64>,
    parties: &TransferParties,
    record: &mut Vec<u8>,
    payload: &[u8],
) -> (r: Result<Purchase, GameError>)
    ensures
        match purchase_outcome(
            buyer@,
            buyer_signed,
            whitelist@,
            balance,
            parties.token_program@,
            old(record)@,
            payload@,
        ) {
            Ok(before) => r is Ok && r->Ok_0.settlement.amount == before.last_price
                && r->Ok_0.settlement.buyer@ == buyer@ && r->Ok_0.settlement.before@ == before
                && settlement_valid(r->Ok_0.settlement) && is_transfer(
                r->Ok_0.transfer,
                parties.source@,
                parties.destination@,
                buyer@,
                before.last_price,
            ) && final(record)@ == before.sold_to(buyer@).encode(),
            Err(e) => r == Err::<Purchase, GameError>(e) && final(record)@ == old(record)@,
        },
{
    if !buyer_signed || !is_whitelisted(whitelist, buyer) {
        return Err(GameError::Unauthorized);
    }
    match require_identity_initialized(buyer) {
        Ok(()) => {},
        Err(e) => {
            return Err(e);
        },
    }
    if payload.len() < PRICE_LEN {
        return Err(GameError::MalformedInput);
    }
    let claimed = match parse_u64_le(vstd::slice::slice_subrange(payload, 0, PRICE_LEN)) {
        Ok(price) => price,
        Err(e) => {
            return Err(e);
        },
    };
    let state = match load(record.as_slice()) {
        Ok(state) => state,
        Err(e) => {
            return Err(e);
        },
    };
    if !state.game_active {
        return Err(GameError::Inactive);
    }
    if claimed != state.last_price {
        return Err(GameError::PriceMismatch);
    }
    let held = match balance {
        Some(held) => held,
        None => {
            return Err(GameError::MalformedInput);
        },
    };
    if checked_sub_u64(held, state.last_price).is_err() {
        return Err(GameError::InsufficientFunds);
    }
    let amount: u64 = state.last_price;
    let transfer = match transfer_instruction(
        &parties.token_program,
        &parties.source,
        &parties.destination,
        buyer,
        amount,
    ) {
        Some(transfer) => transfer,
        None => {
            return Err(GameError::TransferFailed);
        },
    };
    proof {
        lemma_encode_decode(record@);
    }
    let sold = GameState { game_active: false, player2: Some(*buyer), ..state };
    match store(&sold, record) {
        Ok(()) => Ok(Purchase { settlement: Settlement { amount, buyer: *buyer, before: state }, transfer }),
        Err(e) => Err(e),
    }
}

/// Executes a purchase up to the token transfer: authorization, the claimed
/// price, the state of the record, price agreement and funds, in that order;
/// then the record is marked as sold. The balance is read from the data of the
/// buyer's funding account. The caller transfers exactly the settlement's
/// amount and reports how that went to `settle_purchase`.
pub fn buy_nft(
    buyer: &Identity,
    buyer_signed: bool,
    whitelist: &[Identity],
    funding_account: &[u8],
    parties: &TransferParties,
    record: &mut Vec<u8>,
    instruction_data: &[u8],
) -> (r: Result<Purchase, GameError>)
    ensures
        match purchase_outcome(
            buyer@,
            buyer_signed,
            whitelist@,
            unpacked_token_amount(funding_account@),
            parties.token_program@,
            old(record)@,
            instruction_data@,
        ) {
            Ok(before) => r is Ok && r->Ok_0.settlement.amount == before.last_price
                && r->Ok_0.settlement.buyer@ == buyer@ && r->Ok_0.settlement.before@ == before
                && settlement_valid(r->Ok_0.settlement) && is_transfer(
                r->Ok_0.transfer,
                parties.source@,
                parties.destination@,
                buyer@,
                before.last_price,
            ) && final(record)@ == before.sold_to(buyer@).encode(),
            Err(e) => r == Err::<Purchase, GameError>(e) && final(record)@ == old(record)@,
        },
{
    let balance = token_account_amount(funding_account);
    purchase_with_balance(buyer, buyer_signed, whitelist, balance, parties, record, instruction_data)
}

/// Closes a purchase once the transfer has been tried. Where it went through,
/// the record stays sold. Where it failed, the record is put back as it was
/// read and the purchase fails with `TransferFailed`. A settlement that no
/// purchase can have produced, or a record that is not the one the purchase
/// committed, is refused and nothing is written.
pub fn settle_purchase(record: &mut Vec<u8>, settlement: &Settlement, transferred: bool) -> (r:
    Result<(), GameError>)
    ensures
        match settle_outcome(old(record)@, *settlement, transferred) {
            Ok(None) => r == Ok::<(), GameError>(()) && final(record)@ == old(record)@,
            Ok(Some(bytes)) => r == Err::<(), GameError>(GameError::TransferFailed)
                && final(record)@ == bytes,
            Err(e) => r == Err::<(), GameError>(e) && final(record)@ == old(record)@,
        },
{
    let before = &settlement.before;
    if !before.game_active || before.player2.is_some() || settlement.buyer.is_default()
        || settlement.amount != before.last_price {
        return Err(GameError::Malformed);
    }
    let now = match load(record.as_slice()) {
        Ok(now) => now,
        Err(e) => {
            return Err(e);
        },
    };
    let same_buyer = match &now.player2 {
        Some(id) => id.same_as(&settlement.buyer),
        None => false,
    };
    if now.game_active || !same_buyer || now.entry_price != before.entry_price || now.last_price
        != before.last_price {
        return Err(GameError::Malformed);
    }
    assert(now@ == before@.sold_to(settlement.buyer@));
    if transferred {
        return Ok(());
    }
    match store(before, record) {
        Ok(()) => Err(GameError::TransferFailed),
        Err(e) => Err(e),
    }
}

/// Only one purchase goes through. Once a purchase has been committed, the
/// record it leaves refuses every later one, whoever asks and whatever is
/// claimed, also while the first one's transfer is still under way; a later
/// request that passes authorization and has a whole payload is refused as
/// `Inactive`.
pub proof fn lemma_purchase_is_one_shot(
    buyer: Seq<u8>,
    signed: bool,
    whitelist: Seq<Identity>,
    balance: Option<u64>,
    token_program: Seq<u8>,
    record: Seq<u8>,
    payload: Seq<u8>,
    buyer2: Seq<u8>,
    signed2: bool,
    whitelist2: Seq<Identity>,
    balance2: Option<u64>,
    token_program2: Seq<u8>,
    payload2: Seq<u8>,
)
    requires
        buyer.len() == 32,
        purchase_outcome(buyer, signed, whitelist, balance, token_program, record, payload) is Ok,
    ensures
        ({
            let before = purchase_outcome(buyer, signed, whitelist, balance, token_program, record, payload)->Ok_0;
            let committed = before.sold_to(buyer).encode();
            let second = purchase_outcome(
                buyer2,
                signed2,
                whitelist2,
                balance2,
                token_program2,
                committed,
                payload2,
            );
            &&& before.player2 is None
            &&& decode(committed) == Some(before.sold_to(buyer))
            &&& second is Err
            &&& authorized(buyer2, signed2, whitelist2) && !is_unset(buyer2) && payload2.len() >= 8
                ==> second == Err::<GameStateView, GameError>(GameError::Inactive)
        }),
{
    let before = decode(record)->Some_0;
    lemma_encode_decode(record);
    lemma_decode_encode(before.sold_to(buyer));
}

/// A terminal record takes no purchase: every request against it is refused,
/// and one that passes authorization and has a whole payload is refused as
/// `Inactive`, so the recorded buyer is never replaced.
pub proof fn lemma_purchase_refuses_terminal(
    buyer: Seq<u8>,
    signed: bool,
    whitelist: Seq<Identity>,
    balance: Option<u64>,
    token_program: Seq<u8>,
    record: Seq<u8>,
    payload: Seq<u8>,
)
    requires
        decode(record) is Some,
        !decode(record)->Some_0.game_active,
    ensures
        purchase_outcome(buyer, signed, whitelist, balance, token_program, record, payload) is Err,
        authorized(buyer, signed, whitelist) && !is_unset(buyer) && payload.len() >= 8
            ==> purchase_outcome(buyer, signed, whitelist, balance, token_program, record, payload)
            == Err::<GameStateView, GameError>(GameError::Inactive),
{
}

/// The amount settled is the price agreed on: where a purchase goes through,
/// the record's `last_price` is the price that the payload claims, and the
/// buyer holds at least that much.
pub proof fn lemma_settlement_is_exact(
    buyer: Seq<u8>,
    signed: bool,
    whitelist: Seq<Identity>,
    balance: Option<u64>,
    token_program: Seq<u8>,
    record: Seq<u8>,
    payload: Seq<u8>,
)
    requires
        purchase_outcome(buyer, signed, whitelist, balance, token_program, record, payload) is Ok,
    ensures
        purchase_outcome(buyer, signed, whitelist, balance, token_program, record, payload)->Ok_0.last_price
            == le_u64(payload.subrange(0, 8)),
        balance is Some,
        balance->Some_0 >= le_u64(payload.subrange(0, 8)),
{
}

/// No purchase without authorization: a buyer who did not sign, or who is not
/// on the whitelist, is refused as `Unauthorized`, whatever else is handed in.
pub proof fn lemma_unauthorized_is_refused(
    buyer: Seq<u8>,
    signed: bool,
    whitelist: Seq<Identity>,
    balance: Option<u64>,
    token_program: Seq<u8>,
    record: Seq<u8>,
    payload: Seq<u8>,
)
    requires
        !signed || !listed(whitelist, buyer),
    ensures
        purchase_outcome(buyer, signed, whitelist, balance, token_program, record, payload) == Err::<
            GameStateView,
            GameError,
        >(GameError::Unauthorized),
{
}

/// A payload of fewer than eight bytes never leads to a purchase, and from an
/// authorized, real buyer it is refused as `MalformedInput`.
pub proof fn lemma_short_payload_is_refused(
    buyer: Seq<u8>,
    signed: bool,
    whitelist: Seq<Identity>,
    balance: Option<u64>,
    token_program: Seq<u8>,
    record: Seq<u8>,
    payload: Seq<u8>,
)
    requires
        payload.len() < 8,
    ensures
        purchase_outcome(buyer, signed, whitelist, balance, token_program, record, payload) is Err,
        authorized(buyer, signed, whitelist) && !is_unset(buyer) ==> purchase_outcome(
            buyer,
            signed,
            whitelist,
            balance,
            token_program,
            record,
            payload,
        ) == Err::<GameStateView, GameError>(GameError::MalformedInput),
{
}

/// A failed transfer undoes the purchase: settling the committed record with
/// `transferred == false` puts back the bytes that the purchase read.
pub proof fn lemma_failed_transfer_restores(
    buyer: &Identity,
    signed: bool,
    whitelist: Seq<Identity>,
    balance: Option<u64>,
    token_program: Seq<u8>,
    record: Seq<u8>,
    payload: Seq<u8>,
    settlement: Settlement,
)
    requires
        purchase_outcome(buyer@, signed, whitelist, balance, token_program, record, payload) is Ok,
        settlement.buyer@ == buyer@,
        settlement.before@ == purchase_outcome(
            buyer@,
            signed,
            whitelist,
            balance,
            token_program,
            record,
            payload,
        )->Ok_0,
        settlement.amount == settlement.before@.last_price,
    ensures
        settle_outcome(settlement.before@.sold_to(buyer@).encode(), settlement, false) == Ok::<
            Option<Seq<u8>>,
            GameError,
        >(Some(record)),
        settle_outcome(settlement.before@.sold_to(buyer@).encode(), settlement, true) == Ok::<
            Option<Seq<u8>>,
            GameError,
        >(None),
{
    lemma_encode_decode(record);
    lemma_decode_encode(settlement.before@.sold_to(buyer@));
}

} // verus!
