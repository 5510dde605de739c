use vstd::prelude::*;
use crate::arith::checked_add_u64;
use crate::error::GameError;
use crate::record::{decode, lemma_decode_encode, lemma_encode_decode, load, store, GameState};

verus! {

/// What a refresh to `quote` does to the bytes of a record: the new bytes, or
/// the reason for which the record stays as it is. A quote is accepted only
/// with headroom above it, so `u64::MAX` itself is an overflow.
pub open spec fn refresh_outcome(record: Seq<u8>, quote: u64) -> Result<Seq<u8>, GameError> {
    match decode(record) {
        None => Err(GameError::Malformed),
        Some(state) => if !state.game_active {
            Err(GameError::Inactive)
        } else if quote + 1 > u64::MAX {
            Err(GameError::Overflow)
        } else {
            Ok(state.repriced(quote).encode())
        },
    }
}

/// Refreshes `last_price` of the record in `record` to the price that the
/// trusted source quoted. A terminal record is never refreshed; on any
/// refusal the bytes stay as they were.
pub fn fetch_price(record: &mut Vec<u8>, quote: u64) -> (r: Result<(), GameError>)
    ensures
        match refresh_outcome(old(record)@, quote) {
            Ok(bytes) => r == Ok::<(), GameError>(()) && final(record)@ == bytes,
            Err(e) => r == Err::<(), GameError>(e) && final(record)@ == old(record)@,
        },
{
    let state = match load(record.as_slice()) {
        Ok(state) => state,
        Err(e) => {
            return Err(e);
        },
    };
    if !state.game_active {
        return Err(GameError::Inactive);
    }
    match checked_add_u64(quote, 1) {
        Ok(_) => {},
        Err(e) => {
            return Err(e);
        },
    }
    let refreshed = GameState { last_price: quote, ..state };
    proof {
        lemma_encode_decode(record@);
    }
    store(&refreshed, record)
}

/// A refresh never stores a wrapped price: where it succeeds, the record it
/// leaves decodes to the old one with `last_price` equal to the quote, still
/// active; and a quote of `u64::MAX` on an active record is an overflow.
pub proof fn lemma_refresh_never_wraps(record: Seq<u8>, quote: u64)
    ensures
        match refresh_outcome(record, quote) {
            Ok(bytes) => quote < u64::MAX && decode(bytes) == Some(
                decode(record)->Some_0.repriced(quote),
            ) && decode(bytes)->Some_0.last_price == quote && decode(bytes)->Some_0.game_active,
            Err(_) => true,
        },
        decode(record) is Some && decode(record)->Some_0.game_active && quote == u64::MAX
            ==> refresh_outcome(record, quote) == Err::<Seq<u8>, GameError>(GameError::Overflow),
{
    if refresh_outcome(record, quote) is Ok {
        lemma_encode_decode(record);
        lemma_decode_encode(decode(record)->Some_0.repriced(quote));
    }
}

/// A terminal record is never refreshed, whatever the quote.
pub proof fn lemma_refresh_refuses_terminal(record: Seq<u8>, quote: u64)
    requires
        decode(record) is Some,
        !decode(record)->Some_0.game_active,
    ensures
        refresh_outcome(record, quote) == Err::<Seq<u8>, GameError>(GameError::Inactive),
{
}

} // verus!
