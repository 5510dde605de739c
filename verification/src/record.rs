use vstd::prelude::*;
use crate::arith::{le_bytes, le_u64, lemma_le_bytes_then_value, lemma_le_value_then_bytes, parse_u64_le, write_u64_le};
use crate::error::GameError;
use crate::identity::{is_unset, unset_bytes, Identity};

verus! {

/// Number of bytes in a persisted record.
pub const RECORD_LEN: usize = 49;

/// The escrow record of one purchasable position.
#[derive(Clone, Copy, Debug, PartialEq, Eq)]
pub struct GameState {
    /// Price recorded when the escrow was created.
    pub entry_price: u64,
    /// Price most recently refreshed.
    pub last_price: u64,
    /// True while the position is open and purchasable.
    pub game_active: bool,
    /// The buyer, once a purchase has completed.
    pub player2: Option<Identity>,
}

/// What a record says, with the buyer as a sequence of bytes.
pub struct GameStateView {
    pub entry_price: u64,
    pub last_price: u64,
    pub game_active: bool,
    pub player2: Option<Seq<u8>>,
}

impl View for GameState {
    type V = GameStateView;

    open spec fn view(&self) -> GameStateView {
        GameStateView {
            entry_price: self.entry_price,
            last_price: self.last_price,
            game_active: self.game_active,
            player2: match self.player2 {
                Some(id) => Some(id@),
                None => None,
            },
        }
    }
}

impl GameStateView {
    /// A recorded buyer is a real identity of 32 bytes, and a record with a buyer is terminal.
    pub open spec fn wf(self) -> bool {
        match self.player2 {
            Some(id) => id.len() == 32 && !is_unset(id) && !self.game_active,
            None => true,
        }
    }

    /// The 49 bytes of the record: both prices in little-endian order, one flag
    /// byte, and the buyer's 32 bytes, all zero while there is none.
    pub open spec fn encode(self) -> Seq<u8> {
        le_bytes(self.entry_price) + le_bytes(self.last_price) + seq![
            if self.game_active {
                1u8
            } else {
                0u8
            },
        ] + match self.player2 {
            Some(id) => id,
            None => unset_bytes(),
        }
    }

    /// The terminal record that a purchase by `buyer` leaves behind.
    pub open spec fn sold_to(self, buyer: Seq<u8>) -> GameStateView {
        GameStateView { game_active: false, player2: Some(buyer), ..self }
    }

    /// The record after a refresh to `price`.
    pub open spec fn repriced(self, price: u64) -> GameStateView {
        GameStateView { last_price: price, ..self }
    }
}

/// The record that `bytes` spell, if they follow the layout: exactly 49 bytes,
/// a flag byte of 0 or 1, and no buyer on a record that is still active.
pub open spec fn decode(bytes: Seq<u8>) -> Option<GameStateView> {
    if bytes.len() != 49 || bytes[16] > 1 {
        None
    } else if bytes[16] == 1 && !is_unset(bytes.subrange(17, 49)) {
        None
    } else {
        Some(
            GameStateView {
                entry_price: le_u64(bytes.subrange(0, 8)) as u64,
                last_price: le_u64(bytes.subrange(8, 16)) as u64,
                game_active: bytes[16] == 1,
                player2: if is_unset(bytes.subrange(17, 49)) {
                    None
                } else {
                    Some(bytes.subrange(17, 49))
                },
            },
        )
    }
}

/// What `store` answers for a state and a buffer of `len` bytes.
pub open spec fn store_outcome(state: GameStateView, len: nat) -> Result<(), GameError> {
    if len < 49 {
        Err(GameError::BufferTooSmall)
    } else if len > 49 || !state.wf() {
        Err(GameError::Malformed)
    } else {
        Ok(())
    }
}

/// Decoding the bytes of a well-formed record gives the record back.
pub proof fn lemma_decode_encode(state: GameStateView)
    requires
        state.wf(),
    ensures
        state.encode().len() == 49,
        decode(state.encode()) == Some(state),
{
    let bytes = state.encode();
    lemma_le_bytes_then_value(state.entry_price);
    lemma_le_bytes_then_value(state.last_price);
    assert(bytes.subrange(0, 8) =~= le_bytes(state.entry_price));
    assert(bytes.subrange(8, 16) =~= le_bytes(state.last_price));
    match state.player2 {
        Some(id) => {
            assert(bytes.subrange(17, 49) =~= id);
        },
        None => {
            assert(bytes.subrange(17, 49) =~= unset_bytes());
            assert(is_unset(unset_bytes()));
        },
    }
}

/// Bytes that decode are the bytes of the record they decode to, and that record is well formed.
pub proof fn lemma_encode_decode(bytes: Seq<u8>)
    requires
        decode(bytes) is Some,
    ensures
        decode(bytes)->Some_0.wf(),
        decode(bytes)->Some_0.encode() == bytes,
{
    let state = decode(bytes)->Some_0;
    lemma_le_value_then_bytes(bytes.subrange(0, 8));
    lemma_le_value_then_bytes(bytes.subrange(8, 16));
    let tail = bytes.subrange(17, 49);
    if is_unset(tail) {
        assert(tail =~= unset_bytes());
    }
    assert(state.encode() =~= bytes);
}

impl GameState {
    /// A fresh record: active, without a buyer, both prices at `entry_price`.
    pub fn new(entry_price: u64) -> (r: GameState)
        ensures
            r@ == (GameStateView {
                entry_price,
                last_price: entry_price,
                game_active: true,
                player2: None,
            }),
            r@.wf(),
    {
        GameState { entry_price, last_price: entry_price, game_active: true, player2: None }
    }

    /// Whether the record keeps the rule that `GameStateView::wf` states.
    pub fn is_well_formed(&self) -> (r: bool)
        ensures
            r == self@.wf(),
    {
        match &self.player2 {
            Some(id) => !id.is_default() && !self.game_active,
            None => true,
        }
    }
}

/// Reads a record from its persisted bytes. Anything but a complete record in
/// the layout of `GameStateView::encode` is refused.
pub fn load(raw_bytes: &[u8]) -> (r: Result<GameState, GameError>)
    ensures
        match decode(raw_bytes@) {
            Some(state) => r is Ok && r->Ok_0@ == state,
            None => r == Err::<GameState, GameError>(GameError::Malformed),
        },
{
    if raw_bytes.len() != RECORD_LEN {
        return Err(GameError::Malformed);
    }
    let flag: u8 = raw_bytes[16];
    if flag > 1 {
        return Err(GameError::Malformed);
    }
    let entry = parse_u64_le(vstd::slice::slice_subrange(raw_bytes, 0, 8));
    let last = parse_u64_le(vstd::slice::slice_subrange(raw_bytes, 8, 16));
    let who = Identity::from_bytes(vstd::slice::slice_subrange(raw_bytes, 17, 49));
    match (entry, last, who) {
        (Ok(entry_price), Ok(last_price), Ok(id)) => {
            let unset = id.is_default();
            if flag == 1 && !unset {
                return Err(GameError::Malformed);
            }
            Ok(
                GameState {
                    entry_price,
                    last_price,
                    game_active: flag == 1,
                    player2: if unset {
                        None
                    } else {
                        Some(id)
                    },
                },
            )
        },
        _ => Err(GameError::Malformed),
    }
}

/// Writes a record over a buffer of exactly 49 bytes. A shorter buffer, a
/// longer one, or a record that is not well formed is refused, and the buffer
/// is then left as it was.
pub fn store(state: &GameState, raw_buffer: &mut Vec<u8>) -> (r: Result<(), GameError>)
    ensures
        r == store_outcome(state@, old(raw_buffer)@.len()),
        r is Ok ==> final(raw_buffer)@ == state@.encode(),
        r is Err ==> final(raw_buffer)@ == old(raw_buffer)@,
{
    if raw_buffer.len() < RECORD_LEN {
        return Err(GameError::BufferTooSmall);
    }
    if raw_buffer.len() > RECORD_LEN || !state.is_well_formed() {
        return Err(GameError::Malformed);
    }
    write_u64_le(raw_buffer, 0, state.entry_price);
    write_u64_le(raw_buffer, 8, state.last_price);
    raw_buffer[16] = if state.game_active {
        1
    } else {
        0
    };
    let ghost head = raw_buffer@.subrange(0, 17);
    assert(head =~= state@.encode().subrange(0, 17));
    let ghost tail = match state.player2 {
        Some(id) => id@,
        None => unset_bytes(),
    };
    let mut i: usize = 0;
    while i < 32
        invariant
            i <= 32,
            raw_buffer@.len() == 49,
            raw_buffer@.subrange(0, 17) == head,
            tail.len() == 32,
            tail == (match state.player2 {
                Some(id) => id@,
                None => unset_bytes(),
            }),
            forall|j: int| 17 <= j < 17 + i ==> raw_buffer@[j] == tail[j - 17],
        decreases 32 - i,
    {
        let b: u8 = match &state.player2 {
            Some(id) => id.bytes[i],
            None => 0,
        };
        raw_buffer[17 + i] = b;
        assert(raw_buffer@.subrange(0, 17) =~= head);
        i += 1;
    }
    assert(raw_buffer@ =~= raw_buffer@.subrange(0, 17) + raw_buffer@.subrange(17, 49));
    assert(raw_buffer@.subrange(17, 49) =~= tail);
    assert(raw_buffer@ =~= state@.encode());
    Ok(())
}

} // verus!
