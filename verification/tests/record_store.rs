use game_escrow::arith::{checked_add_u64, checked_mul_u64, checked_sub_u64, parse_u64_le};
use game_escrow::error::GameError;
use game_escrow::identity::{
    is_whitelisted, parse_whitelist, require_identity_initialized, Identity,
};
use game_escrow::record::{load, store, GameState, RECORD_LEN};

fn id(seed: u8) -> Identity {
    let mut bytes = [0u8; 32];
    for (i, b) in bytes.iter_mut().enumerate() {
        *b = seed.wrapping_add(i as u8);
    }
    Identity { bytes }
}

fn open_record(price: u64) -> GameState {
    GameState { entry_price: price, last_price: price, game_active: true, player2: None }
}

#[test]
fn checked_add_exact_and_overflow() {
    assert_eq!(checked_add_u64(2, 3), Ok(5));
    assert_eq!(checked_add_u64(u64::MAX - 1, 1), Ok(u64::MAX));
    assert_eq!(checked_add_u64(u64::MAX, 1), Err(GameError::Overflow));
    assert_eq!(checked_add_u64(u64::MAX, u64::MAX), Err(GameError::Overflow));
}

#[test]
fn checked_sub_exact_and_underflow() {
    assert_eq!(checked_sub_u64(150, 100), Ok(50));
    assert_eq!(checked_sub_u64(100, 100), Ok(0));
    assert_eq!(checked_sub_u64(50, 100), Err(GameError::Overflow));
}

#[test]
fn checked_mul_exact_and_overflow() {
    assert_eq!(checked_mul_u64(6, 7), Ok(42));
    assert_eq!(checked_mul_u64(1 << 32, 1 << 31), Ok(1 << 63));
    assert_eq!(checked_mul_u64(1 << 32, 1 << 32), Err(GameError::Overflow));
    assert_eq!(checked_mul_u64(u64::MAX, 0), Ok(0));
}

#[test]
fn parse_u64_le_reads_exactly_eight_bytes() {
    assert_eq!(parse_u64_le(&[100, 0, 0, 0, 0, 0, 0, 0]), Ok(100));
    assert_eq!(parse_u64_le(&[0x01, 0x02, 0x03, 0x04, 0x05, 0x06, 0x07, 0x08]), Ok(0x0807_0605_0403_0201));
    assert_eq!(parse_u64_le(&[0xff; 8]), Ok(u64::MAX));
    assert_eq!(parse_u64_le(&0xdead_beef_0123_4567u64.to_le_bytes()), Ok(0xdead_beef_0123_4567));
}

#[test]
fn parse_u64_le_refuses_other_lengths() {
    assert_eq!(parse_u64_le(&[]), Err(GameError::MalformedInput));
    assert_eq!(parse_u64_le(&[1, 2, 3, 4, 5, 6, 7]), Err(GameError::MalformedInput));
    assert_eq!(parse_u64_le(&[0; 9]), Err(GameError::MalformedInput));
}

#[test]
fn unset_identity_is_refused() {
    let unset = Identity { bytes: [0u8; 32] };
    assert!(unset.is_default());
    assert_eq!(require_identity_initialized(&unset), Err(GameError::UninitializedParticipant));
    let mut last = [0u8; 32];
    last[31] = 1;
    let real = Identity { bytes: last };
    assert!(!real.is_default());
    assert_eq!(require_identity_initialized(&real), Ok(()));
}

#[test]
fn identity_from_bytes_wants_thirty_two() {
    let bytes: Vec<u8> = (0u8..32).collect();
    let got = Identity::from_bytes(&bytes).unwrap();
    assert_eq!(got.bytes.to_vec(), bytes);
    assert_eq!(Identity::from_bytes(&bytes[..31]), Err(GameError::MalformedInput));
    assert_eq!(Identity::from_bytes(&[0u8; 33]), Err(GameError::MalformedInput));
}

#[test]
fn identities_compare_by_bytes() {
    assert!(id(1).same_as(&id(1)));
    assert!(!id(1).same_as(&id(2)));
    let mut near = id(1);
    near.bytes[31] ^= 1;
    assert!(!id(1).same_as(&near));
}

#[test]
fn whitelist_lookup() {
    let list = vec![id(1), id(2), id(3)];
    assert!(is_whitelisted(&list, &id(3)));
    assert!(is_whitelisted(&list, &id(1)));
    assert!(!is_whitelisted(&list, &id(4)));
    assert!(!is_whitelisted(&[], &id(1)));
}

#[test]
fn whitelist_is_read_entry_by_entry() {
    let mut data = Vec::new();
    data.extend_from_slice(&id(7).bytes);
    data.extend_from_slice(&id(9).bytes);
    assert_eq!(parse_whitelist(&data), Ok(vec![id(7), id(9)]));
    assert_eq!(parse_whitelist(&[]), Ok(vec![]));
    assert_eq!(parse_whitelist(&data[..63]), Err(GameError::MalformedInput));
    assert_eq!(parse_whitelist(&[0u8; 1]), Err(GameError::MalformedInput));
}

#[test]
fn new_record_is_open() {
    let state = GameState::new(100);
    assert_eq!(state, open_record(100));
    assert!(state.is_well_formed());
}

#[test]
fn store_writes_the_fixed_layout() {
    let state = GameState { entry_price: 100, last_price: 0x0102, game_active: true, player2: None };
    let mut buffer = vec![0xaau8; RECORD_LEN];
    assert_eq!(store(&state, &mut buffer), Ok(()));
    let mut expected = Vec::new();
    expected.extend_from_slice(&[100, 0, 0, 0, 0, 0, 0, 0]);
    expected.extend_from_slice(&[0x02, 0x01, 0, 0, 0, 0, 0, 0]);
    expected.push(1);
    expected.extend_from_slice(&[0u8; 32]);
    assert_eq!(buffer, expected);
}

#[test]
fn store_agrees_with_borsh() {
    let sold = GameState { entry_price: 7, last_price: u64::MAX - 3, game_active: false, player2: Some(id(5)) };
    let mut buffer = vec![0u8; RECORD_LEN];
    assert_eq!(store(&sold, &mut buffer), Ok(()));
    let by_borsh = borsh::to_vec(&(7u64, u64::MAX - 3, false, id(5).bytes)).unwrap();
    assert_eq!(buffer, by_borsh);
    let open = open_record(100);
    assert_eq!(store(&open, &mut buffer), Ok(()));
    let by_borsh = borsh::to_vec(&(100u64, 100u64, true, [0u8; 32])).unwrap();
    assert_eq!(buffer, by_borsh);
}

#[test]
fn load_agrees_with_borsh() {
    let bytes = borsh::to_vec(&(11u64, 0x1122_3344_5566_7788u64, false, id(9).bytes)).unwrap();
    assert_eq!(
        load(&bytes),
        Ok(GameState {
            entry_price: 11,
            last_price: 0x1122_3344_5566_7788,
            game_active: false,
            player2: Some(id(9)),
        })
    );
}

#[test]
fn load_after_store_gives_the_record_back() {
    for state in [
        open_record(0),
        open_record(u64::MAX),
        GameState { entry_price: 1, last_price: 2, game_active: false, player2: None },
        GameState { entry_price: 3, last_price: 4, game_active: false, player2: Some(id(200)) },
    ] {
        let mut buffer = vec![0u8; RECORD_LEN];
        assert_eq!(store(&state, &mut buffer), Ok(()));
        assert_eq!(load(&buffer), Ok(state));
    }
}

#[test]
fn store_refuses_a_short_buffer() {
    let mut buffer = vec![9u8; RECORD_LEN - 1];
    assert_eq!(store(&open_record(1), &mut buffer), Err(GameError::BufferTooSmall));
    assert_eq!(buffer, vec![9u8; RECORD_LEN - 1]);
    let mut empty: Vec<u8> = Vec::new();
    assert_eq!(store(&open_record(1), &mut empty), Err(GameError::BufferTooSmall));
}

#[test]
fn store_refuses_a_long_buffer() {
    let mut buffer = vec![9u8; RECORD_LEN + 1];
    assert_eq!(store(&open_record(1), &mut buffer), Err(GameError::Malformed));
    assert_eq!(buffer, vec![9u8; RECORD_LEN + 1]);
}

#[test]
fn store_refuses_an_ill_formed_record() {
    let unset_buyer = GameState {
        entry_price: 1,
        last_price: 1,
        game_active: false,
        player2: Some(Identity { bytes: [0u8; 32] }),
    };
    assert!(!unset_buyer.is_well_formed());
    let mut buffer = vec![9u8; RECORD_LEN];
    assert_eq!(store(&unset_buyer, &mut buffer), Err(GameError::Malformed));
    assert_eq!(buffer, vec![9u8; RECORD_LEN]);
    let active_with_buyer =
        GameState { entry_price: 1, last_price: 1, game_active: true, player2: Some(id(1)) };
    assert!(!active_with_buyer.is_well_formed());
    assert_eq!(store(&active_with_buyer, &mut buffer), Err(GameError::Malformed));
    assert_eq!(buffer, vec![9u8; RECORD_LEN]);
}

#[test]
fn load_refuses_wrong_lengths() {
    assert_eq!(load(&[]), Err(GameError::Malformed));
    assert_eq!(load(&[0u8; 48]), Err(GameError::Malformed));
    assert_eq!(load(&[0u8; 50]), Err(GameError::Malformed));
    assert_eq!(load(&[0u8; 17]), Err(GameError::Malformed));
}

#[test]
fn load_refuses_a_foreign_flag_byte() {
    let mut bytes = vec![0u8; RECORD_LEN];
    bytes[16] = 2;
    assert_eq!(load(&bytes), Err(GameError::Malformed));
    bytes[16] = 0xff;
    assert_eq!(load(&bytes), Err(GameError::Malformed));
}

#[test]
fn load_refuses_an_active_record_with_a_buyer() {
    let mut bytes = vec![0u8; RECORD_LEN];
    bytes[16] = 1;
    bytes[48] = 1;
    assert_eq!(load(&bytes), Err(GameError::Malformed));
    bytes[16] = 0;
    let loaded = load(&bytes).unwrap();
    assert!(!loaded.game_active);
    assert!(loaded.player2.is_some());
}
