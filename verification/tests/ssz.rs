use beacon_sync::attestation_data::{AttestationData, SSZ_ATTESTATION_DATA_LENGTH};
use beacon_sync::attestation_data_and_custody_bit::AttestationDataAndCustodyBit;
use beacon_sync::eth1_data::Eth1Data;
use beacon_sync::eth1_data_vote::Eth1DataVote;
use beacon_sync::ssz::{ssz_encode, Decodable, DecodeError, Encodable, SszStream};
use beacon_sync::test_random::{bool_from_word, TestRandom};
use beacon_sync::types::Hash256;
use rand::prng::XorShiftRng;
use rand::SeedableRng;

fn hash(byte: u8) -> Hash256 {
    Hash256 { bytes: [byte; 32] }
}

fn attestation_data() -> AttestationData {
    AttestationData {
        slot: 1,
        shard: 2,
        beacon_block_hash: hash(3),
        epoch_boundary_hash: hash(4),
        shard_block_hash: hash(5),
        latest_crosslink_hash: hash(6),
        justified_slot: 7,
        justified_block_hash: hash(8),
    }
}

#[test]
pub fn attestation_data_and_custody_bit_test_ssz_round_trip() {
    let mut rng = XorShiftRng::from_seed([42; 16]);

    let original = AttestationDataAndCustodyBit::random_for_test(&mut rng);

    let bytes = ssz_encode(&original);

    let (decoded, _) = <_>::ssz_decode(&bytes, 0).unwrap();

    assert_eq!(original, decoded);
}

#[test]
fn eth1_data_vote_ssz_round_trip() {
    let mut rng = XorShiftRng::from_seed([42; 16]);
    let original = Eth1DataVote::random_for_test(&mut rng);
    let bytes = ssz_encode(&original);
    let (decoded, end) = Eth1DataVote::ssz_decode(&bytes, 0).unwrap();
    assert_eq!(original, decoded);
    assert_eq!(end, 72);
    assert_eq!(bytes.len(), 72);
}

#[test]
fn random_values_follow_the_seed() {
    let mut first = XorShiftRng::from_seed([42; 16]);
    let mut second = XorShiftRng::from_seed([42; 16]);
    let a = AttestationDataAndCustodyBit::random_for_test(&mut first);
    let b = AttestationDataAndCustodyBit::random_for_test(&mut second);
    assert_eq!(a, b);
    // the generator has moved on
    let c = AttestationDataAndCustodyBit::random_for_test(&mut first);
    assert_ne!(a, c);
    assert_ne!(a.data.beacon_block_hash, Hash256::zero());
    assert_ne!(a.data.beacon_block_hash, a.data.epoch_boundary_hash);
}

#[test]
fn random_primitives_take_what_the_generator_gives() {
    // the generator gives 32-bit words; a u64 is two of them, low word first
    let mut words = XorShiftRng::from_seed([7; 16]);
    let mut values = XorShiftRng::from_seed([7; 16]);
    let low = u64::from(rand::RngCore::next_u32(&mut words));
    let high = u64::from(rand::RngCore::next_u32(&mut words));
    assert_eq!(u64::random_for_test(&mut values), (high << 32) | low);
    let word = rand::RngCore::next_u32(&mut words);
    assert_eq!(bool::random_for_test(&mut values), word % 2 == 1);
    let mut bytes = [0u8; 32];
    rand::RngCore::fill_bytes(&mut words, &mut bytes);
    assert_eq!(Hash256::random_for_test(&mut values), Hash256 { bytes });
}

#[test]
fn an_integer_is_encoded_low_byte_first() {
    assert_eq!(ssz_encode(&0u64), vec![0, 0, 0, 0, 0, 0, 0, 0]);
    assert_eq!(ssz_encode(&1u64), vec![1, 0, 0, 0, 0, 0, 0, 0]);
    assert_eq!(
        ssz_encode(&0x0102_0304_0506_0708u64),
        vec![0x08, 0x07, 0x06, 0x05, 0x04, 0x03, 0x02, 0x01]
    );
    assert_eq!(ssz_encode(&u64::MAX), vec![0xff; 8]);
}

#[test]
fn an_integer_is_decoded_where_it_stands() {
    let bytes = [0xee, 0x08, 0x07, 0x06, 0x05, 0x04, 0x03, 0x02, 0x01, 0xee];
    assert_eq!(u64::ssz_decode(&bytes, 1), Ok((0x0102_0304_0506_0708, 9)));
    assert_eq!(u64::ssz_decode(&bytes, 2), Ok((0xee01_0203_0405_0607, 10)));
    assert_eq!(u64::ssz_decode(&bytes, 3), Err(DecodeError::TooShort));
    assert_eq!(u64::ssz_decode(&bytes, 10), Err(DecodeError::TooShort));
    assert_eq!(u64::ssz_decode(&bytes, usize::MAX), Err(DecodeError::TooShort));
    assert_eq!(u64::ssz_decode(&[], 0), Err(DecodeError::TooShort));
    assert_eq!(u64::ssz_decode(&[1, 2, 3, 4, 5, 6, 7], 0), Err(DecodeError::TooShort));
}

#[test]
fn a_boolean_is_one_byte() {
    assert_eq!(ssz_encode(&false), vec![0]);
    assert_eq!(ssz_encode(&true), vec![1]);
    assert_eq!(bool::ssz_decode(&[0], 0), Ok((false, 1)));
    assert_eq!(bool::ssz_decode(&[1], 0), Ok((true, 1)));
    assert_eq!(bool::ssz_decode(&[9, 1], 1), Ok((true, 2)));
}

#[test]
fn a_boolean_of_another_byte_is_invalid() {
    assert_eq!(bool::ssz_decode(&[2], 0), Err(DecodeError::Invalid));
    assert_eq!(bool::ssz_decode(&[0x80], 0), Err(DecodeError::Invalid));
    assert_eq!(bool::ssz_decode(&[0xff], 0), Err(DecodeError::Invalid));
}

#[test]
fn a_boolean_past_the_end_is_too_short() {
    assert_eq!(bool::ssz_decode(&[], 0), Err(DecodeError::TooShort));
    assert_eq!(bool::ssz_decode(&[1], 1), Err(DecodeError::TooShort));
    assert_eq!(bool::ssz_decode(&[1], usize::MAX), Err(DecodeError::TooShort));
}

#[test]
fn a_hash_is_its_bytes() {
    let mut bytes = [0u8; 32];
    for (i, byte) in bytes.iter_mut().enumerate() {
        *byte = i as u8;
    }
    let hash = Hash256 { bytes };
    assert_eq!(ssz_encode(&hash), bytes.to_vec());
    assert_eq!(Hash256::from_slice(&bytes), hash);
    let mut longer = vec![0xee];
    longer.extend_from_slice(&bytes);
    assert_eq!(Hash256::ssz_decode(&longer, 1), Ok((hash, 33)));
    assert_eq!(Hash256::ssz_decode(&longer, 2), Err(DecodeError::TooShort));
    assert_eq!(Hash256::ssz_decode(&bytes[..31], 0), Err(DecodeError::TooShort));
}

#[test]
fn a_stream_gathers_what_is_appended() {
    let mut stream = SszStream::new();
    stream.append(&1u64);
    stream.append(&true);
    stream.append_encoded_raw(&[7, 8]);
    true.ssz_append(&mut stream);
    assert_eq!(stream.drain(), vec![1, 0, 0, 0, 0, 0, 0, 0, 1, 7, 8, 1]);
    assert_eq!(SszStream::new().drain(), vec![]);
}

#[test]
fn attestation_data_is_its_fields_in_order() {
    let bytes = ssz_encode(&attestation_data());
    assert_eq!(bytes.len(), SSZ_ATTESTATION_DATA_LENGTH);
    assert_eq!(SSZ_ATTESTATION_DATA_LENGTH, 184);
    let mut expected = vec![1, 0, 0, 0, 0, 0, 0, 0, 2, 0, 0, 0, 0, 0, 0, 0];
    expected.extend_from_slice(&[3; 32]);
    expected.extend_from_slice(&[4; 32]);
    expected.extend_from_slice(&[5; 32]);
    expected.extend_from_slice(&[6; 32]);
    expected.extend_from_slice(&[7, 0, 0, 0, 0, 0, 0, 0]);
    expected.extend_from_slice(&[8; 32]);
    assert_eq!(bytes, expected);
    assert_eq!(AttestationData::ssz_decode(&bytes, 0), Ok((attestation_data(), 184)));
    assert_eq!(AttestationData::ssz_decode(&bytes[..183], 0), Err(DecodeError::TooShort));
    assert_eq!(AttestationData::ssz_decode(&bytes, 1), Err(DecodeError::TooShort));
}

#[test]
fn custody_bit_follows_the_data() {
    let value = AttestationDataAndCustodyBit { data: attestation_data(), custody_bit: true };
    let mut bytes = ssz_encode(&value);
    assert_eq!(bytes.len(), 185);
    assert_eq!(bytes[184], 1);
    assert_eq!(AttestationDataAndCustodyBit::ssz_decode(&bytes, 0), Ok((value, 185)));
    assert_eq!(
        AttestationDataAndCustodyBit::ssz_decode(&bytes[..184], 0),
        Err(DecodeError::TooShort)
    );
    assert_eq!(AttestationDataAndCustodyBit::ssz_decode(&bytes[..3], 0), Err(DecodeError::TooShort));
    bytes[184] = 2;
    assert_eq!(AttestationDataAndCustodyBit::ssz_decode(&bytes, 0), Err(DecodeError::Invalid));
    bytes[184] = 0;
    let unset = AttestationDataAndCustodyBit { data: attestation_data(), custody_bit: false };
    assert_eq!(AttestationDataAndCustodyBit::ssz_decode(&bytes, 0), Ok((unset, 185)));
}

#[test]
fn values_are_decoded_one_after_the_other() {
    let first = AttestationDataAndCustodyBit { data: attestation_data(), custody_bit: false };
    let second = Eth1DataVote {
        eth1_data: Eth1Data { deposit_root: hash(1), block_hash: hash(2) },
        vote_count: 300,
    };
    let mut stream = SszStream::new();
    stream.append(&first);
    stream.append(&second);
    let bytes = stream.drain();
    let (a, next) = AttestationDataAndCustodyBit::ssz_decode(&bytes, 0).unwrap();
    let (b, end) = Eth1DataVote::ssz_decode(&bytes, next).unwrap();
    assert_eq!(a, first);
    assert_eq!(b, second);
    assert_eq!(end, bytes.len());
}

#[test]
fn eth1_data_is_two_hashes() {
    let value = Eth1Data { deposit_root: hash(1), block_hash: hash(2) };
    let mut expected = vec![1; 32];
    expected.extend_from_slice(&[2; 32]);
    assert_eq!(ssz_encode(&value), expected);
    assert_eq!(Eth1Data::ssz_decode(&expected, 0), Ok((value, 64)));
    assert_eq!(Eth1Data::ssz_decode(&expected[..63], 0), Err(DecodeError::TooShort));
    let vote = Eth1DataVote { eth1_data: value, vote_count: 2 };
    expected.extend_from_slice(&[2, 0, 0, 0, 0, 0, 0, 0]);
    assert_eq!(ssz_encode(&vote), expected);
    assert_eq!(Eth1DataVote::ssz_decode(&expected[..71], 0), Err(DecodeError::TooShort));
}

#[test]
fn defaults_are_all_zero() {
    assert_eq!(Hash256::default(), Hash256 { bytes: [0; 32] });
    let data = AttestationData::default();
    assert_eq!(
        data,
        AttestationData {
            slot: 0,
            shard: 0,
            beacon_block_hash: hash(0),
            epoch_boundary_hash: hash(0),
            shard_block_hash: hash(0),
            latest_crosslink_hash: hash(0),
            justified_slot: 0,
            justified_block_hash: hash(0),
        }
    );
    assert_eq!(
        AttestationDataAndCustodyBit::default(),
        AttestationDataAndCustodyBit { data, custody_bit: false }
    );
    let eth1_data = Eth1Data::default();
    assert_eq!(eth1_data, Eth1Data { deposit_root: hash(0), block_hash: hash(0) });
    assert_eq!(Eth1DataVote::default(), Eth1DataVote { eth1_data, vote_count: 0 });
    assert_eq!(ssz_encode(&AttestationDataAndCustodyBit::default()), vec![0; 185]);
}

#[test]
fn an_odd_word_stands_for_true() {
    assert!(!bool_from_word(0));
    assert!(bool_from_word(1));
    assert!(!bool_from_word(2));
    assert!(bool_from_word(3));
    assert!(!bool_from_word(u32::MAX - 1));
    assert!(bool_from_word(u32::MAX));
}
