use voting_program::error::{ProcessError, VoteError};
use voting_program::instruction::VoteInstruction;
use voting_program::state::{Vote, Voter, VoteManager};

fn sample_vote() -> Vote {
    let mut title = [b' '; 30];
    title[..5].copy_from_slice(b"Hello");
    Vote { yes: 0x0102_0304, no: 7, is_initialized: true, title, end_time: 1_700_000_000 }
}

#[test]
fn vote_round_trip() {
    let v = sample_vote();
    let bytes = v.to_bytes();
    assert_eq!(bytes.len(), 47);
    assert_eq!(Vote::unpack_unchecked(&bytes), Ok(v));
}

#[test]
fn vote_layout_is_little_endian_with_end_time_after_title() {
    let bytes = sample_vote().to_bytes();
    assert_eq!(&bytes[0..4], &[4, 3, 2, 1]);
    assert_eq!(&bytes[4..8], &[7, 0, 0, 0]);
    assert_eq!(bytes[8], 1);
    assert_eq!(&bytes[9..14], b"Hello");
    assert_eq!(&bytes[39..47], &1_700_000_000u64.to_le_bytes());
}

#[test]
fn vote_pack_into_longer_buffer_keeps_tail() {
    let mut dst = vec![0xAAu8; 50];
    sample_vote().pack_into_slice(&mut dst);
    assert_eq!(&dst[47..], &[0xAA, 0xAA, 0xAA]);
    assert_eq!(Vote::unpack_from_slice(&dst), Ok(sample_vote()));
}

#[test]
fn voter_round_trip() {
    let v = Voter { is_initialized: true, has_voted: false, temp_token_account_pubkey: [5u8; 32] };
    let bytes = v.to_bytes();
    assert_eq!(bytes.len(), 34);
    assert_eq!(Voter::unpack_unchecked(&bytes), Ok(v));
    let mut dst = vec![9u8; 34];
    v.pack_into_slice(&mut dst);
    assert_eq!(dst, bytes);
}

#[test]
fn zero_records_decode_uninitialized() {
    let v = Vote::unpack_unchecked(&[0u8; 47]).unwrap();
    assert!(!v.is_initialized());
    assert_eq!((v.yes, v.no, v.end_time), (0, 0, 0));
    assert_eq!(v.title, [0u8; 30]);
    let w = Voter::unpack_unchecked(&[0u8; 34]).unwrap();
    assert!(!w.is_initialized());
    assert!(!w.has_voted);
}

#[test]
fn strict_flags_and_lengths() {
    let mut bad = [0u8; 47];
    bad[8] = 2;
    assert_eq!(Vote::unpack_unchecked(&bad), Err(ProcessError::InvalidAccountData));
    assert_eq!(Vote::unpack_unchecked(&[0u8; 46]), Err(ProcessError::InvalidAccountData));
    let mut bad_voter = [0u8; 34];
    bad_voter[1] = 3;
    assert_eq!(Voter::unpack_unchecked(&bad_voter), Err(ProcessError::InvalidAccountData));
    assert_eq!(Voter::unpack_unchecked(&[0u8; 2]), Err(ProcessError::InvalidAccountData));
}

#[test]
fn vote_manager_has_no_bytes() {
    assert!(VoteManager::unpack_from_slice(&[]).is_ok());
    let mut dst = vec![1u8, 2];
    VoteManager {}.pack_into_slice(&mut dst);
    assert_eq!(dst, vec![1u8, 2]);
}

#[test]
fn add_ballot_counts_and_stops_at_max() {
    let v = sample_vote();
    assert_eq!(v.add_ballot(true).unwrap().yes, 0x0102_0305);
    assert_eq!(v.add_ballot(false).unwrap().no, 8);
    let full = Vote { no: u32::MAX, ..v };
    assert_eq!(full.add_ballot(false), None);
}

#[test]
fn unpack_instructions() {
    let mut buf = vec![0u8];
    buf.extend_from_slice(b"Should we ship v2?            ");
    buf.push(0xEE);
    buf.extend_from_slice(&1_700_000_000u64.to_le_bytes());
    assert_eq!(buf.len(), 40);
    assert_eq!(
        VoteInstruction::unpack(&buf),
        Ok(VoteInstruction::NewVote {
            vote_title: *b"Should we ship v2?            ",
            end_time: 1_700_000_000
        })
    );
    assert_eq!(VoteInstruction::unpack(&[1, 1]), Ok(VoteInstruction::Vote { is_vote_for: true }));
    assert_eq!(VoteInstruction::unpack(&[1, 0]), Ok(VoteInstruction::Vote { is_vote_for: false }));
    assert_eq!(VoteInstruction::unpack(&[1, 7]), Ok(VoteInstruction::Vote { is_vote_for: false }));
    assert_eq!(VoteInstruction::unpack(&[2]), Ok(VoteInstruction::Withdraw {}));
}

#[test]
fn unpack_rejects_bad_instructions() {
    let invalid = Err(ProcessError::Custom(VoteError::InvalidInstruction));
    assert_eq!(VoteInstruction::unpack(&[]), invalid);
    assert_eq!(VoteInstruction::unpack(&[3]), invalid);
    assert_eq!(VoteInstruction::unpack(&[1]), invalid);
    assert_eq!(VoteInstruction::unpack(&[0; 39]), invalid);
}

#[test]
fn error_codes() {
    assert_eq!(VoteError::InvalidInstruction.code(), 0);
    assert_eq!(VoteError::VoteDataAccountAlreadyInitialized.code(), 1);
    assert_eq!(VoteError::VoteInProgress.code(), 2);
}
