use solana_program::pubkey::Pubkey;
use voting_program::error::{ProcessError, VoteError};
use voting_program::processor::{AccountRecord, CustodyRequest, Processor};
use voting_program::state::{Vote, Voter};

const PROGRAM: [u8; 32] = [7u8; 32];
const VOTE_KEY: [u8; 32] = [11u8; 32];
const TOKEN_PROGRAM: [u8; 32] = [3u8; 32];

fn record(key: [u8; 32], owner: [u8; 32], is_signer: bool, data: Vec<u8>) -> AccountRecord {
    AccountRecord { key, owner, is_signer, data }
}

fn title() -> [u8; 30] {
    *b"Should we ship v2?            "
}

fn open_vote_data() -> Vec<u8> {
    Vote { yes: 0, no: 0, is_initialized: true, title: title(), end_time: 1_700_000_000 }.to_bytes()
}

fn voter_record_key(voter: [u8; 32]) -> [u8; 32] {
    let text = Pubkey::new_from_array(VOTE_KEY).to_string();
    Pubkey::create_with_seed(
        &Pubkey::new_from_array(voter),
        &text[30..],
        &Pubkey::new_from_array(PROGRAM),
    )
    .unwrap()
    .to_bytes()
}

fn authority() -> (Pubkey, u8) {
    Pubkey::find_program_address(&[b"daoo-voting"], &Pubkey::new_from_array(PROGRAM))
}

fn fresh_voter_data() -> Vec<u8> {
    Voter { is_initialized: true, has_voted: false, temp_token_account_pubkey: [0u8; 32] }
        .to_bytes()
}

fn vote_accounts(voter: [u8; 32], vote_data: Vec<u8>, voter_data: Vec<u8>, signer: bool) -> Vec<AccountRecord> {
    let pledged = [voter[0].wrapping_add(100); 32];
    vec![
        record(pledged, [1u8; 32], false, vec![]),
        record(VOTE_KEY, PROGRAM, false, vote_data),
        record(voter, [0u8; 32], signer, vec![]),
        record(voter_record_key(voter), PROGRAM, false, voter_data),
        record(TOKEN_PROGRAM, [0u8; 32], false, vec![]),
    ]
}

fn cast(vote_data: Vec<u8>, voter: [u8; 32], is_vote_for: bool) -> Vec<u8> {
    let mut accounts = vote_accounts(voter, vote_data, fresh_voter_data(), true);
    let requests = Processor::process_vote(&PROGRAM, &mut accounts, &is_vote_for).unwrap();
    assert_eq!(requests.len(), 1);
    accounts[1].data.clone()
}

#[test]
fn newvote_on_fresh_record_stores_title_and_end_time() {
    let mut accounts = vec![record(VOTE_KEY, PROGRAM, false, vec![0u8; 47])];
    let r = Processor::process_newvote(&PROGRAM, &mut accounts, &title(), &1_700_000_000);
    assert_eq!(r, Ok(()));
    let v = Vote::unpack_unchecked(&accounts[0].data).unwrap();
    assert_eq!(
        v,
        Vote { yes: 0, no: 0, is_initialized: true, title: title(), end_time: 1_700_000_000 }
    );
}

#[test]
fn newvote_through_process_reads_instruction() {
    let mut input = vec![0u8];
    input.extend_from_slice(&title());
    input.push(0);
    input.extend_from_slice(&1_700_000_000u64.to_le_bytes());
    let mut accounts = vec![record(VOTE_KEY, PROGRAM, false, vec![0u8; 47])];
    assert_eq!(Processor::process(&PROGRAM, &mut accounts, &input, 0), Ok(vec![]));
    assert_eq!(accounts[0].data, open_vote_data());
}

#[test]
fn newvote_on_initialized_record_fails() {
    let data = Vote { yes: 4, no: 9, is_initialized: true, title: [1u8; 30], end_time: 5 }.to_bytes();
    let mut accounts = vec![record(VOTE_KEY, PROGRAM, false, data.clone())];
    let r = Processor::process_newvote(&PROGRAM, &mut accounts, &title(), &1);
    assert_eq!(r, Err(ProcessError::Custom(VoteError::VoteDataAccountAlreadyInitialized)));
    assert_eq!(accounts[0].data, data);
}

#[test]
fn newvote_checks_ownership_and_presence() {
    let mut none: Vec<AccountRecord> = vec![];
    assert_eq!(
        Processor::process_newvote(&PROGRAM, &mut none, &title(), &1),
        Err(ProcessError::NotEnoughAccountKeys)
    );
    let mut foreign = vec![record(VOTE_KEY, [8u8; 32], false, vec![0u8; 47])];
    assert_eq!(
        Processor::process_newvote(&PROGRAM, &mut foreign, &title(), &1),
        Err(ProcessError::AccountNotOwnedByProgram)
    );
}

#[test]
fn vote_records_ballot_and_hands_over_custody() {
    let voter = [21u8; 32];
    let mut accounts = vote_accounts(voter, open_vote_data(), fresh_voter_data(), true);
    let requests = Processor::process(&PROGRAM, &mut accounts, &[1, 1], 0).unwrap();
    let v = Vote::unpack_unchecked(&accounts[1].data).unwrap();
    assert_eq!((v.yes, v.no), (1, 0));
    let w = Voter::unpack_unchecked(&accounts[3].data).unwrap();
    assert!(w.has_voted);
    assert_eq!(w.temp_token_account_pubkey, accounts[0].key);
    assert_eq!(
        requests,
        vec![CustodyRequest::SetAuthority {
            token_program: TOKEN_PROGRAM,
            account: accounts[0].key,
            new_authority: authority().0.to_bytes(),
            current_authority: voter,
        }]
    );
}

#[test]
fn vote_without_signature_fails() {
    let voter = [22u8; 32];
    let mut accounts = vote_accounts(voter, open_vote_data(), fresh_voter_data(), false);
    assert_eq!(
        Processor::process_vote(&PROGRAM, &mut accounts, &true),
        Err(ProcessError::MissingRequiredSignature)
    );
}

#[test]
fn second_ballot_fails_and_keeps_tallies() {
    let voter = [23u8; 32];
    let voted = Voter { is_initialized: true, has_voted: true, temp_token_account_pubkey: [1u8; 32] };
    let mut accounts = vote_accounts(voter, open_vote_data(), voted.to_bytes(), true);
    assert_eq!(
        Processor::process_vote(&PROGRAM, &mut accounts, &false),
        Err(ProcessError::InvalidInstructionData)
    );
    assert_eq!(accounts[1].data, open_vote_data());
}

#[test]
fn uninitialized_voter_record_fails() {
    let voter = [24u8; 32];
    let mut accounts = vote_accounts(voter, open_vote_data(), vec![0u8; 34], true);
    assert_eq!(
        Processor::process_vote(&PROGRAM, &mut accounts, &true),
        Err(ProcessError::InvalidInstructionData)
    );
}

#[test]
fn voter_record_at_wrong_address_fails() {
    let voter = [25u8; 32];
    let mut accounts = vote_accounts(voter, open_vote_data(), fresh_voter_data(), true);
    accounts[3].key = [0u8; 32];
    assert_eq!(
        Processor::process_vote(&PROGRAM, &mut accounts, &true),
        Err(ProcessError::InvalidAccountData)
    );
}

#[test]
fn vote_on_full_tally_fails() {
    let voter = [26u8; 32];
    let full = Vote { yes: u32::MAX, no: 0, is_initialized: true, title: title(), end_time: 1 };
    let mut accounts = vote_accounts(voter, full.to_bytes(), fresh_voter_data(), true);
    assert_eq!(
        Processor::process_vote(&PROGRAM, &mut accounts, &true),
        Err(ProcessError::ArithmeticOverflow)
    );
}

#[test]
fn vote_without_token_program_fails() {
    let voter = [27u8; 32];
    let mut accounts = vote_accounts(voter, open_vote_data(), fresh_voter_data(), true);
    accounts.pop();
    assert_eq!(
        Processor::process_vote(&PROGRAM, &mut accounts, &true),
        Err(ProcessError::NotEnoughAccountKeys)
    );
}

#[test]
fn three_ballots_in_any_order() {
    let ballots = [([31u8; 32], true), ([32u8; 32], true), ([33u8; 32], false)];
    let orders = [[0usize, 1, 2], [0, 2, 1], [2, 1, 0]];
    for order in orders {
        let mut data = open_vote_data();
        for i in order {
            data = cast(data, ballots[i].0, ballots[i].1);
        }
        let v = Vote::unpack_unchecked(&data).unwrap();
        assert_eq!((v.yes, v.no), (2, 1));
    }
}

fn token_account_data(amount: u64, state: u8) -> Vec<u8> {
    let mut d = vec![0u8; 165];
    d[64..72].copy_from_slice(&amount.to_le_bytes());
    d[108] = state;
    d
}

fn withdraw_accounts(token_data: Vec<u8>) -> Vec<AccountRecord> {
    vec![
        record(VOTE_KEY, PROGRAM, false, open_vote_data()),
        record([40u8; 32], [0u8; 32], true, vec![]),
        record([41u8; 32], [1u8; 32], false, token_data),
        record([42u8; 32], [0u8; 32], false, vec![]),
        record([43u8; 32], [1u8; 32], false, vec![]),
        record(TOKEN_PROGRAM, [0u8; 32], false, vec![]),
        record(authority().0.to_bytes(), [0u8; 32], false, vec![]),
    ]
}

#[test]
fn withdraw_before_end_time_fails() {
    let accounts = withdraw_accounts(token_account_data(500, 1));
    assert_eq!(
        Processor::process_withdraw(&PROGRAM, &accounts, 1_699_999_999),
        Err(ProcessError::Custom(VoteError::VoteInProgress))
    );
    assert_eq!(
        Processor::process_withdraw(&PROGRAM, &accounts, -5),
        Err(ProcessError::Custom(VoteError::VoteInProgress))
    );
}

#[test]
fn withdraw_after_end_time_transfers_then_closes() {
    let mut accounts = withdraw_accounts(token_account_data(500, 1));
    let (pda, nonce) = authority();
    let requests = Processor::process(&PROGRAM, &mut accounts, &[2], 1_700_000_000).unwrap();
    assert_eq!(
        requests,
        vec![
            CustodyRequest::Transfer {
                token_program: TOKEN_PROGRAM,
                source: [41u8; 32],
                destination: [43u8; 32],
                authority: pda.to_bytes(),
                amount: 500,
                authority_nonce: nonce,
            },
            CustodyRequest::CloseAccount {
                token_program: TOKEN_PROGRAM,
                account: [41u8; 32],
                destination: [42u8; 32],
                authority: pda.to_bytes(),
                authority_nonce: nonce,
            },
        ]
    );
}

#[test]
fn withdraw_rejects_bad_custody_accounts() {
    let accounts = withdraw_accounts(token_account_data(500, 0));
    assert_eq!(
        Processor::process_withdraw(&PROGRAM, &accounts, 1_800_000_000),
        Err(ProcessError::UninitializedAccount)
    );
    let accounts = withdraw_accounts(token_account_data(500, 9));
    assert_eq!(
        Processor::process_withdraw(&PROGRAM, &accounts, 1_800_000_000),
        Err(ProcessError::InvalidAccountData)
    );
    let mut accounts = withdraw_accounts(token_account_data(500, 1));
    accounts[1].is_signer = false;
    assert_eq!(
        Processor::process_withdraw(&PROGRAM, &accounts, 1_800_000_000),
        Err(ProcessError::MissingRequiredSignature)
    );
    let mut accounts = withdraw_accounts(token_account_data(500, 1));
    accounts.truncate(6);
    assert_eq!(
        Processor::process_withdraw(&PROGRAM, &accounts, 1_800_000_000),
        Err(ProcessError::NotEnoughAccountKeys)
    );
}

#[test]
fn process_rejects_unknown_instruction() {
    let mut accounts = withdraw_accounts(token_account_data(1, 1));
    assert_eq!(
        Processor::process(&PROGRAM, &mut accounts, &[9], 0),
        Err(ProcessError::Custom(VoteError::InvalidInstruction))
    );
}

#[test]
fn record_ballot_with_given_derivations() {
    let voter = [50u8; 32];
    let mut accounts = vote_accounts(voter, open_vote_data(), fresh_voter_data(), true);
    let expected = accounts[3].key;
    let vote = Vote::unpack_unchecked(&accounts[1].data).unwrap();
    let r = Processor::record_ballot(&mut accounts, false, vote, &expected, Some([60u8; 32]));
    assert_eq!(
        r,
        Ok(vec![CustodyRequest::SetAuthority {
            token_program: TOKEN_PROGRAM,
            account: accounts[0].key,
            new_authority: [60u8; 32],
            current_authority: voter,
        }])
    );
    let v = Vote::unpack_unchecked(&accounts[1].data).unwrap();
    assert_eq!((v.yes, v.no), (0, 1));
}

#[test]
fn record_ballot_rejects_other_address_and_missing_authority() {
    let voter = [51u8; 32];
    let mut accounts = vote_accounts(voter, open_vote_data(), fresh_voter_data(), true);
    let expected = accounts[3].key;
    let vote = Vote::unpack_unchecked(&accounts[1].data).unwrap();
    assert_eq!(
        Processor::record_ballot(&mut accounts, true, vote, &[1u8; 32], Some([60u8; 32])),
        Err(ProcessError::InvalidAccountData)
    );
    assert_eq!(
        Processor::record_ballot(&mut accounts, true, vote, &expected, None),
        Err(ProcessError::InvalidSeeds)
    );
    assert_eq!(accounts[1].data, open_vote_data());
}

#[test]
fn release_requests_with_given_authority() {
    let accounts = withdraw_accounts(token_account_data(0, 1));
    let r = Processor::release_requests(&accounts, 77, Some(([61u8; 32], 254))).unwrap();
    assert_eq!(r.len(), 2);
    assert_eq!(
        r[0],
        CustodyRequest::Transfer {
            token_program: TOKEN_PROGRAM,
            source: [41u8; 32],
            destination: [43u8; 32],
            authority: [61u8; 32],
            amount: 77,
            authority_nonce: 254,
        }
    );
    assert_eq!(
        r[1],
        CustodyRequest::CloseAccount {
            token_program: TOKEN_PROGRAM,
            account: [41u8; 32],
            destination: [42u8; 32],
            authority: [61u8; 32],
            authority_nonce: 254,
        }
    );
    assert_eq!(Processor::release_requests(&accounts, 77, None), Err(ProcessError::InvalidSeeds));
}
