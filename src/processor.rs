//! The transition engine: the three operation handlers and their dispatch.
//!
//! The host hands the engine its record handles as `AccountRecord`s (address,
//! owner, signer flag, data) in the order that each operation reads them. A
//! handler changes record data only when it succeeds, and returns the requests
//! to the custody service that the host must then issue, in order.
use crate::chain::{
    address_text, create_with_seed, ends_with_pda_marker, find_authority, key_text,
    max_seed_len, program_authority, seeded_address, token_account_decodable, token_amount,
};
use crate::error::{ProcessError, VoteError};
use crate::instruction::{instruction_well_formed, VoteInstruction};
use crate::le::{u32_from_le, u32_to_le, u64_from_le, u64_to_le};
use crate::state::{
    lemma_vote_round_trip, vote_bytes, vote_decodable, vote_holds, voter_bytes, voter_decodable, Vote, Voter,
};
use vstd::prelude::*;
use vstd::utf8::{encode_utf8, is_char_boundary};

verus! {

/// A record handle supplied by the host.
#[derive(Clone, Debug, PartialEq, Eq)]
pub struct AccountRecord {
    pub key: [u8; 32],
    pub owner: [u8; 32],
    pub is_signer: bool,
    pub data: Vec<u8>,
}

/// A request to the custody (token) service. Transfers and closes are signed
/// by the program authority, proved by the authority seed and `authority_nonce`.
#[derive(Clone, Copy, Debug, PartialEq, Eq)]
pub enum CustodyRequest {
    /// Make `new_authority` the owner of `account`, signed by `current_authority`.
    SetAuthority {
        token_program: [u8; 32],
        account: [u8; 32],
        new_authority: [u8; 32],
        current_authority: [u8; 32],
    },
    /// Move `amount` from `source` to `destination`.
    Transfer {
        token_program: [u8; 32],
        source: [u8; 32],
        destination: [u8; 32],
        authority: [u8; 32],
        amount: u64,
        authority_nonce: u8,
    },
    /// Close `account`, sending what it held for rent to `destination`.
    CloseAccount {
        token_program: [u8; 32],
        account: [u8; 32],
        destination: [u8; 32],
        authority: [u8; 32],
        authority_nonce: u8,
    },
}

pub struct Processor {}

/// The error of a result, if any.
pub open spec fn err_of<T>(r: Result<T, ProcessError>) -> Option<ProcessError> {
    match r {
        Ok(_) => None,
        Err(e) => Some(e),
    }
}

/// The seed of the program's custody authority, "daoo-voting".
pub open spec fn authority_seed_bytes() -> Seq<u8> {
    seq![100u8, 97, 111, 111, 45, 118, 111, 116, 105, 110, 103]
}

pub fn authority_seed() -> (r: Vec<u8>)
    ensures
        r@ == authority_seed_bytes(),
{
    let mut s: Vec<u8> = Vec::new();
    s.push(100u8);
    s.push(97u8);
    s.push(111u8);
    s.push(111u8);
    s.push(45u8);
    s.push(118u8);
    s.push(111u8);
    s.push(116u8);
    s.push(105u8);
    s.push(110u8);
    s.push(103u8);
    assert(s@ =~= authority_seed_bytes());
    s
}

/// `after[i]` is `before[i]` with data `d`, and every other record is kept.
pub open spec fn data_replaced(
    before: Seq<AccountRecord>,
    after: Seq<AccountRecord>,
    i: int,
    d: Seq<u8>,
) -> bool {
    &&& 0 <= i < before.len()
    &&& after.len() == before.len()
    &&& forall|j: int| 0 <= j < before.len() && j != i ==> after[j] == before[j]
    &&& after[i].key == before[i].key
    &&& after[i].owner == before[i].owner
    &&& after[i].is_signer == before[i].is_signer
    &&& after[i].data@ == d
}

fn replace_data(accounts: &mut Vec<AccountRecord>, i: usize, data: Vec<u8>)
    requires
        i < old(accounts)@.len(),
    ensures
        data_replaced(old(accounts)@, final(accounts)@, i as int, data@),
{
    let rec = AccountRecord {
        key: accounts[i].key,
        owner: accounts[i].owner,
        is_signer: accounts[i].is_signer,
        data,
    };
    accounts.set(i, rec);
}

fn same_key(a: &[u8; 32], b: &[u8; 32]) -> (r: bool)
    ensures
        r == (a@ == b@),
{
    let mut i: usize = 0;
    while i < 32
        invariant
            i <= 32,
            forall|j: int| 0 <= j < i ==> a@[j] == b@[j],
        decreases 32 - i,
    {
        if a[i] != b[i] {
            return false;
        }
        i = i + 1;
    }
    assert(a@ =~= b@);
    true
}

// ---- NewVote ----
/// The record data that `NewVote` writes: zero tallies, initialized, the title
/// and the end time.
pub open spec fn new_vote_bytes(title: Seq<u8>, end_time: u64) -> Seq<u8> {
    u32_to_le(0) + u32_to_le(0) + seq![1u8] + title + u64_to_le(end_time)
}

/// The first error of `NewVote` on these records, if any.
pub open spec fn newvote_error(program_id: Seq<u8>, a: Seq<AccountRecord>) -> Option<ProcessError> {
    if a.len() < 1 {
        Some(ProcessError::NotEnoughAccountKeys)
    } else if a[0].owner@ != program_id {
        Some(ProcessError::AccountNotOwnedByProgram)
    } else if !(a[0].data@.len() == 47 && vote_decodable(a[0].data@)) {
        Some(ProcessError::InvalidAccountData)
    } else if a[0].data@[8] == 1 {
        Some(ProcessError::Custom(VoteError::VoteDataAccountAlreadyInitialized))
    } else {
        None
    }
}

/// `NewVote` took records `before` to `after` with outcome `err`.
pub open spec fn newvote_done(
    program_id: Seq<u8>,
    before: Seq<AccountRecord>,
    after: Seq<AccountRecord>,
    title: Seq<u8>,
    end_time: u64,
    err: Option<ProcessError>,
) -> bool {
    match newvote_error(program_id, before) {
        Some(e) => err == Some(e) && after == before,
        None => err is None && data_replaced(before, after, 0, new_vote_bytes(title, end_time)),
    }
}

// ---- Vote ----
/// A vote with one more ballot for (`is_vote_for`) or against.
pub open spec fn tallied(v: Vote, is_vote_for: bool) -> Vote {
    if is_vote_for {
        Vote { yes: (v.yes + 1) as u32, ..v }
    } else {
        Vote { no: (v.no + 1) as u32, ..v }
    }
}

/// The tally that a ballot would raise is already at its largest value.
pub open spec fn tally_full(d: Seq<u8>, is_vote_for: bool) -> bool {
    if is_vote_for {
        u32_from_le(d.subrange(0, 4)) == u32::MAX
    } else {
        u32_from_le(d.subrange(4, 8)) == u32::MAX
    }
}

/// The seed of a voter record's address: the UTF-8 text of the vote record's
/// address from byte 30 on.
pub open spec fn voter_seed(vote_key: Seq<u8>) -> Option<Seq<u8>> {
    let b = encode_utf8(address_text(vote_key));
    if is_char_boundary(b, 30) {
        Some(b.subrange(30, b.len() as int))
    } else {
        None
    }
}

/// The address that the voter record of `voter_key` must have for the vote
/// record at `vote_key`.
pub open spec fn expected_voter_key(voter_key: Seq<u8>, vote_key: Seq<u8>, program_id: Seq<u8>) -> Result<
    Seq<u8>,
    ProcessError,
> {
    match voter_seed(vote_key) {
        None => Err(ProcessError::InvalidSeeds),
        Some(seed) => if seed.len() > max_seed_len() {
            Err(ProcessError::MaxSeedLengthExceeded)
        } else if ends_with_pda_marker(program_id) {
            Err(ProcessError::IllegalOwner)
        } else {
            Ok(seeded_address(voter_key, seed, program_id))
        },
    }
}

/// The first error of `Vote` on these records, if any. Records: 0 the custody
/// account pledged, 1 the vote record, 2 the voter (signer), 3 the voter
/// record, 4 the token program.
pub open spec fn vote_error(program_id: Seq<u8>, a: Seq<AccountRecord>, is_vote_for: bool) -> Option<
    ProcessError,
> {
    if a.len() < 2 {
        Some(ProcessError::NotEnoughAccountKeys)
    } else if a[1].owner@ != program_id {
        Some(ProcessError::AccountNotOwnedByProgram)
    } else if !(a[1].data@.len() == 47 && vote_decodable(a[1].data@)) {
        Some(ProcessError::InvalidAccountData)
    } else if a.len() < 3 {
        Some(ProcessError::NotEnoughAccountKeys)
    } else if !a[2].is_signer {
        Some(ProcessError::MissingRequiredSignature)
    } else if a.len() < 4 {
        Some(ProcessError::NotEnoughAccountKeys)
    } else {
        match expected_voter_key(a[2].key@, a[1].key@, program_id) {
            Err(e) => Some(e),
            Ok(k) => if k != a[3].key@ {
                Some(ProcessError::InvalidAccountData)
            } else if !(a[3].data@.len() == 34 && voter_decodable(a[3].data@)) {
                Some(ProcessError::InvalidAccountData)
            } else if a[3].data@[0] != 1 || a[3].data@[1] == 1 {
                Some(ProcessError::InvalidInstructionData)
            } else if tally_full(a[1].data@, is_vote_for) {
                Some(ProcessError::ArithmeticOverflow)
            } else if program_authority(authority_seed_bytes(), program_id) is None {
                Some(ProcessError::InvalidSeeds)
            } else if a.len() < 5 {
                Some(ProcessError::NotEnoughAccountKeys)
            } else {
                None
            },
        }
    }
}

/// `req` hands `account` to the program authority `authority`.
pub open spec fn is_handover(
    req: CustodyRequest,
    token_program: Seq<u8>,
    account: Seq<u8>,
    authority: Seq<u8>,
    voter: Seq<u8>,
) -> bool {
    match req {
        CustodyRequest::SetAuthority { token_program: t, account: c, new_authority: n, current_authority: o } => {
            t@ == token_program && c@ == account && n@ == authority && o@ == voter
        },
        _ => false,
    }
}

/// The first error of the part of `Vote` that follows the derivations, given
/// the decoded vote, the expected voter record address and the program
/// authority (if one could be derived).
pub open spec fn ballot_error(
    a: Seq<AccountRecord>,
    is_vote_for: bool,
    vote: Vote,
    expected_voter: Seq<u8>,
    authority: Option<Seq<u8>>,
) -> Option<ProcessError> {
    if a.len() < 4 {
        Some(ProcessError::NotEnoughAccountKeys)
    } else if expected_voter != a[3].key@ {
        Some(ProcessError::InvalidAccountData)
    } else if !(a[3].data@.len() == 34 && voter_decodable(a[3].data@)) {
        Some(ProcessError::InvalidAccountData)
    } else if a[3].data@[0] != 1 || a[3].data@[1] == 1 {
        Some(ProcessError::InvalidInstructionData)
    } else if (if is_vote_for {
        vote.yes == u32::MAX
    } else {
        vote.no == u32::MAX
    }) {
        Some(ProcessError::ArithmeticOverflow)
    } else if authority is None {
        Some(ProcessError::InvalidSeeds)
    } else if a.len() < 5 {
        Some(ProcessError::NotEnoughAccountKeys)
    } else {
        None
    }
}

/// The effects of a recorded ballot: the vote record (1) holds `counted`, the
/// voter record (3) is marked as voted with the pledged account (0), and the one
/// request hands that account to `authority`.
pub open spec fn ballot_effects(
    before: Seq<AccountRecord>,
    after: Seq<AccountRecord>,
    counted: Seq<u8>,
    authority: Seq<u8>,
    r: Result<Vec<CustodyRequest>, ProcessError>,
) -> bool {
    &&& r is Ok
    &&& before.len() >= 5
    &&& after.len() == before.len()
    &&& forall|j: int| 0 <= j < before.len() && j != 1 && j != 3 ==> after[j] == before[j]
    &&& after[1].key == before[1].key && after[1].owner == before[1].owner && after[1].is_signer
        == before[1].is_signer
    &&& after[3].key == before[3].key && after[3].owner == before[3].owner && after[3].is_signer
        == before[3].is_signer
    &&& after[1].data@ == counted
    &&& after[3].data@ == seq![1u8, 1u8] + before[0].key@
    &&& r->Ok_0@.len() == 1
    &&& is_handover(r->Ok_0@[0], before[4].key@, before[0].key@, authority, before[2].key@)
}

/// `Vote` took records `before` to `after` with result `r`.
pub open spec fn vote_done(
    program_id: Seq<u8>,
    before: Seq<AccountRecord>,
    after: Seq<AccountRecord>,
    is_vote_for: bool,
    r: Result<Vec<CustodyRequest>, ProcessError>,
) -> bool {
    match vote_error(program_id, before, is_vote_for) {
        Some(e) => err_of(r) == Some(e) && after == before,
        None => forall|v: Vote| #[trigger]
            vote_holds(before[1].data@, v) ==> ballot_effects(
                before,
                after,
                vote_bytes(tallied(v, is_vote_for)),
                program_authority(authority_seed_bytes(), program_id)->Some_0.0,
                r,
            ),
    }
}

// ---- Withdraw ----
/// The first error of `Withdraw` at time `now` on these records, if any.
/// Records: 0 the vote record, 1 the authorizing signer, 2 the custody
/// account, 3 the account that receives the rent, 4 the recipient of the
/// balance, 5 the token program, 6 the program authority.
pub open spec fn withdraw_error(program_id: Seq<u8>, a: Seq<AccountRecord>, now: i64) -> Option<
    ProcessError,
> {
    if a.len() < 1 {
        Some(ProcessError::NotEnoughAccountKeys)
    } else if a[0].owner@ != program_id {
        Some(ProcessError::AccountNotOwnedByProgram)
    } else if !(a[0].data@.len() == 47 && vote_decodable(a[0].data@)) {
        Some(ProcessError::InvalidAccountData)
    } else if a.len() < 2 {
        Some(ProcessError::NotEnoughAccountKeys)
    } else if !a[1].is_signer {
        Some(ProcessError::MissingRequiredSignature)
    } else if now < u64_from_le(a[0].data@.subrange(39, 47)) {
        Some(ProcessError::Custom(VoteError::VoteInProgress))
    } else if a.len() < 3 {
        Some(ProcessError::NotEnoughAccountKeys)
    } else if !token_account_decodable(a[2].data@) {
        Some(ProcessError::InvalidAccountData)
    } else if a[2].data@[108] == 0 {
        Some(ProcessError::UninitializedAccount)
    } else if program_authority(authority_seed_bytes(), program_id) is None {
        Some(ProcessError::InvalidSeeds)
    } else if a.len() < 7 {
        Some(ProcessError::NotEnoughAccountKeys)
    } else {
        None
    }
}

/// `req` moves `amount` out of `source` to `destination` under `authority`.
pub open spec fn is_transfer(
    req: CustodyRequest,
    token_program: Seq<u8>,
    source: Seq<u8>,
    destination: Seq<u8>,
    authority: (Seq<u8>, u8),
    amount: u64,
) -> bool {
    match req {
        CustodyRequest::Transfer {
            token_program: t,
            source: s,
            destination: d,
            authority: p,
            amount: n,
            authority_nonce: b,
        } => t@ == token_program && s@ == source && d@ == destination && p@ == authority.0 && b
            == authority.1 && n == amount,
        _ => false,
    }
}

/// `req` closes `account` under `authority`, sending its rent to `destination`.
pub open spec fn is_close(
    req: CustodyRequest,
    token_program: Seq<u8>,
    account: Seq<u8>,
    destination: Seq<u8>,
    authority: (Seq<u8>, u8),
) -> bool {
    match req {
        CustodyRequest::CloseAccount {
            token_program: t,
            account: c,
            destination: d,
            authority: p,
            authority_nonce: b,
        } => t@ == token_program && c@ == account && d@ == destination && p@ == authority.0 && b
            == authority.1,
        _ => false,
    }
}

/// `Withdraw` at time `now` on records `a` gave result `r`: either the first
/// error, or a transfer of the whole balance followed by a close.
pub open spec fn withdraw_done(
    program_id: Seq<u8>,
    a: Seq<AccountRecord>,
    now: i64,
    r: Result<Vec<CustodyRequest>, ProcessError>,
) -> bool {
    match withdraw_error(program_id, a, now) {
        Some(e) => err_of(r) == Some(e),
        None => {
            let authority = program_authority(authority_seed_bytes(), program_id)->Some_0;
            &&& r is Ok
            &&& r->Ok_0@.len() == 2
            &&& is_transfer(
                r->Ok_0@[0],
                a[5].key@,
                a[2].key@,
                a[4].key@,
                authority,
                u64_from_le(a[2].data@.subrange(64, 72)),
            )
            &&& is_close(r->Ok_0@[1], a[5].key@, a[2].key@, a[3].key@, authority)
        },
    }
}

/// `NewVote` on an owned, well-formed vote record that is already initialized
/// fails with `VoteDataAccountAlreadyInitialized`, whatever its other fields hold.
pub proof fn lemma_newvote_rejects_initialized(program_id: Seq<u8>, a: Seq<AccountRecord>)
    requires
        a.len() >= 1,
        a[0].owner@ == program_id,
        a[0].data@.len() == 47,
        a[0].data@[8] == 1,
    ensures
        newvote_error(program_id, a) == Some(
            ProcessError::Custom(VoteError::VoteDataAccountAlreadyInitialized),
        ),
{
}

/// `Vote` with an owned, well-formed vote record and a voter who has not
/// signed fails with `MissingRequiredSignature`.
pub proof fn lemma_vote_requires_signer(
    program_id: Seq<u8>,
    a: Seq<AccountRecord>,
    is_vote_for: bool,
)
    requires
        a.len() >= 3,
        a[1].owner@ == program_id,
        a[1].data@.len() == 47,
        vote_decodable(a[1].data@),
        !a[2].is_signer,
    ensures
        vote_error(program_id, a, is_vote_for) == Some(ProcessError::MissingRequiredSignature),
{
}

/// `Vote` whose checks before the voter record's own state pass, on a voter
/// record that reads `has_voted`, fails with `InvalidInstructionData`; a failed
/// `Vote` leaves every record, and so the tallies, as they were.
pub proof fn lemma_vote_rejects_second_ballot(
    program_id: Seq<u8>,
    before: Seq<AccountRecord>,
    after: Seq<AccountRecord>,
    is_vote_for: bool,
    r: Result<Vec<CustodyRequest>, ProcessError>,
)
    requires
        before.len() >= 4,
        before[1].owner@ == program_id,
        before[1].data@.len() == 47,
        vote_decodable(before[1].data@),
        before[2].is_signer,
        expected_voter_key(before[2].key@, before[1].key@, program_id) is Ok,
        expected_voter_key(before[2].key@, before[1].key@, program_id)->Ok_0 == before[3].key@,
        before[3].data@.len() == 34,
        voter_decodable(before[3].data@),
        before[3].data@[1] == 1,
        vote_done(program_id, before, after, is_vote_for, r),
    ensures
        vote_error(program_id, before, is_vote_for) == Some(ProcessError::InvalidInstructionData),
        err_of(r) == Some(ProcessError::InvalidInstructionData),
        after == before,
{
}

/// Ballots from different voters commute: two ballots give the same tallies in
/// either order.
pub proof fn lemma_ballots_commute(v: Vote, first: bool, second: bool)
    requires
        v.yes + 2 <= u32::MAX,
        v.no + 2 <= u32::MAX,
    ensures
        tallied(tallied(v, first), second) == tallied(tallied(v, second), first),
{
}

/// Three ballots, two for and one against, on a freshly opened vote give two
/// yes and one no, in each of the three orders.
pub proof fn lemma_three_ballots(v: Vote)
    requires
        v.yes == 0,
        v.no == 0,
    ensures
        tallied(tallied(tallied(v, true), true), false).yes == 2,
        tallied(tallied(tallied(v, true), true), false).no == 1,
        tallied(tallied(tallied(v, true), false), true) == tallied(
            tallied(tallied(v, true), true),
            false,
        ),
        tallied(tallied(tallied(v, false), true), true) == tallied(
            tallied(tallied(v, true), true),
            false,
        ),
{
}

/// Three successful `Vote` operations from different voters, two for and one
/// against, on a freshly opened vote record leave it with two yes and one no,
/// its other fields unchanged, whatever the order of the three ballots. Call
/// `k` runs on records `before_k`, whose vote record holds what call `k - 1`
/// left in it.
pub proof fn lemma_three_votes_any_order(
    program_id: Seq<u8>,
    opened: Vote,
    before1: Seq<AccountRecord>,
    after1: Seq<AccountRecord>,
    r1: Result<Vec<CustodyRequest>, ProcessError>,
    ballot1: bool,
    before2: Seq<AccountRecord>,
    after2: Seq<AccountRecord>,
    r2: Result<Vec<CustodyRequest>, ProcessError>,
    ballot2: bool,
    before3: Seq<AccountRecord>,
    after3: Seq<AccountRecord>,
    r3: Result<Vec<CustodyRequest>, ProcessError>,
    ballot3: bool,
)
    requires
        opened.yes == 0,
        opened.no == 0,
        (if ballot1 { 1int } else { 0int }) + (if ballot2 { 1int } else { 0int }) + (if ballot3 {
            1int
        } else {
            0int
        }) == 2,
        before1.len() >= 2,
        before1[1].data@ == vote_bytes(opened),
        vote_done(program_id, before1, after1, ballot1, r1),
        r1 is Ok,
        before2.len() >= 2,
        before2[1].data@ == after1[1].data@,
        vote_done(program_id, before2, after2, ballot2, r2),
        r2 is Ok,
        before3.len() >= 2,
        before3[1].data@ == after2[1].data@,
        vote_done(program_id, before3, after3, ballot3, r3),
        r3 is Ok,
    ensures
        after3[1].data@ == vote_bytes(Vote { yes: 2, no: 1, ..opened }),
{
    let v1 = tallied(opened, ballot1);
    let v2 = tallied(v1, ballot2);
    let v3 = tallied(v2, ballot3);
    lemma_vote_round_trip(opened, opened);
    assert(vote_holds(before1[1].data@, opened));
    assert(after1[1].data@ == vote_bytes(v1));
    lemma_vote_round_trip(v1, v1);
    assert(vote_holds(before2[1].data@, v1));
    assert(after2[1].data@ == vote_bytes(v2));
    lemma_vote_round_trip(v2, v2);
    assert(vote_holds(before3[1].data@, v2));
    assert(after3[1].data@ == vote_bytes(v3));
    assert(v3 == Vote { yes: 2, no: 1, ..opened });
}

/// `Withdraw` with an owned, well-formed vote record and a signer, before the
/// vote's end time, fails with `VoteInProgress` (and so issues no request).
pub proof fn lemma_withdraw_waits_for_end(program_id: Seq<u8>, a: Seq<AccountRecord>, now: i64)
    requires
        a.len() >= 2,
        a[0].owner@ == program_id,
        a[0].data@.len() == 47,
        vote_decodable(a[0].data@),
        a[1].is_signer,
        now < u64_from_le(a[0].data@.subrange(39, 47)),
    ensures
        withdraw_error(program_id, a, now) == Some(ProcessError::Custom(VoteError::VoteInProgress)),
{
}

impl Vote {
    /// This vote with one more ballot for or against; `None` where that tally
    /// is already at its largest value.
    pub fn add_ballot(&self, is_vote_for: bool) -> (r: Option<Vote>)
        ensures
            r is None <==> (if is_vote_for {
                self.yes == u32::MAX
            } else {
                self.no == u32::MAX
            }),
            r matches Some(w) ==> w == tallied(*self, is_vote_for),
    {
        if is_vote_for {
            if self.yes == u32::MAX {
                return None;
            }
            Some(Vote { yes: self.yes + 1, ..*self })
        } else {
            if self.no == u32::MAX {
                return None;
            }
            Some(Vote { no: self.no + 1, ..*self })
        }
    }
}

impl Processor {
    /// Decodes `input` and runs the operation it names against `accounts`; `now`
    /// is the host clock's unix time, read by `Withdraw`.
    pub fn process(
        program_id: &[u8; 32],
        accounts: &mut Vec<AccountRecord>,
        input: &[u8],
        now: i64,
    ) -> (r: Result<Vec<CustodyRequest>, ProcessError>)
        ensures
            !instruction_well_formed(input@) ==> err_of(r) == Some(
                ProcessError::Custom(VoteError::InvalidInstruction),
            ) && final(accounts)@ == old(accounts)@,
            instruction_well_formed(input@) && input@[0] == 0 ==> newvote_done(
                program_id@,
                old(accounts)@,
                final(accounts)@,
                input@.subrange(1, 31),
                u64_from_le(input@.subrange(32, 40)),
                err_of(r),
            ) && (r matches Ok(reqs) ==> reqs@.len() == 0),
            instruction_well_formed(input@) && input@[0] == 1 ==> vote_done(
                program_id@,
                old(accounts)@,
                final(accounts)@,
                input@[1] == 1,
                r,
            ),
            instruction_well_formed(input@) && input@[0] == 2 ==> withdraw_done(
                program_id@,
                old(accounts)@,
                now,
                r,
            ) && final(accounts)@ == old(accounts)@,
    {
        let instruction = match VoteInstruction::unpack(input) {
            Ok(i) => i,
            Err(e) => return Err(e),
        };
        match instruction {
            VoteInstruction::NewVote { vote_title, end_time } => {
                match Processor::process_newvote(program_id, accounts, &vote_title, &end_time) {
                    Ok(()) => Ok(Vec::new()),
                    Err(e) => Err(e),
                }
            },
            VoteInstruction::Vote { is_vote_for } => {
                Processor::process_vote(program_id, accounts, &is_vote_for)
            },
            VoteInstruction::Withdraw {  } => Processor::process_withdraw(program_id, accounts, now),
        }
    }

    /// Opens a vote: the vote record (record 0), owned by this program and not
    /// yet initialized, gets the title and end time and zero tallies.
    pub fn process_newvote(
        program_id: &[u8; 32],
        accounts: &mut Vec<AccountRecord>,
        vote_title: &[u8; 30],
        end_time: &u64,
    ) -> (r: Result<(), ProcessError>)
        ensures
            newvote_done(
                program_id@,
                old(accounts)@,
                final(accounts)@,
                vote_title@,
                *end_time,
                err_of(r),
            ),
    {
        if accounts.len() < 1 {
            return Err(ProcessError::NotEnoughAccountKeys);
        }
        if !same_key(&accounts[0].owner, program_id) {
            return Err(ProcessError::AccountNotOwnedByProgram);
        }
        let vote = match Vote::unpack_unchecked(accounts[0].data.as_slice()) {
            Ok(v) => v,
            Err(e) => return Err(e),
        };
        if vote.is_initialized {
            return Err(ProcessError::Custom(VoteError::VoteDataAccountAlreadyInitialized));
        }
        let created = Vote {
            yes: 0,
            no: 0,
            is_initialized: true,
            title: *vote_title,
            end_time: *end_time,
        };
        let data = created.to_bytes();
        assert(data@ =~= new_vote_bytes(vote_title@, *end_time));
        replace_data(accounts, 0, data);
        Ok(())
    }

    /// Records one ballot: checks the vote record (record 1), the voter's
    /// signature (record 2) and the voter record (record 3, at the address
    /// derived for this voter and vote), raises the tally, marks the voter as
    /// having voted with the pledged custody account (record 0), and asks the
    /// token program (record 4) to hand that account to the program authority.
    pub fn process_vote(
        program_id: &[u8; 32],
        accounts: &mut Vec<AccountRecord>,
        is_vote_for: &bool,
    ) -> (r: Result<Vec<CustodyRequest>, ProcessError>)
        ensures
            vote_done(program_id@, old(accounts)@, final(accounts)@, *is_vote_for, r),
    {
        if accounts.len() < 2 {
            return Err(ProcessError::NotEnoughAccountKeys);
        }
        if !same_key(&accounts[1].owner, program_id) {
            return Err(ProcessError::AccountNotOwnedByProgram);
        }
        let vote = match Vote::unpack_unchecked(accounts[1].data.as_slice()) {
            Ok(v) => v,
            Err(e) => return Err(e),
        };
        if accounts.len() < 3 {
            return Err(ProcessError::NotEnoughAccountKeys);
        }
        if !accounts[2].is_signer {
            return Err(ProcessError::MissingRequiredSignature);
        }
        if accounts.len() < 4 {
            return Err(ProcessError::NotEnoughAccountKeys);
        }
        let text = key_text(&accounts[1].key);
        let text_ref = text.as_str();
        if !text_ref.is_char_boundary(30) {
            return Err(ProcessError::InvalidSeeds);
        }
        let (_, seed) = text_ref.split_at(30);
        let expected = match create_with_seed(&accounts[2].key, seed, program_id) {
            Ok(k) => k,
            Err(e) => return Err(e),
        };
        let seed_bytes = authority_seed();
        let authority = match find_authority(seed_bytes.as_slice(), program_id) {
            Some((key, _nonce)) => Some(key),
            None => None,
        };
        let ghost before = accounts@;
        let r = Processor::record_ballot(accounts, *is_vote_for, vote, &expected, authority);
        proof {
            assert forall|v: Vote| #[trigger] vote_holds(before[1].data@, v) implies v == vote by {
                assert(v.title =~= vote.title);
            }
        }
        r
    }

    /// The part of `Vote` that follows the derivations: `vote` is the decoded
    /// vote record (record 1), `expected_voter` the address that the voter
    /// record (record 3) must have, and `authority` the program authority, if
    /// one could be derived. Checks the voter record, raises the tally, marks
    /// the voter as having voted with the pledged custody account (record 0),
    /// and returns the request that hands that account to the authority.
    pub fn record_ballot(
        accounts: &mut Vec<AccountRecord>,
        is_vote_for: bool,
        vote: Vote,
        expected_voter: &[u8; 32],
        authority: Option<[u8; 32]>,
    ) -> (r: Result<Vec<CustodyRequest>, ProcessError>)
        ensures
            ({
                let auth = match authority {
                    Some(k) => Some(k@),
                    None => None,
                };
                match ballot_error(old(accounts)@, is_vote_for, vote, expected_voter@, auth) {
                    Some(e) => err_of(r) == Some(e) && final(accounts)@ == old(accounts)@,
                    None => ballot_effects(
                        old(accounts)@,
                        final(accounts)@,
                        vote_bytes(tallied(vote, is_vote_for)),
                        auth->Some_0,
                        r,
                    ),
                }
            }),
    {
        if accounts.len() < 4 {
            return Err(ProcessError::NotEnoughAccountKeys);
        }
        if !same_key(expected_voter, &accounts[3].key) {
            return Err(ProcessError::InvalidAccountData);
        }
        let voter = match Voter::unpack_unchecked(accounts[3].data.as_slice()) {
            Ok(v) => v,
            Err(e) => return Err(e),
        };
        if !voter.is_initialized || voter.has_voted {
            return Err(ProcessError::InvalidInstructionData);
        }
        let counted = match vote.add_ballot(is_vote_for) {
            Some(v) => v,
            None => return Err(ProcessError::ArithmeticOverflow),
        };
        let authority = match authority {
            Some(key) => key,
            None => return Err(ProcessError::InvalidSeeds),
        };
        if accounts.len() < 5 {
            return Err(ProcessError::NotEnoughAccountKeys);
        }
        let voted = Voter {
            is_initialized: true,
            has_voted: true,
            temp_token_account_pubkey: accounts[0].key,
        };
        let request = CustodyRequest::SetAuthority {
            token_program: accounts[4].key,
            account: accounts[0].key,
            new_authority: authority,
            current_authority: accounts[2].key,
        };
        let ghost before = accounts@;
        replace_data(accounts, 1, counted.to_bytes());
        replace_data(accounts, 3, voted.to_bytes());
        proof {
            assert(voter_bytes(voted) =~= seq![1u8, 1u8] + before[0].key@);
        }
        let mut requests: Vec<CustodyRequest> = Vec::new();
        requests.push(request);
        Ok(requests)
    }

    /// Releases the escrowed assets once the vote has ended: checks the vote
    /// record (record 0), the signer (record 1) and the time, then asks the
    /// token program (record 5) to transfer the whole balance of the custody
    /// account (record 2) to the recipient (record 4) and to close it, its rent
    /// going to record 3, both signed by the program authority.
    pub fn process_withdraw(program_id: &[u8; 32], accounts: &Vec<AccountRecord>, now: i64) -> (r:
        Result<Vec<CustodyRequest>, ProcessError>)
        ensures
            withdraw_done(program_id@, accounts@, now, r),
    {
        if accounts.len() < 1 {
            return Err(ProcessError::NotEnoughAccountKeys);
        }
        if !same_key(&accounts[0].owner, program_id) {
            return Err(ProcessError::AccountNotOwnedByProgram);
        }
        let vote = match Vote::unpack_unchecked(accounts[0].data.as_slice()) {
            Ok(v) => v,
            Err(e) => return Err(e),
        };
        if accounts.len() < 2 {
            return Err(ProcessError::NotEnoughAccountKeys);
        }
        if !accounts[1].is_signer {
            return Err(ProcessError::MissingRequiredSignature);
        }
        if now < 0 || vote.end_time > now as u64 {
            return Err(ProcessError::Custom(VoteError::VoteInProgress));
        }
        if accounts.len() < 3 {
            return Err(ProcessError::NotEnoughAccountKeys);
        }
        let amount = match token_amount(accounts[2].data.as_slice()) {
            Ok(a) => a,
            Err(e) => return Err(e),
        };
        let seed_bytes = authority_seed();
        let authority = find_authority(seed_bytes.as_slice(), program_id);
        Processor::release_requests(accounts, amount, authority)
    }

    /// The requests of `Withdraw` once the custody balance `amount` and the
    /// program authority with its nonce (if one could be derived) are known:
    /// a transfer of the whole balance from the custody account (record 2) to
    /// the recipient (record 4), then the close of the custody account with its
    /// rent going to record 3, both through the token program (record 5).
    pub fn release_requests(
        accounts: &Vec<AccountRecord>,
        amount: u64,
        authority: Option<([u8; 32], u8)>,
    ) -> (r: Result<Vec<CustodyRequest>, ProcessError>)
        ensures
            authority is None ==> err_of(r) == Some(ProcessError::InvalidSeeds),
            authority is Some && accounts@.len() < 7 ==> err_of(r) == Some(
                ProcessError::NotEnoughAccountKeys,
            ),
            authority is Some && accounts@.len() >= 7 ==> {
                &&& r is Ok
                &&& r->Ok_0@.len() == 2
                &&& is_transfer(
                    r->Ok_0@[0],
                    accounts@[5].key@,
                    accounts@[2].key@,
                    accounts@[4].key@,
                    (authority->Some_0.0@, authority->Some_0.1),
                    amount,
                )
                &&& is_close(
                    r->Ok_0@[1],
                    accounts@[5].key@,
                    accounts@[2].key@,
                    accounts@[3].key@,
                    (authority->Some_0.0@, authority->Some_0.1),
                )
            },
    {
        let (authority, nonce) = match authority {
            Some(p) => p,
            None => return Err(ProcessError::InvalidSeeds),
        };
        if accounts.len() < 7 {
            return Err(ProcessError::NotEnoughAccountKeys);
        }
        let mut requests: Vec<CustodyRequest> = Vec::new();
        requests.push(
            CustodyRequest::Transfer {
                token_program: accounts[5].key,
                source: accounts[2].key,
                destination: accounts[4].key,
                authority,
                amount,
                authority_nonce: nonce,
            },
        );
        requests.push(
            CustodyRequest::CloseAccount {
                token_program: accounts[5].key,
                account: accounts[2].key,
                destination: accounts[3].key,
                authority,
                authority_nonce: nonce,
            },
        );
        Ok(requests)
    }
}

} // verus!
