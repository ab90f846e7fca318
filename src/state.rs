//! The two persistent records and their fixed byte layouts.
//!
//! A `Vote` record is 47 bytes: `yes` (u32 LE), `no` (u32 LE), `is_initialized`
//! (one byte), `title` (30 bytes), `end_time` (u64 LE, at offset 39). The
//! decoder reads each field from the offset where the encoder writes it, so a
//! record reads back exactly as it was written. A record stored by a decoder
//! that took `end_time` from offset 0 holds its real end time at offset 39 too,
//! so it needs no rewriting: read here, it gives that stored end time where the
//! other decoder gave the value of bytes 0..8 (the two tallies).
//!
//! A `Voter` record is 34 bytes: `is_initialized` (one byte), `has_voted` (one
//! byte), then the 32-byte address of the custody account pledged by the voter.
use crate::error::ProcessError;
use crate::le::{
    lemma_u32_le_round_trip, lemma_u64_le_round_trip, lemma_zero_u32, lemma_zero_u64, push_u32_le, push_u64_le,
    read_u32_le, read_u64_le, u32_from_le, u32_to_le, u64_from_le, u64_to_le,
};
use vstd::prelude::*;

verus! {

pub const MAX_LEN: usize = 30;

pub const VOTE_LEN: usize = 47;

pub const VOTER_LEN: usize = 34;

/// The byte that stores a flag.
pub open spec fn flag_byte(b: bool) -> u8 {
    if b {
        1
    } else {
        0
    }
}

/// A byte that a strict flag decode accepts.
pub open spec fn is_flag_byte(b: u8) -> bool {
    b == 0 || b == 1
}

/// A program-level record with no state of its own.
pub struct VoteManager {}

impl VoteManager {
    pub fn unpack_from_slice(src: &[u8]) -> (r: Result<VoteManager, ProcessError>)
        ensures
            r is Ok,
    {
        Ok(VoteManager {  })
    }

    /// Writes nothing: the record has no bytes.
    pub fn pack_into_slice(&self, dst: &mut Vec<u8>)
        ensures
            final(dst)@ == old(dst)@,
    {
    }
}

/// One ballot: its tallies, title and closing time.
#[derive(Clone, Copy, Debug, PartialEq, Eq)]
pub struct Vote {
    pub yes: u32,
    pub no: u32,
    pub is_initialized: bool,
    pub title: [u8; 30],
    pub end_time: u64,
}

/// The 47 bytes that store `v`.
pub open spec fn vote_bytes(v: Vote) -> Seq<u8> {
    u32_to_le(v.yes) + u32_to_le(v.no) + seq![flag_byte(v.is_initialized)] + v.title@ + u64_to_le(
        v.end_time,
    )
}

/// The bytes `s` (at least 47 of them) are accepted by the strict decode.
pub open spec fn vote_decodable(s: Seq<u8>) -> bool {
    s.len() >= 47 && is_flag_byte(s[8])
}

/// `v` is what the first 47 bytes of `s` hold.
pub open spec fn vote_holds(s: Seq<u8>, v: Vote) -> bool {
    &&& v.yes == u32_from_le(s.subrange(0, 4))
    &&& v.no == u32_from_le(s.subrange(4, 8))
    &&& v.is_initialized == (s[8] == 1)
    &&& v.title@ == s.subrange(9, 39)
    &&& v.end_time == u64_from_le(s.subrange(39, 47))
}

pub(crate) fn read_title(src: &[u8], at: usize) -> (r: [u8; 30])
    requires
        at + 30 <= src@.len(),
    ensures
        r@ == src@.subrange(at as int, at + 30),
{
    let mut t: [u8; 30] = [0u8; 30];
    let n: usize = src.len();
    let mut i: usize = 0;
    while i < 30
        invariant
            i <= 30,
            n == src@.len(),
            at + 30 <= src@.len(),
            forall|j: int| 0 <= j < i ==> t@[j] == src@[at + j],
        decreases 30 - i,
    {
        t[i] = src[at + i];
        i = i + 1;
    }
    assert(t@ =~= src@.subrange(at as int, at + 30));
    t
}

pub(crate) fn read_key(src: &[u8], at: usize) -> (r: [u8; 32])
    requires
        at + 32 <= src@.len(),
    ensures
        r@ == src@.subrange(at as int, at + 32),
{
    let mut t: [u8; 32] = [0u8; 32];
    let n: usize = src.len();
    let mut i: usize = 0;
    while i < 32
        invariant
            i <= 32,
            n == src@.len(),
            at + 32 <= src@.len(),
            forall|j: int| 0 <= j < i ==> t@[j] == src@[at + j],
        decreases 32 - i,
    {
        t[i] = src[at + i];
        i = i + 1;
    }
    assert(t@ =~= src@.subrange(at as int, at + 32));
    t
}

/// Replaces the first `bytes.len()` bytes of `dst` by `bytes`.
fn overwrite_prefix(dst: &mut Vec<u8>, bytes: &Vec<u8>)
    requires
        bytes@.len() <= old(dst)@.len(),
    ensures
        final(dst)@ == bytes@ + old(dst)@.subrange(bytes@.len() as int, old(dst)@.len() as int),
{
    let mut i: usize = 0;
    while i < bytes.len()
        invariant
            i <= bytes@.len() <= dst@.len(),
            dst@.len() == old(dst)@.len(),
            forall|j: int| 0 <= j < i ==> dst@[j] == bytes@[j],
            forall|j: int| i <= j < dst@.len() ==> dst@[j] == old(dst)@[j],
        decreases bytes@.len() - i,
    {
        dst.set(i, bytes[i]);
        i = i + 1;
    }
    assert(dst@ =~= bytes@ + old(dst)@.subrange(bytes@.len() as int, old(dst)@.len() as int));
}

impl Vote {
    pub fn is_initialized(&self) -> (r: bool)
        ensures
            r == self.is_initialized,
    {
        self.is_initialized
    }

    /// Strict decode of the first 47 bytes of `src`.
    pub fn unpack_from_slice(src: &[u8]) -> (r: Result<Vote, ProcessError>)
        requires
            src@.len() >= 47,
        ensures
            r is Ok <==> vote_decodable(src@),
            r matches Ok(v) ==> vote_holds(src@, v),
            r matches Err(e) ==> e == ProcessError::InvalidAccountData,
    {
        let yes = read_u32_le(src, 0);
        let no = read_u32_le(src, 4);
        let is_initialized = if src[8] == 0 {
            false
        } else if src[8] == 1 {
            true
        } else {
            return Err(ProcessError::InvalidAccountData);
        };
        let title = read_title(src, 9);
        let end_time = read_u64_le(src, 39);
        Ok(Vote { yes, no, is_initialized, title, end_time })
    }

    /// Decodes a whole record, which must be exactly 47 bytes long; an
    /// uninitialized record decodes too.
    pub fn unpack_unchecked(src: &[u8]) -> (r: Result<Vote, ProcessError>)
        ensures
            r is Ok <==> (src@.len() == 47 && vote_decodable(src@)),
            r matches Ok(v) ==> vote_holds(src@, v),
            r matches Err(e) ==> e == ProcessError::InvalidAccountData,
    {
        if src.len() != VOTE_LEN {
            return Err(ProcessError::InvalidAccountData);
        }
        Vote::unpack_from_slice(src)
    }

    /// The 47 bytes of this record.
    pub fn to_bytes(&self) -> (r: Vec<u8>)
        ensures
            r@ == vote_bytes(*self),
    {
        let mut out: Vec<u8> = Vec::new();
        push_u32_le(&mut out, self.yes);
        push_u32_le(&mut out, self.no);
        out.push(if self.is_initialized {
            1u8
        } else {
            0u8
        });
        let mut i: usize = 0;
        while i < 30
            invariant
                i <= 30,
                out@ == u32_to_le(self.yes) + u32_to_le(self.no) + seq![
                    flag_byte(self.is_initialized),
                ] + self.title@.subrange(0, i as int),
            decreases 30 - i,
        {
            out.push(self.title[i]);
            proof {
                assert(self.title@.subrange(0, i + 1) =~= self.title@.subrange(0, i as int).push(
                    self.title@[i as int],
                ));
            }
            i = i + 1;
        }
        assert(self.title@.subrange(0, 30) =~= self.title@);
        push_u64_le(&mut out, self.end_time);
        out
    }

    /// Writes this record over the first 47 bytes of `dst`.
    pub fn pack_into_slice(&self, dst: &mut Vec<u8>)
        requires
            old(dst)@.len() >= 47,
        ensures
            final(dst)@ == vote_bytes(*self) + old(dst)@.subrange(47, old(dst)@.len() as int),
    {
        let bytes = self.to_bytes();
        proof {
            lemma_u32_le_round_trip(self.yes);
            lemma_u32_le_round_trip(self.no);
            lemma_u64_le_round_trip(self.end_time);
        }
        overwrite_prefix(dst, &bytes);
    }
}

/// One voter's participation in one ballot.
#[derive(Clone, Copy, Debug, PartialEq, Eq)]
pub struct Voter {
    pub is_initialized: bool,
    pub has_voted: bool,
    pub temp_token_account_pubkey: [u8; 32],
}

/// The 34 bytes that store `v`.
pub open spec fn voter_bytes(v: Voter) -> Seq<u8> {
    seq![flag_byte(v.is_initialized), flag_byte(v.has_voted)] + v.temp_token_account_pubkey@
}

/// The bytes `s` (at least 34 of them) are accepted by the strict decode.
pub open spec fn voter_decodable(s: Seq<u8>) -> bool {
    s.len() >= 34 && is_flag_byte(s[0]) && is_flag_byte(s[1])
}

/// `v` is what the first 34 bytes of `s` hold.
pub open spec fn voter_holds(s: Seq<u8>, v: Voter) -> bool {
    &&& v.is_initialized == (s[0] == 1)
    &&& v.has_voted == (s[1] == 1)
    &&& v.temp_token_account_pubkey@ == s.subrange(2, 34)
}

impl Voter {
    pub fn is_initialized(&self) -> (r: bool)
        ensures
            r == self.is_initialized,
    {
        self.is_initialized
    }

    /// Strict decode of the first 34 bytes of `src`.
    pub fn unpack_from_slice(src: &[u8]) -> (r: Result<Voter, ProcessError>)
        requires
            src@.len() >= 34,
        ensures
            r is Ok <==> voter_decodable(src@),
            r matches Ok(v) ==> voter_holds(src@, v),
            r matches Err(e) ==> e == ProcessError::InvalidAccountData,
    {
        let is_initialized = if src[0] == 0 {
            false
        } else if src[0] == 1 {
            true
        } else {
            return Err(ProcessError::InvalidAccountData);
        };
        let has_voted = if src[1] == 0 {
            false
        } else if src[1] == 1 {
            true
        } else {
            return Err(ProcessError::InvalidAccountData);
        };
        let temp_token_account_pubkey = read_key(src, 2);
        Ok(Voter { is_initialized, has_voted, temp_token_account_pubkey })
    }

    /// Decodes a whole record, which must be exactly 34 bytes long; an
    /// uninitialized record decodes too.
    pub fn unpack_unchecked(src: &[u8]) -> (r: Result<Voter, ProcessError>)
        ensures
            r is Ok <==> (src@.len() == 34 && voter_decodable(src@)),
            r matches Ok(v) ==> voter_holds(src@, v),
            r matches Err(e) ==> e == ProcessError::InvalidAccountData,
    {
        if src.len() != VOTER_LEN {
            return Err(ProcessError::InvalidAccountData);
        }
        Voter::unpack_from_slice(src)
    }

    /// The 34 bytes of this record.
    pub fn to_bytes(&self) -> (r: Vec<u8>)
        ensures
            r@ == voter_bytes(*self),
    {
        let mut out: Vec<u8> = Vec::new();
        out.push(if self.is_initialized {
            1u8
        } else {
            0u8
        });
        out.push(if self.has_voted {
            1u8
        } else {
            0u8
        });
        let mut i: usize = 0;
        while i < 32
            invariant
                i <= 32,
                out@ == seq![flag_byte(self.is_initialized), flag_byte(self.has_voted)]
                    + self.temp_token_account_pubkey@.subrange(0, i as int),
            decreases 32 - i,
        {
            out.push(self.temp_token_account_pubkey[i]);
            proof {
                assert(self.temp_token_account_pubkey@.subrange(0, i + 1)
                    =~= self.temp_token_account_pubkey@.subrange(0, i as int).push(
                    self.temp_token_account_pubkey@[i as int],
                ));
            }
            i = i + 1;
        }
        assert(self.temp_token_account_pubkey@.subrange(0, 32) =~= self.temp_token_account_pubkey@);
        out
    }

    /// Writes this record over the first 34 bytes of `dst`.
    pub fn pack_into_slice(&self, dst: &mut Vec<u8>)
        requires
            old(dst)@.len() >= 34,
        ensures
            final(dst)@ == voter_bytes(*self) + old(dst)@.subrange(34, old(dst)@.len() as int),
    {
        let bytes = self.to_bytes();
        overwrite_prefix(dst, &bytes);
    }
}

/// Decoding the bytes of a `Vote` succeeds and gives back that same `Vote`.
pub proof fn lemma_vote_round_trip(v: Vote, decoded: Vote)
    ensures
        vote_bytes(v).len() == 47,
        vote_decodable(vote_bytes(v)),
        vote_holds(vote_bytes(v), v),
        vote_holds(vote_bytes(v), decoded) ==> decoded == v,
{
    let s = vote_bytes(v);
    lemma_u32_le_round_trip(v.yes);
    lemma_u32_le_round_trip(v.no);
    lemma_u64_le_round_trip(v.end_time);
    assert(s.subrange(0, 4) =~= u32_to_le(v.yes));
    assert(s.subrange(4, 8) =~= u32_to_le(v.no));
    assert(s.subrange(9, 39) =~= v.title@);
    assert(s.subrange(39, 47) =~= u64_to_le(v.end_time));
    if vote_holds(s, decoded) {
        assert(decoded.title@ == v.title@);
        assert(decoded.title =~= v.title);
    }
}

/// Decoding the bytes of a `Voter` succeeds and gives back that same `Voter`.
pub proof fn lemma_voter_round_trip(v: Voter, decoded: Voter)
    ensures
        voter_bytes(v).len() == 34,
        voter_decodable(voter_bytes(v)),
        voter_holds(voter_bytes(v), decoded) ==> decoded == v,
{
    let s = voter_bytes(v);
    assert(s.subrange(2, 34) =~= v.temp_token_account_pubkey@);
    if voter_holds(s, decoded) {
        assert(decoded.temp_token_account_pubkey =~= v.temp_token_account_pubkey);
    }
}

/// An all-zero 47-byte record decodes to an uninitialized `Vote` whose fields
/// are all zero.
pub proof fn lemma_zero_vote(decoded: Vote)
    ensures
        vote_decodable(Seq::new(47, |i: int| 0u8)),
        vote_holds(Seq::new(47, |i: int| 0u8), decoded) ==> {
            &&& !decoded.is_initialized
            &&& decoded.yes == 0
            &&& decoded.no == 0
            &&& decoded.end_time == 0
            &&& decoded.title@ == Seq::new(30, |i: int| 0u8)
        },
{
    let s = Seq::new(47, |i: int| 0u8);
    lemma_zero_u32(s.subrange(0, 4));
    lemma_zero_u32(s.subrange(4, 8));
    lemma_zero_u64(s.subrange(39, 47));
    assert(s.subrange(9, 39) =~= Seq::new(30, |i: int| 0u8));
}

/// An all-zero 34-byte record decodes to a `Voter` with both flags clear.
pub proof fn lemma_zero_voter(decoded: Voter)
    ensures
        voter_decodable(Seq::new(34, |i: int| 0u8)),
        voter_holds(Seq::new(34, |i: int| 0u8), decoded) ==> !decoded.is_initialized
            && !decoded.has_voted,
{
}

} // verus!
