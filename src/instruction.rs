//! The instruction wire format: a tag byte followed by the operation's payload.
//!
//! - tag 0, `NewVote`: the 30-byte title (payload bytes 0..30), one byte that
//!   is not read, then `end_time` as a little-endian `u64` (payload bytes
//!   31..39);
//! - tag 1, `Vote`: one byte, where 1 means a vote for and any other value a
//!   vote against;
//! - tag 2, `Withdraw`: no payload.
use crate::error::{ProcessError, VoteError};
use crate::le::{read_u64_le, u64_from_le};
use crate::state::read_title;
use vstd::prelude::*;

verus! {

#[derive(Clone, Copy, Debug, PartialEq, Eq)]
pub enum VoteInstruction {
    NewVote { vote_title: [u8; 30], end_time: u64 },
    Vote { is_vote_for: bool },
    Withdraw {},
}

/// The buffer `s` holds a known tag followed by a long enough payload.
pub open spec fn instruction_well_formed(s: Seq<u8>) -> bool {
    &&& s.len() >= 1
    &&& {
        ||| s[0] == 0 && s.len() >= 40
        ||| s[0] == 1 && s.len() >= 2
        ||| s[0] == 2
    }
}

/// `ins` is the operation that the well-formed buffer `s` encodes.
pub open spec fn instruction_holds(s: Seq<u8>, ins: VoteInstruction) -> bool {
    match ins {
        VoteInstruction::NewVote { vote_title, end_time } => {
            &&& s[0] == 0
            &&& vote_title@ == s.subrange(1, 31)
            &&& end_time == u64_from_le(s.subrange(32, 40))
        },
        VoteInstruction::Vote { is_vote_for } => s[0] == 1 && is_vote_for == (s[1] == 1),
        VoteInstruction::Withdraw {  } => s[0] == 2,
    }
}

impl VoteInstruction {
    /// Decodes an instruction buffer.
    pub fn unpack(input: &[u8]) -> (r: Result<VoteInstruction, ProcessError>)
        ensures
            r is Ok <==> instruction_well_formed(input@),
            r matches Ok(ins) ==> instruction_holds(input@, ins),
            r matches Err(e) ==> e == ProcessError::Custom(VoteError::InvalidInstruction),
    {
        if input.len() == 0 {
            return Err(ProcessError::Custom(VoteError::InvalidInstruction));
        }
        let tag = input[0];
        if tag == 0 {
            if input.len() < 40 {
                return Err(ProcessError::Custom(VoteError::InvalidInstruction));
            }
            let vote_title = read_title(input, 1);
            let end_time = read_u64_le(input, 32);
            Ok(VoteInstruction::NewVote { vote_title, end_time })
        } else if tag == 1 {
            if input.len() < 2 {
                return Err(ProcessError::Custom(VoteError::InvalidInstruction));
            }
            let is_vote_for = input[1] == 1;
            Ok(VoteInstruction::Vote { is_vote_for })
        } else if tag == 2 {
            Ok(VoteInstruction::Withdraw {  })
        } else {
            Err(ProcessError::Custom(VoteError::InvalidInstruction))
        }
    }
}

} // verus!
