//! Decoding of status replies into the conditions they report.
use vstd::prelude::*;

use crate::printer::StatusError;

verus! {

/// Whether bit `k` of `b` is set.
pub open spec fn bit_set(b: u8, k: u8) -> bool {
    (b >> k) & 1u8 == 1u8
}

/// Whether the two bit field at offset `k` of `b` holds `0b11`.
pub open spec fn field_full(b: u8, k: u8) -> bool {
    (b >> k) & 3u8 == 3u8
}

pub open spec fn flag_if(c: bool, f: StatusError) -> Seq<StatusError> {
    if c {
        seq![f]
    } else {
        seq![]
    }
}

/// The conditions that the first three bytes of an SNBC status reply report.
pub open spec fn snbc_flags(b0: u8, b1: u8, b2: u8) -> Seq<StatusError> {
    (if bit_set(b0, 3) {
        seq![StatusError::Offline]
    } else {
        seq![StatusError::Online]
    }) + flag_if(bit_set(b0, 5), StatusError::DoorOpen) + flag_if(
        bit_set(b0, 6),
        StatusError::PaperFeed,
    ) + flag_if(bit_set(b1, 3), StatusError::AutoCutter) + flag_if(
        bit_set(b1, 5),
        StatusError::Recoverable,
    ) + flag_if(bit_set(b1, 6), StatusError::AutomaticallyRecoverable) + flag_if(
        field_full(b2, 0),
        StatusError::PaperNearEnd,
    ) + flag_if(field_full(b2, 2), StatusError::PaperEnd)
}

/// The conditions that the replies to the first three Epic polls report.
pub open spec fn epic_flags(b0: u8, b1: u8, b2: u8) -> Seq<StatusError> {
    flag_if(bit_set(b0, 3), StatusError::Offline) + flag_if(bit_set(b1, 2), StatusError::DoorOpen)
        + flag_if(bit_set(b1, 5), StatusError::PaperEnd) + flag_if(
        bit_set(b2, 3),
        StatusError::AutoCutter,
    )
}

/// What came back from one Epic status poll.
#[derive(Clone, Copy, Debug)]
pub struct PollReply {
    /// Whether the poll command was written.
    pub written: bool,
    /// How many bytes the read transferred, `None` where the read failed.
    pub transferred: Option<usize>,
    /// The byte that the reply left in its place of the receive buffer.
    pub byte: u8,
}

/// A communication error for a failed write, and one for a read that did not
/// bring exactly one byte.
pub open spec fn poll_failures(p: PollReply) -> Seq<StatusError> {
    flag_if(!p.written, StatusError::Communication) + flag_if(
        p.transferred != Some(1usize),
        StatusError::Communication,
    )
}

pub open spec fn epic_errors(p: Seq<PollReply>) -> Seq<StatusError> {
    poll_failures(p[0]) + poll_failures(p[1]) + poll_failures(p[2]) + poll_failures(p[3])
        + epic_flags(p[0].byte, p[1].byte, p[2].byte)
}

/// A status result reports `errors`: success where there are none, else all
/// of them in order.
pub open spec fn reports(r: Result<(), Vec<StatusError>>, errors: Seq<StatusError>) -> bool {
    &&& (r is Ok <==> errors.len() == 0)
    &&& (r is Err ==> r->Err_0@ == errors)
}

/// Success where no condition was found, else every condition found.
pub fn status_result(errors: Vec<StatusError>) -> (r: Result<(), Vec<StatusError>>)
    ensures
        reports(r, errors@),
{
    if errors.len() == 0 {
        Ok(())
    } else {
        Err(errors)
    }
}

fn push_if(errors: &mut Vec<StatusError>, c: bool, f: StatusError)
    ensures
        final(errors)@ == old(errors)@ + flag_if(c, f),
{
    if c {
        errors.push(f);
    } else {
        assert(old(errors)@ + flag_if(c, f) =~= old(errors)@);
    }
}

/// Decodes the reply of an SNBC printer to a status read; `None` stands for
/// a read that failed, which reports a single communication error.
pub fn snbc_status(reply: Option<[u8; 16]>) -> (r: Result<(), Vec<StatusError>>)
    ensures
        match reply {
            None => r is Err && r->Err_0@ == seq![StatusError::Communication],
            Some(buf) => reports(r, snbc_flags(buf@[0], buf@[1], buf@[2])),
        },
{
    let mut errors: Vec<StatusError> = Vec::new();
    match reply {
        None => {
            errors.push(StatusError::Communication);
            Err(errors)
        },
        Some(buf) => {
            let b0 = buf[0];
            let b1 = buf[1];
            let b2 = buf[2];
            if (b0 >> 3u8) & 1u8 == 1u8 {
                errors.push(StatusError::Offline);
            } else {
                errors.push(StatusError::Online);
            }
            push_if(&mut errors, (b0 >> 5u8) & 1u8 == 1u8, StatusError::DoorOpen);
            push_if(&mut errors, (b0 >> 6u8) & 1u8 == 1u8, StatusError::PaperFeed);
            push_if(&mut errors, (b1 >> 3u8) & 1u8 == 1u8, StatusError::AutoCutter);
            push_if(&mut errors, (b1 >> 5u8) & 1u8 == 1u8, StatusError::Recoverable);
            push_if(&mut errors, (b1 >> 6u8) & 1u8 == 1u8, StatusError::AutomaticallyRecoverable);
            push_if(&mut errors, (b2 >> 0u8) & 3u8 == 3u8, StatusError::PaperNearEnd);
            push_if(&mut errors, (b2 >> 2u8) & 3u8 == 3u8, StatusError::PaperEnd);
            assert(errors@ =~= snbc_flags(b0, b1, b2));
            status_result(errors)
        },
    }
}

/// The command of the Epic status poll with sequence number `seq`.
pub fn epic_poll_command(seq: u8) -> (r: [u8; 5])
    ensures
        r@ == seq![0x1bu8, 0x40u8, 0x10u8, 0x04u8, seq],
{
    [0x1b, 0x40, 0x10, 0x04, seq]
}

/// Decodes the four poll replies of an Epic printer: the communication
/// errors of each poll in turn, then the conditions that the replies report.
pub fn epic_status(replies: &[PollReply; 4]) -> (r: Result<(), Vec<StatusError>>)
    ensures
        reports(r, epic_errors(replies@)),
{
    let mut errors: Vec<StatusError> = Vec::new();
    let mut i: usize = 0;
    while i < 4
        invariant
            i <= 4,
            errors@ =~= if i == 0 {
                seq![]
            } else if i == 1 {
                poll_failures(replies@[0])
            } else if i == 2 {
                poll_failures(replies@[0]) + poll_failures(replies@[1])
            } else if i == 3 {
                poll_failures(replies@[0]) + poll_failures(replies@[1]) + poll_failures(replies@[2])
            } else {
                poll_failures(replies@[0]) + poll_failures(replies@[1]) + poll_failures(replies@[2])
                    + poll_failures(replies@[3])
            },
        decreases 4 - i,
    {
        let p = replies[i];
        push_if(&mut errors, !p.written, StatusError::Communication);
        let short = match p.transferred {
            Some(n) => n != 1,
            None => true,
        };
        push_if(&mut errors, short, StatusError::Communication);
        i = i + 1;
    }
    let b0 = replies[0].byte;
    let b1 = replies[1].byte;
    let b2 = replies[2].byte;
    push_if(&mut errors, (b0 >> 3u8) & 1u8 == 1u8, StatusError::Offline);
    push_if(&mut errors, (b1 >> 2u8) & 1u8 == 1u8, StatusError::DoorOpen);
    push_if(&mut errors, (b1 >> 5u8) & 1u8 == 1u8, StatusError::PaperEnd);
    push_if(&mut errors, (b2 >> 3u8) & 1u8 == 1u8, StatusError::AutoCutter);
    assert(errors@ =~= epic_errors(replies@));
    status_result(errors)
}

/// The status of a dialect whose replies are not decoded: reported as fine.
pub fn unchecked_status() -> (r: Result<(), Vec<StatusError>>)
    ensures
        reports(r, seq![]),
{
    Ok(())
}

/// How the status of a printer is read.
#[derive(Clone, Copy, Debug, PartialEq, Eq, Structural)]
pub enum StatusQuery {
    /// One read of a 16 byte reply, decoded by `snbc_status`.
    Read,
    /// Four polls, each with `epic_poll_command`, decoded by `epic_status`.
    Poll,
    /// No status decoding: `unchecked_status`.
    Unchecked,
}

} // verus!
