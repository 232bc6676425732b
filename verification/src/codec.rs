//! Stateless codec between wire frames and the message envelope.
//!
//! A frame is exactly two bytes: a tag byte and one payload byte. Decode
//! failures are reported as [`DecodeError`] values, never as panics, and on
//! well-formed envelopes encode and decode are mutually inverse.

use vstd::prelude::*;
use crate::mark::Mark;

verus! {

/// The wire envelope: session-init and game-finished travel server to
/// client, a move travels in both directions.
#[derive(Clone, Copy, PartialEq, Eq, Structural, Debug)]
pub enum Envelope {
    /// Sent once to each side immediately after pairing.
    SessionInit { assigned: Mark },
    /// A move into one of the nine cells.
    Move { cell: u32 },
    /// Sent once per session to each side: `true` to the winner's transport,
    /// `false` to the loser's.
    GameFinished { winning_side: bool },
}

/// Why a frame failed to decode. Malformed frames are dropped by the relay;
/// the connection stays alive.
#[derive(Clone, Copy, PartialEq, Eq, Structural, Debug)]
pub enum DecodeError {
    /// The frame is not exactly two bytes long.
    Length,
    /// The tag byte names no envelope variant.
    Tag,
    /// The payload byte is out of range for the tagged variant.
    Payload,
}

/// The payload byte standing for a mark.
pub open spec fn mark_byte(m: Mark) -> u8 {
    match m {
        Mark::First => 1u8,
        Mark::Second => 2u8,
    }
}

impl Envelope {
    /// A move envelope must address one of the nine cells; the other
    /// variants are always well formed.
    pub open spec fn wf(self) -> bool {
        match self {
            Envelope::Move { cell } => cell < 9,
            _ => true,
        }
    }

    /// Executable well-formedness test, for callers outside the library.
    pub fn valid(&self) -> (r: bool)
        ensures
            r == self.wf(),
    {
        match self {
            Envelope::Move { cell } => *cell < 9,
            _ => true,
        }
    }
}

/// The two bytes that stand for an envelope on the wire.
pub open spec fn encode_spec(e: Envelope) -> Seq<u8> {
    match e {
        Envelope::SessionInit { assigned } => seq![1u8, mark_byte(assigned)],
        Envelope::Move { cell } => seq![2u8, cell as u8],
        Envelope::GameFinished { winning_side } => seq![
            3u8,
            if winning_side {
                1u8
            } else {
                0u8
            },
        ],
    }
}

/// The envelope a byte sequence stands for, or the exact error kind:
/// `Length` unless the frame is two bytes, `Tag` for an unknown tag byte,
/// `Payload` for a payload byte out of range for its tag.
pub open spec fn decode_spec(s: Seq<u8>) -> Result<Envelope, DecodeError> {
    if s.len() != 2 {
        Err(DecodeError::Length)
    } else if s[0] == 1 {
        if s[1] == 1 {
            Ok(Envelope::SessionInit { assigned: Mark::First })
        } else if s[1] == 2 {
            Ok(Envelope::SessionInit { assigned: Mark::Second })
        } else {
            Err(DecodeError::Payload)
        }
    } else if s[0] == 2 {
        if s[1] < 9 {
            Ok(Envelope::Move { cell: s[1] as u32 })
        } else {
            Err(DecodeError::Payload)
        }
    } else if s[0] == 3 {
        if s[1] == 0 {
            Ok(Envelope::GameFinished { winning_side: false })
        } else if s[1] == 1 {
            Ok(Envelope::GameFinished { winning_side: true })
        } else {
            Err(DecodeError::Payload)
        }
    } else {
        Err(DecodeError::Tag)
    }
}

impl Envelope {
    /// Encode this envelope as its two-byte wire frame.
    pub fn encode(&self) -> (r: Vec<u8>)
        requires
            self.wf(),
        ensures
            r@ == encode_spec(*self),
    {
        let mut out: Vec<u8> = Vec::new();
        match self {
            Envelope::SessionInit { assigned } => {
                out.push(1);
                match assigned {
                    Mark::First => out.push(1),
                    Mark::Second => out.push(2),
                }
            },
            Envelope::Move { cell } => {
                out.push(2);
                out.push(*cell as u8);
            },
            Envelope::GameFinished { winning_side } => {
                out.push(3);
                if *winning_side {
                    out.push(1);
                } else {
                    out.push(0);
                }
            },
        }
        proof {
            assert(out@ =~= encode_spec(*self));
        }
        out
    }
}

/// Decode a wire frame into an envelope, or say exactly why it is malformed.
pub fn decode(frame: &[u8]) -> (r: Result<Envelope, DecodeError>)
    ensures
        r == decode_spec(frame@),
        r matches Ok(e) ==> e.wf(),
{
    if frame.len() != 2 {
        return Err(DecodeError::Length);
    }
    let tag = frame[0];
    let payload = frame[1];
    if tag == 1 {
        if payload == 1 {
            Ok(Envelope::SessionInit { assigned: Mark::First })
        } else if payload == 2 {
            Ok(Envelope::SessionInit { assigned: Mark::Second })
        } else {
            Err(DecodeError::Payload)
        }
    } else if tag == 2 {
        if payload < 9 {
            Ok(Envelope::Move { cell: payload as u32 })
        } else {
            Err(DecodeError::Payload)
        }
    } else if tag == 3 {
        if payload == 0 {
            Ok(Envelope::GameFinished { winning_side: false })
        } else if payload == 1 {
            Ok(Envelope::GameFinished { winning_side: true })
        } else {
            Err(DecodeError::Payload)
        }
    } else {
        Err(DecodeError::Tag)
    }
}

/// The codec is a bijection between well-formed envelopes and two-byte
/// frames: decoding an encoded envelope gives the envelope back.
pub proof fn lemma_decode_encode(e: Envelope)
    requires
        e.wf(),
    ensures
        decode_spec(encode_spec(e)) == Ok::<Envelope, DecodeError>(e),
{
}

/// The other direction of the bijection: every frame that decodes does so to
/// a well-formed envelope whose encoding is that frame again.
pub proof fn lemma_encode_decode(s: Seq<u8>)
    ensures
        decode_spec(s) matches Ok(e) ==> e.wf() && encode_spec(e) == s,
{
    match decode_spec(s) {
        Ok(e) => {
            assert(encode_spec(e) =~= s);
        },
        Err(_) => {},
    }
}

} // verus!
