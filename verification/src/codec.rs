//! Wire encoding of the message catalog: a deterministic single-byte frame
//! per message, one tag space per direction. Decoding rejects anything that
//! is not exactly one known tag byte; the receive loops drop such frames and
//! carry on, so a malformed frame never terminates a connection.

use vstd::prelude::*;

use crate::messages::C2SMsg;
use crate::messages::S2CMsg;

verus! {

/// Tag byte of `C2SMsg::Ping`.
pub const C2S_TAG_PING: u8 = 1;
/// Tag byte of `C2SMsg::Disconnect`.
pub const C2S_TAG_DISCONNECT: u8 = 2;
/// Tag byte of `S2CMsg::Pong`.
pub const S2C_TAG_PONG: u8 = 1;
/// Tag byte of `S2CMsg::Disconnect`.
pub const S2C_TAG_DISCONNECT: u8 = 2;

/// The exact bytes that encode a client-to-server message.
pub open spec fn c2s_encoding(m: C2SMsg) -> Seq<u8> {
    match m {
        C2SMsg::Ping => seq![C2S_TAG_PING],
        C2SMsg::Disconnect => seq![C2S_TAG_DISCONNECT],
    }
}

/// What a client-to-server frame decodes to: `None` exactly on the frames
/// that no message encodes to.
pub open spec fn c2s_decoding(bytes: Seq<u8>) -> Option<C2SMsg> {
    if bytes.len() == 1 && bytes[0] == C2S_TAG_PING {
        Some(C2SMsg::Ping)
    } else if bytes.len() == 1 && bytes[0] == C2S_TAG_DISCONNECT {
        Some(C2SMsg::Disconnect)
    } else {
        None
    }
}

/// The exact bytes that encode a server-to-client message.
pub open spec fn s2c_encoding(m: S2CMsg) -> Seq<u8> {
    match m {
        S2CMsg::Pong => seq![S2C_TAG_PONG],
        S2CMsg::Disconnect => seq![S2C_TAG_DISCONNECT],
    }
}

/// What a server-to-client frame decodes to.
pub open spec fn s2c_decoding(bytes: Seq<u8>) -> Option<S2CMsg> {
    if bytes.len() == 1 && bytes[0] == S2C_TAG_PONG {
        Some(S2CMsg::Pong)
    } else if bytes.len() == 1 && bytes[0] == S2C_TAG_DISCONNECT {
        Some(S2CMsg::Disconnect)
    } else {
        None
    }
}

/// Encode a client-to-server message.
pub fn encode_c2s(m: &C2SMsg) -> (r: Vec<u8>)
    ensures
        r@ == c2s_encoding(*m),
{
    let mut r: Vec<u8> = Vec::new();
    match m {
        C2SMsg::Ping => r.push(C2S_TAG_PING),
        C2SMsg::Disconnect => r.push(C2S_TAG_DISCONNECT),
    }
    proof {
        assert(r@ =~= c2s_encoding(*m));
    }
    r
}

/// Decode a client-to-server frame; `None` on any frame the catalog does not
/// produce.
pub fn decode_c2s(bytes: &Vec<u8>) -> (r: Option<C2SMsg>)
    ensures
        r == c2s_decoding(bytes@),
{
    if bytes.len() == 1 {
        let b = bytes[0];
        if b == C2S_TAG_PING {
            Some(C2SMsg::Ping)
        } else if b == C2S_TAG_DISCONNECT {
            Some(C2SMsg::Disconnect)
        } else {
            None
        }
    } else {
        None
    }
}

/// Encode a server-to-client message.
pub fn encode_s2c(m: &S2CMsg) -> (r: Vec<u8>)
    ensures
        r@ == s2c_encoding(*m),
{
    let mut r: Vec<u8> = Vec::new();
    match m {
        S2CMsg::Pong => r.push(S2C_TAG_PONG),
        S2CMsg::Disconnect => r.push(S2C_TAG_DISCONNECT),
    }
    proof {
        assert(r@ =~= s2c_encoding(*m));
    }
    r
}

/// Decode a server-to-client frame; `None` on any frame the catalog does not
/// produce.
pub fn decode_s2c(bytes: &Vec<u8>) -> (r: Option<S2CMsg>)
    ensures
        r == s2c_decoding(bytes@),
{
    if bytes.len() == 1 {
        let b = bytes[0];
        if b == S2C_TAG_PONG {
            Some(S2CMsg::Pong)
        } else if b == S2C_TAG_DISCONNECT {
            Some(S2CMsg::Disconnect)
        } else {
            None
        }
    } else {
        None
    }
}

/// Round trip: every client-to-server message, encoded and then decoded,
/// comes back unchanged.
pub proof fn lemma_c2s_round_trip(m: C2SMsg)
    ensures
        c2s_decoding(c2s_encoding(m)) == Some(m),
{
}

/// Round trip: every server-to-client message, encoded and then decoded,
/// comes back unchanged.
pub proof fn lemma_s2c_round_trip(m: S2CMsg)
    ensures
        s2c_decoding(s2c_encoding(m)) == Some(m),
{
}

} // verus!
