//! One ICMP echo: the request a ping sends, the defaults it fills in, and
//! the check that the reply answers it.
use vstd::prelude::*;
use rand::RngCore;

verus! {

/// Bytes of the payload of an echo request.
pub const TOKEN_SIZE: usize = 24;

/// Milliseconds a ping waits for its reply when no timeout is given.
pub const DEFAULT_TIMEOUT_MS: u64 = 4000;

/// Time-to-live of the request when none is given.
pub const DEFAULT_TTL: u32 = 64;

/// Sequence number of the request when none is given.
pub const DEFAULT_SEQ_CNT: u16 = 1;

/// An echo request: identifier, sequence number and payload.
pub struct EchoRequest {
    pub ident: u16,
    pub seq_cnt: u16,
    pub payload: [u8; 24],
}

/// `OsRng::try_fill_bytes` (rand): 26 bytes from the operating system's
/// generator, or none when the system gives none.  Nothing is stated of the
/// bytes.
#[verifier::external_body]
fn try_draw() -> (r: Option<[u8; 26]>) {
    let mut buf = [0u8; 26];
    match rand::rngs::OsRng.try_fill_bytes(&mut buf) {
        Ok(()) => Some(buf),
        Err(_) => None,
    }
}

/// Drawn bytes as an identifier (the first two, high byte first) and a
/// payload (the other twenty-four, in order).
pub fn split_draw(b: [u8; 26]) -> (r: (u16, [u8; 24]))
    ensures
        r.0 == b[0] as int * 256 + b[1] as int,
        r.1@ == b@.subrange(2, 26),
{
    let ident: u16 = (b[0] as u16) * 256 + (b[1] as u16);
    let payload: [u8; 24] = [
        b[2], b[3], b[4], b[5], b[6], b[7], b[8], b[9], b[10], b[11], b[12], b[13],
        b[14], b[15], b[16], b[17], b[18], b[19], b[20], b[21], b[22], b[23], b[24], b[25],
    ];
    assert(payload@ =~= b@.subrange(2, 26));
    (ident, payload)
}

/// The request for the given identifier, sequence number and payload,
/// where `drawn` stands in for an identifier or payload not given.
pub fn request_from(
    ident: Option<u16>,
    seq_cnt: Option<u16>,
    payload: Option<[u8; 24]>,
    drawn: (u16, [u8; 24]),
) -> (r: EchoRequest)
    ensures
        r.ident == match ident {
            Some(i) => i,
            None => drawn.0,
        },
        r.seq_cnt == match seq_cnt {
            Some(s) => s,
            None => DEFAULT_SEQ_CNT,
        },
        r.payload == match payload {
            Some(p) => p,
            None => drawn.1,
        },
{
    EchoRequest {
        ident: match ident {
            Some(i) => i,
            None => drawn.0,
        },
        seq_cnt: match seq_cnt {
            Some(s) => s,
            None => DEFAULT_SEQ_CNT,
        },
        payload: match payload {
            Some(p) => p,
            None => drawn.1,
        },
    }
}

/// The request built from what is given and what was drawn (`drawn`: the
/// random bytes, when the system gave some), as identifier, sequence number
/// and payload; none when something is not given and nothing was drawn.
pub open spec fn drawn_request(
    ident: Option<u16>,
    seq_cnt: Option<u16>,
    payload: Option<[u8; 24]>,
    drawn: Option<[u8; 26]>,
) -> Option<(u16, u16, Seq<u8>)> {
    let seq = match seq_cnt {
        Some(s) => s,
        None => DEFAULT_SEQ_CNT,
    };
    match (ident, payload) {
        (Some(i), Some(p)) => Some((i, seq, p@)),
        _ => match drawn {
            Some(b) => Some(
                (
                    match ident {
                        Some(i) => i,
                        None => (b[0] as int * 256 + b[1] as int) as u16,
                    },
                    seq,
                    match payload {
                        Some(p) => p@,
                        None => b@.subrange(2, 26),
                    },
                ),
            ),
            None => None,
        },
    }
}

/// A request as identifier, sequence number and payload.
pub open spec fn request_view(r: Option<EchoRequest>) -> Option<(u16, u16, Seq<u8>)> {
    match r {
        Some(q) => Some((q.ident, q.seq_cnt, q.payload@)),
        None => None,
    }
}

/// The request built from what is given and what was drawn.
pub fn request_after_draw(
    ident: Option<u16>,
    seq_cnt: Option<u16>,
    payload: Option<[u8; 24]>,
    drawn: Option<[u8; 26]>,
) -> (r: Option<EchoRequest>)
    ensures
        request_view(r) == drawn_request(ident, seq_cnt, payload, drawn),
{
    match (ident, payload) {
        (Some(i), Some(p)) => Some(request_from(ident, seq_cnt, payload, (i, p))),
        _ => match drawn {
            Some(b) => Some(request_from(ident, seq_cnt, payload, split_draw(b))),
            None => None,
        },
    }
}

/// A ping always has a request once random bytes were drawn: the given
/// identifier and payload are kept, a missing identifier is the first two
/// drawn bytes (high byte first), a missing payload the other twenty-four,
/// and the sequence number is the given one or 1.  Without drawn bytes there
/// is a request exactly when both identifier and payload are given.
pub proof fn lemma_request_after_draw(
    ident: Option<u16>,
    seq_cnt: Option<u16>,
    payload: Option<[u8; 24]>,
    drawn: Option<[u8; 26]>,
)
    ensures
        (drawn is Some) ==> (drawn_request(ident, seq_cnt, payload, drawn) is Some),
        (drawn is None) ==> ((drawn_request(ident, seq_cnt, payload, drawn) is Some) <==> (
        ident is Some && payload is Some)),
        (drawn_request(ident, seq_cnt, payload, drawn) is Some) ==> {
            let q = drawn_request(ident, seq_cnt, payload, drawn)->0;
            &&& (ident is Some) ==> q.0 == ident->0
            &&& (ident is None && drawn is Some) ==> q.0 == drawn->0[0] as int * 256
                + drawn->0[1] as int
            &&& q.1 == (if seq_cnt is Some {
                seq_cnt->0
            } else {
                1u16
            })
            &&& (payload is Some) ==> q.2 == payload->0@
            &&& (payload is None && drawn is Some) ==> q.2 == drawn->0@.subrange(2, 26)
            &&& q.2.len() == 24
        },
{
}

/// The request a ping sends: the given identifier, sequence number and
/// payload; sequence number 1 when none is given, and a random identifier
/// or payload when none is given.  Random bytes are drawn only when
/// something is not given; there is no request when the system gives none.
pub fn echo_request(ident: Option<u16>, seq_cnt: Option<u16>, payload: Option<[u8; 24]>) -> (r:
    Option<EchoRequest>)
    ensures
        ident is Some && payload is Some ==> r is Some,
        r matches Some(q) ==> {
            &&& ident matches Some(i) ==> q.ident == i
            &&& q.seq_cnt == match seq_cnt {
                Some(s) => s,
                None => DEFAULT_SEQ_CNT,
            }
            &&& payload matches Some(p) ==> q.payload == p
        },
{
    let drawn = if ident.is_some() && payload.is_some() {
        None
    } else {
        try_draw()
    };
    request_after_draw(ident, seq_cnt, payload, drawn)
}

/// How long to wait for the reply, in milliseconds.
pub fn read_timeout_ms(timeout_ms: Option<u64>) -> (r: u64)
    ensures
        r == match timeout_ms {
            Some(t) => t,
            None => DEFAULT_TIMEOUT_MS,
        },
{
    match timeout_ms {
        Some(t) => t,
        None => DEFAULT_TIMEOUT_MS,
    }
}

/// The time-to-live of the request.
pub fn ttl_of(ttl: Option<u32>) -> (r: u32)
    ensures
        r == match ttl {
            Some(t) => t,
            None => DEFAULT_TTL,
        },
{
    match ttl {
        Some(t) => t,
        None => DEFAULT_TTL,
    }
}

/// The outcome of a ping whose reply was read: the round trip time when a
/// reply could be decoded (`reply`: its identifier and sequence number) and
/// answers the request, else none.
pub fn reply_rtt(request: &EchoRequest, reply: Option<(u16, u16)>, rtt_micros: u128) -> (r: Option<
    u128,
>)
    ensures
        r == match reply {
            Some((i, s)) => if i == request.ident && s == request.seq_cnt {
                Some(rtt_micros)
            } else {
                None
            },
            None => None,
        },
{
    match reply {
        Some((i, s)) => {
            if i == request.ident && s == request.seq_cnt {
                Some(rtt_micros)
            } else {
                None
            }
        },
        None => None,
    }
}

} // verus!
