//! The traffic sniffer: a look at the client's first bytes after the
//! handshake, which sends sessions that speak SSH to the local SSH service.

use vstd::prelude::*;
use crate::target::Target;

verus! {

/// How long, in seconds, the caller waits for the client's first bytes.
pub const SNIFF_WAIT_SECS: u64 = 1;

/// The port of the local service that SSH sessions are sent to.
pub const REDIRECT_PORT: u16 = 22;

/// Whether `b` holds the banner signature `SSH` somewhere. The signature is
/// ASCII, and a best-effort UTF-8 decoding keeps every ASCII byte as it is
/// and never produces an ASCII character from other bytes, so searching the
/// raw bytes finds exactly what searching the decoded text would.
pub open spec fn contains_signature(b: Seq<u8>) -> bool {
    exists|i: int| #[trigger] signature_at(b, i)
}

/// Whether `SSH` starts at position `i` of `b`.
pub open spec fn signature_at(b: Seq<u8>, i: int) -> bool {
    0 <= i && i + 3 <= b.len() && b[i] == 83u8 && b[i + 1] == 83u8 && b[i + 2] == 72u8
}

/// `127.0.0.1`, port 22.
pub open spec fn redirect_target() -> (Seq<u8>, u16) {
    (seq![49u8, 50, 55, 46, 48, 46, 48, 46, 49], REDIRECT_PORT)
}

pub fn has_signature(b: &[u8]) -> (r: bool)
    ensures
        r == contains_signature(b@),
{
    if b.len() < 3 {
        return false;
    }
    let mut i: usize = 0;
    while i < b.len() - 2
        invariant
            b@.len() >= 3,
            i + 2 <= b@.len(),
            forall|j: int| 0 <= j < i ==> !#[trigger] signature_at(b@, j),
        decreases b.len() - i,
    {
        if b[i] == 83 && b[i + 1] == 83 && b[i + 2] == 72 {
            assert(signature_at(b@, i as int));
            return true;
        }
        i = i + 1;
    }
    assert forall|j: int| !#[trigger] signature_at(b@, j) by {
        if 0 <= j < i {
        }
    }
    false
}

/// The target to connect to, given the requested one and the bytes that the
/// client sent first (empty when none came in time).
pub fn sniff_target(requested: Target, peeked: &[u8]) -> (r: Target)
    ensures
        r@ == (if contains_signature(peeked@) {
            redirect_target()
        } else {
            requested@
        }),
{
    if has_signature(peeked) {
        let host = vec![49u8, 50, 55, 46, 48, 46, 48, 46, 49];
        assert(host@ =~= redirect_target().0);
        Target { host, port: REDIRECT_PORT }
    } else {
        requested
    }
}

} // verus!
