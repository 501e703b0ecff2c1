use vstd::prelude::*;
use vstd::string::StringExecFns;

verus! {

/// The guest agent's vsock port.
pub const GUEST_AGENT_PORT: u64 = 1337;

/// How many connection attempts are made before giving up.
pub const DIAL_ATTEMPTS: u8 = 20;

/// The pause between connection attempts, in milliseconds.
pub const DIAL_RETRY_MS: u64 = 2000;

/// The handshake line sent to the host-side vsock proxy before the byte
/// stream is handed to the RPC client: `CONNECT 1337` and a newline.
pub fn vsock_connect_line() -> (r: String)
    ensures
        r@ == "CONNECT 1337\n"@,
{
    proof {
        reveal_strlit("CONNECT 1337\n");
    }
    String::from_str("CONNECT 1337\n")
}

/// Whether another dial attempt may be made after `attempt` failures.
pub fn may_retry_dial(attempt: u8) -> (r: bool)
    ensures
        r == (attempt < DIAL_ATTEMPTS),
{
    attempt < DIAL_ATTEMPTS
}

/// Splits a received buffer at its first newline: the handshake reply
/// line, and the rest of the stream, which must not be consumed as part
/// of the handshake. `None` exactly when no newline has arrived yet.
pub fn split_first_line(bytes: &[u8]) -> (r: Option<(Vec<u8>, Vec<u8>)>)
    ensures
        match r {
            Some((line, rest)) => {
                &&& exists|k: int|
                    0 <= k < bytes@.len() && bytes@[k] == 10 && line@ == bytes@.take(k) && rest@
                        == bytes@.skip(k + 1) && (forall|j: int| 0 <= j < k ==> bytes@[j] != 10)
            },
            None => forall|j: int| 0 <= j < bytes@.len() ==> bytes@[j] != 10,
        },
{
    let n = bytes.len();
    let mut i: usize = 0;
    while i < n
        invariant
            i <= n == bytes@.len(),
            forall|j: int| 0 <= j < i ==> bytes@[j] != 10,
        decreases n - i,
    {
        if bytes[i] == 10 {
            let mut line: Vec<u8> = Vec::new();
            crate::icmp6::append_bytes(&mut line, vstd::slice::slice_subrange(bytes, 0, i));
            let mut rest: Vec<u8> = Vec::new();
            crate::icmp6::append_bytes(&mut rest, vstd::slice::slice_subrange(bytes, i + 1, n));
            proof {
                assert(line@ =~= bytes@.take(i as int));
                assert(rest@ =~= bytes@.skip(i as int + 1));
            }
            return Some((line, rest));
        }
        i = i + 1;
    }
    None
}

/// Whether a handshake reply line reports success: it starts with `OK`.
pub fn handshake_ok(line: &[u8]) -> (r: bool)
    ensures
        r == (line@.len() >= 2 && line@[0] == 79 && line@[1] == 75),
{
    line.len() >= 2 && line[0] == 79 && line[1] == 75
}

} // verus!
