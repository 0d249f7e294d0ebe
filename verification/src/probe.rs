//! The USB CDC probe firmware, which isolates board USB wiring and power
//! from the synthesizer's MIDI stack: it greets the host, echoes every
//! non-empty packet back, and blinks the user LED as a heartbeat.

use vstd::prelude::*;

verus! {

/// Heartbeat: LED on for this long...
pub const HEARTBEAT_ON_MS: u64 = 100;

/// ...then off for this long.
pub const HEARTBEAT_OFF_MS: u64 = 900;

/// The greeting sent to the host on each connection: `"USB probe ready\r\n"`.
pub open spec fn banner_spec() -> Seq<u8> {
    seq![
        0x55u8, 0x53, 0x42, 0x20, 0x70, 0x72, 0x6f, 0x62, 0x65, 0x20, 0x72, 0x65, 0x61, 0x64,
        0x79, 0x0d, 0x0a,
    ]
}

/// The greeting written to the host when it connects.
pub fn probe_banner() -> (b: Vec<u8>)
    ensures
        b@ == banner_spec(),
{
    let b: Vec<u8> = vec![
        0x55u8, 0x53, 0x42, 0x20, 0x70, 0x72, 0x6f, 0x62, 0x65, 0x20, 0x72, 0x65, 0x61, 0x64,
        0x79, 0x0d, 0x0a,
    ];
    proof {
        assert(b@ =~= banner_spec());
    }
    b
}

/// The reply to a received packet: the same bytes, or nothing for an empty
/// packet.
pub fn echo_reply(received: &[u8]) -> (reply: Option<Vec<u8>>)
    ensures
        received@.len() == 0 <==> reply is None,
        reply matches Some(bytes) ==> bytes@ == received@,
{
    if received.len() == 0 {
        return None;
    }
    let mut bytes: Vec<u8> = Vec::new();
    let mut i: usize = 0;
    while i < received.len()
        invariant
            i <= received@.len(),
            bytes@ == received@.take(i as int),
        decreases received@.len() - i,
    {
        bytes.push(received[i]);
        i = i + 1;
        proof {
            assert(bytes@ =~= received@.take(i as int));
        }
    }
    proof {
        assert(received@.take(i as int) =~= received@);
    }
    Some(bytes)
}

} // verus!
