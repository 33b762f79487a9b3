use vstd::prelude::*;
use vstd::string::StringExecFns;
use vstd::string::StrSliceExecFns;

verus! {

/// The port whose traffic is captured and classified.
pub const CAPTURE_PORT: u16 = 16000;

/// Offset of the transport source port in an Ethernet + IPv4 (no options) frame.
pub const SRC_PORT_OFFSET: usize = 34;

/// Offset of the transport destination port in the same layout.
pub const DST_PORT_OFFSET: usize = 36;

/// Shortest frame that holds both ports.
pub const PORTS_END: usize = 38;

/// Longest hex text kept before the truncation marker.
pub const HEX_DISPLAY_LIMIT: usize = 100;

/// The record produced for one captured frame.
#[derive(Debug)]
pub struct PacketInfo {
    pub direction: String,
    pub hex_data: String,
}

/// Big-endian 16-bit value of the two bytes at `i`.
pub open spec fn be_u16_at(data: Seq<u8>, i: int) -> int {
    data[i] as int * 256 + data[i + 1] as int
}

/// Direction of a frame relative to the capture port.
pub open spec fn direction_of(data: Seq<u8>) -> Seq<char> {
    if data.len() < PORTS_END {
        "unknown"@
    } else if be_u16_at(data, SRC_PORT_OFFSET as int) == CAPTURE_PORT {
        "out"@
    } else if be_u16_at(data, DST_PORT_OFFSET as int) == CAPTURE_PORT {
        "in"@
    } else {
        "unknown"@
    }
}

/// The lowercase hex digit for a value below 16.
pub open spec fn hex_digit(n: int) -> char {
    "0123456789abcdef"@[n]
}

/// Each byte as two lowercase hex digits, high nibble first, no separators.
pub open spec fn hex_of(data: Seq<u8>) -> Seq<char> {
    Seq::new(
        2 * data.len(),
        |i: int|
            if i % 2 == 0 {
                hex_digit(data[i / 2] as int / 16)
            } else {
                hex_digit(data[i / 2] as int % 16)
            },
    )
}

/// The hex text as shown: cut to its first 100 characters plus "..." when longer.
pub open spec fn display_hex(full: Seq<char>) -> Seq<char> {
    if full.len() > HEX_DISPLAY_LIMIT {
        full.subrange(0, HEX_DISPLAY_LIMIT as int) + "..."@
    } else {
        full
    }
}

/// Relies on String::push: appends one character.
#[verifier::external_body]
pub(crate) fn push_char(s: &mut String, c: char)
    ensures
        final(s)@ == old(s)@.push(c),
{
    s.push(c)
}

fn hex_digit_char(n: u8) -> (c: char)
    requires
        n < 16,
    ensures
        c == hex_digit(n as int),
{
    proof {
        reveal_strlit("0123456789abcdef");
    }
    "0123456789abcdef".get_char(n as usize)
}

/// Hex text of the first `n` bytes of `data`.
fn hex_prefix(data: &[u8], n: usize) -> (r: String)
    requires
        n <= data@.len(),
    ensures
        r@ == hex_of(data@.subrange(0, n as int)),
{
    let mut s = String::new();
    let mut i: usize = 0;
    while i < n
        invariant
            i <= n <= data@.len(),
            s@ == hex_of(data@.subrange(0, i as int)),
        decreases n - i,
    {
        let b = data[i];
        push_char(&mut s, hex_digit_char(b / 16));
        push_char(&mut s, hex_digit_char(b % 16));
        i = i + 1;
        assert(s@ =~= hex_of(data@.subrange(0, i as int)));
    }
    s
}

/// Big-endian 16-bit value of the two bytes at `i`.
fn read_be_u16(data: &[u8], i: usize) -> (r: u16)
    requires
        i + 1 < data@.len(),
    ensures
        r as int == be_u16_at(data@, i as int),
{
    data[i] as u16 * 256 + data[i + 1] as u16
}

/// The direction label of a frame: "out" when its source port is the capture
/// port, else "in" when its destination port is, else "unknown" (also for
/// frames too short to hold both ports).
pub fn classify_direction(data: &[u8]) -> (r: String)
    ensures
        r@ == direction_of(data@),
{
    if data.len() >= PORTS_END {
        if read_be_u16(data, SRC_PORT_OFFSET) == CAPTURE_PORT {
            return String::from_str("out");
        } else if read_be_u16(data, DST_PORT_OFFSET) == CAPTURE_PORT {
            return String::from_str("in");
        }
    }
    String::from_str("unknown")
}

/// The hex text of a frame as shown: the whole encoding when it fits in 100
/// characters, else its first 100 characters followed by "...".
pub fn display_hex_of(data: &[u8]) -> (r: String)
    ensures
        r@ == display_hex(hex_of(data@)),
{
    let half = HEX_DISPLAY_LIMIT / 2;
    if data.len() > half {
        let mut s = hex_prefix(data, half);
        assert(hex_of(data@).subrange(0, HEX_DISPLAY_LIMIT as int) =~= hex_of(
            data@.subrange(0, half as int),
        ));
        s.append("...");
        s
    } else {
        let s = hex_prefix(data, data.len());
        assert(data@.subrange(0, data@.len() as int) =~= data@);
        s
    }
}

/// Classifies one captured frame. `_packet_num` is the frame's sequence
/// number, which does not affect the record.
pub fn analyze_packet(data: &[u8], _packet_num: u32) -> (r: PacketInfo)
    ensures
        r.direction@ == direction_of(data@),
        r.hex_data@ == display_hex(hex_of(data@)),
{
    PacketInfo { direction: classify_direction(data), hex_data: display_hex_of(data) }
}

} // verus!
