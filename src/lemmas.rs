use vstd::prelude::*;
use crate::classify::{
    be_u16_at, direction_of, display_hex, hex_digit, hex_of, CAPTURE_PORT, DST_PORT_OFFSET,
    HEX_DISPLAY_LIMIT, PORTS_END, SRC_PORT_OFFSET,
};

verus! {

/// A lowercase hex digit.
pub open spec fn is_lower_hex_char(c: char) -> bool {
    ('0' <= c && c <= '9') || ('a' <= c && c <= 'f')
}

/// The value of a lowercase hex digit.
pub open spec fn hex_value(c: char) -> int {
    if '0' <= c && c <= '9' {
        c as int - '0' as int
    } else {
        c as int - 'a' as int + 10
    }
}

/// Reads hex text back as bytes, two digits per byte.
pub open spec fn decode_hex(s: Seq<char>) -> Seq<u8> {
    Seq::new(
        s.len() / 2,
        |i: int| (hex_value(s[2 * i]) * 16 + hex_value(s[2 * i + 1])) as u8,
    )
}

proof fn lemma_hex_digit(n: int)
    requires
        0 <= n < 16,
    ensures
        is_lower_hex_char(hex_digit(n)),
        hex_value(hex_digit(n)) == n,
{
    reveal_strlit("0123456789abcdef");
}

/// A frame too short to hold both ports has direction "unknown".
pub proof fn lemma_short_frame_unknown(data: Seq<u8>)
    requires
        data.len() < PORTS_END,
    ensures
        direction_of(data) == "unknown"@,
{
}

/// A frame whose source port is the capture port is outbound.
pub proof fn lemma_source_port_out(data: Seq<u8>)
    requires
        data.len() >= PORTS_END,
        be_u16_at(data, SRC_PORT_OFFSET as int) == CAPTURE_PORT,
    ensures
        direction_of(data) == "out"@,
{
}

/// A frame whose destination port, and not its source port, is the capture
/// port is inbound.
pub proof fn lemma_destination_port_in(data: Seq<u8>)
    requires
        data.len() >= PORTS_END,
        be_u16_at(data, SRC_PORT_OFFSET as int) != CAPTURE_PORT,
        be_u16_at(data, DST_PORT_OFFSET as int) == CAPTURE_PORT,
    ensures
        direction_of(data) == "in"@,
{
}

/// The shown hex text is at most 103 characters; every character before the
/// marker is a lowercase hex digit; and when the full encoding is longer than
/// 100 characters the text is its first 100 characters followed by "...".
pub proof fn lemma_hex_data_shape(data: Seq<u8>)
    ensures
        display_hex(hex_of(data)).len() <= HEX_DISPLAY_LIMIT + 3,
        forall|i: int|
            0 <= i < display_hex(hex_of(data)).len() && i < HEX_DISPLAY_LIMIT ==> #[trigger]
            is_lower_hex_char(display_hex(hex_of(data))[i]),
        hex_of(data).len() > HEX_DISPLAY_LIMIT ==> display_hex(hex_of(data)) == hex_of(
            data,
        ).subrange(0, HEX_DISPLAY_LIMIT as int) + "..."@,
        hex_of(data).len() <= HEX_DISPLAY_LIMIT ==> display_hex(hex_of(data)) == hex_of(data),
{
    reveal_strlit("...");
    let full = hex_of(data);
    assert forall|i: int| 0 <= i < full.len() implies #[trigger] is_lower_hex_char(full[i]) by {
        lemma_hex_digit(data[i / 2] as int / 16);
        lemma_hex_digit(data[i / 2] as int % 16);
    }
    let shown = display_hex(full);
    assert forall|i: int| 0 <= i < shown.len() && i < HEX_DISPLAY_LIMIT implies #[trigger]
        is_lower_hex_char(shown[i]) by {
        assert(shown[i] == full[i]);
    }
}

/// Decoding the hex text of a frame short enough to be shown whole gives
/// back the frame.
pub proof fn lemma_hex_round_trip(data: Seq<u8>)
    requires
        hex_of(data).len() <= HEX_DISPLAY_LIMIT,
    ensures
        decode_hex(display_hex(hex_of(data))) == data,
{
    let full = hex_of(data);
    assert forall|i: int| 0 <= i < data.len() implies #[trigger] decode_hex(full)[i] == data[i] by {
        let b = data[i] as int;
        lemma_hex_digit(b / 16);
        lemma_hex_digit(b % 16);
        assert(full[2 * i] == hex_digit(b / 16));
        assert(full[2 * i + 1] == hex_digit(b % 16));
    }
    assert(decode_hex(full) =~= data);
}

/// The empty frame has direction "unknown" and empty hex text.
pub proof fn lemma_empty_frame(data: Seq<u8>)
    requires
        data.len() == 0,
    ensures
        direction_of(data) == "unknown"@,
        display_hex(hex_of(data)) == Seq::<char>::empty(),
{
    assert(hex_of(data) =~= Seq::<char>::empty());
}

} // verus!
