use vstd::prelude::*;
use vstd::string::StringExecFns;
use vstd::string::StrSliceExecFns;
use crate::classify::push_char;

verus! {

/// The decimal digit for a value below 10.
pub open spec fn decimal_digit(n: int) -> char {
    "0123456789"@[n]
}

/// The decimal text of `n`, without leading zeros.
pub open spec fn decimal(n: nat) -> Seq<char>
    decreases n,
{
    if n < 10 {
        seq![decimal_digit(n as int)]
    } else {
        decimal(n / 10).push(decimal_digit((n % 10) as int))
    }
}

/// The reply to one request: "pong " followed by the time in seconds.
pub open spec fn pong_text(timestamp: u64) -> Seq<char> {
    "pong "@ + decimal(timestamp as nat)
}

fn push_decimal(s: &mut String, n: u64)
    ensures
        final(s)@ == old(s)@ + decimal(n as nat),
    decreases n,
{
    if n >= 10 {
        push_decimal(s, n / 10);
    }
    proof {
        reveal_strlit("0123456789");
    }
    let d = "0123456789".get_char((n % 10) as usize);
    push_char(s, d);
    assert(final(s)@ =~= old(s)@ + decimal(n as nat));
}

/// Builds the reply "pong <seconds>" for a request received at `timestamp`
/// (seconds since the Unix epoch).
pub fn pong_reply(timestamp: u64) -> (r: String)
    ensures
        r@ == pong_text(timestamp),
{
    let mut s = String::from_str("pong ");
    push_decimal(&mut s, timestamp);
    s
}

/// What a connection handler does after one read from its socket.
#[derive(Debug)]
pub enum ConnectionStep {
    /// The peer closed the connection: end the handler.
    Close,
    /// Write these bytes back and read again.
    Reply(String),
}

/// Decides the handler's next step after reading `n` bytes at `timestamp`:
/// a read of zero bytes is the peer's clean close; any other read is
/// answered with "pong <timestamp>".
pub fn on_read(n: usize, timestamp: u64) -> (r: ConnectionStep)
    ensures
        n == 0 ==> r is Close,
        n > 0 ==> (r matches ConnectionStep::Reply(s) && s@ == pong_text(timestamp)),
{
    if n == 0 {
        ConnectionStep::Close
    } else {
        ConnectionStep::Reply(pong_reply(timestamp))
    }
}

/// A decimal digit character.
pub open spec fn is_decimal_digit(c: char) -> bool {
    '0' <= c && c <= '9'
}

proof fn lemma_decimal_digits(n: nat)
    ensures
        decimal(n).len() > 0,
        forall|i: int| 0 <= i < decimal(n).len() ==> #[trigger] is_decimal_digit(decimal(n)[i]),
    decreases n,
{
    reveal_strlit("0123456789");
    if n >= 10 {
        lemma_decimal_digits(n / 10);
    }
}

/// Every reply has the form "pong " followed by one or more decimal digits.
pub proof fn lemma_pong_shape(timestamp: u64)
    ensures
        pong_text(timestamp).subrange(0, 5) == "pong "@,
        pong_text(timestamp).len() > 5,
        forall|i: int|
            5 <= i < pong_text(timestamp).len() ==> #[trigger] is_decimal_digit(
                pong_text(timestamp)[i],
            ),
{
    reveal_strlit("pong ");
    let t = pong_text(timestamp);
    let d = decimal(timestamp as nat);
    lemma_decimal_digits(timestamp as nat);
    assert(t.subrange(0, 5) =~= "pong "@);
    assert forall|i: int| 5 <= i < t.len() implies #[trigger] is_decimal_digit(t[i]) by {
        assert(t[i] == d[i - 5]);
    }
}

} // verus!
