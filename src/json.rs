use vstd::prelude::*;

use vstd::string::StringSliceAdditionalSpecFns;

use crate::msg::GetCounterResponse;

verus! {

/// The decimal digits of `n` as ASCII bytes, most significant first, with no
/// leading zero: the JSON form of a non-negative integer.
pub open spec fn decimal(n: nat) -> Seq<u8>
    decreases n,
{
    if n < 10 {
        seq![(48 + n) as u8]
    } else {
        decimal(n / 10).push((48 + n % 10) as u8)
    }
}

/// `{"count_counter1":<a>,"count_counter2":<b>}`
pub open spec fn counter_response_json(r: GetCounterResponse) -> Seq<u8> {
    "{\"count_counter1\":".spec_bytes() + decimal(r.count_counter1 as nat)
        + ",\"count_counter2\":".spec_bytes() + decimal(r.count_counter2 as nat)
        + "}".spec_bytes()
}

/// The peer's increment payload, `{"increment":{}}`.
pub open spec fn peer_increment_json() -> Seq<u8> {
    "{\"increment\":{}}".spec_bytes()
}

/// The peer's count query payload, `{"get_count":{}}`.
pub open spec fn peer_get_count_json() -> Seq<u8> {
    "{\"get_count\":{}}".spec_bytes()
}

/// Appends the decimal digits of `n`.
fn push_decimal(out: &mut Vec<u8>, n: u64)
    ensures
        final(out)@ == old(out)@ + decimal(n as nat),
    decreases n,
{
    if n >= 10 {
        push_decimal(out, n / 10);
    }
    out.push(48u8 + (n % 10) as u8);
    assert(final(out)@ =~= old(out)@ + decimal(n as nat));
}

/// Appends the UTF-8 bytes of `s`.
fn push_text(out: &mut Vec<u8>, s: &str)
    ensures
        final(out)@ == old(out)@ + s.spec_bytes(),
{
    let bytes = s.as_bytes();
    let ghost start = out@;
    let mut i: usize = 0;
    while i < bytes.len()
        invariant
            bytes@ == s.spec_bytes(),
            i <= bytes@.len(),
            out@ == start + bytes@.subrange(0, i as int),
        decreases bytes@.len() - i,
    {
        out.push(bytes[i]);
        i = i + 1;
        assert(out@ =~= start + bytes@.subrange(0, i as int));
    }
    assert(bytes@.subrange(0, i as int) =~= bytes@);
}

/// The JSON text of the combined view.
pub fn counter_response_to_json(r: &GetCounterResponse) -> (out: Vec<u8>)
    ensures
        out@ == counter_response_json(*r),
{
    let mut out: Vec<u8> = Vec::new();
    push_text(&mut out, "{\"count_counter1\":");
    push_decimal(&mut out, r.count_counter1);
    push_text(&mut out, ",\"count_counter2\":");
    push_decimal(&mut out, r.count_counter2);
    push_text(&mut out, "}");
    assert(out@ =~= counter_response_json(*r));
    out
}

/// The payload that makes the peer increment its counter.
pub fn peer_increment_msg() -> (out: Vec<u8>)
    ensures
        out@ == peer_increment_json(),
{
    let mut out: Vec<u8> = Vec::new();
    push_text(&mut out, "{\"increment\":{}}");
    assert(out@ =~= peer_increment_json());
    out
}

/// The payload that asks the peer for its count.
pub fn peer_get_count_msg() -> (out: Vec<u8>)
    ensures
        out@ == peer_get_count_json(),
{
    let mut out: Vec<u8> = Vec::new();
    push_text(&mut out, "{\"get_count\":{}}");
    assert(out@ =~= peer_get_count_json());
    out
}

} // verus!
