//! Laws that hold between the decoders, the encoders and the address accessors.

use crate::frame::components::mac_address::{
    hex_digit_value, hex_number, lemma_mac_ext_equal, mac_of, mac_parse, mac_text, part_value,
    split_colon, unsigned_part, MacAddress, MacParseError,
};
use crate::frame::FrameView;
use crate::text::hex_char;
use vstd::prelude::*;

verus! {

/// The two digits of byte `i` of an address.
spec fn digits_of(bytes: Seq<u8>, i: int) -> Seq<char> {
    seq![hex_char(bytes[i] as int / 16), hex_char(bytes[i] as int % 16)]
}

/// Reading one more character either opens a new part or extends the last one.
proof fn lemma_split_push(s: Seq<char>, c: char)
    ensures
        split_colon(s).len() >= 1,
        split_colon(s.push(c)) == if c == ':' {
            split_colon(s).push(Seq::<char>::empty())
        } else {
            split_colon(s).update(split_colon(s).len() - 1, split_colon(s).last().push(c))
        },
    decreases s.len(),
{
    assert(s.push(c).drop_last() =~= s);
    if s.len() > 0 {
        lemma_split_push(s.drop_last(), s.last());
        assert(s.drop_last().push(s.last()) =~= s);
    }
}

/// A hexadecimal digit is neither a colon nor a plus sign, and has the value it was made
/// from.
proof fn lemma_hex_char(d: int)
    requires
        0 <= d < 16,
    ensures
        hex_char(d) != ':',
        hex_char(d) != '+',
        hex_digit_value(hex_char(d)) == Some(d),
{
}

/// The text of the first `k` bytes of an address splits into their digits.
proof fn lemma_split_mac_text(bytes: Seq<u8>, k: int)
    requires
        bytes.len() == 6,
        1 <= k <= 6,
    ensures
        split_colon(mac_text(bytes).take(3 * k - 1)) == Seq::new(
            k as nat,
            |i: int| digits_of(bytes, i),
        ),
    decreases k,
{
    let text = mac_text(bytes);
    let high = hex_char(bytes[k - 1] as int / 16);
    let low = hex_char(bytes[k - 1] as int % 16);
    lemma_hex_char(bytes[k - 1] as int / 16);
    lemma_hex_char(bytes[k - 1] as int % 16);
    assert((3 * k - 3) % 3 == 0 && (3 * k - 3) / 3 == k - 1);
    assert((3 * k - 2) % 3 == 1 && (3 * k - 2) / 3 == k - 1);
    assert(text[3 * k - 3] == high);
    assert(text[3 * k - 2] == low);
    let before = text.take(3 * k - 3);
    assert(text.take(3 * k - 2) =~= before.push(high));
    assert(text.take(3 * k - 1) =~= before.push(high).push(low));
    lemma_split_push(before, high);
    lemma_split_push(before.push(high), low);
    if k == 1 {
        assert(before =~= Seq::<char>::empty());
        assert(split_colon(before) =~= seq![Seq::<char>::empty()]);
        assert(split_colon(text.take(3 * k - 1)) =~= Seq::new(
            k as nat,
            |i: int| digits_of(bytes, i),
        )) by {
            assert(Seq::<char>::empty().push(high).push(low) =~= digits_of(bytes, 0));
        }
    } else {
        lemma_split_mac_text(bytes, k - 1);
        let earlier = text.take(3 * (k - 1) - 1);
        assert((3 * k - 4) % 3 == 2);
        assert(text[3 * k - 4] == ':');
        assert(before =~= earlier.push(':'));
        lemma_split_push(earlier, ':');
        let parts = split_colon(earlier);
        assert(split_colon(text.take(3 * k - 1)) =~= Seq::new(
            k as nat,
            |i: int| digits_of(bytes, i),
        )) by {
            assert(Seq::<char>::empty().push(high).push(low) =~= digits_of(bytes, k - 1));
        }
    }
}

/// Two digits write the byte they were made from.
proof fn lemma_part_value(bytes: Seq<u8>, i: int)
    requires
        bytes.len() == 6,
        0 <= i < 6,
    ensures
        part_value(digits_of(bytes, i)) == Some(bytes[i]),
{
    let part = digits_of(bytes, i);
    let high = bytes[i] as int / 16;
    let low = bytes[i] as int % 16;
    lemma_hex_char(high);
    lemma_hex_char(low);
    assert(unsigned_part(part) == part);
    assert(part.drop_last() =~= seq![hex_char(high)]);
    assert(part.drop_last().drop_last() =~= Seq::<char>::empty());
    assert(hex_number(part.drop_last().drop_last()) == 0);
    assert(hex_number(part.drop_last()) == high);
    assert(hex_number(part) == 16 * high + low);
}

/// Every address comes back from its own text.
pub proof fn lemma_mac_text_round_trip(m: MacAddress)
    ensures
        mac_parse(mac_text(m@)) == Ok::<MacAddress, MacParseError>(m),
{
    let bytes = m@;
    assert(bytes.len() == 6);
    let text = mac_text(bytes);
    lemma_split_mac_text(bytes, 6);
    assert(text.take(17) =~= text);
    let parts = split_colon(text);
    assert(parts.len() == 6);
    assert forall|i: int| 0 <= i < 6 implies part_value(#[trigger] parts[i]) == Some(
        bytes[i],
    ) by {
        assert(parts[i] == digits_of(bytes, i));
        lemma_part_value(bytes, i);
    }
    let read = mac_of(Seq::new(6, |i: int| part_value(parts[i]).unwrap()));
    assert(read@ =~= m@);
    lemma_mac_ext_equal(read, m);
}

/// Every frame that the decoder produces has a destination. It has a source unless it is
/// a CTS or an ACK, and a network address unless it is a control frame or a data frame
/// that travels between access points, with both distribution flags set.
pub proof fn lemma_addresses_defined(frame: FrameView)
    requires
        frame.wf(),
    ensures
        frame.roles().src is None <==> frame is Cts || frame is Ack,
        frame.roles().bssid is None <==> (frame is Rts || frame is Cts || frame is Ack
            || frame is BlockAckRequest || frame is BlockAck || (match frame {
            FrameView::Data(f) => f.header.frame_control.to_ds()
                && f.header.frame_control.from_ds(),
            FrameView::QosData(f) => f.header.frame_control.to_ds()
                && f.header.frame_control.from_ds(),
            FrameView::NullData(f) => f.header.frame_control.to_ds()
                && f.header.frame_control.from_ds(),
            FrameView::QosNull(f) => f.header.frame_control.to_ds()
                && f.header.frame_control.from_ds(),
            _ => false,
        })),
{
}

} // verus!
