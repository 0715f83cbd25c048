//! MAC addresses.

use crate::text::{digit_str, hex_char};
use vstd::prelude::*;
use vstd::string::StringExecFns;

verus! {

/// Why a text is no MAC address.
#[derive(Copy, Clone, Debug, Eq, PartialEq, Hash, Structural)]
pub enum MacParseError {
    /// One of the six parts is no hexadecimal number below 256.
    InvalidDigit,
    /// The text does not have six parts.
    InvalidLength,
}

/// A MAC address: six bytes, in the order in which they are sent.
#[derive(Copy, Clone, PartialEq, Eq, Hash, Debug)]
pub struct MacAddress(pub [u8; 6]);

impl View for MacAddress {
    type V = Seq<u8>;

    open spec fn view(&self) -> Seq<u8> {
        self.0@
    }
}

/// The address made of the first six bytes of `s`.
pub open spec fn mac_of(s: Seq<u8>) -> MacAddress {
    MacAddress([s[0], s[1], s[2], s[3], s[4], s[5]])
}

/// Two addresses with the same six bytes are the same address.
pub proof fn lemma_mac_ext_equal(a: MacAddress, b: MacAddress)
    requires
        a@ == b@,
    ensures
        a == b,
{
    assert(a.0@.len() == 6);
    assert(a.0 =~= b.0);
}

impl MacAddress {
    /// Whether this address is the broadcast address `ff:ff:ff:ff:ff:ff`.
    pub fn is_broadcast(&self) -> (b: bool)
        ensures
            b <==> self@ == seq![255u8, 255u8, 255u8, 255u8, 255u8, 255u8],
    {
        let b = self.0[0] == 255 && self.0[1] == 255 && self.0[2] == 255 && self.0[3] == 255
            && self.0[4] == 255 && self.0[5] == 255;
        proof {
            if b {
                assert(self@ =~= seq![255u8, 255u8, 255u8, 255u8, 255u8, 255u8]);
            }
        }
        b
    }

    /// Whether this address is `33:33:00:00:00:00`, which IPv6 neighbourhood discovery uses.
    pub fn is_ipv6_neighborhood_discovery(&self) -> (b: bool)
        ensures
            b <==> self@ == seq![51u8, 51u8, 0u8, 0u8, 0u8, 0u8],
    {
        let b = self.0[0] == 51 && self.0[1] == 51 && self.0[2] == 0 && self.0[3] == 0 && self.0[4]
            == 0 && self.0[5] == 0;
        proof {
            if b {
                assert(self@ =~= seq![51u8, 51u8, 0u8, 0u8, 0u8, 0u8]);
            }
        }
        b
    }

    /// Whether this address lies in `33:33:*`, the range of IPv6 multicast.
    pub fn is_ipv6_multicast(&self) -> (b: bool)
        ensures
            b <==> self@[0] == 51 && self@[1] == 51,
    {
        self.0[0] == 51 && self.0[1] == 51
    }

    /// The six bytes of this address on the wire.
    pub fn encode(&self) -> (bytes: [u8; 6])
        ensures
            bytes@ == self@,
    {
        self.0
    }
}

/// The text of an address: its six bytes as two lower-case hexadecimal digits each, with
/// a colon between one byte and the next.
pub open spec fn mac_text(bytes: Seq<u8>) -> Seq<char> {
    Seq::new(
        17,
        |i: int|
            if i % 3 == 2 {
                ':'
            } else if i % 3 == 0 {
                hex_char(bytes[i / 3] as int / 16)
            } else {
                hex_char(bytes[i / 3] as int % 16)
            },
    )
}

/// The value of a hexadecimal digit, upper or lower case.
pub open spec fn hex_digit_value(c: char) -> Option<int> {
    if c == '0' {
        Some(0)
    } else if c == '1' {
        Some(1)
    } else if c == '2' {
        Some(2)
    } else if c == '3' {
        Some(3)
    } else if c == '4' {
        Some(4)
    } else if c == '5' {
        Some(5)
    } else if c == '6' {
        Some(6)
    } else if c == '7' {
        Some(7)
    } else if c == '8' {
        Some(8)
    } else if c == '9' {
        Some(9)
    } else if c == 'a' || c == 'A' {
        Some(10)
    } else if c == 'b' || c == 'B' {
        Some(11)
    } else if c == 'c' || c == 'C' {
        Some(12)
    } else if c == 'd' || c == 'D' {
        Some(13)
    } else if c == 'e' || c == 'E' {
        Some(14)
    } else if c == 'f' || c == 'F' {
        Some(15)
    } else {
        None
    }
}

/// The number that a string of hexadecimal digits writes. A character that is no digit
/// counts as zero.
pub open spec fn hex_number(digits: Seq<char>) -> nat
    decreases digits.len(),
{
    if digits.len() == 0 {
        0
    } else {
        let last: nat = match hex_digit_value(digits.last()) {
            Some(v) => v as nat,
            None => 0,
        };
        16 * hex_number(digits.drop_last()) + last
    }
}

/// A part without the plus sign that may open it.
pub open spec fn unsigned_part(part: Seq<char>) -> Seq<char> {
    if part.len() > 0 && part[0] == '+' {
        part.skip(1)
    } else {
        part
    }
}

/// Whether every character is a hexadecimal digit.
pub open spec fn all_hex(digits: Seq<char>) -> bool {
    forall|i: int| 0 <= i < digits.len() ==> hex_digit_value(#[trigger] digits[i]) is Some
}

/// The byte that one part of an address writes: after a plus sign, which may be left
/// out, one or more hexadecimal digits whose number is below 256.
pub open spec fn part_value(part: Seq<char>) -> Option<u8> {
    let digits = unsigned_part(part);
    if digits.len() > 0 && all_hex(digits) && hex_number(digits) <= 255 {
        Some(hex_number(digits) as u8)
    } else {
        None
    }
}

/// The parts of a text between its colons.
pub open spec fn split_colon(s: Seq<char>) -> Seq<Seq<char>>
    decreases s.len(),
{
    if s.len() == 0 {
        seq![Seq::<char>::empty()]
    } else {
        let parts = split_colon(s.drop_last());
        if s.last() == ':' {
            parts.push(Seq::<char>::empty())
        } else {
            parts.update(parts.len() - 1, parts.last().push(s.last()))
        }
    }
}

/// The address that a text writes. The text must have six parts between colons, else its
/// length is invalid; each part must write a byte, else a digit is invalid.
pub open spec fn mac_parse(s: Seq<char>) -> Result<MacAddress, MacParseError> {
    let parts = split_colon(s);
    if parts.len() != 6 {
        Err(MacParseError::InvalidLength)
    } else if exists|i: int| 0 <= i < 6 && part_value(#[trigger] parts[i]) is None {
        Err(MacParseError::InvalidDigit)
    } else {
        Ok(mac_of(Seq::new(6, |i: int| part_value(parts[i]).unwrap())))
    }
}

/// The value of a hexadecimal digit.
fn hex_value(c: char) -> (v: Option<u8>)
    ensures
        match v {
            Some(v) => hex_digit_value(c) == Some(v as int),
            None => hex_digit_value(c) is None,
        },
{
    match c {
        '0' => Some(0),
        '1' => Some(1),
        '2' => Some(2),
        '3' => Some(3),
        '4' => Some(4),
        '5' => Some(5),
        '6' => Some(6),
        '7' => Some(7),
        '8' => Some(8),
        '9' => Some(9),
        'a' | 'A' => Some(10),
        'b' | 'B' => Some(11),
        'c' | 'C' => Some(12),
        'd' | 'D' => Some(13),
        'e' | 'E' => Some(14),
        'f' | 'F' => Some(15),
        _ => None,
    }
}

/// A part of a text as far as it has been read: whether it is still empty, whether it has
/// a digit, whether it can no longer write a byte, and the number it writes if it can.
struct PartScan {
    empty: bool,
    has_digit: bool,
    bad: bool,
    value: u8,
}

impl PartScan {
    /// The scan stands for the part `part`.
    spec fn stands_for(self, part: Seq<char>) -> bool {
        let digits = unsigned_part(part);
        &&& self.empty <==> part.len() == 0
        &&& self.has_digit <==> digits.len() > 0
        &&& self.bad <==> !(all_hex(digits) && hex_number(digits) <= 255)
        &&& !self.bad ==> self.value == hex_number(digits)
    }

    /// The byte that the part writes, if it writes one.
    fn value(&self) -> (v: Option<u8>)
        ensures
            forall|part: Seq<char>| self.stands_for(part) ==> v == part_value(part),
    {
        if self.bad || !self.has_digit {
            None
        } else {
            Some(self.value)
        }
    }

    fn start() -> (scan: PartScan)
        ensures
            scan.stands_for(Seq::<char>::empty()),
    {
        PartScan { empty: true, has_digit: false, bad: false, value: 0 }
    }

    /// Reads one more character of the part.
    fn step(&mut self, c: char, Ghost(part): Ghost<Seq<char>>)
        requires
            old(self).stands_for(part),
        ensures
            final(self).stands_for(part.push(c)),
    {
        let ghost digits = unsigned_part(part);
        let ghost next = unsigned_part(part.push(c));
        if self.empty && c == '+' {
            self.empty = false;
            proof {
                assert(next =~= Seq::<char>::empty());
            }
            return ;
        }
        proof {
            assert(next =~= digits.push(c));
            assert(next.drop_last() =~= digits);
            assert(all_hex(next) <==> all_hex(digits) && hex_digit_value(c) is Some) by {
                if all_hex(digits) && hex_digit_value(c) is Some {
                    assert forall|i: int| 0 <= i < next.len() implies hex_digit_value(
                        #[trigger] next[i],
                    ) is Some by {
                        if i < digits.len() {
                            assert(next[i] == digits[i]);
                        }
                    }
                }
                if all_hex(next) {
                    assert(next[digits.len() as int] == c);
                    assert forall|i: int| 0 <= i < digits.len() implies hex_digit_value(
                        #[trigger] digits[i],
                    ) is Some by {
                        assert(next[i] == digits[i]);
                    }
                }
            }
        }
        self.empty = false;
        self.has_digit = true;
        match hex_value(c) {
            None => {
                self.bad = true;
            },
            Some(v) => {
                if !self.bad {
                    if self.value > 15 {
                        self.bad = true;
                    } else {
                        self.value = 16 * self.value + v;
                    }
                }
            },
        }
    }
}

impl MacAddress {
    /// The text of this address, as `xx:xx:xx:xx:xx:xx` in lower-case hexadecimal.
    pub fn to_string(&self) -> (s: String)
        ensures
            s@ == mac_text(self@),
    {
        let mut s = String::new();
        let mut i: usize = 0;
        while i < 6
            invariant
                i <= 6,
                s@ == mac_text(self@).take(
                    if i == 0 {
                        0int
                    } else {
                        3 * i - 1
                    },
                ),
            decreases 6 - i,
        {
            let ghost before = s@;
            let ghost text = mac_text(self@);
            if i > 0 {
                proof {
                    reveal_strlit(":");
                }
                s.append(":");
            }
            s.append(digit_str(self.0[i] / 16));
            s.append(digit_str(self.0[i] % 16));
            proof {
                assert((3 * i) % 3 == 0 && (3 * i) / 3 == i);
                assert((3 * i + 1) % 3 == 1 && (3 * i + 1) / 3 == i);
                if i > 0 {
                    assert((3 * i - 1) % 3 == 2);
                }
                assert(s@ =~= text.take(3 * i + 2));
            }
            i += 1;
        }
        assert(s@ =~= mac_text(self@));
        s
    }

    /// Reads an address from its text: six hexadecimal numbers with colons between them.
    pub fn parse(input: &str) -> (r: Result<MacAddress, MacParseError>)
        ensures
            r == mac_parse(input@),
    {
        let mut array = [0u8; 6];
        let mut count: usize = 0;
        let mut bad = false;
        let mut scan = PartScan::start();
        let ghost mut done: Seq<Seq<char>> = Seq::empty();
        let ghost mut current: Seq<char> = Seq::empty();
        for c in it: input.chars()
            invariant
                it.seq() == input@,
                split_colon(input@.take(it.index() as int)) == done.push(current),
                scan.stands_for(current),
                count == if done.len() < 7 {
                    done.len()
                } else {
                    7
                },
                bad <==> exists|j: int| 0 <= j < done.len() && j < 6 && part_value(
                    #[trigger] done[j],
                ) is None,
                forall|j: int|
                    0 <= j < done.len() && j < 6 && part_value(#[trigger] done[j]) is Some
                        ==> array@[j] == part_value(done[j]).unwrap(),
        {
            proof {
                let i = it.index() as int;
                assert(input@.take(i + 1).drop_last() =~= input@.take(i));
                assert(input@.take(i + 1).last() == c);
            }
            if c == ':' {
                let ghost was_bad = bad;
                let value = scan.value();
                if count < 6 {
                    match value {
                        Some(v) => {
                            array[count] = v;
                        },
                        None => {
                            bad = true;
                        },
                    }
                }
                if count < 7 {
                    count += 1;
                }
                proof {
                    let finished = current;
                    let grown = done.push(finished);
                    assert forall|j: int|
                        0 <= j < grown.len() && j < 6 && part_value(
                            #[trigger] grown[j],
                        ) is Some implies array@[j] == part_value(grown[j]).unwrap() by {
                        if j < done.len() {
                            assert(grown[j] == done[j]);
                        }
                    }
                    if was_bad {
                        let j = choose|j: int|
                            0 <= j < done.len() && j < 6 && part_value(#[trigger] done[j]) is None;
                        assert(grown[j] == done[j]);
                    } else if bad {
                        assert(grown[done.len() as int] == finished);
                    } else {
                        assert forall|j: int| 0 <= j < grown.len() && j < 6 implies part_value(
                            #[trigger] grown[j],
                        ) is Some by {
                            if j < done.len() {
                                assert(grown[j] == done[j]);
                            } else {
                                assert(grown[j] == finished);
                            }
                        }
                    }
                    done = grown;
                    current = Seq::empty();
                }
                scan = PartScan::start();
            } else {
                scan.step(c, Ghost(current));
                proof {
                    let parts = done.push(current);
                    assert(parts.update(parts.len() - 1, parts.last().push(c)) =~= done.push(
                        current.push(c),
                    ));
                    current = current.push(c);
                }
            }
        }
        proof {
            assert(input@.take(input@.len() as int) =~= input@);
        }
        if count != 5 {
            return Err(MacParseError::InvalidLength);
        }
        let last = scan.value();
        match last {
            Some(v) => {
                array[5] = v;
            },
            None => {
                bad = true;
            },
        }
        let ghost parts = done.push(current);
        if bad {
            proof {
                if part_value(current) is None {
                    assert(part_value(parts[5]) is None);
                } else {
                    let j = choose|j: int|
                        0 <= j < done.len() && j < 6 && part_value(#[trigger] done[j]) is None;
                    assert(parts[j] == done[j]);
                }
            }
            return Err(MacParseError::InvalidDigit);
        }
        let mac = MacAddress(array);
        proof {
            assert forall|i: int| 0 <= i < 6 implies part_value(#[trigger] parts[i]) is Some by {
                if i < 5 {
                    assert(parts[i] == done[i]);
                }
            }
            let expected = mac_of(Seq::new(6, |i: int| part_value(parts[i]).unwrap()));
            assert forall|i: int| 0 <= i < 6 implies mac@[i] == expected@[i] by {
                if i < 5 {
                    assert(parts[i] == done[i]);
                }
            }
            assert(mac@ =~= expected@);
            lemma_mac_ext_equal(mac, expected);
        }
        Ok(mac)
    }
}

impl std::str::FromStr for MacAddress {
    type Err = MacParseError;

    /// Reads an address from its text, as [`MacAddress::parse`] does.
    fn from_str(input: &str) -> (r: Result<MacAddress, MacParseError>)
        ensures
            r == mac_parse(input@),
    {
        MacAddress::parse(input)
    }
}

} // verus!
