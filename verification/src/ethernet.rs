//! Ethernet value types: the MAC address with its classification predicates,
//! and the link operation-mode and speed settings.

use vstd::prelude::*;
use vstd::string::StringExecFns;

verus! {

/// MAC Address: six bytes, transmitted most significant first.
#[derive(Copy, Clone, PartialEq, Debug)]
pub struct MacAddress(pub [u8; 6]);

impl MacAddress {
    /// The bytes of the address as a sequence.
    pub open spec fn bytes(&self) -> Seq<u8> {
        self.0@
    }

    /// Whether the address is the broadcast address: all six bytes 0xFF.
    pub open spec fn spec_is_broadcast(&self) -> bool {
        &&& self.bytes()[0] == 0xffu8
        &&& self.bytes()[1] == 0xffu8
        &&& self.bytes()[2] == 0xffu8
        &&& self.bytes()[3] == 0xffu8
        &&& self.bytes()[4] == 0xffu8
        &&& self.bytes()[5] == 0xffu8
    }

    /// Whether the address is multicast: the least significant bit of the
    /// first byte is set.
    pub open spec fn spec_is_multicast(&self) -> bool {
        self.bytes()[0] & 0x01u8 != 0u8
    }

    /// Whether the address is unicast: neither multicast nor broadcast.
    pub open spec fn spec_is_unicast(&self) -> bool {
        !self.spec_is_multicast() && !self.spec_is_broadcast()
    }

    /// MacAddress constructor.
    pub fn new(bytes: [u8; 6]) -> (r: Self)
        ensures
            r.bytes() == bytes@,
    {
        MacAddress(bytes)
    }

    /// Check whether the address is broadcast.
    pub fn is_broadcast(&self) -> (r: bool)
        ensures
            r == self.spec_is_broadcast(),
    {
        self.0[0] == 0xFF && self.0[1] == 0xFF && self.0[2] == 0xFF && self.0[3] == 0xFF
            && self.0[4] == 0xFF && self.0[5] == 0xFF
    }

    /// Check whether the address is multicast.
    pub fn is_multicast(&self) -> (r: bool)
        ensures
            r == self.spec_is_multicast(),
    {
        self.0[0] & 0x1 != 0
    }

    /// Check whether the address is unicast.
    pub fn is_unicast(&self) -> (r: bool)
        ensures
            r == self.spec_is_unicast(),
    {
        !self.is_multicast() && !self.is_broadcast()
    }
}

impl Default for MacAddress {
    /// The all-zero address.
    fn default() -> (r: Self)
        ensures
            r.bytes() == Seq::<u8>::new(6, |i: int| 0u8),
    {
        let r = MacAddress([0; 6]);
        proof {
            assert(r.bytes() =~= Seq::<u8>::new(6, |i: int| 0u8));
        }
        r
    }
}

/// The six address bytes packed into the low 48 bits of a 64-bit value,
/// most significant address byte first.
pub open spec fn spec_mac_to_u64(m: MacAddress) -> u64 {
    ((m.bytes()[0] as u64) << 40) | ((m.bytes()[1] as u64) << 32) | ((m.bytes()[2] as u64) << 24)
        | ((m.bytes()[3] as u64) << 16) | ((m.bytes()[4] as u64) << 8) | (m.bytes()[5] as u64)
}

impl From<MacAddress> for u64 {
    /// The address as a 64-bit value: the bytes fill the low 48 bits, most
    /// significant address byte first.
    fn from(address: MacAddress) -> (r: u64) {
        ((address.0[0] as u64) << 40) | ((address.0[1] as u64) << 32) | ((address.0[2] as u64)
            << 24) | ((address.0[3] as u64) << 16) | ((address.0[4] as u64) << 8) | (
        address.0[5] as u64)
    }
}

impl vstd::std_specs::convert::FromSpecImpl<MacAddress> for u64 {
    open spec fn obeys_from_spec() -> bool {
        true
    }

    open spec fn from_spec(m: MacAddress) -> u64 {
        spec_mac_to_u64(m)
    }
}

impl From<u64> for MacAddress {
    /// The address taken from the low 48 bits of a 64-bit value, most
    /// significant address byte first; the high 16 bits are ignored.
    fn from(value: u64) -> (r: MacAddress) {
        MacAddress(
            [
                ((value >> 40) & 0xff) as u8,
                ((value >> 32) & 0xff) as u8,
                ((value >> 24) & 0xff) as u8,
                ((value >> 16) & 0xff) as u8,
                ((value >> 8) & 0xff) as u8,
                (value & 0xff) as u8,
            ],
        )
    }
}

impl vstd::std_specs::convert::FromSpecImpl<u64> for MacAddress {
    open spec fn obeys_from_spec() -> bool {
        true
    }

    open spec fn from_spec(value: u64) -> MacAddress {
        MacAddress(
            [
                ((value >> 40) & 0xff) as u8,
                ((value >> 32) & 0xff) as u8,
                ((value >> 24) & 0xff) as u8,
                ((value >> 16) & 0xff) as u8,
                ((value >> 8) & 0xff) as u8,
                (value & 0xff) as u8,
            ],
        )
    }
}

/// Law: the conversions between an address and a 64-bit value invert each
/// other: unpacking the packed form of an address recovers the address, and
/// packing an unpacked value recovers its low 48 bits.
pub proof fn lemma_mac_u64_round_trip(m: MacAddress, v: u64)
    ensures
        <MacAddress as vstd::std_specs::convert::FromSpec<u64>>::from_spec(spec_mac_to_u64(m))
            == m,
        spec_mac_to_u64(<MacAddress as vstd::std_specs::convert::FromSpec<u64>>::from_spec(v)) == v
            & 0xffff_ffff_ffffu64,
{
    let b0 = m.bytes()[0] as u64;
    let b1 = m.bytes()[1] as u64;
    let b2 = m.bytes()[2] as u64;
    let b3 = m.bytes()[3] as u64;
    let b4 = m.bytes()[4] as u64;
    let b5 = m.bytes()[5] as u64;
    assert((b0 < 256 && b1 < 256 && b2 < 256 && b3 < 256 && b4 < 256 && b5 < 256) ==> {
        let q = (b0 << 40) | (b1 << 32) | (b2 << 24) | (b3 << 16) | (b4 << 8) | b5;
        &&& ((q >> 40) & 0xff) == b0
        &&& ((q >> 32) & 0xff) == b1
        &&& ((q >> 24) & 0xff) == b2
        &&& ((q >> 16) & 0xff) == b3
        &&& ((q >> 8) & 0xff) == b4
        &&& (q & 0xff) == b5
    }) by (bit_vector);
    let packed = <MacAddress as vstd::std_specs::convert::FromSpec<u64>>::from_spec(
        spec_mac_to_u64(m),
    );
    assert(packed.bytes() =~= m.bytes());
    assert(packed.0 == m.0);

    let r = <MacAddress as vstd::std_specs::convert::FromSpec<u64>>::from_spec(v);
    assert((v >> 40) & 0xff < 256 && (v >> 32) & 0xff < 256 && (v >> 24) & 0xff < 256 && (v >> 16)
        & 0xff < 256 && (v >> 8) & 0xff < 256 && v & 0xff < 256) by (bit_vector);
    assert(((((v >> 40) & 0xff) << 40) | (((v >> 32) & 0xff) << 32) | (((v >> 24) & 0xff) << 24) | (
    ((v >> 16) & 0xff) << 16) | (((v >> 8) & 0xff) << 8) | (v & 0xff)) == v
        & 0xffff_ffff_ffffu64) by (bit_vector);
    assert(spec_mac_to_u64(r) == v & 0xffff_ffff_ffffu64);
}

/// A single hex digit as a lowercase character.
pub open spec fn spec_hex_digit(n: u8) -> char
    recommends
        n < 16,
{
    if n == 0 {
        '0'
    } else if n == 1 {
        '1'
    } else if n == 2 {
        '2'
    } else if n == 3 {
        '3'
    } else if n == 4 {
        '4'
    } else if n == 5 {
        '5'
    } else if n == 6 {
        '6'
    } else if n == 7 {
        '7'
    } else if n == 8 {
        '8'
    } else if n == 9 {
        '9'
    } else if n == 10 {
        'a'
    } else if n == 11 {
        'b'
    } else if n == 12 {
        'c'
    } else if n == 13 {
        'd'
    } else if n == 14 {
        'e'
    } else {
        'f'
    }
}

/// The textual form of an address: lowercase hex pairs separated by hyphens.
pub open spec fn spec_mac_text(bytes: Seq<u8>) -> Seq<char>
    recommends
        bytes.len() == 6,
{
    seq![
        spec_hex_digit((bytes[0] / 16) as u8),
        spec_hex_digit((bytes[0] % 16) as u8),
        '-',
        spec_hex_digit((bytes[1] / 16) as u8),
        spec_hex_digit((bytes[1] % 16) as u8),
        '-',
        spec_hex_digit((bytes[2] / 16) as u8),
        spec_hex_digit((bytes[2] % 16) as u8),
        '-',
        spec_hex_digit((bytes[3] / 16) as u8),
        spec_hex_digit((bytes[3] % 16) as u8),
        '-',
        spec_hex_digit((bytes[4] / 16) as u8),
        spec_hex_digit((bytes[4] % 16) as u8),
        '-',
        spec_hex_digit((bytes[5] / 16) as u8),
        spec_hex_digit((bytes[5] % 16) as u8),
    ]
}

impl MacAddress {
    /// The address formatted as `xx-xx-xx-xx-xx-xx`, each byte as two
    /// lowercase hex digits.
    pub fn to_hex_string(&self) -> (r: String)
        ensures
            r@ == spec_mac_text(self.bytes()),
    {
        let ghost text = spec_mac_text(self.bytes());
        let mut s = String::new();
        push_hex_byte(&mut s, self.0[0]);
        proof {
            assert(s@ =~= text.take(2));
        }
        push_separator(&mut s);
        push_hex_byte(&mut s, self.0[1]);
        proof {
            assert(s@ =~= text.take(5));
        }
        push_separator(&mut s);
        push_hex_byte(&mut s, self.0[2]);
        proof {
            assert(s@ =~= text.take(8));
        }
        push_separator(&mut s);
        push_hex_byte(&mut s, self.0[3]);
        proof {
            assert(s@ =~= text.take(11));
        }
        push_separator(&mut s);
        push_hex_byte(&mut s, self.0[4]);
        proof {
            assert(s@ =~= text.take(14));
        }
        push_separator(&mut s);
        push_hex_byte(&mut s, self.0[5]);
        proof {
            assert(s@ =~= text);
        }
        s
    }
}

/// Appends the hyphen that separates two hex pairs.
fn push_separator(s: &mut String)
    ensures
        final(s)@ == old(s)@.push('-'),
{
    s.append("-");
    proof {
        reveal_strlit("-");
        assert(s@ =~= old(s)@.push('-'));
    }
}

/// Appends one byte as two lowercase hex digits.
fn push_hex_byte(s: &mut String, b: u8)
    ensures
        final(s)@ == old(s)@.push(spec_hex_digit(b / 16)).push(spec_hex_digit(b % 16)),
{
    push_hex_digit(s, b / 16);
    push_hex_digit(s, b % 16);
}

/// Appends one lowercase hex digit.
fn push_hex_digit(s: &mut String, n: u8)
    requires
        n < 16,
    ensures
        final(s)@ == old(s)@.push(spec_hex_digit(n)),
{
    match n {
        0 => {
            s.append("0");
            proof {
                reveal_strlit("0");
                assert(s@ =~= old(s)@.push(spec_hex_digit(n)));
            }
        },
        1 => {
            s.append("1");
            proof {
                reveal_strlit("1");
                assert(s@ =~= old(s)@.push(spec_hex_digit(n)));
            }
        },
        2 => {
            s.append("2");
            proof {
                reveal_strlit("2");
                assert(s@ =~= old(s)@.push(spec_hex_digit(n)));
            }
        },
        3 => {
            s.append("3");
            proof {
                reveal_strlit("3");
                assert(s@ =~= old(s)@.push(spec_hex_digit(n)));
            }
        },
        4 => {
            s.append("4");
            proof {
                reveal_strlit("4");
                assert(s@ =~= old(s)@.push(spec_hex_digit(n)));
            }
        },
        5 => {
            s.append("5");
            proof {
                reveal_strlit("5");
                assert(s@ =~= old(s)@.push(spec_hex_digit(n)));
            }
        },
        6 => {
            s.append("6");
            proof {
                reveal_strlit("6");
                assert(s@ =~= old(s)@.push(spec_hex_digit(n)));
            }
        },
        7 => {
            s.append("7");
            proof {
                reveal_strlit("7");
                assert(s@ =~= old(s)@.push(spec_hex_digit(n)));
            }
        },
        8 => {
            s.append("8");
            proof {
                reveal_strlit("8");
                assert(s@ =~= old(s)@.push(spec_hex_digit(n)));
            }
        },
        9 => {
            s.append("9");
            proof {
                reveal_strlit("9");
                assert(s@ =~= old(s)@.push(spec_hex_digit(n)));
            }
        },
        10 => {
            s.append("a");
            proof {
                reveal_strlit("a");
                assert(s@ =~= old(s)@.push(spec_hex_digit(n)));
            }
        },
        11 => {
            s.append("b");
            proof {
                reveal_strlit("b");
                assert(s@ =~= old(s)@.push(spec_hex_digit(n)));
            }
        },
        12 => {
            s.append("c");
            proof {
                reveal_strlit("c");
                assert(s@ =~= old(s)@.push(spec_hex_digit(n)));
            }
        },
        13 => {
            s.append("d");
            proof {
                reveal_strlit("d");
                assert(s@ =~= old(s)@.push(spec_hex_digit(n)));
            }
        },
        14 => {
            s.append("e");
            proof {
                reveal_strlit("e");
                assert(s@ =~= old(s)@.push(spec_hex_digit(n)));
            }
        },
        _ => {
            s.append("f");
            proof {
                reveal_strlit("f");
                assert(s@ =~= old(s)@.push(spec_hex_digit(n)));
            }
        },
    }
}

/// Ethernet operation mode.
#[derive(PartialEq, Eq, Structural, Debug)]
pub enum OperationMode {
    /// Half-duplex.
    HalfDuplex,
    /// Full-duplex.
    FullDuplex,
}

/// Ethernet speed configuration.
#[derive(PartialEq, Eq, Structural, Debug)]
pub enum EthernetSpeed {
    /// 10 Mb/s.
    Speed10Mbs,
    /// 100 Mb/s.
    Speed100Mbs,
}

} // verus!
