use vstd::prelude::*;
use vstd::arithmetic::div_mod::lemma_add_mod_noop;
use vstd::seq_lib::group_to_multiset_ensures;
use crate::error::IQOSError;

verus! {

/// Fixed byte that every command checksum is folded with before it is sent.
pub const COMMAND_CHECKSUM_XOR: u8 = 0x37;

/// Sum of a command's bytes with eight-bit wraparound.
pub open spec fn spec_sum_bytes(s: Seq<u8>) -> u8
    decreases s.len(),
{
    if s.len() == 0 {
        0u8
    } else {
        (((spec_sum_bytes(s.drop_last()) + s.last()) % 256) as u8)
    }
}

/// Checksum for the multi-write command sequences (lock, unlock and friends):
/// the wrapping byte sum folded with a fixed per-protocol constant.
pub open spec fn spec_command_checksum(s: Seq<u8>) -> u8 {
    spec_sum_bytes(s) ^ COMMAND_CHECKSUM_XOR
}

/// Computes the trailing checksum byte for a command body.
pub fn command_checksum(command: &[u8]) -> (r: u8)
    ensures
        r == spec_command_checksum(command@),
{
    let mut sum: u8 = 0;
    let mut i: usize = 0;
    while i < command.len()
        invariant
            i <= command@.len(),
            sum == spec_sum_bytes(command@.subrange(0, i as int)),
        decreases command@.len() - i,
    {
        proof {
            assert(command@.subrange(0, i + 1).drop_last() =~= command@.subrange(0, i as int));
        }
        sum = sum.wrapping_add(command[i]);
        i = i + 1;
    }
    proof {
        assert(command@.subrange(0, command@.len() as int) =~= command@);
    }
    sum ^ COMMAND_CHECKSUM_XOR
}

/// Removing one byte from a command removes exactly its contribution to the sum.
proof fn lemma_sum_bytes_remove(s: Seq<u8>, i: int)
    requires
        0 <= i < s.len(),
    ensures
        spec_sum_bytes(s) == (((spec_sum_bytes(s.remove(i)) + s[i]) % 256) as u8),
    decreases s.len(),
{
    if i == s.len() - 1 {
        assert(s.remove(i) =~= s.drop_last());
    } else {
        let sp = s.drop_last();
        let x = s[i];
        let y = s.last();
        assert(s.remove(i).drop_last() =~= sp.remove(i));
        assert(s.remove(i).last() == y);
        lemma_sum_bytes_remove(sp, i);
        let a = spec_sum_bytes(sp.remove(i)) as int;
        assert(spec_sum_bytes(s) == (((((a + x) % 256) + y) % 256) as u8));
        assert(spec_sum_bytes(s.remove(i)) == ((((a + y) % 256) as u8)));
        assert(((((a + x) % 256) + y) % 256) == ((((a + y) % 256) + x) % 256)) by {
            lemma_add_mod_noop(a + x, y as int, 256);
            lemma_add_mod_noop(a + y, x as int, 256);
            assert((y as int) % 256 == y as int);
            assert((x as int) % 256 == x as int);
        }
    }
}

/// The byte sum is insensitive to the order of the bytes: two commands that
/// hold the same bytes, in any order, sum to the same value.
pub proof fn lemma_sum_bytes_permutation(s1: Seq<u8>, s2: Seq<u8>)
    requires
        s1.to_multiset() == s2.to_multiset(),
    ensures
        spec_sum_bytes(s1) == spec_sum_bytes(s2),
    decreases s1.len(),
{
    broadcast use group_to_multiset_ensures;

    if s1.len() == 0 {
        assert(s1.to_multiset().len() == s1.len());
        assert(s2.to_multiset().len() == s2.len());
    } else {
        let x = s1.last();
        let s1p = s1.drop_last();
        assert(s1 =~= s1p.push(x));
        assert(s1.to_multiset().count(x) > 0);
        assert(s2.to_multiset().count(x) > 0);
        assert(s2.contains(x));
        let i = choose|i: int| 0 <= i < s2.len() && s2[i] == x;
        let s2p = s2.remove(i);
        assert(s2p.to_multiset() =~= s2.to_multiset().remove(x));
        assert(s1p.to_multiset() =~= s1.to_multiset().remove(x));
        lemma_sum_bytes_permutation(s1p, s2p);
        lemma_sum_bytes_remove(s2, i);
    }
}

/// The command checksum only depends on which byte values a command holds,
/// never on their order.
pub proof fn lemma_command_checksum_permutation(s1: Seq<u8>, s2: Seq<u8>)
    requires
        s1.to_multiset() == s2.to_multiset(),
    ensures
        spec_command_checksum(s1) == spec_command_checksum(s2),
{
    lemma_sum_bytes_permutation(s1, s2);
}

/// Integrity byte of the vibration register: a fixed base folded with one
/// constant per register bit that is set.
pub open spec fn spec_vibration_checksum(register: u16) -> u8 {
    let c0 = 0x77u8;
    let c1 = if register & 0x0001 != 0 {
        c0 ^ 0x07
    } else {
        c0
    };
    let c2 = if register & 0x0010 != 0 {
        c1 ^ 0x70
    } else {
        c1
    };
    let c3 = if register & 0x0100 != 0 {
        c2 ^ 0x15
    } else {
        c2
    };
    if register & 0x1000 != 0 {
        c3 ^ 0x57
    } else {
        c3
    }
}

/// Computes the vibration register's integrity byte.
pub fn checksum(register: u16) -> (r: u8)
    ensures
        r == spec_vibration_checksum(register),
{
    let mut c: u8 = 0x77;
    if register & 0x0001 != 0 {
        c = c ^ 0x07;
    }
    if register & 0x0010 != 0 {
        c = c ^ 0x70;
    }
    if register & 0x0100 != 0 {
        c = c ^ 0x15;
    }
    if register & 0x1000 != 0 {
        c = c ^ 0x57;
    }
    c
}

/// The 16-bit vibration register packing the four trigger flags.
pub open spec fn spec_register_value(
    heating: bool,
    starting: bool,
    puffend: bool,
    terminated: bool,
) -> u16 {
    (if heating {
        0x0100u16
    } else {
        0u16
    }) | (if starting {
        0x1000u16
    } else {
        0u16
    }) | (if puffend {
        0x0001u16
    } else {
        0u16
    }) | (if terminated {
        0x0010u16
    } else {
        0u16
    })
}

/// High byte of the register as it stands in the encoded frame.
pub open spec fn spec_register_hi(
    heating: bool,
    starting: bool,
    puffend: bool,
    terminated: bool,
) -> u8 {
    (spec_register_value(heating, starting, puffend, terminated) >> 8) as u8
}

/// Low byte of the register as it stands in the encoded frame.
pub open spec fn spec_register_lo(
    heating: bool,
    starting: bool,
    puffend: bool,
    terminated: bool,
) -> u8 {
    (spec_register_value(heating, starting, puffend, terminated) & 0xff) as u8
}

/// Fixed header that opens every encoded vibration register frame.
pub open spec fn spec_register_header() -> Seq<u8> {
    seq![0x00u8, 0xC9, 0x44, 0x23, 0x10, 0x00]
}

/// The full 9-byte vibration register frame: header, register high byte,
/// register low byte, checksum.
pub open spec fn spec_encode_register(
    heating: bool,
    starting: bool,
    puffend: bool,
    terminated: bool,
) -> Seq<u8> {
    spec_register_header() + seq![
        spec_register_hi(heating, starting, puffend, terminated),
        spec_register_lo(heating, starting, puffend, terminated),
        spec_vibration_checksum(spec_register_value(heating, starting, puffend, terminated)),
    ]
}

/// The bit a register byte keeps in its lowest position.
pub open spec fn spec_flag_low(b: u8) -> bool {
    b & 0x01 != 0
}

/// The bit a register byte keeps in its fifth position.
pub open spec fn spec_flag_high(b: u8) -> bool {
    b & 0x10 != 0
}

/// Flags read back from an encoded register frame, or `None` when the frame
/// is too short or its header does not match.
pub open spec fn spec_decode_register(bytes: Seq<u8>) -> Option<(bool, bool, bool, bool)> {
    if bytes.len() >= 9 && bytes.subrange(0, 6) == spec_register_header() {
        Some(
            (
                spec_flag_low(bytes[6]),
                spec_flag_high(bytes[6]),
                spec_flag_low(bytes[7]),
                spec_flag_high(bytes[7]),
            ),
        )
    } else {
        None
    }
}

/// Encodes the four vibration trigger flags (heating start, starting to use,
/// puff end, manual termination) into the 9-byte register frame.
pub fn encode_register(heating: bool, starting: bool, puffend: bool, terminated: bool) -> (r: Vec<
    u8,
>)
    ensures
        r@ == spec_encode_register(heating, starting, puffend, terminated),
{
    let ha: u16 = if heating {
        0x0100
    } else {
        0
    };
    let sa: u16 = if starting {
        0x1000
    } else {
        0
    };
    let pa: u16 = if puffend {
        0x0001
    } else {
        0
    };
    let ta: u16 = if terminated {
        0x0010
    } else {
        0
    };
    let register: u16 = ha | sa | pa | ta;
    proof {
        assert(register >> 8 <= 0xff && register & 0xff <= 0xff) by (bit_vector);
    }
    let mut r: Vec<u8> = Vec::new();
    r.push(0x00);
    r.push(0xC9);
    r.push(0x44);
    r.push(0x23);
    r.push(0x10);
    r.push(0x00);
    r.push((register >> 8) as u8);
    r.push((register & 0xff) as u8);
    r.push(checksum(register));
    proof {
        assert(r@ =~= spec_encode_register(heating, starting, puffend, terminated));
    }
    r
}

/// Reads the four vibration trigger flags back out of an encoded register
/// frame, rejecting a frame whose header was corrupted.
pub fn decode_register(bytes: &[u8]) -> (r: Result<(bool, bool, bool, bool), IQOSError>)
    ensures
        r is Ok <==> spec_decode_register(bytes@) is Some,
        r matches Ok(flags) ==> spec_decode_register(bytes@) == Some(flags),
{
    if bytes.len() < 9 {
        return Err(
            IQOSError::ConfigurationError("Data too short for vibration register".to_owned()),
        );
    }
    if bytes[0] != 0x00 || bytes[1] != 0xC9 || bytes[2] != 0x44 || bytes[3] != 0x23 || bytes[4]
        != 0x10 || bytes[5] != 0x00 {
        proof {
            assert(bytes@.subrange(0, 6) != spec_register_header());
        }
        return Err(
            IQOSError::ConfigurationError("Invalid header for vibration register".to_owned()),
        );
    }
    proof {
        assert(bytes@.subrange(0, 6) =~= spec_register_header());
    }
    Ok(
        (
            bytes[6] & 0x01 != 0,
            bytes[6] & 0x10 != 0,
            bytes[7] & 0x01 != 0,
            bytes[7] & 0x10 != 0,
        ),
    )
}

/// Decoding an encoded register frame recovers exactly the flags that were
/// encoded; re-encoding the decoded flags reproduces the frame byte for byte.
pub proof fn lemma_register_round_trip(
    heating: bool,
    starting: bool,
    puffend: bool,
    terminated: bool,
)
    ensures
        spec_decode_register(spec_encode_register(heating, starting, puffend, terminated))
            == Some((heating, starting, puffend, terminated)),
        spec_encode_register(heating, starting, puffend, terminated).len() == 9,
        ({
            let flags = spec_decode_register(
                spec_encode_register(heating, starting, puffend, terminated),
            )->0;
            spec_encode_register(flags.0, flags.1, flags.2, flags.3) == spec_encode_register(
                heating,
                starting,
                puffend,
                terminated,
            )
        }),
{
    let ha: u16 = if heating {
        0x0100
    } else {
        0
    };
    let sa: u16 = if starting {
        0x1000
    } else {
        0
    };
    let pa: u16 = if puffend {
        0x0001
    } else {
        0
    };
    let ta: u16 = if terminated {
        0x0010
    } else {
        0
    };
    let v = spec_register_value(heating, starting, puffend, terminated);
    assert(v == ha | sa | pa | ta);
    assert((ha == 0 || ha == 0x0100) && (sa == 0 || sa == 0x1000) && (pa == 0 || pa == 0x0001) && (
    ta == 0 || ta == 0x0010) ==> {
        let w = ha | sa | pa | ta;
        &&& ((w >> 8) as u8 & 0x01 != 0) == (ha != 0)
        &&& ((w >> 8) as u8 & 0x10 != 0) == (sa != 0)
        &&& ((w & 0xff) as u8 & 0x01 != 0) == (pa != 0)
        &&& ((w & 0xff) as u8 & 0x10 != 0) == (ta != 0)
    }) by (bit_vector);
    let f = spec_encode_register(heating, starting, puffend, terminated);
    assert(f.subrange(0, 6) =~= spec_register_header());
    assert(f[6] == spec_register_hi(heating, starting, puffend, terminated));
    assert(f[7] == spec_register_lo(heating, starting, puffend, terminated));
}

} // verus!
