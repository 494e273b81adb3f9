//! Rendering events as text.
//!
//! Lines are built as ASCII byte strings: decimal and hexadecimal
//! numbers, dotted IPv4 quads, colon-separated IPv6 groups, and
//! NUL-trimmed command names. Each helper appends to an output buffer
//! and is specified against a spec-level byte sequence, so a whole
//! rendered line is pinned exactly.

use vstd::prelude::*;
use vstd::slice::slice_subrange;
use vstd::string::StringSliceAdditionalSpecFns;

verus! {

/// The decimal digits of `n`, most significant first.
pub open spec fn dec_digits(n: nat) -> Seq<u8>
    decreases n,
{
    if n < 10 {
        seq![(48 + n) as u8]
    } else {
        dec_digits(n / 10).push((48 + n % 10) as u8)
    }
}

/// The lowercase hexadecimal digit for `d < 16`.
pub open spec fn hex_digit(d: nat) -> u8 {
    if d < 10 {
        (48 + d) as u8
    } else {
        (87 + d) as u8
    }
}

/// The lowercase hexadecimal digits of `n`, most significant first, no
/// leading zeroes.
pub open spec fn hex_digits(n: nat) -> Seq<u8>
    decreases n,
{
    if n < 16 {
        seq![hex_digit(n)]
    } else {
        hex_digits(n / 16).push(hex_digit(n % 16))
    }
}

/// Appends the decimal rendering of `n`.
pub fn push_u32_dec(out: &mut Vec<u8>, n: u32)
    ensures
        final (out)@ == old(out)@ + dec_digits(n as nat),
    decreases n,
{
    if n < 10 {
        out.push(48 + n as u8);
        proof {
            assert(old(out)@ + dec_digits(n as nat) =~= old(out)@.push((48 + n as nat) as u8));
        }
    } else {
        push_u32_dec(out, n / 10);
        out.push(48 + (n % 10) as u8);
        proof {
            assert(old(out)@ + dec_digits(n as nat) =~= (old(out)@ + dec_digits(
                n as nat / 10,
            )).push((48 + n as nat % 10) as u8));
        }
    }
}

/// The decimal rendering of a signed value: a minus sign for negative
/// values, then the magnitude.
pub open spec fn dec_i32(v: i32) -> Seq<u8> {
    if v >= 0 {
        dec_digits(v as nat)
    } else {
        seq![45u8] + dec_digits((-(v as int)) as nat)
    }
}

/// Appends the decimal rendering of `v`.
pub fn push_i32_dec(out: &mut Vec<u8>, v: i32)
    ensures
        final (out)@ == old(out)@ + dec_i32(v),
{
    if v >= 0 {
        push_u32_dec(out, v as u32);
    } else {
        out.push(45);
        let magnitude: i64 = -(v as i64);
        push_u32_dec(out, magnitude as u32);
        proof {
            assert(old(out)@ + dec_i32(v) =~= old(out)@.push(45u8) + dec_digits(
                (-(v as int)) as nat,
            ));
        }
    }
}

/// Appends the lowercase hexadecimal rendering of `n`.
pub fn push_u16_hex(out: &mut Vec<u8>, n: u16)
    ensures
        final (out)@ == old(out)@ + hex_digits(n as nat),
    decreases n,
{
    if n < 16 {
        let d: u16 = n;
        let b: u8 = if d < 10 {
            48 + d as u8
        } else {
            87 + d as u8
        };
        out.push(b);
        proof {
            assert(old(out)@ + hex_digits(n as nat) =~= old(out)@.push(hex_digit(n as nat)));
        }
    } else {
        push_u16_hex(out, n / 16);
        let d: u16 = n % 16;
        let b: u8 = if d < 10 {
            48 + d as u8
        } else {
            87 + d as u8
        };
        out.push(b);
        proof {
            assert(old(out)@ + hex_digits(n as nat) =~= (old(out)@ + hex_digits(
                n as nat / 16,
            )).push(hex_digit(n as nat % 16)));
        }
    }
}

/// Appends a literal piece.
pub fn push_str_bytes(out: &mut Vec<u8>, s: &str)
    ensures
        final (out)@ == old(out)@ + s.spec_bytes(),
{
    let bytes = s.as_bytes();
    out.extend_from_slice(bytes);
    proof {
        assert(out@ =~= old(out)@ + s.spec_bytes());
    }
}

/// The dotted-decimal rendering of an IPv4 quad.
pub open spec fn ipv4_text(q: Seq<u8>) -> Seq<u8> {
    dec_digits(q[0] as nat) + seq![46u8] + dec_digits(q[1] as nat) + seq![46u8] + dec_digits(
        q[2] as nat,
    ) + seq![46u8] + dec_digits(q[3] as nat)
}

/// Appends the dotted-decimal rendering of `q`.
pub fn push_ipv4(out: &mut Vec<u8>, q: &[u8; 4])
    ensures
        final (out)@ == old(out)@ + ipv4_text(q@),
{
    push_u32_dec(out, q[0] as u32);
    out.push(46);
    push_u32_dec(out, q[1] as u32);
    out.push(46);
    push_u32_dec(out, q[2] as u32);
    out.push(46);
    push_u32_dec(out, q[3] as u32);
    proof {
        assert(out@ =~= old(out)@ + ipv4_text(q@));
    }
}

/// The 16-bit group `i` (0-7) of an IPv6 address buffer, read
/// big-endian as network order prescribes.
pub open spec fn ipv6_group(b: Seq<u8>, i: int) -> nat {
    (b[2 * i] as nat) * 256 + (b[2 * i + 1] as nat)
}

/// The colon-separated lowercase-hex rendering of an IPv6 address: all
/// eight groups written out, leading zeroes of each group suppressed.
pub open spec fn ipv6_text(b: Seq<u8>) -> Seq<u8> {
    hex_digits(ipv6_group(b, 0)) + seq![58u8] + hex_digits(ipv6_group(b, 1)) + seq![58u8]
        + hex_digits(ipv6_group(b, 2)) + seq![58u8] + hex_digits(ipv6_group(b, 3)) + seq![58u8]
        + hex_digits(ipv6_group(b, 4)) + seq![58u8] + hex_digits(ipv6_group(b, 5)) + seq![58u8]
        + hex_digits(ipv6_group(b, 6)) + seq![58u8] + hex_digits(ipv6_group(b, 7))
}

/// Appends the rendering of the IPv6 address in `b`.
#[verifier::rlimit(50)]
pub fn push_ipv6(out: &mut Vec<u8>, b: &[u8; 16])
    ensures
        final (out)@ == old(out)@ + ipv6_text(b@),
{
    push_group(out, b, 0);
    out.push(58);
    push_group(out, b, 1);
    out.push(58);
    push_group(out, b, 2);
    out.push(58);
    push_group(out, b, 3);
    out.push(58);
    push_group(out, b, 4);
    out.push(58);
    push_group(out, b, 5);
    out.push(58);
    push_group(out, b, 6);
    out.push(58);
    push_group(out, b, 7);
    proof {
        assert(out@ =~= old(out)@ + ipv6_text(b@));
    }
}

/// Appends one 16-bit group of an IPv6 address.
fn push_group(out: &mut Vec<u8>, b: &[u8; 16], i: usize)
    requires
        i < 8,
    ensures
        final (out)@ == old(out)@ + hex_digits(ipv6_group(b@, i as int)),
{
    let group: u16 = (b[2 * i] as u16) * 256 + (b[2 * i + 1] as u16);
    push_u16_hex(out, group);
}

/// A byte of a command name as rendered: printable ASCII kept, anything
/// else replaced by `?`.
pub open spec fn printable(b: u8) -> u8 {
    if 32 <= b < 127 {
        b
    } else {
        63
    }
}

/// A command name as rendered: the bytes before the first NUL, each
/// mapped through `printable`.
pub open spec fn command_text(s: Seq<u8>) -> Seq<u8>
    decreases s.len(),
{
    if s.len() == 0 || s[0] == 0 {
        Seq::empty()
    } else {
        seq![printable(s[0])] + command_text(s.drop_first())
    }
}

/// Appends the rendering of the NUL-padded command bytes in `s`.
pub fn push_command_bytes(out: &mut Vec<u8>, s: &[u8])
    ensures
        final (out)@ == old(out)@ + command_text(s@),
    decreases s@.len(),
{
    let n = s.len();
    if n == 0 || s[0] == 0 {
        proof {
            assert(old(out)@ + command_text(s@) =~= old(out)@);
        }
        return ;
    }
    let b = s[0];
    let kept: u8 = if 32 <= b && b < 127 {
        b
    } else {
        63
    };
    out.push(kept);
    let rest = slice_subrange(s, 1, n);
    proof {
        assert(rest@ =~= s@.drop_first());
    }
    push_command_bytes(out, rest);
    proof {
        assert(old(out)@ + command_text(s@) =~= old(out)@.push(printable(s@[0])) + command_text(
            s@.drop_first(),
        ));
    }
}

/// Appends the rendering of a 16-byte NUL-padded command buffer.
pub fn push_command(out: &mut Vec<u8>, command: &[u8; 16])
    ensures
        final (out)@ == old(out)@ + command_text(command@),
{
    push_command_bytes(out, command.as_slice());
}

} // verus!
