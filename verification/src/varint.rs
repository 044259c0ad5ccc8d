//! Base-128 variable-length integers.
//!
//! Every length prefix and every numeric field of the wire protocol is
//! carried as a little-endian base-128 varint: each byte holds seven value
//! bits, and the high bit of a byte says whether another byte follows.

use vstd::arithmetic::div_mod::lemma_fundamental_div_mod;
use vstd::prelude::*;

verus! {

/// The byte sequence that encodes `n` as a base-128 varint.
pub open spec fn varint_bytes(n: nat) -> Seq<u8>
    decreases n,
{
    if n < 128 {
        seq![n as u8]
    } else {
        seq![(128 + (n % 128)) as u8] + varint_bytes(n / 128)
    }
}

/// Parses one varint from the front of `b`: the decoded value and the
/// number of bytes consumed, or `None` when `b` ends inside the varint.
pub open spec fn varint_parse(b: Seq<u8>) -> Option<(nat, nat)>
    decreases b.len(),
{
    if b.len() == 0 {
        None
    } else if b[0] < 128 {
        Some((b[0] as nat, 1))
    } else {
        match varint_parse(b.skip(1)) {
            Some((v, k)) => Some((((b[0] - 128) as nat + 128 * v) as nat, (k + 1) as nat)),
            None => None,
        }
    }
}

/// An encoded varint is never empty.
pub proof fn lemma_varint_bytes_len(n: nat)
    ensures
        varint_bytes(n).len() >= 1,
        n < 128 ==> varint_bytes(n).len() == 1,
    decreases n,
{
}

/// Values below `128^k` need at most `k` bytes; in particular any `u64`
/// value fits in ten bytes.
pub proof fn lemma_varint_bytes_len_bound(n: nat, k: nat)
    requires
        k >= 1,
        n < pow128(k),
    ensures
        varint_bytes(n).len() <= k,
    decreases k,
{
    if n < 128 {
    } else {
        assert(n / 128 < pow128((k - 1) as nat)) by {
            lemma_fundamental_div_mod(n as int, 128);
        }
        lemma_varint_bytes_len_bound(n / 128, (k - 1) as nat);
    }
}

/// `128^k`, the number of values a `k`-byte varint can carry.
pub open spec fn pow128(k: nat) -> nat
    decreases k,
{
    if k == 0 {
        1
    } else {
        128 * pow128((k - 1) as nat)
    }
}

/// Any value that fits in 64 bits encodes in at most ten bytes.
pub proof fn lemma_varint_bytes_len_u64(n: nat)
    requires
        n <= u64::MAX,
    ensures
        varint_bytes(n).len() <= 10,
{
    assert(pow128(0) == 1);
    assert(pow128(1) == 128);
    assert(pow128(2) == 0x4000);
    assert(pow128(3) == 0x20_0000);
    assert(pow128(4) == 0x1000_0000);
    assert(pow128(5) == 0x8_0000_0000);
    assert(pow128(6) == 0x400_0000_0000);
    assert(pow128(7) == 0x2_0000_0000_0000);
    assert(pow128(8) == 0x100_0000_0000_0000);
    assert(pow128(9) == 0x8000_0000_0000_0000);
    assert(pow128(10) == 0x40_0000_0000_0000_0000);
    lemma_varint_bytes_len_bound(n, 10);
}

/// Parsing an encoded varint, with anything behind it, gives back the
/// encoded value and consumes exactly the encoding.
pub proof fn lemma_varint_roundtrip(n: nat, rest: Seq<u8>)
    ensures
        varint_parse(varint_bytes(n) + rest) == Some((n, varint_bytes(n).len())),
    decreases n,
{
    let full = varint_bytes(n) + rest;
    if n < 128 {
        assert(full[0] == n as u8);
    } else {
        let b0: u8 = (128 + (n % 128)) as u8;
        assert(full[0] == b0);
        assert(full.skip(1) =~= varint_bytes(n / 128) + rest);
        lemma_varint_roundtrip(n / 128, rest);
        lemma_fundamental_div_mod(n as int, 128);
        assert((b0 - 128) as nat + 128 * (n / 128) == n);
    }
}

/// Appends the varint encoding of `n` to `out`.
pub fn write_varint(out: &mut Vec<u8>, n: u64)
    ensures
        final(out)@ == old(out)@ + varint_bytes(n as nat),
{
    let mut x: u64 = n;
    loop
        invariant
            old(out)@ + varint_bytes(n as nat) == out@ + varint_bytes(x as nat),
        decreases x,
    {
        if x < 128 {
            out.push(x as u8);
            assert(out@ =~= old(out)@ + varint_bytes(n as nat));
            return ;
        }
        let b: u8 = (x % 128) as u8 + 128;
        let ghost pre = out@;
        out.push(b);
        proof {
            assert(varint_bytes(x as nat) =~= seq![b] + varint_bytes((x as nat) / 128));
            assert(pre + varint_bytes(x as nat) =~= out@ + varint_bytes((x as nat) / 128));
            assert((x as nat) / 128 == (x / 128) as nat);
        }
        x = x / 128;
    }
}

/// Reads one varint from `buf` starting at `pos`. Returns the value and the
/// count of bytes consumed, or `None` when the buffer ends inside the
/// varint or the value does not fit in a `u64`.
pub fn read_varint(buf: &[u8], pos: usize) -> (r: Option<(u64, usize)>)
    requires
        pos <= buf@.len(),
    ensures
        match r {
            Some((v, k)) => {
                &&& varint_parse(buf@.skip(pos as int)) == Some((v as nat, k as nat))
                &&& k >= 1
                &&& pos + k <= buf@.len()
            },
            None => {
                match varint_parse(buf@.skip(pos as int)) {
                    Some((v, k)) => v > u64::MAX,
                    None => true,
                }
            },
        },
    decreases buf@.len() - pos,
{
    if pos >= buf.len() {
        assert(buf@.skip(pos as int).len() == 0);
        return None;
    }
    let b = buf[pos];
    assert(buf@.skip(pos as int)[0] == b);
    if b < 128 {
        Some((b as u64, 1))
    } else {
        assert(buf@.skip(pos as int).skip(1) =~= buf@.skip(pos as int + 1));
        match read_varint(buf, pos + 1) {
            Some((v, k)) => {
                let low: u64 = (b - 128) as u64;
                if v <= (u64::MAX - low) / 128 {
                    assert(low + 128 * v <= u64::MAX) by {
                        lemma_fundamental_div_mod((u64::MAX - low) as int, 128);
                    };
                    Some((low + 128 * v, k + 1))
                } else {
                    assert((b - 128) as nat + 128 * (v as nat) > u64::MAX) by {
                        lemma_fundamental_div_mod((u64::MAX - low) as int, 128);
                    };
                    None
                }
            },
            None => None,
        }
    }
}

} // verus!
