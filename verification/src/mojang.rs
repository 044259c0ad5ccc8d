//! Player-profile lookups: the pure parts.
//!
//! The HTTP client that talks to the profile service lives outside the
//! library; here are the pieces that are functions of their inputs — the
//! request URLs, the canonical-text UUID parser, and the acceptance rule
//! for a profile response.

use vstd::prelude::*;
use vstd::string::*;

verus! {

/// Why a profile lookup was rejected.
#[derive(Clone, Copy, Debug, PartialEq, Eq, Structural)]
pub enum ProfileError {
    /// The HTTP response did not report success.
    HttpFailure,
    /// The response body carried an error field.
    ApiError,
}

/// The profile-by-username endpoint for `username`.
pub fn username_url(username: &str) -> (r: String)
    ensures
        r@ == "https://mowojang.matdoes.dev/users/profiles/minecraft/"@ + username@,
{
    let mut url = String::from_str("https://mowojang.matdoes.dev/users/profiles/minecraft/");
    url.append(username);
    url
}

/// The profile-by-id endpoint for the canonical text form of a UUID.
pub fn uuid_url(uuid: &str) -> (r: String)
    ensures
        r@ == "https://mowojang.matdoes.dev/session/minecraft/profile/"@ + uuid@
            + "?unsigned=false"@,
{
    let mut url = String::from_str("https://mowojang.matdoes.dev/session/minecraft/profile/");
    url.append(uuid);
    url.append("?unsigned=false");
    url
}

/// Whether a profile response is accepted: the transport reported success
/// and the body carried no error field.
pub fn evaluate_response(status_success: bool, has_error_field: bool) -> (r: Result<
    (),
    ProfileError,
>)
    ensures
        r is Ok <==> status_success && !has_error_field,
        r == Err::<(), ProfileError>(ProfileError::HttpFailure) <==> !status_success,
        r == Err::<(), ProfileError>(ProfileError::ApiError) <==> status_success
            && has_error_field,
{
    if !status_success {
        Err(ProfileError::HttpFailure)
    } else if has_error_field {
        Err(ProfileError::ApiError)
    } else {
        Ok(())
    }
}

/// The value of one hexadecimal digit, in either case; the digits are
/// ASCII 0-9 (48-57), a-f (97-102) and A-F (65-70).
pub open spec fn hex_value(b: u8) -> Option<u8> {
    if 48 <= b <= 57 {
        Some((b - 48) as u8)
    } else if 97 <= b <= 102 {
        Some((b - 97 + 10) as u8)
    } else if 65 <= b <= 70 {
        Some((b - 65 + 10) as u8)
    } else {
        None
    }
}

/// Whether a byte is a hexadecimal digit.
pub open spec fn is_hex(b: u8) -> bool {
    hex_value(b) is Some
}

/// The number named by a big-endian run of hexadecimal digits.
pub open spec fn hex_digits_value(s: Seq<u8>) -> nat
    decreases s.len(),
{
    if s.len() == 0 {
        0
    } else {
        hex_digits_value(s.drop_last()) * 16 + (match hex_value(s.last()) {
            Some(v) => v as nat,
            None => 0,
        })
    }
}

/// `16^k`: how many values `k` hexadecimal digits can name.
pub open spec fn pow16(k: nat) -> nat
    decreases k,
{
    if k == 0 {
        1
    } else {
        16 * pow16((k - 1) as nat)
    }
}

/// A run of `k` digits names a value below `16^k`.
proof fn lemma_hex_digits_value_bound(s: Seq<u8>)
    ensures
        hex_digits_value(s) < pow16(s.len()),
    decreases s.len(),
{
    if s.len() > 0 {
        lemma_hex_digits_value_bound(s.drop_last());
    }
}

/// Thirty-two hexadecimal digits fill exactly 128 bits.
proof fn lemma_pow16_32()
    ensures
        pow16(32) == 0x100000000000000000000000000000000,
{
    assert(pow16(0) == 0x1);
    assert(pow16(1) == 0x10);
    assert(pow16(2) == 0x100);
    assert(pow16(3) == 0x1000);
    assert(pow16(4) == 0x10000);
    assert(pow16(5) == 0x100000);
    assert(pow16(6) == 0x1000000);
    assert(pow16(7) == 0x10000000);
    assert(pow16(8) == 0x100000000);
    assert(pow16(9) == 0x1000000000);
    assert(pow16(10) == 0x10000000000);
    assert(pow16(11) == 0x100000000000);
    assert(pow16(12) == 0x1000000000000);
    assert(pow16(13) == 0x10000000000000);
    assert(pow16(14) == 0x100000000000000);
    assert(pow16(15) == 0x1000000000000000);
    assert(pow16(16) == 0x10000000000000000);
    assert(pow16(17) == 0x100000000000000000);
    assert(pow16(18) == 0x1000000000000000000);
    assert(pow16(19) == 0x10000000000000000000);
    assert(pow16(20) == 0x100000000000000000000);
    assert(pow16(21) == 0x1000000000000000000000);
    assert(pow16(22) == 0x10000000000000000000000);
    assert(pow16(23) == 0x100000000000000000000000);
    assert(pow16(24) == 0x1000000000000000000000000);
    assert(pow16(25) == 0x10000000000000000000000000);
    assert(pow16(26) == 0x100000000000000000000000000);
    assert(pow16(27) == 0x1000000000000000000000000000);
    assert(pow16(28) == 0x10000000000000000000000000000);
    assert(pow16(29) == 0x100000000000000000000000000000);
    assert(pow16(30) == 0x1000000000000000000000000000000);
    assert(pow16(31) == 0x10000000000000000000000000000000);
    assert(pow16(32) == 0x100000000000000000000000000000000);
}

/// More digits name more values.
proof fn lemma_pow16_increases(a: nat, b: nat)
    requires
        a <= b,
    ensures
        pow16(a) <= pow16(b),
    decreases b,
{
    if a < b {
        lemma_pow16_increases(a, (b - 1) as nat);
    }
}

/// The digit bytes of a canonical-text UUID: the five dash-separated runs,
/// in order.
pub open spec fn uuid_digits(s: Seq<u8>) -> Seq<u8> {
    s.subrange(0, 8) + s.subrange(9, 13) + s.subrange(14, 18) + s.subrange(19, 23) + s.subrange(
        24,
        36,
    )
}

/// What a canonical-text UUID names: 36 bytes, dashes (ASCII 45) after the 8th, 12th,
/// 16th and 20th digit, and the 32 digits read big-endian as one 128-bit
/// value. Anything else names nothing.
pub open spec fn spec_parse_uuid(s: Seq<u8>) -> Option<u128> {
    if s.len() == 36 && s[8] == 45 && s[13] == 45 && s[18] == 45 && s[23] == 45 && (forall|
        i: int,
    | 0 <= i < 32 ==> is_hex(#[trigger] uuid_digits(s)[i])) {
        Some(hex_digits_value(uuid_digits(s)) as u128)
    } else {
        None
    }
}

/// The value of one hexadecimal digit, in either case.
fn hex_value_exec(b: u8) -> (r: Option<u8>)
    ensures
        r == hex_value(b),
{
    if 48 <= b && b <= 57 {
        Some(b - 48)
    } else if 97 <= b && b <= 102 {
        Some(b - 97 + 10)
    } else if 65 <= b && b <= 70 {
        Some(b - 65 + 10)
    } else {
        None
    }
}

/// Parses the canonical text form of a UUID into its 128-bit value.
pub fn parse_uuid(s: &[u8]) -> (r: Option<u128>)
    ensures
        r == spec_parse_uuid(s@),
{
    if s.len() != 36 {
        return None;
    }
    if !(s[8] == 45 && s[13] == 45 && s[18] == 45 && s[23] == 45) {
        return None;
    }
    let mut d: Vec<u8> = Vec::new();
    crate::wire::push_all(&mut d, vstd::slice::slice_subrange(s, 0, 8));
    crate::wire::push_all(&mut d, vstd::slice::slice_subrange(s, 9, 13));
    crate::wire::push_all(&mut d, vstd::slice::slice_subrange(s, 14, 18));
    crate::wire::push_all(&mut d, vstd::slice::slice_subrange(s, 19, 23));
    crate::wire::push_all(&mut d, vstd::slice::slice_subrange(s, 24, 36));
    assert(d@ =~= uuid_digits(s@));
    let mut acc: u128 = 0;
    let mut i: usize = 0;
    while i < 32
        invariant
            i <= 32,
            d@.len() == 32,
            d@ == uuid_digits(s@),
            forall|j: int| 0 <= j < i ==> is_hex(#[trigger] d@[j]),
            acc == hex_digits_value(d@.take(i as int)),
            acc < pow16(i as nat),
        decreases 32 - i,
    {
        let b = d[i];
        let v = match hex_value_exec(b) {
            Some(v) => v,
            None => {
                return None;
            },
        };
        proof {
            lemma_pow16_increases((i + 1) as nat, 32);
            lemma_pow16_32();
            assert(acc * 16 + v < pow16((i + 1) as nat));
        }
        acc = acc * 16 + (v as u128);
        proof {
            assert(d@.take(i + 1).drop_last() =~= d@.take(i as int));
            assert(d@.take(i + 1).last() == d@[i as int]);
        }
        i = i + 1;
    }
    assert(d@.take(32) =~= d@);
    proof {
        lemma_hex_digits_value_bound(d@);
        lemma_pow16_32();
    }
    Some(acc)
}

} // verus!
