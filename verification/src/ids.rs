//! Random identifiers (UUIDs) and their text.

use vstd::prelude::*;

verus! {

/// A lower-case hexadecimal digit.
pub open spec fn hex_digit(d: int) -> char {
    if d < 10 {
        (d + '0' as int) as char
    } else {
        (d - 10 + 'a' as int) as char
    }
}

/// The `k`-th hexadecimal digit of a UUID, the most significant first.
pub open spec fn uuid_nibble(u: u128, k: int) -> int {
    ((u >> ((4 * (31 - k)) as u128)) & 0xfu128) as int
}

/// Whether a position of the text of a UUID holds a hyphen.
pub open spec fn is_uuid_hyphen(i: int) -> bool {
    i == 8 || i == 13 || i == 18 || i == 23
}

/// Which digit a position of the text of a UUID (not a hyphen) shows.
pub open spec fn uuid_digit_index(i: int) -> int {
    if i < 8 {
        i
    } else if i < 13 {
        i - 1
    } else if i < 18 {
        i - 2
    } else if i < 23 {
        i - 3
    } else {
        i - 4
    }
}

/// How many digits precede a position of the text of a UUID.
spec fn digits_before(i: int) -> int {
    if i <= 8 {
        i
    } else if i <= 13 {
        i - 1
    } else if i <= 18 {
        i - 2
    } else if i <= 23 {
        i - 3
    } else {
        i - 4
    }
}

/// The text that `uuid::Uuid`'s `Display` writes for a UUID given as its
/// 128-bit value: the hyphenated lower-case form, 8-4-4-4-12 hexadecimal
/// digits, most significant first.
pub open spec fn spec_uuid_text(u: u128) -> Seq<char> {
    Seq::new(36, |i: int| if is_uuid_hyphen(i) { '-' } else { hex_digit(uuid_nibble(u, uuid_digit_index(i))) })
}

/// What `uuid::Uuid::parse_str` makes of a text, as a 128-bit value.
pub uninterp spec fn spec_uuid_parse(s: Seq<char>) -> Option<u128>;

/// Whether a 128-bit value carries the version (4) and variant (RFC 4122)
/// bits of a random UUID.
pub open spec fn spec_is_random_uuid(u: u128) -> bool {
    (u >> 76u128) & 0xfu128 == 4u128 && (u >> 62u128) & 0x3u128 == 2u128
}

/// Calls `uuid::Uuid::new_v4`. Claimed: the value is a version 4, variant
/// RFC 4122 UUID (`uuid::Uuid::new_v4` masks these bits into a random value). Which
/// random value comes back is not stated.
#[verifier::external_body]
pub(crate) fn new_uuid() -> (r: u128)
    ensures
        spec_is_random_uuid(r),
{
    uuid::Uuid::new_v4().as_u128()
}

fn hex_text(d: u128) -> (r: &'static str)
    requires
        d < 16,
    ensures
        r@ == seq![hex_digit(d as int)],
{
    proof {
        reveal_strlit("0");
        reveal_strlit("1");
        reveal_strlit("2");
        reveal_strlit("3");
        reveal_strlit("4");
        reveal_strlit("5");
        reveal_strlit("6");
        reveal_strlit("7");
        reveal_strlit("8");
        reveal_strlit("9");
        reveal_strlit("a");
        reveal_strlit("b");
        reveal_strlit("c");
        reveal_strlit("d");
        reveal_strlit("e");
        reveal_strlit("f");
    }
    if d == 0 {
        "0"
    } else if d == 1 {
        "1"
    } else if d == 2 {
        "2"
    } else if d == 3 {
        "3"
    } else if d == 4 {
        "4"
    } else if d == 5 {
        "5"
    } else if d == 6 {
        "6"
    } else if d == 7 {
        "7"
    } else if d == 8 {
        "8"
    } else if d == 9 {
        "9"
    } else if d == 10 {
        "a"
    } else if d == 11 {
        "b"
    } else if d == 12 {
        "c"
    } else if d == 13 {
        "d"
    } else if d == 14 {
        "e"
    } else {
        "f"
    }
}

/// The text of a UUID as `uuid::Uuid`'s `Display` writes it: the
/// hyphenated lower-case form.
pub(crate) fn uuid_text(u: u128) -> (r: String)
    ensures
        r@ == spec_uuid_text(u),
{
    let mut r = String::new();
    let mut i: usize = 0;
    let mut k: u128 = 0;
    while i < 36
        invariant
            i <= 36,
            k == digits_before(i as int),
            r@ == spec_uuid_text(u).subrange(0, i as int),
        decreases 36 - i,
    {
        let ghost before = r@;
        if i == 8 || i == 13 || i == 18 || i == 23 {
            assert(spec_uuid_text(u)[i as int] == '-');
            proof {
                reveal_strlit("-");
            }
            r.append("-");
        } else {
            let shift: u128 = 4 * (31 - k);
            let d: u128 = (u >> shift) & 0xf;
            assert((u >> shift) & 0xfu128 < 16) by (bit_vector);
            proof {
                assert(k as int == uuid_digit_index(i as int));
                assert(shift == (4 * (31 - k as int)) as u128);
                assert(d as int == uuid_nibble(u, k as int));
                assert(spec_uuid_text(u)[i as int] == hex_digit(d as int));
            }
            r.append(hex_text(d));
            k = k + 1;
        }
        proof {
            assert(spec_uuid_text(u).subrange(0, i + 1) =~= spec_uuid_text(u).subrange(0, i as int).push(spec_uuid_text(u)[i as int]));
            assert(r@ =~= before.push(spec_uuid_text(u)[i as int]));
        }
        i = i + 1;
    }
    proof {
        assert(spec_uuid_text(u).subrange(0, 36) =~= spec_uuid_text(u));
    }
    r
}

/// Calls `uuid::Uuid::parse_str`. Claimed: the result is the name
/// [`spec_uuid_parse`] of the text, and the text that `Display` writes for
/// a UUID (its hyphenated form, which `parse_str` accepts and decodes digit
/// by digit) is read back as that UUID.
#[verifier::external_body]
pub(crate) fn parse_uuid(s: &str) -> (r: Option<u128>)
    ensures
        r == spec_uuid_parse(s@),
        forall|u: u128| s@ == #[trigger] spec_uuid_text(u) ==> r == Some(u),
{
    match uuid::Uuid::parse_str(s) {
        Ok(u) => Some(u.as_u128()),
        Err(_) => None,
    }
}

} // verus!
