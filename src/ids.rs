//! Identifiers: random ones for requests and robots, name-based ones for the
//! fixed cards of the UI, and their text.

use vstd::prelude::*;

verus! {

/// The name-based (version 3) identifier of `name` in `namespace`.
pub uninterp spec fn name_based(namespace: u128, name: Seq<u8>) -> u128;

/// The identifier namespace for ISO object identifiers.
pub const NAMESPACE_OID: u128 = 0x6ba7b812_9dad_11d1_80b4_00c04fd430c8;

pub open spec fn hex_char(d: int) -> char {
    if d < 10 {
        ('0' as int + d) as char
    } else {
        ('a' as int + d - 10) as char
    }
}

/// The `k`-th hexadecimal digit of `id`, most significant first.
pub open spec fn nibble(id: u128, k: int) -> int {
    (id as int / vstd::arithmetic::power2::pow2((4 * (31 - k)) as nat) as int) % 16
}

/// The hyphenated lower-case text of `id`: groups of 8, 4, 4, 4 and 12
/// hexadecimal digits.
pub open spec fn id_text(id: u128) -> Seq<char> {
    Seq::new(
        36,
        |i: int|
            if i == 8 || i == 13 || i == 18 || i == 23 {
                '-'
            } else {
                let k = if i < 8 { i } else if i < 13 { i - 1 } else if i < 18 { i - 2 } else if i < 23 { i - 3 } else { i - 4 };
                hex_char(nibble(id, k))
            },
    )
}

/// Relies on uuid's `Uuid::new_v4`: a random identifier; nothing is known
/// of its value.
#[verifier::external_body]
pub fn new_id() -> (r: u128) {
    uuid::Uuid::new_v4().as_u128()
}

/// Relies on uuid's `Uuid::new_v3`: the name-based identifier of `name` in
/// `namespace`.
#[verifier::external_body]
pub fn name_based_id(namespace: u128, name: &[u8]) -> (r: u128)
    ensures
        r == name_based(namespace, name@),
{
    uuid::Uuid::new_v3(&uuid::Uuid::from_u128(namespace), name).as_u128()
}

/// Relies on uuid's `Display` for `Uuid`: the hyphenated lower-case form.
#[verifier::external_body]
pub fn text_of_id(id: u128) -> (r: String)
    ensures
        r@ == id_text(id),
{
    uuid::Uuid::from_u128(id).to_string()
}

} // verus!
