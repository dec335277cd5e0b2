//! Generated identifiers: random UUIDs in their hyphenated lower-case form.

use vstd::prelude::*;
use crate::text::chars_of;

verus! {

/// A digit of lower-case hexadecimal.
pub open spec fn is_lower_hex(c: char) -> bool {
    let u = c as u32;
    0x30 <= u <= 0x39 || 0x61 <= u <= 0x66
}

/// The shape of a generated identifier: 36 characters, hyphens at 8, 13,
/// 18 and 23 and lower-case hexadecimal digits elsewhere, of which the one at
/// 14 is the version `4` and the one at 19 holds the variant: `8`, `9`, `a`
/// or `b`.
pub open spec fn is_generated_id(id: Seq<char>) -> bool {
    &&& id.len() == 36
    &&& forall|i: int|
        0 <= i < 36 ==> if i == 8 || i == 13 || i == 18 || i == 23 {
            #[trigger] id[i] == '-'
        } else {
            is_lower_hex(id[i])
        }
    &&& id[14] == '4'
    &&& (id[19] == '8' || id[19] == '9' || id[19] == 'a' || id[19] == 'b')
}

/// Whether a text has the shape of a generated identifier.
pub fn looks_generated(id: &str) -> (shaped: bool)
    ensures
        shaped == is_generated_id(id@),
{
    let chars = chars_of(id);
    if chars.len() != 36 {
        return false;
    }
    let mut i: usize = 0;
    while i < 36
        invariant
            i <= 36,
            chars@ == id@,
            chars.len() == 36,
            forall|k: int|
                0 <= k < i ==> if k == 8 || k == 13 || k == 18 || k == 23 {
                    #[trigger] id@[k] == '-'
                } else {
                    is_lower_hex(id@[k])
                },
        decreases 36 - i,
    {
        let c = chars[i];
        let u: u32 = c as u32;
        if i == 8 || i == 13 || i == 18 || i == 23 {
            if c != '-' {
                return false;
            }
        } else if !((0x30 <= u && u <= 0x39) || (0x61 <= u && u <= 0x66)) {
            return false;
        }
        i += 1;
    }
    let variant = chars[19];
    chars[14] == '4' && (variant == '8' || variant == '9' || variant == 'a' || variant == 'b')
}

/// How many identifiers are generated for one new entry before the store
/// gives up on finding one that it does not hold.
pub const FRESH_ID_ATTEMPTS: usize = 8;

/// `uuid::Uuid::new_v4`, printed by its `Display`: a fresh random
/// identifier. Which one comes is chance; each has the shape that
/// `is_generated_id` states. The call panics where the operating system
/// gives no random bytes.
#[verifier::external_body]
pub(crate) fn generate_id() -> (id: String)
    ensures
        is_generated_id(id@),
{
    uuid::Uuid::new_v4().to_string()
}

} // verus!
