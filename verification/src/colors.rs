use vstd::prelude::*;
use vstd::string::StrSliceExecFns;
use vstd::string::StringExecFns;

use crate::text::{dec_str, u64_string};

verus! {

/// The character is a hexadecimal digit, in either case.
pub open spec fn is_hex_digit(c: char) -> bool {
    ||| ('0' as u32) <= c as u32 <= ('9' as u32)
    ||| ('a' as u32) <= c as u32 <= ('f' as u32)
    ||| ('A' as u32) <= c as u32 <= ('F' as u32)
}

/// The value of a hexadecimal digit; zero for anything else.
pub open spec fn hex_digit_val(c: char) -> nat {
    if ('0' as u32) <= c as u32 <= ('9' as u32) {
        (c as u32 - ('0' as u32)) as nat
    } else if ('a' as u32) <= c as u32 <= ('f' as u32) {
        (c as u32 - ('a' as u32) + 10) as nat
    } else if ('A' as u32) <= c as u32 <= ('F' as u32) {
        (c as u32 - ('A' as u32) + 10) as nat
    } else {
        0
    }
}

/// Every character is a hexadecimal digit.
pub open spec fn all_hex_digits(s: Seq<char>) -> bool {
    forall|j: int| 0 <= j < s.len() ==> is_hex_digit(#[trigger] s[j])
}

/// The value of a big-endian string of hexadecimal digits.
pub open spec fn hex_val(s: Seq<char>) -> nat
    decreases s.len(),
{
    if s.len() == 0 {
        0
    } else {
        16 * hex_val(s.drop_last()) + hex_digit_val(s.last())
    }
}

/// The text with one leading number sign removed, if present.
pub open spec fn strip_hash(s: Seq<char>) -> Seq<char> {
    if s.len() > 0 && s[0] == '#' {
        s.subrange(1, s.len() as int)
    } else {
        s
    }
}

/// The value of a prefix never exceeds the value of the whole string.
proof fn lemma_hex_val_prefix_le(s: Seq<char>, i: int)
    requires
        0 <= i <= s.len(),
    ensures
        hex_val(s.subrange(0, i)) <= hex_val(s),
    decreases s.len() - i,
{
    if i == s.len() {
        assert(s.subrange(0, i) =~= s);
    } else {
        lemma_hex_val_prefix_le(s, i + 1);
        assert(s.subrange(0, i + 1).drop_last() =~= s.subrange(0, i));
        assert(hex_val(s.subrange(0, i + 1)) == 16 * hex_val(s.subrange(0, i))
            + hex_digit_val(s.subrange(0, i + 1).last()));
    }
}

/// The value of a hexadecimal digit, or nothing for any other character.
fn hex_digit_value(c: char) -> (r: Option<u8>)
    ensures
        match r {
            Some(d) => is_hex_digit(c) && d == hex_digit_val(c) && d < 16,
            None => !is_hex_digit(c),
        },
{
    let u = c as u32;
    if 48 <= u && u <= 57 {
        Some((u - 48) as u8)
    } else if 97 <= u && u <= 102 {
        Some((u - 87) as u8)
    } else if 65 <= u && u <= 70 {
        Some((u - 55) as u8)
    } else {
        None
    }
}

/// Parses a color given as hexadecimal digits, with one optional leading
/// number sign. Yields the value exactly when, after the sign, the text is
/// non-empty, all digits, and in range; nothing otherwise.
pub fn parse_hex_color(s: &str) -> (r: Option<u64>)
    ensures
        ({
            let t = strip_hash(s@);
            match r {
                Some(v) => t.len() > 0 && all_hex_digits(t) && hex_val(t) <= u64::MAX && v
                    == hex_val(t),
                None => t.len() == 0 || !all_hex_digits(t) || hex_val(t) > u64::MAX,
            }
        }),
{
    let len = s.unicode_len();
    let start: usize = if len > 0 && s.get_char(0) == '#' {
        1
    } else {
        0
    };
    let ghost t = strip_hash(s@);
    proof {
        assert(t =~= s@.subrange(start as int, len as int));
    }
    if len == start {
        return None;
    }
    let mut val: u128 = 0;
    let mut i: usize = start;
    proof {
        assert(t.subrange(0, 0) =~= Seq::<char>::empty());
    }
    while i < len
        invariant
            start <= i <= len,
            len == s@.len(),
            t == s@.subrange(start as int, len as int),
            t =~= strip_hash(s@),
            all_hex_digits(t.subrange(0, i - start)),
            val == hex_val(t.subrange(0, i - start)),
            val <= u64::MAX,
        decreases len - i,
    {
        let c = s.get_char(i);
        proof {
            assert(t[i - start] == s@[i as int]);
        }
        match hex_digit_value(c) {
            None => {
                return None;
            },
            Some(d) => {
                proof {
                    assert(t.subrange(0, i - start + 1).drop_last() =~= t.subrange(0,
                        i - start));
                    assert(t.subrange(0, i - start + 1).last() == t[i - start]);
                }
                val = val * 16 + (d as u128);
                if val > u64::MAX as u128 {
                    proof {
                        lemma_hex_val_prefix_le(t, i - start + 1);
                    }
                    return None;
                }
            },
        }
        i += 1;
    }
    proof {
        assert(t.subrange(0, len - start) =~= t);
    }
    Some(val as u64)
}

/// Whether a role name marks a color role: a number sign followed by exactly
/// six hexadecimal digits.
pub open spec fn color_role_name_spec(name: Seq<char>) -> bool {
    &&& name.len() == 7
    &&& name[0] == '#'
    &&& forall|j: int| 1 <= j < 7 ==> is_hex_digit(#[trigger] name[j])
}

/// Recognizes the color roles, which carry a number sign and six
/// hexadecimal digits as their name.
pub fn is_color_role_name(name: &str) -> (r: bool)
    ensures
        r == color_role_name_spec(name@),
{
    let len = name.unicode_len();
    if len != 7 {
        return false;
    }
    if name.get_char(0) != '#' {
        return false;
    }
    let mut j: usize = 1;
    while j < 7
        invariant
            1 <= j <= 7,
            name@.len() == 7,
            forall|k: int| 1 <= k < j ==> is_hex_digit(#[trigger] name@[k]),
        decreases 7 - j,
    {
        if hex_digit_value(name.get_char(j)).is_none() {
            return false;
        }
        j += 1;
    }
    true
}

/// What the color command decides to do once the personal role situation is
/// known: reject the input, recolor the user's existing personal role, or
/// create one named by the user's identifier.
pub enum ColorAction {
    /// The input is not a color: empty, a stray character, or out of range.
    InvalidColor,
    /// Recolor the existing personal role.
    EditExisting { color: u64 },
    /// Create a personal role under this name and color, and assign it.
    CreateRole { role_name: String, color: u64 },
}

/// Decides the color command: parse the input, then edit the user's
/// personal role when one exists, else create one named by the user's
/// identifier.
pub fn color_action(color_input: &str, user_id: u64, has_user_role: bool) -> (a: ColorAction)
    ensures
        ({
            let t = strip_hash(color_input@);
            let valid = t.len() > 0 && all_hex_digits(t) && hex_val(t) <= u64::MAX;
            match a {
                ColorAction::InvalidColor => !valid,
                ColorAction::EditExisting { color } => valid && has_user_role && color
                    == hex_val(t),
                ColorAction::CreateRole { role_name, color } => valid && !has_user_role
                    && color == hex_val(t) && role_name@ == dec_str(user_id as nat),
            }
        }),
{
    match parse_hex_color(color_input) {
        None => ColorAction::InvalidColor,
        Some(color) => {
            if has_user_role {
                ColorAction::EditExisting { color }
            } else {
                ColorAction::CreateRole { role_name: u64_string(user_id), color }
            }
        },
    }
}

/// The name of a user's personal color role: the user's identifier in
/// decimal.
pub fn user_role_name(user_id: u64) -> (r: String)
    ensures
        r@ == dec_str(user_id as nat),
{
    u64_string(user_id)
}

/// The confirmation reply once a color was set.
pub fn set_color_reply(color_input: &str) -> (r: String)
    ensures
        r@ == "Set your color to "@ + color_input@ + "!"@,
{
    let mut s = String::new();
    s.append("Set your color to ");
    s.append(color_input);
    s.append("!");
    proof {
        assert(s@ =~= "Set your color to "@ + color_input@ + "!"@);
    }
    s
}

/// The reply of the clear-color command: a confirmation when a personal role
/// existed, else a notice naming the user's identifier.
pub fn clearcolor_reply(had_role: bool, user_id: u64) -> (r: String)
    ensures
        r@ == if had_role {
            "Cleared your color!"@
        } else {
            "You didn't have a color set! Maybe you still have a color from the old bot? In that case, please ask a moderator to remove said role or rename it to your user ID (`"@
                + dec_str(user_id as nat) + "`)."@
        },
{
    let mut s = String::new();
    if had_role {
        s.append("Cleared your color!");
        proof {
            assert(s@ =~= "Cleared your color!"@);
        }
    } else {
        s.append(
            "You didn't have a color set! Maybe you still have a color from the old bot? In that case, please ask a moderator to remove said role or rename it to your user ID (`",
        );
        let n = u64_string(user_id);
        s.append(n.as_str());
        s.append("`).");
        proof {
            assert(s@
                =~= "You didn't have a color set! Maybe you still have a color from the old bot? In that case, please ask a moderator to remove said role or rename it to your user ID (`"@
                + dec_str(user_id as nat) + "`)."@);
        }
    }
    s
}

} // verus!
