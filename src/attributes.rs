//! Values that command declarations spell by name: permission sets,
//! colours, and the shape of a declared function's arguments.

use vstd::prelude::*;

use crate::text::same_text;

verus! {

/// The upper-case form of `s`, by the Unicode rules of std.
pub uninterp spec fn upper_of(s: Seq<char>) -> Seq<char>;

/// Relies on `str::to_uppercase`: its result depends on the characters of
/// `s` alone.
#[verifier::external_body]
pub(crate) fn to_uppercase(s: &str) -> (r: String)
    ensures
        r@ == upper_of(s@),
{
    s.to_uppercase()
}

/// The permission bits named `name`, in upper case.
pub open spec fn permission_bits(name: Seq<char>) -> Option<u64> {
    if name == "PRESET_GENERAL"@ {
        Some(0b0000_0110_0011_0111_1101_1100_0100_0001u64)
    } else if name == "PRESET_TEXT"@ {
        Some(0b0000_0000_0000_0111_1111_1100_0100_0000u64)
    } else if name == "PRESET_VOICE"@ {
        Some(0b0000_0011_1111_0000_0000_0000_0000_0000u64)
    } else if name == "CREATE_INVITE"@ {
        Some(0b0000_0000_0000_0000_0000_0000_0000_0001u64)
    } else if name == "KICK_MEMBERS"@ {
        Some(0b0000_0000_0000_0000_0000_0000_0000_0010u64)
    } else if name == "BAN_MEMBERS"@ {
        Some(0b0000_0000_0000_0000_0000_0000_0000_0100u64)
    } else if name == "ADMINISTRATOR"@ {
        Some(0b0000_0000_0000_0000_0000_0000_0000_1000u64)
    } else if name == "MANAGE_CHANNELS"@ {
        Some(0b0000_0000_0000_0000_0000_0000_0001_0000u64)
    } else if name == "MANAGE_GUILD"@ {
        Some(0b0000_0000_0000_0000_0000_0000_0010_0000u64)
    } else if name == "ADD_REACTIONS"@ {
        Some(0b0000_0000_0000_0000_0000_0000_0100_0000u64)
    } else if name == "VIEW_AUDIT_LOG"@ {
        Some(0b0000_0000_0000_0000_0000_0000_1000_0000u64)
    } else if name == "PRIORITY_SPEAKER"@ {
        Some(0b0000_0000_0000_0000_0000_0001_0000_0000u64)
    } else if name == "READ_MESSAGES"@ {
        Some(0b0000_0000_0000_0000_0000_0100_0000_0000u64)
    } else if name == "SEND_MESSAGES"@ {
        Some(0b0000_0000_0000_0000_0000_1000_0000_0000u64)
    } else if name == "SEND_TTS_MESSAGES"@ {
        Some(0b0000_0000_0000_0000_0001_0000_0000_0000u64)
    } else if name == "MANAGE_MESSAGES"@ {
        Some(0b0000_0000_0000_0000_0010_0000_0000_0000u64)
    } else if name == "EMBED_LINKS"@ {
        Some(0b0000_0000_0000_0000_0100_0000_0000_0000u64)
    } else if name == "ATTACH_FILES"@ {
        Some(0b0000_0000_0000_0000_1000_0000_0000_0000u64)
    } else if name == "READ_MESSAGE_HISTORY"@ {
        Some(0b0000_0000_0000_0001_0000_0000_0000_0000u64)
    } else if name == "MENTION_EVERYONE"@ {
        Some(0b0000_0000_0000_0010_0000_0000_0000_0000u64)
    } else if name == "USE_EXTERNAL_EMOJIS"@ {
        Some(0b0000_0000_0000_0100_0000_0000_0000_0000u64)
    } else if name == "CONNECT"@ {
        Some(0b0000_0000_0001_0000_0000_0000_0000_0000u64)
    } else if name == "SPEAK"@ {
        Some(0b0000_0000_0010_0000_0000_0000_0000_0000u64)
    } else if name == "MUTE_MEMBERS"@ {
        Some(0b0000_0000_0100_0000_0000_0000_0000_0000u64)
    } else if name == "DEAFEN_MEMBERS"@ {
        Some(0b0000_0000_1000_0000_0000_0000_0000_0000u64)
    } else if name == "MOVE_MEMBERS"@ {
        Some(0b0000_0001_0000_0000_0000_0000_0000_0000u64)
    } else if name == "USE_VAD"@ {
        Some(0b0000_0010_0000_0000_0000_0000_0000_0000u64)
    } else if name == "CHANGE_NICKNAME"@ {
        Some(0b0000_0100_0000_0000_0000_0000_0000_0000u64)
    } else if name == "MANAGE_NICKNAMES"@ {
        Some(0b0000_1000_0000_0000_0000_0000_0000_0000u64)
    } else if name == "MANAGE_ROLES"@ {
        Some(0b0001_0000_0000_0000_0000_0000_0000_0000u64)
    } else if name == "MANAGE_WEBHOOKS"@ {
        Some(0b0010_0000_0000_0000_0000_0000_0000_0000u64)
    } else if name == "MANAGE_EMOJIS"@ {
        Some(0b0100_0000_0000_0000_0000_0000_0000_0000u64)
    } else {
        None
    }
}

/// The colour named `name`, in upper case.
pub open spec fn named_colour(name: Seq<char>) -> Option<u32> {
    if name == "BLITZ_BLUE"@ {
        Some(0x6FC6E2u32)
    } else if name == "BLUE"@ {
        Some(0x3498DBu32)
    } else if name == "BLURPLE"@ {
        Some(0x7289DAu32)
    } else if name == "DARK_BLUE"@ {
        Some(0x206694u32)
    } else if name == "DARK_GOLD"@ {
        Some(0xC27C0Eu32)
    } else if name == "DARK_GREEN"@ {
        Some(0x1F8B4Cu32)
    } else if name == "DARK_GREY"@ {
        Some(0x607D8Bu32)
    } else if name == "DARK_MAGENTA"@ {
        Some(0xAD14757u32)
    } else if name == "DARK_ORANGE"@ {
        Some(0xA84300u32)
    } else if name == "DARK_PURPLE"@ {
        Some(0x71368Au32)
    } else if name == "DARK_RED"@ {
        Some(0x992D22u32)
    } else if name == "DARK_TEAL"@ {
        Some(0x11806Au32)
    } else if name == "DARKER_GREY"@ {
        Some(0x546E7Au32)
    } else if name == "FABLED_PINK"@ {
        Some(0xFAB81EDu32)
    } else if name == "FADED_PURPLE"@ {
        Some(0x8882C4u32)
    } else if name == "FOOYOO"@ {
        Some(0x11CA80u32)
    } else if name == "GOLD"@ {
        Some(0xF1C40Fu32)
    } else if name == "KERBAL"@ {
        Some(0xBADA55u32)
    } else if name == "LIGHT_GREY"@ {
        Some(0x979C9Fu32)
    } else if name == "LIGHTER_GREY"@ {
        Some(0x95A5A6u32)
    } else if name == "MAGENTA"@ {
        Some(0xE91E63u32)
    } else if name == "MEIBE_PINK"@ {
        Some(0xE68397u32)
    } else if name == "ORANGE"@ {
        Some(0xE67E22u32)
    } else if name == "PURPLE"@ {
        Some(0x9B59B6u32)
    } else if name == "RED"@ {
        Some(0xE74C3Cu32)
    } else if name == "ROHRKATZE_BLUE"@ {
        Some(0x7596FFu32)
    } else if name == "ROSEWATER"@ {
        Some(0xF6DBD8u32)
    } else if name == "TEAL"@ {
        Some(0x1ABC9Cu32)
    } else {
        None
    }
}

/// The value of a hexadecimal digit, where `c` is one.
pub open spec fn hex_digit(c: char) -> Option<u32> {
    if '0' <= c <= '9' {
        Some((c as u32 - '0' as u32) as u32)
    } else if 'a' <= c <= 'f' {
        Some((c as u32 - 'a' as u32 + 10) as u32)
    } else if 'A' <= c <= 'F' {
        Some((c as u32 - 'A' as u32 + 10) as u32)
    } else {
        None
    }
}

/// Every character of `s` is a hexadecimal digit.
pub open spec fn all_hex(s: Seq<char>) -> bool {
    forall|i: int| 0 <= i < s.len() ==> (#[trigger] hex_digit(s[i])) is Some
}

/// The value of the hexadecimal digits `s`.
pub open spec fn hex_value(s: Seq<char>) -> nat
    decreases s.len(),
{
    if s.len() == 0 {
        0
    } else {
        hex_value(s.drop_last()) * 16 + hex_digit(s.last())->0 as nat
    }
}

/// A colour written `#` and six characters that read as a hexadecimal
/// number: six digits, or `+` and five digits.
pub open spec fn hex_colour(s: Seq<char>) -> Option<u32> {
    if s.len() == 7 && s[0] == '#' {
        let digits = s.subrange(1, 7);
        if all_hex(digits) {
            Some(hex_value(digits) as u32)
        } else if digits[0] == '+' && all_hex(digits.subrange(1, 6)) {
            Some(hex_value(digits.subrange(1, 6)) as u32)
        } else {
            None
        }
    } else {
        None
    }
}

/// A set of platform permissions, as bits.
#[derive(Clone, Copy, Debug, Default, PartialEq, Eq, Structural)]
pub struct Permissions(pub u64);

impl Permissions {
    /// Reads a permission name, or a preset's, in any case.
    pub fn from_str(s: &str) -> (r: Option<Permissions>)
        ensures
            r == Permissions::named(upper_of(s@)),
    {
        let upper = to_uppercase(s);
        Permissions::from_name(upper.as_str())
    }

    pub open spec fn named(name: Seq<char>) -> Option<Permissions> {
        match permission_bits(name) {
            Some(b) => Some(Permissions(b)),
            None => None,
        }
    }

    /// Reads a permission name, or a preset's, written in upper case.
    pub fn from_name(name: &str) -> (r: Option<Permissions>)
        ensures
            r == Permissions::named(name@),
    {
        let bits = permission_bits_of(name);
        match bits {
            Some(b) => Some(Permissions(b)),
            None => None,
        }
    }
}

fn permission_bits_of(name: &str) -> (r: Option<u64>)
    ensures
        r == permission_bits(name@),
{
        if same_text(name, "PRESET_GENERAL") {
            Some(0b0000_0110_0011_0111_1101_1100_0100_0001u64)
        } else if same_text(name, "PRESET_TEXT") {
            Some(0b0000_0000_0000_0111_1111_1100_0100_0000u64)
        } else if same_text(name, "PRESET_VOICE") {
            Some(0b0000_0011_1111_0000_0000_0000_0000_0000u64)
        } else if same_text(name, "CREATE_INVITE") {
            Some(0b0000_0000_0000_0000_0000_0000_0000_0001u64)
        } else if same_text(name, "KICK_MEMBERS") {
            Some(0b0000_0000_0000_0000_0000_0000_0000_0010u64)
        } else if same_text(name, "BAN_MEMBERS") {
            Some(0b0000_0000_0000_0000_0000_0000_0000_0100u64)
        } else if same_text(name, "ADMINISTRATOR") {
            Some(0b0000_0000_0000_0000_0000_0000_0000_1000u64)
        } else if same_text(name, "MANAGE_CHANNELS") {
            Some(0b0000_0000_0000_0000_0000_0000_0001_0000u64)
        } else if same_text(name, "MANAGE_GUILD") {
            Some(0b0000_0000_0000_0000_0000_0000_0010_0000u64)
        } else if same_text(name, "ADD_REACTIONS") {
            Some(0b0000_0000_0000_0000_0000_0000_0100_0000u64)
        } else if same_text(name, "VIEW_AUDIT_LOG") {
            Some(0b0000_0000_0000_0000_0000_0000_1000_0000u64)
        } else if same_text(name, "PRIORITY_SPEAKER") {
            Some(0b0000_0000_0000_0000_0000_0001_0000_0000u64)
        } else if same_text(name, "READ_MESSAGES") {
            Some(0b0000_0000_0000_0000_0000_0100_0000_0000u64)
        } else if same_text(name, "SEND_MESSAGES") {
            Some(0b0000_0000_0000_0000_0000_1000_0000_0000u64)
        } else if same_text(name, "SEND_TTS_MESSAGES") {
            Some(0b0000_0000_0000_0000_0001_0000_0000_0000u64)
        } else if same_text(name, "MANAGE_MESSAGES") {
            Some(0b0000_0000_0000_0000_0010_0000_0000_0000u64)
        } else if same_text(name, "EMBED_LINKS") {
            Some(0b0000_0000_0000_0000_0100_0000_0000_0000u64)
        } else if same_text(name, "ATTACH_FILES") {
            Some(0b0000_0000_0000_0000_1000_0000_0000_0000u64)
        } else if same_text(name, "READ_MESSAGE_HISTORY") {
            Some(0b0000_0000_0000_0001_0000_0000_0000_0000u64)
        } else if same_text(name, "MENTION_EVERYONE") {
            Some(0b0000_0000_0000_0010_0000_0000_0000_0000u64)
        } else if same_text(name, "USE_EXTERNAL_EMOJIS") {
            Some(0b0000_0000_0000_0100_0000_0000_0000_0000u64)
        } else if same_text(name, "CONNECT") {
            Some(0b0000_0000_0001_0000_0000_0000_0000_0000u64)
        } else if same_text(name, "SPEAK") {
            Some(0b0000_0000_0010_0000_0000_0000_0000_0000u64)
        } else if same_text(name, "MUTE_MEMBERS") {
            Some(0b0000_0000_0100_0000_0000_0000_0000_0000u64)
        } else if same_text(name, "DEAFEN_MEMBERS") {
            Some(0b0000_0000_1000_0000_0000_0000_0000_0000u64)
        } else if same_text(name, "MOVE_MEMBERS") {
            Some(0b0000_0001_0000_0000_0000_0000_0000_0000u64)
        } else if same_text(name, "USE_VAD") {
            Some(0b0000_0010_0000_0000_0000_0000_0000_0000u64)
        } else if same_text(name, "CHANGE_NICKNAME") {
            Some(0b0000_0100_0000_0000_0000_0000_0000_0000u64)
        } else if same_text(name, "MANAGE_NICKNAMES") {
            Some(0b0000_1000_0000_0000_0000_0000_0000_0000u64)
        } else if same_text(name, "MANAGE_ROLES") {
            Some(0b0001_0000_0000_0000_0000_0000_0000_0000u64)
        } else if same_text(name, "MANAGE_WEBHOOKS") {
            Some(0b0010_0000_0000_0000_0000_0000_0000_0000u64)
        } else if same_text(name, "MANAGE_EMOJIS") {
            Some(0b0100_0000_0000_0000_0000_0000_0000_0000u64)
        } else {
            None
        }
}

fn named_colour_of(name: &str) -> (r: Option<u32>)
    ensures
        r == named_colour(name@),
{
        if same_text(name, "BLITZ_BLUE") {
            Some(0x6FC6E2u32)
        } else if same_text(name, "BLUE") {
            Some(0x3498DBu32)
        } else if same_text(name, "BLURPLE") {
            Some(0x7289DAu32)
        } else if same_text(name, "DARK_BLUE") {
            Some(0x206694u32)
        } else if same_text(name, "DARK_GOLD") {
            Some(0xC27C0Eu32)
        } else if same_text(name, "DARK_GREEN") {
            Some(0x1F8B4Cu32)
        } else if same_text(name, "DARK_GREY") {
            Some(0x607D8Bu32)
        } else if same_text(name, "DARK_MAGENTA") {
            Some(0xAD14757u32)
        } else if same_text(name, "DARK_ORANGE") {
            Some(0xA84300u32)
        } else if same_text(name, "DARK_PURPLE") {
            Some(0x71368Au32)
        } else if same_text(name, "DARK_RED") {
            Some(0x992D22u32)
        } else if same_text(name, "DARK_TEAL") {
            Some(0x11806Au32)
        } else if same_text(name, "DARKER_GREY") {
            Some(0x546E7Au32)
        } else if same_text(name, "FABLED_PINK") {
            Some(0xFAB81EDu32)
        } else if same_text(name, "FADED_PURPLE") {
            Some(0x8882C4u32)
        } else if same_text(name, "FOOYOO") {
            Some(0x11CA80u32)
        } else if same_text(name, "GOLD") {
            Some(0xF1C40Fu32)
        } else if same_text(name, "KERBAL") {
            Some(0xBADA55u32)
        } else if same_text(name, "LIGHT_GREY") {
            Some(0x979C9Fu32)
        } else if same_text(name, "LIGHTER_GREY") {
            Some(0x95A5A6u32)
        } else if same_text(name, "MAGENTA") {
            Some(0xE91E63u32)
        } else if same_text(name, "MEIBE_PINK") {
            Some(0xE68397u32)
        } else if same_text(name, "ORANGE") {
            Some(0xE67E22u32)
        } else if same_text(name, "PURPLE") {
            Some(0x9B59B6u32)
        } else if same_text(name, "RED") {
            Some(0xE74C3Cu32)
        } else if same_text(name, "ROHRKATZE_BLUE") {
            Some(0x7596FFu32)
        } else if same_text(name, "ROSEWATER") {
            Some(0xF6DBD8u32)
        } else if same_text(name, "TEAL") {
            Some(0x1ABC9Cu32)
        } else {
            None
        }
}

/// A colour as a 24-bit RGB value.
#[derive(Clone, Copy, Debug, Default, PartialEq, Eq, Structural)]
pub struct Colour(pub u32);

impl Colour {
    /// The colour that `s` names: a colour name in any case, or `#`
    /// followed by six characters that read as a hexadecimal number.
    pub open spec fn named(upper: Seq<char>, s: Seq<char>) -> Option<Colour> {
        match named_colour(upper) {
            Some(c) => Some(Colour(c)),
            None => match hex_colour(s) {
                Some(c) => Some(Colour(c)),
                None => None,
            },
        }
    }

    /// Reads a colour name in any case, or a `#` hexadecimal colour.
    pub fn from_str(s: &str) -> (r: Option<Colour>)
        ensures
            r == Colour::named(upper_of(s@), s@),
    {
        let upper = to_uppercase(s);
        Colour::from_parts(upper.as_str(), s)
    }

    /// Reads a colour from `s` and its upper-case form `upper`.
    pub fn from_parts(upper: &str, s: &str) -> (r: Option<Colour>)
        ensures
            r == Colour::named(upper@, s@),
    {
        match named_colour_of(upper) {
            Some(c) => Some(Colour(c)),
            None => match parse_hex_colour(s) {
                Some(c) => Some(Colour(c)),
                None => None,
            },
        }
    }
}

fn hex_digit_of(c: char) -> (r: Option<u32>)
    ensures
        r == hex_digit(c),
{
    if '0' <= c && c <= '9' {
        Some(c as u32 - '0' as u32)
    } else if 'a' <= c && c <= 'f' {
        Some(c as u32 - 'a' as u32 + 10)
    } else if 'A' <= c && c <= 'F' {
        Some(c as u32 - 'A' as u32 + 10)
    } else {
        None
    }
}

/// Reads the hexadecimal digits `s[from..to]`, at most six of them.
fn hex_run(s: &str, from: usize, to: usize) -> (r: Option<u32>)
    requires
        from <= to <= s@.len(),
        to - from <= 6,
    ensures
        r == (if all_hex(s@.subrange(from as int, to as int)) {
            Some(hex_value(s@.subrange(from as int, to as int)) as u32)
        } else {
            None
        }),
{
    let mut v: u32 = 0;
    let mut i = from;
    while i < to
        invariant
            from <= i <= to <= s@.len(),
            to - from <= 6,
            all_hex(s@.subrange(from as int, i as int)),
            v == hex_value(s@.subrange(from as int, i as int)),
            v < pow16((i - from) as nat),
        decreases to - i,
    {
        let d = match hex_digit_of(s.get_char(i)) {
            Some(d) => d,
            None => {
                proof {
                    let t = s@.subrange(from as int, to as int);
                    assert(t[i - from] == s@[i as int]);
                }
                return None;
            },
        };
        proof {
            let k = (i - from) as nat;
            assert(pow16(k + 1) == pow16(k) * 16);
            assert(pow16(k) <= 0x100000) by {
                lemma_pow16_bound(k);
            }
            assert(v * 16 + d < pow16(k + 1)) by (nonlinear_arith)
                requires v < pow16(k), d < 16, pow16(k + 1) == pow16(k) * 16;
            let t = s@.subrange(from as int, i + 1);
            assert(t.drop_last() =~= s@.subrange(from as int, i as int));
            assert(all_hex(t)) by {
                assert forall|j: int| 0 <= j < t.len() implies (#[trigger] hex_digit(t[j])) is Some by {
                    if j < t.len() - 1 {
                        assert(t[j] == s@.subrange(from as int, i as int)[j]);
                    }
                }
            }
        }
        v = v * 16 + d;
        i = i + 1;
    }
    Some(v)
}

/// `16^n`.
pub open spec fn pow16(n: nat) -> nat
    decreases n,
{
    if n == 0 {
        1
    } else {
        pow16((n - 1) as nat) * 16
    }
}

proof fn lemma_pow16_bound(n: nat)
    requires
        n <= 5,
    ensures
        pow16(n) <= 0x100000,
{
    reveal_with_fuel(pow16, 6);
}

/// Reads `#` followed by six characters that read as a hexadecimal number.
fn parse_hex_colour(s: &str) -> (r: Option<u32>)
    ensures
        r == hex_colour(s@),
{
    if s.unicode_len() != 7 || s.get_char(0) != '#' {
        return None;
    }
    let ghost digits = s@.subrange(1, 7);
    let all = hex_run(s, 1, 7);
    match all {
        Some(v) => Some(v),
        None => {
            if s.get_char(1) == '+' {
                proof {
                    assert(digits.subrange(1, 6) =~= s@.subrange(2, 7));
                }
                hex_run(s, 2, 7)
            } else {
                None
            }
        },
    }
}

} // verus!
