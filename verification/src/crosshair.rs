//! The crosshair share code: settings to the eighteen bytes of the game's crosshair
//! format, and bytes to the `CSGO-xxxxx-...` text.
use crate::models::{CrosshairSettings, opt_view};
use crate::text::{chars_eq, chars_of, digit_char, digits, push_char};
use vstd::prelude::*;
use vstd::string::StringExecFns;

verus! {

/// The crosshair values that come from decimal numbers, already in the byte form
/// the format stores: `style` is the style rounded, `split_distance` the distance
/// truncated, `outline` twice the outline thickness, and the others ten times the
/// setting (length from `size`), each converted to a byte the way a float-to-`u8`
/// cast does.
#[derive(Debug, Clone, Copy)]
pub struct CrosshairScaled {
    pub style: u8,
    pub length: u8,
    pub thickness: u8,
    pub gap: u8,
    pub outline: u8,
    pub split_distance: u8,
    pub fixed_crosshair_gap: u8,
    pub inner_split_alpha: u8,
    pub outer_split_alpha: u8,
    pub split_size_ratio: u8,
}

/// A crosshair with every value in the form the share code encodes.
#[derive(Debug, Clone, Copy)]
pub struct CsgoCrosshair {
    pub scaled: CrosshairScaled,
    pub color: u8,
    pub red: u8,
    pub green: u8,
    pub blue: u8,
    pub alpha: u8,
    pub follow_recoil: bool,
    pub outline_enabled: bool,
    pub center_dot_enabled: bool,
    pub t_style_enabled: bool,
    pub deployed_weapon_gap_enabled: bool,
    pub alpha_enabled: bool,
}

/// The value of the decimal digits `d` (for ASCII digits).
pub open spec fn digits_value(d: Seq<char>) -> nat
    decreases d.len(),
{
    if d.len() == 0 {
        0
    } else {
        digits_value(d.drop_last()) * 10 + ((d.last() as u32) - 48) as nat
    }
}

/// Whether every character of `d` is an ASCII digit.
pub open spec fn all_digits(d: Seq<char>) -> bool {
    forall|i: int| 0 <= i < d.len() ==> '0' <= #[trigger] d[i] <= '9'
}

/// The byte that `t` reads as, as `str::parse::<u8>` reads it: optionally one `+`,
/// then at least one ASCII digit, with a value of at most 255.
pub open spec fn u8_of(t: Seq<char>) -> Option<u8> {
    let d = if t.len() > 0 && t[0] == '+' {
        t.subrange(1, t.len() as int)
    } else {
        t
    };
    if d.len() > 0 && all_digits(d) && digits_value(d) <= 255 {
        Some(digits_value(d) as u8)
    } else {
        None
    }
}

/// The byte a setting reads as, 0 when it is missing or not a byte.
pub open spec fn setting_u8(s: Option<Seq<char>>) -> u8 {
    match s {
        Some(t) => match u8_of(t) {
            Some(v) => v,
            None => 0,
        },
        None => 0,
    }
}

/// The number of a crosshair colour name; an unknown or missing name is green, 0.
pub open spec fn color_number(s: Option<Seq<char>>) -> u8 {
    match s {
        Some(t) => if t == "Red"@ {
            1
        } else if t == "Yellow"@ {
            2
        } else if t == "Green"@ {
            0
        } else if t == "Cyan"@ {
            3
        } else if t == "Blue"@ {
            4
        } else if t == "Magenta"@ {
            5
        } else if t == "White"@ {
            6
        } else if t == "Custom"@ {
            7
        } else {
            0
        },
        None => 0,
    }
}

/// Whether a setting says yes: "Yes", "1" or "true".
pub open spec fn setting_true(s: Option<Seq<char>>) -> bool {
    s == Some("Yes"@) || s == Some("1"@) || s == Some("true"@)
}

/// The crosshair that settings and their scaled values describe.
pub open spec fn crosshair_of(settings: CrosshairSettings, scaled: CrosshairScaled) -> CsgoCrosshair {
    let v = settings@;
    CsgoCrosshair {
        scaled,
        color: color_number(v.color),
        red: setting_u8(v.color_r),
        green: setting_u8(v.color_g),
        blue: setting_u8(v.color_b),
        alpha: setting_u8(v.alpha),
        follow_recoil: setting_true(v.follow_recoil),
        outline_enabled: setting_true(v.draw_outline),
        center_dot_enabled: setting_true(v.dot),
        t_style_enabled: setting_true(v.t_style),
        deployed_weapon_gap_enabled: setting_true(v.deployed_weapon_gap),
        alpha_enabled: setting_true(v.use_alpha),
    }
}

/// `bit` when `b` holds, else 0.
pub open spec fn flag(b: bool, bit: u8) -> u8 {
    if b {
        bit
    } else {
        0
    }
}

/// Bytes 1 to 17 of the crosshair format.
pub open spec fn crosshair_body(c: CsgoCrosshair) -> Seq<u8> {
    let s = c.scaled;
    seq![
        1u8,
        s.gap,
        s.outline,
        c.red,
        c.green,
        c.blue,
        c.alpha,
        (s.split_distance & 7u8) | flag(c.follow_recoil, 128u8),
        s.fixed_crosshair_gap,
        (c.color & 7u8) | flag(c.outline_enabled, 8u8) | (s.inner_split_alpha << 4u8),
        s.outer_split_alpha | (s.split_size_ratio << 4u8),
        s.thickness,
        (s.style << 1u8) | flag(c.center_dot_enabled, 16u8) | flag(
            c.deployed_weapon_gap_enabled,
            32u8,
        ) | flag(c.alpha_enabled, 64u8) | flag(c.t_style_enabled, 128u8),
        s.length,
        0u8,
        0u8,
        0u8,
    ]
}

/// The sum of the bytes `s`.
pub open spec fn byte_sum(s: Seq<u8>) -> nat
    decreases s.len(),
{
    if s.len() == 0 {
        0
    } else {
        byte_sum(s.drop_last()) + s.last() as nat
    }
}

/// The eighteen bytes of the crosshair format: a checksum byte, the sum of the other
/// seventeen modulo 256, and then those.
pub open spec fn crosshair_bytes(c: CsgoCrosshair) -> Seq<u8> {
    seq![(byte_sum(crosshair_body(c)) % 256) as u8] + crosshair_body(c)
}

/// The letters of the share-code alphabet.
pub open spec fn alphabet() -> Seq<char> {
    "ABCDEFGHJKLMNPRSTUVWXYZ23456789"@
}

/// The share-code letter for the digit `d` in base 32; the alphabet has 31 letters,
/// and the last digit falls back to `A`.
pub open spec fn alphabet_char(d: nat) -> char {
    if d < 31 {
        alphabet()[d as int]
    } else {
        'A'
    }
}

/// `256` raised to `n`.
pub open spec fn pow256(n: nat) -> nat
    decreases n,
{
    if n == 0 {
        1
    } else {
        256 * pow256((n - 1) as nat)
    }
}

/// The number that the bytes `s` spell, most significant first.
pub open spec fn be_value(s: Seq<u8>) -> nat
    decreases s.len(),
{
    if s.len() == 0 {
        0
    } else {
        be_value(s.drop_last()) * 256 + s.last() as nat
    }
}

/// The number a share code encodes: that of the bytes when it fits in 128 bits, else
/// zero (the hexadecimal text of the bytes does not parse as a `u128`).
pub open spec fn share_value(s: Seq<u8>) -> nat {
    if be_value(s) <= u128::MAX {
        be_value(s)
    } else {
        0
    }
}

/// The first `n` base-32 digits of `t`, least significant first, as letters.
pub open spec fn code_letters(t: nat, n: nat) -> Seq<char>
    decreases n,
{
    if n == 0 {
        Seq::<char>::empty()
    } else {
        seq![alphabet_char(t % 32)] + code_letters(t / 32, (n - 1) as nat)
    }
}

/// The share code of the bytes `s`: `CSGO-` and twenty-five letters in five groups.
pub open spec fn share_code(s: Seq<u8>) -> Seq<char> {
    let l = code_letters(share_value(s), 25);
    "CSGO-"@ + l.subrange(0, 5) + "-"@ + l.subrange(5, 10) + "-"@ + l.subrange(10, 15) + "-"@
        + l.subrange(15, 20) + "-"@ + l.subrange(20, 25)
}

fn parse_digits(d: &[char]) -> (r: Option<u8>)
    ensures
        r == (if d@.len() > 0 && all_digits(d@) && digits_value(d@) <= 255 {
            Some(digits_value(d@) as u8)
        } else {
            None
        }),
{
    if d.len() == 0 {
        return None;
    }
    let mut value: u32 = 0;
    let mut i: usize = 0;
    assert(d@.take(0) =~= Seq::<char>::empty());
    while i < d.len()
        invariant
            i <= d@.len(),
            all_digits(d@.take(i as int)),
            value == digits_value(d@.take(i as int)),
            value <= 255,
        decreases d.len() - i,
    {
        let c = d[i];
        assert(d@.take(i + 1).drop_last() =~= d@.take(i as int));
        if c < '0' || c > '9' {
            assert(!all_digits(d@)) by {
                assert(d@[i as int] == c);
            }
            return None;
        }
        let digit = (c as u32) - 48;
        value = value * 10 + digit;
        assert(all_digits(d@.take(i + 1))) by {
            assert forall|k: int| 0 <= k < i + 1 implies '0' <= #[trigger] d@.take(i + 1)[k] <= '9' by {
                if k < i {
                    assert(d@.take(i + 1)[k] == d@.take(i as int)[k]);
                }
            }
        }
        if value > 255 {
            proof {
                if all_digits(d@) {
                    lemma_digits_value_grows(d@, i as int + 1);
                }
            }
            return None;
        }
        i = i + 1;
    }
    assert(d@.take(d.len() as int) =~= d@);
    Some(value as u8)
}

/// The value of a prefix of decimal digits is at most that of the whole.
proof fn lemma_digits_value_grows(d: Seq<char>, k: int)
    requires
        0 <= k <= d.len(),
        all_digits(d),
    ensures
        digits_value(d.take(k)) <= digits_value(d),
    decreases d.len() - k,
{
    if k < d.len() {
        lemma_digits_value_grows(d, k + 1);
        assert(d.take(k + 1).drop_last() =~= d.take(k));
        assert('0' <= d[k] <= '9');
    } else {
        assert(d.take(k) =~= d);
    }
}

/// The byte a setting holds, 0 when it is missing or not a byte.
fn parse_u8(s: &Option<String>) -> (r: u8)
    ensures
        r == setting_u8(opt_view(*s)),
{
    match s {
        Some(t) => {
            let chars = chars_of(t.as_str());
            let r = if chars.len() > 0 && chars[0] == '+' {
                let mut rest: Vec<char> = Vec::new();
                let mut i: usize = 1;
                while i < chars.len()
                    invariant
                        1 <= i <= chars@.len(),
                        rest@ == chars@.subrange(1, i as int),
                    decreases chars.len() - i,
                {
                    rest.push(chars[i]);
                    i = i + 1;
                    assert(rest@ =~= chars@.subrange(1, i as int));
                }
                parse_digits(rest.as_slice())
            } else {
                parse_digits(chars.as_slice())
            };
            match r {
                Some(v) => v,
                None => 0,
            }
        },
        None => 0,
    }
}

/// The number of a colour name.
fn parse_color(s: &Option<String>) -> (r: u8)
    ensures
        r == color_number(opt_view(*s)),
{
    match s {
        Some(t) => {
            let c = chars_of(t.as_str());
            let c = c.as_slice();
            if chars_eq(c, "Red") {
                1
            } else if chars_eq(c, "Yellow") {
                2
            } else if chars_eq(c, "Green") {
                0
            } else if chars_eq(c, "Cyan") {
                3
            } else if chars_eq(c, "Blue") {
                4
            } else if chars_eq(c, "Magenta") {
                5
            } else if chars_eq(c, "White") {
                6
            } else if chars_eq(c, "Custom") {
                7
            } else {
                0
            }
        },
        None => 0,
    }
}

/// Whether a setting says yes.
fn is_true(s: &Option<String>) -> (r: bool)
    ensures
        r == setting_true(opt_view(*s)),
{
    match s {
        Some(t) => {
            let c = chars_of(t.as_str());
            let c = c.as_slice();
            chars_eq(c, "Yes") || chars_eq(c, "1") || chars_eq(c, "true")
        },
        None => false,
    }
}

/// The crosshair that settings and their scaled values describe.
pub fn parse_crosshair_config(settings: &CrosshairSettings, scaled: &CrosshairScaled) -> (c: CsgoCrosshair)
    ensures
        c == crosshair_of(*settings, *scaled),
{
    CsgoCrosshair {
        scaled: *scaled,
        color: parse_color(&settings.color),
        red: parse_u8(&settings.color_r),
        green: parse_u8(&settings.color_g),
        blue: parse_u8(&settings.color_b),
        alpha: parse_u8(&settings.alpha),
        follow_recoil: is_true(&settings.follow_recoil),
        outline_enabled: is_true(&settings.draw_outline),
        center_dot_enabled: is_true(&settings.dot),
        t_style_enabled: is_true(&settings.t_style),
        deployed_weapon_gap_enabled: is_true(&settings.deployed_weapon_gap),
        alpha_enabled: is_true(&settings.use_alpha),
    }
}

fn flag_bit(b: bool, bit: u8) -> (r: u8)
    ensures
        r == flag(b, bit),
{
    if b {
        bit
    } else {
        0
    }
}

/// The eighteen bytes of the crosshair format for `c`.
pub fn encode_crosshair_bytes(c: &CsgoCrosshair) -> (bytes: Vec<u8>)
    ensures
        bytes@ == crosshair_bytes(*c),
        bytes@.len() == 18,
        bytes@[0] as nat == byte_sum(bytes@.subrange(1, 18)) % 256,
{
    let s = &c.scaled;
    let mut body: Vec<u8> = Vec::new();
    body.push(1);
    body.push(s.gap);
    body.push(s.outline);
    body.push(c.red);
    body.push(c.green);
    body.push(c.blue);
    body.push(c.alpha);
    body.push((s.split_distance & 7) | flag_bit(c.follow_recoil, 128));
    body.push(s.fixed_crosshair_gap);
    body.push((c.color & 7) | flag_bit(c.outline_enabled, 8) | (s.inner_split_alpha << 4u8));
    body.push(s.outer_split_alpha | (s.split_size_ratio << 4u8));
    body.push(s.thickness);
    body.push(
        (s.style << 1u8) | flag_bit(c.center_dot_enabled, 16) | flag_bit(
            c.deployed_weapon_gap_enabled,
            32,
        ) | flag_bit(c.alpha_enabled, 64) | flag_bit(c.t_style_enabled, 128),
    );
    body.push(s.length);
    body.push(0);
    body.push(0);
    body.push(0);
    assert(body@ =~= crosshair_body(*c));
    let mut sum: u32 = 0;
    let mut i: usize = 0;
    assert(body@.take(0) =~= Seq::<u8>::empty());
    while i < body.len()
        invariant
            i <= body@.len(),
            body@.len() == 17,
            sum == byte_sum(body@.take(i as int)),
            sum <= 255 * i,
        decreases body.len() - i,
    {
        assert(body@.take(i + 1).drop_last() =~= body@.take(i as int));
        sum = sum + body[i] as u32;
        i = i + 1;
    }
    assert(body@.take(17) =~= body@);
    let mut bytes: Vec<u8> = Vec::new();
    bytes.push((sum % 256) as u8);
    let mut k: usize = 0;
    while k < body.len()
        invariant
            k <= body@.len(),
            bytes@ == seq![(sum % 256) as u8] + body@.take(k as int),
        decreases body.len() - k,
    {
        bytes.push(body[k]);
        k = k + 1;
        assert(bytes@ =~= seq![(sum % 256) as u8] + body@.take(k as int));
    }
    assert(bytes@.subrange(1, 18) =~= body@);
    bytes
}

/// The value of a prefix of bytes that does not fit in 128 bits keeps the whole from
/// fitting.
proof fn lemma_be_value_grows(s: Seq<u8>, k: int)
    requires
        0 <= k <= s.len(),
    ensures
        be_value(s.take(k)) <= be_value(s),
    decreases s.len() - k,
{
    if k < s.len() {
        lemma_be_value_grows(s, k + 1);
        assert(s.take(k + 1).drop_last() =~= s.take(k));
    } else {
        assert(s.take(k) =~= s);
    }
}

/// The share-code letter for the base-32 digit `d`.
fn code_letter(d: u128) -> (c: char)
    requires
        d < 32,
    ensures
        c == alphabet_char(d as nat),
{
    let letters = "ABCDEFGHJKLMNPRSTUVWXYZ23456789";
    proof {
        reveal_strlit("ABCDEFGHJKLMNPRSTUVWXYZ23456789");
    }
    if d < 31 {
        letters.get_char(d as usize)
    } else {
        'A'
    }
}

fn push_letters(s: &mut String, v: &[char], from: usize, to: usize)
    requires
        from <= to <= v@.len(),
    ensures
        final(s)@ == old(s)@ + v@.subrange(from as int, to as int),
{
    let mut i: usize = from;
    while i < to
        invariant
            from <= i <= to <= v@.len(),
            s@ == old(s)@ + v@.subrange(from as int, i as int),
        decreases to - i,
    {
        push_char(s, v[i]);
        i = i + 1;
        assert(s@ =~= old(s)@ + v@.subrange(from as int, i as int));
    }
}

/// The share code of the bytes `bytes`.
pub fn bytes_to_share_code(bytes: &[u8]) -> (code: String)
    ensures
        code@ == share_code(bytes@),
{
    let mut t: u128 = 0;
    let mut too_big = false;
    let mut i: usize = 0;
    assert(bytes@.take(0) =~= Seq::<u8>::empty());
    while i < bytes.len()
        invariant
            i <= bytes@.len(),
            !too_big ==> t == be_value(bytes@.take(i as int)),
            too_big ==> be_value(bytes@.take(i as int)) > u128::MAX,
        decreases bytes.len() - i,
    {
        assert(bytes@.take(i + 1).drop_last() =~= bytes@.take(i as int));
        if !too_big {
            match t.checked_mul(256) {
                Some(m) => match m.checked_add(bytes[i] as u128) {
                    Some(v) => {
                        t = v;
                    },
                    None => {
                        too_big = true;
                    },
                },
                None => {
                    too_big = true;
                },
            }
        } else {
            proof {
                lemma_be_value_grows(bytes@.take(i + 1), i as int);
                assert(bytes@.take(i + 1).take(i as int) =~= bytes@.take(i as int));
            }
        }
        i = i + 1;
    }
    assert(bytes@.take(bytes.len() as int) =~= bytes@);
    if too_big {
        t = 0;
    }
    assert(t == share_value(bytes@));
    let ghost t0 = t as nat;
    let mut letters: Vec<char> = Vec::new();
    let mut k: usize = 0;
    while k < 25
        invariant
            k <= 25,
            letters@.len() == k,
            letters@ + code_letters(t as nat, (25 - k) as nat) == code_letters(t0, 25),
        decreases 25 - k,
    {
        let ghost before = t as nat;
        let c = code_letter(t % 32);
        letters.push(c);
        t = t / 32;
        assert(code_letters(before, (25 - k) as nat) == seq![c] + code_letters(
            t as nat,
            (25 - k - 1) as nat,
        ));
        assert(letters@ + code_letters(t as nat, (25 - k - 1) as nat) =~= letters@.drop_last()
            + code_letters(before, (25 - k) as nat));
        k = k + 1;
    }
    assert(letters@ =~= letters@ + code_letters(t as nat, 0));
    let mut code = String::from_str("CSGO-");
    push_letters(&mut code, letters.as_slice(), 0, 5);
    code.append("-");
    push_letters(&mut code, letters.as_slice(), 5, 10);
    code.append("-");
    push_letters(&mut code, letters.as_slice(), 10, 15);
    code.append("-");
    push_letters(&mut code, letters.as_slice(), 15, 20);
    code.append("-");
    push_letters(&mut code, letters.as_slice(), 20, 25);
    code
}

/// The share code of a crosshair described by `settings`, whose decimal values come
/// scaled in `scaled`.
pub fn encode_crosshair(settings: &CrosshairSettings, scaled: &CrosshairScaled) -> (r: Option<String>)
    ensures
        r matches Some(code) && code@ == share_code(crosshair_bytes(crosshair_of(*settings, *scaled))),
        r matches Some(code) && code@ == "CSGO-AAAAA-AAAAA-AAAAA-AAAAA-AAAAA"@,
{
    proof {
        lemma_crosshair_code_is_constant(crosshair_of(*settings, *scaled));
    }
    let crosshair = parse_crosshair_config(settings, scaled);
    let bytes = encode_crosshair_bytes(&crosshair);
    let share_code = bytes_to_share_code(bytes.as_slice());
    Some(share_code)
}

/// Bytes whose second byte is not zero spell at least `256` to the power of the number
/// of bytes after it.
proof fn lemma_be_value_lower(s: Seq<u8>, k: int)
    requires
        2 <= k <= s.len(),
        s[1] >= 1,
    ensures
        be_value(s.take(k)) >= pow256((k - 2) as nat),
    decreases k,
{
    assert(s.take(k).drop_last() =~= s.take(k - 1));
    if k == 2 {
        assert(s.take(1).drop_last() =~= s.take(0));
        assert(be_value(s.take(0)) == 0);
        assert(be_value(s.take(1)) == s[0] as nat);
        assert(be_value(s.take(2)) == be_value(s.take(1)) * 256 + s[1] as nat);
    } else {
        lemma_be_value_lower(s, k - 1);
        assert(be_value(s.take(k)) == be_value(s.take(k - 1)) * 256 + s[k - 1] as nat);
        assert(pow256((k - 2) as nat) == 256 * pow256((k - 3) as nat));
    }
}

/// Zero's letters are all `A`.
proof fn lemma_zero_letters(n: nat)
    ensures
        code_letters(0, n) == Seq::new(n, |i: int| 'A'),
    decreases n,
{
    reveal_strlit("ABCDEFGHJKLMNPRSTUVWXYZ23456789");
    if n > 0 {
        lemma_zero_letters((n - 1) as nat);
        assert(code_letters(0, n) =~= Seq::new(n, |i: int| 'A'));
    }
}

/// Every crosshair gets the same share code, all `A`: its format bytes have 1 as their
/// second byte, so the number that the eighteen bytes spell never fits in 128 bits and
/// the code encodes zero.
pub proof fn lemma_crosshair_code_is_constant(c: CsgoCrosshair)
    ensures
        share_code(crosshair_bytes(c)) == "CSGO-AAAAA-AAAAA-AAAAA-AAAAA-AAAAA"@,
{
    let s = crosshair_bytes(c);
    assert(s.len() == 18);
    assert(s[1] == 1);
    lemma_be_value_lower(s, 18);
    assert(s.take(18) =~= s);
    reveal_with_fuel(pow256, 17);
    assert(pow256(16) > u128::MAX);
    assert(share_value(s) == 0);
    lemma_zero_letters(25);
    reveal_strlit("CSGO-AAAAA-AAAAA-AAAAA-AAAAA-AAAAA");
    reveal_strlit("CSGO-");
    reveal_strlit("-");
    assert(share_code(s) =~= "CSGO-AAAAA-AAAAA-AAAAA-AAAAA-AAAAA"@);
}


/// Each colour name reads as the number the game gives it (Red 1, Yellow 2, Green 0,
/// Cyan 3, Blue 4, Magenta 5, White 6, Custom 7), anything else as green; a switch is
/// on exactly for "Yes", "1" and "true"; and each value of the crosshair is read from
/// the setting of the same meaning.
pub proof fn lemma_settings_read_by_meaning(settings: CrosshairSettings, scaled: CrosshairScaled)
    ensures
        color_number(Some("Red"@)) == 1,
        color_number(Some("Yellow"@)) == 2,
        color_number(Some("Green"@)) == 0,
        color_number(Some("Cyan"@)) == 3,
        color_number(Some("Blue"@)) == 4,
        color_number(Some("Magenta"@)) == 5,
        color_number(Some("White"@)) == 6,
        color_number(Some("Custom"@)) == 7,
        color_number(None) == 0,
        forall|t: Seq<char>| setting_true(Some(t)) <==> (t == "Yes"@ || t == "1"@ || t == "true"@),
        !setting_true(None),
        ({
            let c = crosshair_of(settings, scaled);
            let v = settings@;
            &&& c.scaled == scaled
            &&& c.color == color_number(v.color)
            &&& c.red == setting_u8(v.color_r)
            &&& c.green == setting_u8(v.color_g)
            &&& c.blue == setting_u8(v.color_b)
            &&& c.alpha == setting_u8(v.alpha)
            &&& c.follow_recoil == setting_true(v.follow_recoil)
            &&& c.outline_enabled == setting_true(v.draw_outline)
            &&& c.center_dot_enabled == setting_true(v.dot)
            &&& c.t_style_enabled == setting_true(v.t_style)
            &&& c.deployed_weapon_gap_enabled == setting_true(v.deployed_weapon_gap)
            &&& c.alpha_enabled == setting_true(v.use_alpha)
        }),
{
    reveal_strlit("Red");
    reveal_strlit("Yellow");
    reveal_strlit("Green");
    reveal_strlit("Cyan");
    reveal_strlit("Blue");
    reveal_strlit("Magenta");
    reveal_strlit("White");
    reveal_strlit("Custom");
    assert("Yellow"@.len() != "Red"@.len());
    assert("Green"@[0] != "Red"@[0]);
    assert("Green"@[0] != "Yellow"@[0]);
    assert("Cyan"@.len() != "Red"@.len());
    assert("Cyan"@.len() != "Yellow"@.len());
    assert("Cyan"@.len() != "Green"@.len());
    assert("Blue"@.len() != "Red"@.len());
    assert("Blue"@.len() != "Yellow"@.len());
    assert("Blue"@.len() != "Green"@.len());
    assert("Blue"@[0] != "Cyan"@[0]);
    assert("Magenta"@.len() != "Red"@.len());
    assert("Magenta"@.len() != "Yellow"@.len());
    assert("Magenta"@.len() != "Green"@.len());
    assert("Magenta"@.len() != "Cyan"@.len());
    assert("Magenta"@.len() != "Blue"@.len());
    assert("White"@.len() != "Red"@.len());
    assert("White"@.len() != "Yellow"@.len());
    assert("White"@[0] != "Green"@[0]);
    assert("White"@.len() != "Cyan"@.len());
    assert("White"@.len() != "Blue"@.len());
    assert("White"@.len() != "Magenta"@.len());
    assert("Custom"@.len() != "Red"@.len());
    assert("Custom"@[0] != "Yellow"@[0]);
    assert("Custom"@.len() != "Green"@.len());
    assert("Custom"@.len() != "Cyan"@.len());
    assert("Custom"@.len() != "Blue"@.len());
    assert("Custom"@.len() != "Magenta"@.len());
    assert("Custom"@.len() != "White"@.len());
}

/// The eighteen bytes of a crosshair: a checksum that is the sum of the other
/// seventeen modulo 256; then the format byte 1, the gap, the outline, red, green,
/// blue and alpha; the split distance in the low three bits with follow-recoil in the
/// top bit; the fixed gap; the colour in the low three bits, the outline switch in bit
/// three and the inner split alpha above; the outer split alpha with the split size
/// ratio above it (each below 16); the thickness; the style shifted up one bit with the
/// dot, deployed weapon gap, alpha and T-style switches in bits four to seven (for a
/// style below 8); the length; and three zero bytes.
pub proof fn lemma_crosshair_byte_layout(c: CsgoCrosshair)
    ensures
        ({
            let b = crosshair_bytes(c);
            let s = c.scaled;
            &&& b.len() == 18
            &&& b[0] as int == (b[1] + b[2] + b[3] + b[4] + b[5] + b[6] + b[7] + b[8] + b[9] + b[10]
                + b[11] + b[12] + b[13] + b[14] + b[15] + b[16] + b[17]) % 256
            &&& b[1] == 1 && b[2] == s.gap && b[3] == s.outline
            &&& b[4] == c.red && b[5] == c.green && b[6] == c.blue && b[7] == c.alpha
            &&& b[8] & 7u8 == s.split_distance & 7u8 && (b[8] >> 3u8) & 15u8 == 0
            &&& ((b[8] >> 7u8) == 1u8) == c.follow_recoil
            &&& b[9] == s.fixed_crosshair_gap
            &&& b[10] & 7u8 == c.color & 7u8
            &&& (((b[10] >> 3u8) & 1u8) == 1u8) == c.outline_enabled
            &&& b[10] >> 4u8 == s.inner_split_alpha & 15u8
            &&& (s.outer_split_alpha < 16 && s.split_size_ratio < 16) ==> (b[11] & 15u8
                == s.outer_split_alpha && b[11] >> 4u8 == s.split_size_ratio)
            &&& b[12] == s.thickness
            &&& (s.style < 8) ==> {
                &&& (b[13] >> 1u8) & 7u8 == s.style && b[13] & 1u8 == 0
                &&& (((b[13] >> 4u8) & 1u8) == 1u8) == c.center_dot_enabled
                &&& (((b[13] >> 5u8) & 1u8) == 1u8) == c.deployed_weapon_gap_enabled
                &&& (((b[13] >> 6u8) & 1u8) == 1u8) == c.alpha_enabled
                &&& ((b[13] >> 7u8) == 1u8) == c.t_style_enabled
            }
            &&& b[14] == s.length && b[15] == 0 && b[16] == 0 && b[17] == 0
        }),
{
    let body = crosshair_body(c);
    let s = c.scaled;
    reveal_with_fuel(byte_sum, 18);
    let x = s.split_distance;
    let f = flag(c.follow_recoil, 128u8);
    assert(((x & 7u8) | f) & 7u8 == x & 7u8 && (((x & 7u8) | f) >> 3u8) & 15u8 == 0u8
        && ((((x & 7u8) | f) >> 7u8) == 1u8) == (f == 128u8)) by (bit_vector)
        requires
            f == 0u8 || f == 128u8,
    ;
    let col = c.color;
    let o = flag(c.outline_enabled, 8u8);
    let inner = s.inner_split_alpha;
    assert(((col & 7u8) | o | (inner << 4u8)) & 7u8 == col & 7u8 && (((((col & 7u8) | o | (inner
        << 4u8)) >> 3u8) & 1u8) == 1u8) == (o == 8u8) && ((col & 7u8) | o | (inner << 4u8))
        >> 4u8 == inner & 15u8) by (bit_vector)
        requires
            o == 0u8 || o == 8u8,
    ;
    let outer = s.outer_split_alpha;
    let ratio = s.split_size_ratio;
    assert((outer < 16u8 && ratio < 16u8) ==> ((outer | (ratio << 4u8)) & 15u8 == outer && (outer
        | (ratio << 4u8)) >> 4u8 == ratio)) by (bit_vector);
    let st = s.style;
    let d = flag(c.center_dot_enabled, 16u8);
    let g = flag(c.deployed_weapon_gap_enabled, 32u8);
    let a = flag(c.alpha_enabled, 64u8);
    let t = flag(c.t_style_enabled, 128u8);
    let b13 = (st << 1u8) | d | g | a | t;
    assert(st < 8u8 ==> ((b13 >> 1u8) & 7u8 == st && b13 & 1u8 == 0u8 && (((b13 >> 4u8) & 1u8
        == 1u8) == (d == 16u8)) && (((b13 >> 5u8) & 1u8 == 1u8) == (g == 32u8)) && (((b13
        >> 6u8) & 1u8 == 1u8) == (a == 64u8)) && ((b13 >> 7u8 == 1u8) == (t == 128u8))))
        by (bit_vector)
        requires
            d == 0u8 || d == 16u8,
            g == 0u8 || g == 32u8,
            a == 0u8 || a == 64u8,
            t == 0u8 || t == 128u8,
            b13 == (st << 1u8) | d | g | a | t,
    ;
    assert(body.len() == 17);
    assert(body.drop_last().drop_last().drop_last().drop_last().drop_last().drop_last()
        .drop_last().drop_last().drop_last().drop_last().drop_last().drop_last().drop_last()
        .drop_last().drop_last().drop_last().drop_last() =~= Seq::<u8>::empty());
}


/// A decimal digit character reads back as its digit.
proof fn lemma_digit_char_value(d: nat)
    requires
        d < 10,
    ensures
        '0' <= digit_char(d) <= '9',
        (digit_char(d) as u32) - 48 == d,
{
}

/// The decimal digits of a number read back as that number.
proof fn lemma_digits_read_back(n: nat)
    ensures
        all_digits(digits(n)),
        digits(n).len() > 0,
        digits_value(digits(n)) == n,
    decreases n,
{
    lemma_digit_char_value(n % 10);
    if n < 10 {
        assert(digits(n).drop_last() =~= Seq::<char>::empty());
        assert(digits(n).last() == digit_char(n));
        assert(digits_value(digits(n)) == digits_value(digits(n).drop_last()) * 10 + ((digits(
            n,
        ).last() as u32) - 48) as nat);
    } else {
        lemma_digits_read_back(n / 10);
        let d = digits(n);
        assert(d.drop_last() == digits(n / 10));
        assert(d.last() == digit_char(n % 10));
        assert(n == (n / 10) * 10 + n % 10);
        assert(digits_value(d) == digits_value(d.drop_last()) * 10 + ((d.last() as u32) - 48) as nat);
        assert forall|i: int| 0 <= i < d.len() implies '0' <= #[trigger] d[i] <= '9' by {
            if i < d.len() - 1 {
                assert(d[i] == digits(n / 10)[i]);
            }
        }
    }
}

/// Every byte written in decimal, with or without a leading `+`, reads back as itself.
pub proof fn lemma_bytes_read_back(n: u8)
    ensures
        u8_of(digits(n as nat)) == Some(n),
        u8_of(seq!['+'] + digits(n as nat)) == Some(n),
{
    lemma_digits_read_back(n as nat);
    let d = digits(n as nat);
    assert((seq!['+'] + d).subrange(1, d.len() as int + 1) =~= d);
}

} // verus!
