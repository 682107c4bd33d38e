use vstd::prelude::*;
use vstd::string::*;

verus! {

/// Byte value of `#`.
pub const HASH_BYTE: u8 = 35;

/// Byte value of `+`.
pub const PLUS_BYTE: u8 = 43;

/// A UTF-8 continuation byte (`10xxxxxx`): no character starts there.
pub open spec fn is_continuation(b: u8) -> bool {
    0x80 <= b && b <= 0xBF
}

/// The bytes that remain once every leading `#` is removed.
pub open spec fn strip_leading_hash(b: Seq<u8>) -> Seq<u8>
    decreases b.len(),
{
    if b.len() > 0 && b[0] == HASH_BYTE {
        strip_leading_hash(b.drop_first())
    } else {
        b
    }
}

/// The value of one hexadecimal digit, in either case.
pub open spec fn hex_digit_value(b: u8) -> Option<u32> {
    if 48 <= b && b <= 57 {
        Some((b - 48) as u32)
    } else if 97 <= b && b <= 102 {
        Some((b - 87) as u32)
    } else if 65 <= b && b <= 70 {
        Some((b - 55) as u32)
    } else {
        None
    }
}

/// Base-16 value of a two-byte field, read as `u32::from_str_radix` reads it:
/// an optional leading `+` followed by digits.
pub open spec fn parse_hex_pair(b0: u8, b1: u8) -> Option<u32> {
    if b0 == PLUS_BYTE {
        hex_digit_value(b1)
    } else {
        match (hex_digit_value(b0), hex_digit_value(b1)) {
            (Some(hi), Some(lo)) => Some((hi * 16 + lo) as u32),
            _ => None,
        }
    }
}

/// A colour channel: the parsed field, or 255 when the field is not a number.
pub open spec fn channel_value(b0: u8, b1: u8) -> u32 {
    match parse_hex_pair(b0, b1) {
        Some(v) => v,
        None => 255,
    }
}

/// The ABGR colour (alpha 0xFF) that OBS stores for the text `#RRGGBB`,
/// given the text's UTF-8 bytes; opaque white when fewer than six bytes follow the `#`s.
pub open spec fn obs_color_of(bytes: Seq<u8>) -> u32 {
    let t = strip_leading_hash(bytes);
    if t.len() < 6 {
        0xFFFF_FFFF
    } else {
        (0xFF00_0000 + channel_value(t[4], t[5]) * 0x1_0000 + channel_value(t[2], t[3]) * 0x100
            + channel_value(t[0], t[1])) as u32
    }
}

/// The byte offsets 2, 4 and 6 of the colour digits fall on character boundaries,
/// so that the three two-byte fields can be cut out of the text.
pub open spec fn color_fields_splittable(bytes: Seq<u8>) -> bool {
    let t = strip_leading_hash(bytes);
    t.len() >= 6 ==> {
        &&& !is_continuation(t[2])
        &&& !is_continuation(t[4])
        &&& (t.len() > 6 ==> !is_continuation(t[6]))
    }
}

fn hex_digit(b: u8) -> (r: Option<u32>)
    ensures
        r == hex_digit_value(b),
{
    if 48 <= b && b <= 57 {
        Some((b - 48) as u32)
    } else if 97 <= b && b <= 102 {
        Some((b - 87) as u32)
    } else if 65 <= b && b <= 70 {
        Some((b - 55) as u32)
    } else {
        None
    }
}

fn channel(b0: u8, b1: u8) -> (r: u32)
    ensures
        r == channel_value(b0, b1),
        r <= 255,
{
    if b0 == PLUS_BYTE {
        match hex_digit(b1) {
            Some(v) => v,
            None => 255,
        }
    } else {
        match (hex_digit(b0), hex_digit(b1)) {
            (Some(hi), Some(lo)) => hi * 16 + lo,
            _ => 255,
        }
    }
}

/// Converts `"#RRGGBB"` to the ABGR integer that OBS expects for text colours
/// (alpha 0xFF, then blue, green, red). Leading `#`s are skipped; with fewer than six
/// bytes left the result is opaque white, and a field that is not a number counts as 255.
pub fn hex_to_obs_color(hex: &str) -> (color: u32)
    requires
        color_fields_splittable(hex.spec_bytes()),
    ensures
        color == obs_color_of(hex.spec_bytes()),
{
    let b = hex.as_bytes();
    let ghost all = b@;
    let mut i: usize = 0;
    assert(all.skip(0) =~= all);
    while i < b.len() && b[i] == HASH_BYTE
        invariant
            b@ == all,
            i <= b@.len(),
            strip_leading_hash(all) == strip_leading_hash(all.skip(i as int)),
        decreases b@.len() - i,
    {
        assert(all.skip(i as int).drop_first() =~= all.skip(i + 1));
        i = i + 1;
    }
    let ghost t = all.skip(i as int);
    assert(strip_leading_hash(t) == t);
    if b.len() - i < 6 {
        return 0xFFFF_FFFF;
    }
    let r = channel(b[i], b[i + 1]);
    let g = channel(b[i + 2], b[i + 3]);
    let bl = channel(b[i + 4], b[i + 5]);
    0xFF00_0000 + bl * 0x1_0000 + g * 0x100 + r
}

/// Every colour this conversion yields is opaque: its alpha byte is 0xFF.
pub proof fn law_color_is_opaque(bytes: Seq<u8>)
    ensures
        obs_color_of(bytes) / 0x100_0000 == 0xFF,
{
    let t = strip_leading_hash(bytes);
    if t.len() >= 6 {
        let r = channel_value(t[0], t[1]);
        let g = channel_value(t[2], t[3]);
        let b = channel_value(t[4], t[5]);
        assert(r <= 255 && g <= 255 && b <= 255) by {
            assert(hex_digit_value(t[0]) matches Some(v) ==> v < 16);
            assert(hex_digit_value(t[1]) matches Some(v) ==> v < 16);
            assert(hex_digit_value(t[2]) matches Some(v) ==> v < 16);
            assert(hex_digit_value(t[3]) matches Some(v) ==> v < 16);
            assert(hex_digit_value(t[4]) matches Some(v) ==> v < 16);
            assert(hex_digit_value(t[5]) matches Some(v) ==> v < 16);
        }
        assert(b * 0x1_0000 + g * 0x100 + r < 0x100_0000) by (nonlinear_arith)
            requires
                r <= 255,
                g <= 255,
                b <= 255,
        ;
    }
}

/// The byte of the hexadecimal digit `d` (below 16): `0`..`9`, then `a`..`f`, or `A`..`F`
/// when `upper` holds.
pub open spec fn hex_digit_byte(d: int, upper: bool) -> u8 {
    if d < 10 {
        (48 + d) as u8
    } else if upper {
        (55 + d) as u8
    } else {
        (87 + d) as u8
    }
}

/// The text `#RRGGBB` for the channels `r`, `g`, `b` (each below 256), written with
/// two hexadecimal digits per channel, high digit first.
pub open spec fn color_text(r: int, g: int, b: int, upper: bool) -> Seq<u8> {
    seq![
        HASH_BYTE,
        hex_digit_byte(r / 16, upper),
        hex_digit_byte(r % 16, upper),
        hex_digit_byte(g / 16, upper),
        hex_digit_byte(g % 16, upper),
        hex_digit_byte(b / 16, upper),
        hex_digit_byte(b % 16, upper),
    ]
}

proof fn lemma_digit_read_back(d: int, upper: bool)
    requires
        0 <= d < 16,
    ensures
        hex_digit_value(hex_digit_byte(d, upper)) == Some(d as u32),
        hex_digit_byte(d, upper) != PLUS_BYTE,
        hex_digit_byte(d, upper) != HASH_BYTE,
{
}

/// Every colour written `#RRGGBB` with two hexadecimal digits per channel, over the whole
/// digit alphabet in lower or upper case, becomes the ABGR integer with alpha 0xFF, blue
/// in the third byte, green in the second and red in the lowest: each channel is read as
/// its base-16 value.
pub proof fn law_color_channels_read_in_base_16(r: int, g: int, b: int, upper: bool)
    requires
        0 <= r < 256,
        0 <= g < 256,
        0 <= b < 256,
    ensures
        obs_color_of(color_text(r, g, b, upper)) == 0xFF00_0000 + b * 0x1_0000 + g * 0x100 + r,
{
    let t = color_text(r, g, b, upper);
    lemma_digit_read_back(r / 16, upper);
    lemma_digit_read_back(r % 16, upper);
    lemma_digit_read_back(g / 16, upper);
    lemma_digit_read_back(g % 16, upper);
    lemma_digit_read_back(b / 16, upper);
    lemma_digit_read_back(b % 16, upper);
    assert(t.drop_first()[0] != HASH_BYTE);
    assert(strip_leading_hash(t.drop_first()) == t.drop_first());
    assert(strip_leading_hash(t) == t.drop_first());
    let u = t.drop_first();
    assert(channel_value(u[0], u[1]) == r);
    assert(channel_value(u[2], u[3]) == g);
    assert(channel_value(u[4], u[5]) == b);
}

} // verus!
