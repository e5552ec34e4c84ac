//! Integer color handling for scene previews.
use vstd::prelude::*;
use crate::hue::models::{Light, RawHueSceneLightState};
use crate::text::{
    chars_of, decimal, is_whitespace, is_ws, parse_unsigned, parse_unsigned_max, push_char, push_decimal, trim,
    trim_spec,
};
use crate::string_ops::{is_ascii_hex_char, is_ascii_hexdigit, views};
use vstd::utf8::encode_utf8;

verus! {

/// Sum of one channel over a list of colors (0: red, 1: green, 2: blue).
pub open spec fn channel_sum(colors: Seq<(u8, u8, u8)>, channel: int) -> nat
    decreases colors.len(),
{
    if colors.len() == 0 {
        0
    } else {
        channel_sum(colors.drop_last(), channel) + (if channel == 0 {
            colors.last().0
        } else if channel == 1 {
            colors.last().1
        } else {
            colors.last().2
        }) as nat
    }
}

pub proof fn lemma_channel_sum_bound(colors: Seq<(u8, u8, u8)>, channel: int)
    ensures
        channel_sum(colors, channel) <= 255 * colors.len(),
    decreases colors.len(),
{
    if colors.len() > 0 {
        lemma_channel_sum_bound(colors.drop_last(), channel);
    }
}

/// The integer mean of one channel; an empty list averages to zero.
pub open spec fn channel_average(colors: Seq<(u8, u8, u8)>, channel: int) -> nat {
    channel_sum(colors, channel) / (if colors.len() == 0 {
        1
    } else {
        colors.len()
    })
}

/// The integer mean of each channel.
pub fn average_rgb(colors: &[(u8, u8, u8)]) -> (r: (u8, u8, u8))
    requires
        colors@.len() <= 0x0101_0101,
    ensures
        r.0 == channel_average(colors@, 0),
        r.1 == channel_average(colors@, 1),
        r.2 == channel_average(colors@, 2),
{
    let count: u32 = if colors.len() == 0 {
        1
    } else {
        colors.len() as u32
    };
    let mut red: u32 = 0;
    let mut green: u32 = 0;
    let mut blue: u32 = 0;
    let mut i: usize = 0;
    while i < colors.len()
        invariant
            i <= colors@.len(),
            colors@.len() <= 0x0101_0101,
            red == channel_sum(colors@.take(i as int), 0),
            green == channel_sum(colors@.take(i as int), 1),
            blue == channel_sum(colors@.take(i as int), 2),
        decreases colors.len() - i,
    {
        proof {
            lemma_channel_sum_bound(colors@.take(i as int), 0);
            lemma_channel_sum_bound(colors@.take(i as int), 1);
            lemma_channel_sum_bound(colors@.take(i as int), 2);
            assert(colors@.take(i + 1).drop_last() == colors@.take(i as int));
        }
        let (r, g, b) = colors[i];
        red = red + r as u32;
        green = green + g as u32;
        blue = blue + b as u32;
        i += 1;
    }
    proof {
        assert(colors@.take(i as int) == colors@);
        lemma_channel_sum_bound(colors@, 0);
        lemma_channel_sum_bound(colors@, 1);
        lemma_channel_sum_bound(colors@, 2);
        let n: nat = if colors@.len() == 0 { 1 } else { colors@.len() };
        assert(red as nat / n <= 255) by (nonlinear_arith)
            requires red as nat <= 255 * colors@.len(), n >= colors@.len(), n >= 1;
        assert(green as nat / n <= 255) by (nonlinear_arith)
            requires green as nat <= 255 * colors@.len(), n >= colors@.len(), n >= 1;
        assert(blue as nat / n <= 255) by (nonlinear_arith)
            requires blue as nat <= 255 * colors@.len(), n >= colors@.len(), n >= 1;
    }
    ((red / count) as u8, (green / count) as u8, (blue / count) as u8)
}

/// `rgb(<red> <green> <blue>)`, the CSS form of a color.
pub open spec fn css_rgb(rgb: (u8, u8, u8)) -> Seq<char> {
    "rgb("@ + decimal(rgb.0 as nat) + " "@ + decimal(rgb.1 as nat) + " "@ + decimal(rgb.2 as nat)
        + ")"@
}

/// Renders a color in CSS form.
pub fn rgb_to_css(rgb: (u8, u8, u8)) -> (r: String)
    ensures
        r@ == css_rgb(rgb),
{
    let mut out = String::from_str("rgb(");
    push_decimal(&mut out, rgb.0 as u64);
    out.append(" ");
    push_decimal(&mut out, rgb.1 as u64);
    out.append(" ");
    push_decimal(&mut out, rgb.2 as u64);
    out.append(")");
    out
}

/// Where the preview color of one scene light state comes from: its CIE xy coordinates
/// (as `f32` bit patterns) or its hue and saturation, together with its brightness.
#[derive(Clone, Copy, Debug, PartialEq, Eq, Structural)]
pub enum SceneColorSource {
    Xy { x_bits: u32, y_bits: u32, brightness: u8 },
    HueSat { hue: u16, saturation: u8, brightness: u8 },
}

/// The color source of a scene light state: none for a light that is off, has no
/// brightness or has zero brightness; its xy coordinates when present; otherwise its hue
/// and saturation, which default to 8400 and 56.
pub fn scene_lightstate_color_source(state: &RawHueSceneLightState) -> (r: Option<SceneColorSource>)
    ensures
        state.on == Some(false) ==> r is None,
        state.on != Some(false) && (state.bri is None || state.bri == Some(0u8)) ==> r is None,
        state.on != Some(false) && state.bri is Some && state.bri->0 != 0 ==> r == Some(
            match state.xy_bits {
                Some(xy) => SceneColorSource::Xy { x_bits: xy[0], y_bits: xy[1], brightness: state.bri->0 },
                None => SceneColorSource::HueSat {
                    hue: match state.hue {
                        Some(h) => h,
                        None => 8400u16,
                    },
                    saturation: match state.sat {
                        Some(s) => s,
                        None => 56u8,
                    },
                    brightness: state.bri->0,
                },
            },
        ),
{
    if let Some(false) = state.on {
        return None;
    }
    let brightness = match state.bri {
        Some(b) => b,
        None => return None,
    };
    if brightness == 0 {
        return None;
    }
    match state.xy_bits {
        Some(xy) => Some(SceneColorSource::Xy { x_bits: xy[0], y_bits: xy[1], brightness }),
        None => Some(
            SceneColorSource::HueSat {
                hue: match state.hue {
                    Some(h) => h,
                    None => 8400,
                },
                saturation: match state.sat {
                    Some(s) => s,
                    None => 56,
                },
                brightness,
            },
        ),
    }
}


/// CIE x and y as `f32` bit patterns.
#[derive(Clone, Copy, Debug, PartialEq, Eq, Structural)]
pub struct XyBits {
    pub x: u32,
    pub y: u32,
}

/// What the accent colour of a light card is computed from: its brightness, its CIE xy
/// coordinates (as `f32` bit patterns) when it reports them, and the hue and saturation
/// used where the coordinates are missing or name no colour.
#[derive(Clone, Copy, Debug, PartialEq, Eq, Structural)]
pub struct AccentSource {
    pub brightness: u8,
    pub xy_bits: Option<XyBits>,
    pub hue: u16,
    pub saturation: u8,
}

/// The accent source of a light: none without a brightness or at zero brightness;
/// otherwise its brightness, its coordinates, and its hue and saturation, which default
/// to 8000 and 40.
pub fn light_accent_source(light: &Light) -> (r: Option<AccentSource>)
    ensures
        (light.brightness is None || light.brightness == Some(0u8)) ==> r is None,
        light.brightness is Some && light.brightness->0 != 0 ==> r == Some(
            (AccentSource {
                brightness: light.brightness->0,
                xy_bits: match light.xy_bits {
                    Some(xy) => Some((XyBits { x: xy[0], y: xy[1] })),
                    None => None,
                },
                hue: match light.hue {
                    Some(h) => h,
                    None => 8000u16,
                },
                saturation: match light.saturation {
                    Some(s) => s,
                    None => 40u8,
                },
            }),
        ),
{
    let brightness = match light.brightness {
        Some(b) => b,
        None => return None,
    };
    if brightness == 0 {
        return None;
    }
    let xy_bits = match light.xy_bits {
        Some(xy) => Some(XyBits { x: xy[0], y: xy[1] }),
        None => None,
    };
    let hue = match light.hue {
        Some(h) => h,
        None => 8000,
    };
    let saturation = match light.saturation {
        Some(s) => s,
        None => 40,
    };
    Some(AccentSource { brightness, xy_bits, hue, saturation })
}

/// Whether a light reports that it is on.
pub open spec fn is_lit(light: Light) -> bool {
    light.is_on == Some(true)
}

/// The lights whose colours make a room's accent: those that are on, or all of them
/// when none is.
pub open spec fn accent_pool(lights: Seq<Light>) -> Seq<Light> {
    let lit = lights.filter(|l: Light| is_lit(l));
    if lit.len() > 0 {
        lit
    } else {
        lights
    }
}

/// The lights whose colours make a room's accent, in order.
pub fn accent_lights(lights: &Vec<Light>) -> (r: Vec<Light>)
    ensures
        r@ == accent_pool(lights@),
{
    broadcast use vstd::seq::Seq::lemma_filter_push;

    let ghost keep = |l: Light| is_lit(l);
    let mut lit: Vec<Light> = Vec::new();
    let mut i: usize = 0;
    while i < lights.len()
        invariant
            i <= lights@.len(),
            lit@ == lights@.take(i as int).filter(keep),
            keep == (|l: Light| is_lit(l)),
        decreases lights.len() - i,
    {
        proof {
            assert(lights@.take(i + 1) == lights@.take(i as int).push(lights@[i as int]));
            lights@.take(i as int).lemma_filter_push(lights@[i as int], keep);
        }
        if lights[i].is_on == Some(true) {
            lit.push(lights[i].duplicate());
        }
        i += 1;
    }
    assert(lights@.take(lights@.len() as int) == lights@);
    if lit.len() > 0 {
        lit
    } else {
        let mut all: Vec<Light> = Vec::new();
        let mut k: usize = 0;
        while k < lights.len()
            invariant
                k <= lights@.len(),
                all@ == lights@.take(k as int),
            decreases lights.len() - k,
        {
            assert(lights@.take(k + 1) == lights@.take(k as int).push(lights@[k as int]));
            all.push(lights[k].duplicate());
            k += 1;
        }
        assert(lights@.take(lights@.len() as int) == lights@);
        all
    }
}

/// The accent colour of a room from the accent colours of its lights: their channel
/// means in CSS form, or none without colours.
pub fn room_accent_css(colors: &[(u8, u8, u8)]) -> (r: Option<String>)
    requires
        colors@.len() <= 0x0101_0101,
    ensures
        colors@.len() == 0 ==> r is None,
        colors@.len() > 0 ==> (r matches Some(css) && css@ == css_rgb(
            (
                channel_average(colors@, 0) as u8,
                channel_average(colors@, 1) as u8,
                channel_average(colors@, 2) as u8,
            ),
        )),
{
    if colors.len() == 0 {
        return None;
    }
    let mean = average_rgb(colors);
    Some(rgb_to_css(mean))
}

/// Value of an ASCII hexadecimal digit.
pub open spec fn hex_value(c: char) -> nat {
    if '0' <= c && c <= '9' {
        (c as int - 48) as nat
    } else if 'a' <= c && c <= 'f' {
        (c as int - 87) as nat
    } else {
        (c as int - 55) as nat
    }
}

/// `u8::from_str_radix` in base 16 on a two-character piece: an optional `+`, then
/// hexadecimal digits.
pub open spec fn hex_pair(a: char, b: char) -> Option<u8> {
    if a == '+' && is_ascii_hex_char(b) {
        Some(hex_value(b) as u8)
    } else if is_ascii_hex_char(a) && is_ascii_hex_char(b) {
        Some((16 * hex_value(a) + hex_value(b)) as u8)
    } else {
        None
    }
}

/// Whether byte offset `k` of the UTF-8 encoding of `s` falls between two characters.
pub open spec fn utf8_boundary(s: Seq<char>, k: int) -> bool {
    exists|i: int| 0 <= i <= s.len() && #[trigger] encode_utf8(s.take(i)).len() == k
}

/// The channels of `#rrggbb`, `body` being the text after `#`: six characters, read as
/// three two-character pieces.
pub open spec fn hex_color_body(body: Seq<char>) -> Option<(u8, u8, u8)> {
    if body.len() != 6 {
        None
    } else {
        match (hex_pair(body[0], body[1]), hex_pair(body[2], body[3]), hex_pair(body[4], body[5])) {
            (Some(r), Some(g), Some(b)) => Some((r, g, b)),
            _ => None,
        }
    }
}

/// Separators between the channels of `rgb(..)`: commas and whitespace.
pub open spec fn is_color_separator(c: char) -> bool {
    c == ',' || is_ws(c)
}

/// The non-empty pieces of `s` between separators that are still to come, `current`
/// being the part of a piece read so far.
pub open spec fn color_fields_from(s: Seq<char>, current: Seq<char>) -> Seq<Seq<char>>
    decreases s.len(),
{
    if s.len() == 0 {
        if current.len() > 0 {
            seq![current]
        } else {
            Seq::empty()
        }
    } else if is_color_separator(s[0]) {
        (if current.len() > 0 {
            seq![current]
        } else {
            Seq::<Seq<char>>::empty()
        }) + color_fields_from(s.drop_first(), Seq::empty())
    } else {
        color_fields_from(s.drop_first(), current.push(s[0]))
    }
}

/// The non-empty pieces of `s` between commas and whitespace, in order.
pub open spec fn color_fields(s: Seq<char>) -> Seq<Seq<char>> {
    color_fields_from(s, Seq::empty())
}

/// Three decimal channels, each at most 255.
pub open spec fn rgb_from_fields(parts: Seq<Seq<char>>) -> Option<(u8, u8, u8)> {
    if parts.len() != 3 {
        None
    } else {
        match (parse_unsigned(parts[0], 255), parse_unsigned(parts[1], 255), parse_unsigned(parts[2], 255)) {
            (Some(r), Some(g), Some(b)) => Some((r as u8, g as u8, b as u8)),
            _ => None,
        }
    }
}

/// Whether `t` reads `rgb(` .. `)`.
pub open spec fn is_rgb_call(t: Seq<char>) -> bool {
    &&& t.len() >= 5
    &&& t[0] == 'r' && t[1] == 'g' && t[2] == 'b' && t[3] == '('
    &&& t.last() == ')'
}

/// The channels that a trimmed colour text names: `#rrggbb` in hexadecimal, or
/// `rgb(r, g, b)` in decimal; anything else names none.
pub open spec fn color_text_channels(t: Seq<char>) -> Option<(u8, u8, u8)> {
    if t.len() > 0 && t[0] == '#' {
        hex_color_body(t.drop_first())
    } else if is_rgb_call(t) {
        rgb_from_fields(color_fields(t.subrange(4, t.len() - 1)))
    } else {
        None
    }
}

/// A colour text whose `#` form can be cut into its three byte pieces: where the text
/// after `#` is six bytes long, bytes 2 and 4 start characters.
pub open spec fn color_text_sliceable(value: Option<Seq<char>>) -> bool {
    match value {
        None => true,
        Some(v) => {
            let t = trim_spec(v);
            (t.len() > 0 && t[0] == '#' && encode_utf8(t.drop_first()).len() == 6) ==> (utf8_boundary(
                t.drop_first(),
                2,
            ) && utf8_boundary(t.drop_first(), 4))
        },
    }
}

fn hex_digit_value(c: char) -> (r: u8)
    requires
        is_ascii_hex_char(c),
    ensures
        r == hex_value(c),
        r < 16,
{
    if '0' <= c && c <= '9' {
        (c as u32 - 48) as u8
    } else if 'a' <= c && c <= 'f' {
        (c as u32 - 87) as u8
    } else {
        (c as u32 - 55) as u8
    }
}

fn read_hex_pair(a: char, b: char) -> (r: Option<u8>)
    ensures
        r == hex_pair(a, b),
{
    if a == '+' && is_ascii_hexdigit(b) {
        Some(hex_digit_value(b))
    } else if is_ascii_hexdigit(a) && is_ascii_hexdigit(b) {
        Some(16 * hex_digit_value(a) + hex_digit_value(b))
    } else {
        None
    }
}

/// The non-empty pieces of `chars[lo..hi]` between commas and whitespace.
fn split_color_fields(chars: &Vec<char>, lo: usize, hi: usize) -> (r: Vec<String>)
    requires
        lo <= hi <= chars@.len(),
    ensures
        views(r@) == color_fields(chars@.subrange(lo as int, hi as int)),
{
    let ghost whole = chars@.subrange(lo as int, hi as int);
    let mut out: Vec<String> = Vec::new();
    let mut current = String::new();
    let mut i: usize = lo;
    assert(chars@.subrange(lo as int, hi as int) =~= whole);
    assert(views(out@) + color_fields_from(whole, current@) =~= color_fields(whole));
    while i < hi
        invariant
            lo <= i <= hi <= chars@.len(),
            whole == chars@.subrange(lo as int, hi as int),
            views(out@) + color_fields_from(chars@.subrange(i as int, hi as int), current@) == color_fields(whole),
        decreases hi - i,
    {
        let ghost rest = chars@.subrange(i as int, hi as int);
        assert(rest.drop_first() =~= chars@.subrange(i + 1, hi as int));
        let c = chars[i];
        if c == ',' || is_whitespace(c) {
            if current.unicode_len() > 0 {
                let ghost before = views(out@);
                let ghost tail = color_fields_from(chars@.subrange(i + 1, hi as int), Seq::empty());
                let ghost first = current@;
                out.push(current);
                assert(views(out@) =~= before.push(first));
                assert(before.push(first) + tail =~= before + (seq![first] + tail));
                current = String::new();
            } else {
                assert(current@ =~= Seq::<char>::empty());
                assert(Seq::<Seq<char>>::empty() + color_fields_from(chars@.subrange(i + 1, hi as int), Seq::empty())
                    =~= color_fields_from(chars@.subrange(i + 1, hi as int), Seq::empty()));
            }
        } else {
            push_char(&mut current, c);
        }
        i += 1;
    }
    assert(chars@.subrange(hi as int, hi as int) =~= Seq::<char>::empty());
    if current.unicode_len() > 0 {
        let ghost before = views(out@);
        let ghost cur = current@;
        out.push(current);
        assert(views(out@) =~= before + seq![cur]);
    } else {
        assert(views(out@) =~= views(out@) + Seq::<Seq<char>>::empty());
    }
    out
}

/// The channels of a theme or room colour written as `#rrggbb` or `rgb(r, g, b)`, after
/// trimming surrounding whitespace; `None` for a missing or unreadable colour.
pub fn parse_color_channels(value: Option<&str>) -> (r: Option<(u8, u8, u8)>)
    requires
        color_text_sliceable(match value {
            Some(v) => Some(v@),
            None => None,
        }),
    ensures
        r == match value {
            Some(v) => color_text_channels(trim_spec(v@)),
            None => None,
        },
{
    let v = match value {
        Some(v) => v,
        None => {
            return None;
        },
    };
    let t = trim(v);
    let chars = chars_of(t);
    let n = chars.len();
    if n > 0 && chars[0] == '#' {
        let ghost body = chars@.drop_first();
        if n != 7 {
            return None;
        }
        let red = read_hex_pair(chars[1], chars[2]);
        let green = read_hex_pair(chars[3], chars[4]);
        let blue = read_hex_pair(chars[5], chars[6]);
        assert(body[0] == chars@[1] && body[1] == chars@[2] && body[2] == chars@[3]);
        assert(body[3] == chars@[4] && body[4] == chars@[5] && body[5] == chars@[6]);
        return match (red, green, blue) {
            (Some(r), Some(g), Some(b)) => Some((r, g, b)),
            _ => None,
        };
    }
    if !(n >= 5 && chars[0] == 'r' && chars[1] == 'g' && chars[2] == 'b' && chars[3] == '(' && chars[n - 1] == ')') {
        return None;
    }
    let parts = split_color_fields(&chars, 4, n - 1);
    if parts.len() != 3 {
        return None;
    }
    assert(parts[0]@ == views(parts@)[0] && parts[1]@ == views(parts@)[1] && parts[2]@ == views(parts@)[2]);
    let red = parse_unsigned_max(&parts[0], 255);
    let green = parse_unsigned_max(&parts[1], 255);
    let blue = parse_unsigned_max(&parts[2], 255);
    match (red, green, blue) {
        (Some(r), Some(g), Some(b)) => Some((r as u8, g as u8, b as u8)),
        _ => None,
    }
}

} // verus!
