//! The assistant's small rules: settings validation, endpoints, option parsing, colour
//! normalisation, light-state building, outcome records and error-text truncation.
use vstd::prelude::*;
use vstd::utf8::{decode_utf8, encode_utf8, encode_utf8_decode_utf8, is_char_boundary};
use crate::hue::color::{color_text_channels, color_text_sliceable, utf8_boundary};
use crate::hue::config::opt_chars;
use crate::hue::models::{AudioSyncColorPalette, AudioSyncSpeedMode, LightStateUpdate};
use crate::ollama::models::{OllamaActionOutcome, OllamaSettings};
use crate::string_ops::{
    ascii_lower, ascii_lowercase, ascii_lowercase_spec, is_ascii_alnum_char, is_ascii_alphanumeric, is_ascii_hex_char,
    is_ascii_hexdigit, to_ascii_lowercase, trailing_run, trim_end_matches_char, utf8_len_up_to,
};
use crate::text::{chars_of, ends_with, has_suffix, owned, push_char, str_eq, trim, trim_spec};

verus! {

/// Message when the base URL is blank.
pub open spec fn base_url_required() -> Seq<char> {
    "Ollama base URL is required."@
}

/// What is wrong with the settings, if anything: a blank base URL, else a blank model.
pub open spec fn settings_problem(settings: OllamaSettings) -> Option<Seq<char>> {
    if trim_spec(settings.base_url@).len() == 0 {
        Some(base_url_required())
    } else if trim_spec(settings.model@).len() == 0 {
        Some("Ollama model is required."@)
    } else {
        None
    }
}

/// Checks that the base URL and the model name are not blank.
pub fn validate_ollama_settings(settings: &OllamaSettings) -> (r: Result<(), String>)
    ensures
        match settings_problem(*settings) {
            Some(m) => r matches Err(e) && e@ == m,
            None => r is Ok,
        },
{
    if trim(settings.base_url.as_str()).unicode_len() == 0 {
        return Err(String::from_str("Ollama base URL is required."));
    }
    if trim(settings.model.as_str()).unicode_len() == 0 {
        return Err(String::from_str("Ollama model is required."));
    }
    Ok(())
}

/// A string trimmed, or nothing when it is blank.
pub open spec fn cleaned(value: Option<Seq<char>>) -> Option<Seq<char>> {
    match value {
        Some(v) => if trim_spec(v).len() == 0 {
            None
        } else {
            Some(trim_spec(v))
        },
        None => None,
    }
}

/// The trimmed value, or `None` when there is none or it is blank.
pub fn clean_optional_string(value: Option<String>) -> (r: Option<String>)
    ensures
        opt_chars(r) == cleaned(opt_chars(value)),
{
    match value {
        Some(v) => {
            let t = trim(v.as_str());
            if t.unicode_len() == 0 {
                None
            } else {
                Some(owned(t))
            }
        },
        None => None,
    }
}

/// The ASCII letters and digits of `s`, lower-cased.
pub open spec fn token_spec(s: Seq<char>) -> Seq<char>
    decreases s.len(),
{
    if s.len() == 0 {
        Seq::empty()
    } else if is_ascii_alnum_char(s.last()) {
        token_spec(s.drop_last()).push(ascii_lower(s.last()))
    } else {
        token_spec(s.drop_last())
    }
}

/// Keeps the ASCII letters and digits of `value`, lower-cased, so that spellings such as
/// `Neon-Pulse` and `neon_pulse` compare equal.
pub fn normalize_token(value: &str) -> (r: String)
    ensures
        r@ == token_spec(value@),
{
    let chars = chars_of(value);
    let mut out = String::new();
    let mut i: usize = 0;
    while i < chars.len()
        invariant
            chars@ == value@,
            i <= chars@.len(),
            out@ == token_spec(value@.take(i as int)),
        decreases chars.len() - i,
    {
        assert(value@.take(i + 1).drop_last() =~= value@.take(i as int));
        if is_ascii_alphanumeric(chars[i]) {
            push_char(&mut out, to_ascii_lowercase(chars[i]));
        }
        i += 1;
    }
    assert(value@.take(chars@.len() as int) =~= value@);
    out
}

/// The speed mode that a planned value names: blank keeps `fallback`, `slow` and `high`
/// (in any spelling that normalises to them) pick those modes, anything else is medium.
pub open spec fn speed_mode_spec(value: Option<Seq<char>>, fallback: AudioSyncSpeedMode) -> AudioSyncSpeedMode {
    match value {
        Some(v) if trim_spec(v).len() > 0 => {
            let t = token_spec(trim_spec(v));
            if t == "slow"@ {
                AudioSyncSpeedMode::Slow
            } else if t == "high"@ {
                AudioSyncSpeedMode::High
            } else {
                AudioSyncSpeedMode::Medium
            }
        },
        _ => fallback,
    }
}

/// The view of an optional string slice.
pub open spec fn opt_str(o: Option<&str>) -> Option<Seq<char>> {
    match o {
        Some(s) => Some(s@),
        None => None,
    }
}

/// Parses the speed mode of an audio sync action.
pub fn parse_audio_sync_speed_mode(value: Option<&str>, fallback: AudioSyncSpeedMode) -> (r: AudioSyncSpeedMode)
    ensures
        r == speed_mode_spec(opt_str(value), fallback),
{
    let v = match value {
        Some(v) => trim(v),
        None => {
            return fallback;
        },
    };
    if v.unicode_len() == 0 {
        return fallback;
    }
    let token = normalize_token(v);
    proof {
        reveal_strlit("slow");
        reveal_strlit("high");
    }
    if str_eq(token.as_str(), "slow") {
        AudioSyncSpeedMode::Slow
    } else if str_eq(token.as_str(), "high") {
        AudioSyncSpeedMode::High
    } else {
        AudioSyncSpeedMode::Medium
    }
}

/// The palette that a normalised token names; unknown names are the current room's
/// colours.
pub open spec fn palette_for_token(t: Seq<char>) -> AudioSyncColorPalette {
    if t == "sunset"@ {
        AudioSyncColorPalette::Sunset
    } else if t == "aurora"@ {
        AudioSyncColorPalette::Aurora
    } else if t == "ocean"@ {
        AudioSyncColorPalette::Ocean
    } else if t == "rose"@ {
        AudioSyncColorPalette::Rose
    } else if t == "mono"@ {
        AudioSyncColorPalette::Mono
    } else if t == "neonpulse"@ || t == "neonflux"@ {
        AudioSyncColorPalette::NeonPulse
    } else if t == "prism"@ {
        AudioSyncColorPalette::Prism
    } else if t == "vocalglow"@ || t == "vocal"@ {
        AudioSyncColorPalette::VocalGlow
    } else if t == "fireice"@ {
        AudioSyncColorPalette::FireIce
    } else {
        AudioSyncColorPalette::CurrentRoom
    }
}

/// The colour palette that a planned value names: blank keeps `fallback`.
pub open spec fn color_palette_spec(value: Option<Seq<char>>, fallback: AudioSyncColorPalette) -> AudioSyncColorPalette {
    match value {
        Some(v) if trim_spec(v).len() > 0 => palette_for_token(token_spec(trim_spec(v))),
        _ => fallback,
    }
}

/// Parses the colour palette of an audio sync action.
pub fn parse_audio_sync_color_palette(value: Option<&str>, fallback: AudioSyncColorPalette) -> (r:
    AudioSyncColorPalette)
    ensures
        r == color_palette_spec(opt_str(value), fallback),
{
    let v = match value {
        Some(v) => trim(v),
        None => {
            return fallback;
        },
    };
    if v.unicode_len() == 0 {
        return fallback;
    }
    let token = normalize_token(v);
    let t = token.as_str();
    proof {
        reveal_strlit("sunset");
        reveal_strlit("aurora");
        reveal_strlit("ocean");
        reveal_strlit("rose");
        reveal_strlit("mono");
        reveal_strlit("neonpulse");
        reveal_strlit("neonflux");
        reveal_strlit("prism");
        reveal_strlit("vocalglow");
        reveal_strlit("vocal");
        reveal_strlit("fireice");
    }
    if str_eq(t, "sunset") {
        AudioSyncColorPalette::Sunset
    } else if str_eq(t, "aurora") {
        AudioSyncColorPalette::Aurora
    } else if str_eq(t, "ocean") {
        AudioSyncColorPalette::Ocean
    } else if str_eq(t, "rose") {
        AudioSyncColorPalette::Rose
    } else if str_eq(t, "mono") {
        AudioSyncColorPalette::Mono
    } else if str_eq(t, "neonpulse") || str_eq(t, "neonflux") {
        AudioSyncColorPalette::NeonPulse
    } else if str_eq(t, "prism") {
        AudioSyncColorPalette::Prism
    } else if str_eq(t, "vocalglow") || str_eq(t, "vocal") {
        AudioSyncColorPalette::VocalGlow
    } else if str_eq(t, "fireice") {
        AudioSyncColorPalette::FireIce
    } else {
        AudioSyncColorPalette::CurrentRoom
    }
}

/// Whether every character of `s` after the first is an ASCII hex digit.
pub open spec fn hex_after_first(s: Seq<char>) -> bool {
    forall|i: int| 1 <= i < s.len() ==> is_ascii_hex_char(#[trigger] s[i])
}

/// A colour as `#rrggbb` in lower case: the trimmed value, with `#` put in front when it
/// lacks one, kept only when six hex digits follow the `#`.
pub open spec fn hex_color_spec(value: Option<Seq<char>>) -> Option<Seq<char>> {
    match cleaned(value) {
        Some(v) => {
            let prefixed = if v.len() > 0 && v[0] == '#' {
                v
            } else {
                seq!['#'] + v
            };
            if prefixed.len() == 7 && hex_after_first(prefixed) {
                Some(ascii_lowercase_spec(prefixed))
            } else {
                None
            }
        },
        None => None,
    }
}

/// Whether every character after the first is an ASCII hex digit.
fn all_hex_after_first(chars: &Vec<char>) -> (r: bool)
    ensures
        r == hex_after_first(chars@),
{
    let mut i: usize = 1;
    while i < chars.len()
        invariant
            1 <= i,
            i <= chars@.len() || chars@.len() == 0,
            forall|k: int| 1 <= k < i && k < chars@.len() ==> is_ascii_hex_char(#[trigger] chars@[k]),
        decreases chars.len() - i,
    {
        if !is_ascii_hexdigit(chars[i]) {
            assert(!is_ascii_hex_char(chars@[i as int]));
            return false;
        }
        i += 1;
    }
    true
}

/// Normalises a colour given as hex digits, with or without `#`.
pub fn normalize_hex_color(value: Option<String>) -> (r: Option<String>)
    ensures
        opt_chars(r) == hex_color_spec(opt_chars(value)),
{
    let v = match clean_optional_string(value) {
        Some(v) => v,
        None => {
            return None;
        },
    };
    let chars = chars_of(v.as_str());
    let prefixed = if chars.len() > 0 && chars[0] == '#' {
        v
    } else {
        let mut p = String::new();
        push_char(&mut p, '#');
        let p = p.concat(v.as_str());
        assert(p@ =~= seq!['#'] + v@);
        p
    };
    let pchars = chars_of(prefixed.as_str());
    if pchars.len() != 7 || !all_hex_after_first(&pchars) {
        return None;
    }
    Some(ascii_lowercase(prefixed.as_str()))
}

/// A normalised colour is kept as it is by a second normalisation.
pub proof fn lemma_hex_color_idempotent(value: Option<Seq<char>>)
    ensures
        hex_color_spec(value) matches Some(c) ==> hex_color_spec(Some(c)) == Some(c),
{
    if let Some(c) = hex_color_spec(value) {
        let v = cleaned(value)->0;
        let prefixed = if v.len() > 0 && v[0] == '#' {
            v
        } else {
            seq!['#'] + v
        };
        assert(prefixed[0] == '#');
        assert(c[0] == '#');
        assert(!crate::text::is_ws(c[0]));
        assert forall|i: int| 1 <= i < c.len() implies is_ascii_hex_char(#[trigger] c[i]) && !crate::text::is_ws(
            c[i],
        ) by {
            assert(is_ascii_hex_char(prefixed[i]));
        }
        crate::text::lemma_leading_ws_char(c, 0);
        crate::text::lemma_trailing_ws_char(c, c.len() as int);
        assert(trim_spec(c) =~= c);
        let lowered = ascii_lowercase_spec(c);
        assert forall|i: int| 0 <= i < c.len() implies #[trigger] lowered[i] == c[i] by {
            if i > 0 {
                assert(is_ascii_hex_char(prefixed[i]));
            }
        }
        assert(lowered =~= c);
    }
}

/// A text of ASCII characters takes one byte per character in UTF-8.
proof fn lemma_ascii_utf8_len(s: Seq<char>)
    requires
        forall|i: int| 0 <= i < s.len() ==> (#[trigger] s[i]) as u32 <= 0x7F,
    ensures
        encode_utf8(s).len() == s.len(),
    decreases s.len(),
{
    if s.len() > 0 {
        assert forall|i: int| 0 <= i < s.drop_first().len() implies (#[trigger] s.drop_first()[i]) as u32 <= 0x7F by {
            assert(s.drop_first()[i] == s[i + 1]);
        }
        lemma_ascii_utf8_len(s.drop_first());
    }
}

/// A colour normalised to `#rrggbb` is one that the colour reader accepts: it can be cut
/// into its byte pieces, and it names three channels.
pub proof fn lemma_normalized_hex_color_reads(value: Option<Seq<char>>)
    ensures
        hex_color_spec(value) matches Some(c) ==> color_text_sliceable(Some(c)) && color_text_channels(
            trim_spec(c),
        ) is Some,
{
    if let Some(c) = hex_color_spec(value) {
        let v = cleaned(value)->0;
        let prefixed = if v.len() > 0 && v[0] == '#' {
            v
        } else {
            seq!['#'] + v
        };
        assert(prefixed[0] == '#');
        assert(c[0] == '#');
        assert(!crate::text::is_ws(c[0]));
        assert forall|i: int| 1 <= i < c.len() implies is_ascii_hex_char(#[trigger] c[i]) && !crate::text::is_ws(
            c[i],
        ) by {
            assert(is_ascii_hex_char(prefixed[i]));
        }
        crate::text::lemma_leading_ws_char(c, 0);
        crate::text::lemma_trailing_ws_char(c, c.len() as int);
        assert(trim_spec(c) =~= c);
        let body = c.drop_first();
        assert forall|i: int| 0 <= i < body.len() implies (#[trigger] body[i]) as u32 <= 0x7F by {
            assert(body[i] == c[i + 1]);
            assert(is_ascii_hex_char(c[i + 1]));
        }
        assert(is_ascii_hex_char(body[0]) && is_ascii_hex_char(body[1]) && is_ascii_hex_char(body[2]));
        assert(is_ascii_hex_char(body[3]) && is_ascii_hex_char(body[4]) && is_ascii_hex_char(body[5]));
        lemma_ascii_utf8_len(body);
        lemma_ascii_utf8_len(body.take(2));
        lemma_ascii_utf8_len(body.take(4));
        assert(encode_utf8(body.take(2)).len() == 2);
        assert(encode_utf8(body.take(4)).len() == 4);
        assert(utf8_boundary(body, 2));
        assert(utf8_boundary(body, 4));
    }
}

/// The URL of one Ollama API route: the base URL trimmed and without trailing slashes,
/// followed by `/api/<route>`, or by `/<route>` when it already ends with `/api`.
pub open spec fn endpoint_spec(base_url: Seq<char>, route: Seq<char>) -> Result<Seq<char>, Seq<char>> {
    let t = trim_spec(base_url);
    let trimmed = t.take(t.len() - trailing_run(t, '/'));
    if trimmed.len() == 0 {
        Err(base_url_required())
    } else if has_suffix(trimmed, "/api"@) {
        Ok(trimmed + "/"@ + route)
    } else {
        Ok(trimmed + "/api/"@ + route)
    }
}

/// The view of a result of two strings.
pub open spec fn result_chars(r: Result<String, String>) -> Result<Seq<char>, Seq<char>> {
    match r {
        Ok(s) => Ok(s@),
        Err(e) => Err(e@),
    }
}

fn ollama_endpoint(base_url: &str, route: &str) -> (r: Result<String, String>)
    ensures
        result_chars(r) == endpoint_spec(base_url@, route@),
{
    let trimmed = trim_end_matches_char(trim(base_url), '/');
    if trimmed.unicode_len() == 0 {
        return Err(String::from_str("Ollama base URL is required."));
    }
    if ends_with(trimmed, "/api") {
        Ok(owned(trimmed).concat("/").concat(route))
    } else {
        Ok(owned(trimmed).concat("/api/").concat(route))
    }
}

/// The chat endpoint of an Ollama server.
pub fn ollama_chat_endpoint(base_url: &str) -> (r: Result<String, String>)
    ensures
        result_chars(r) == endpoint_spec(base_url@, "chat"@),
{
    ollama_endpoint(base_url, "chat")
}

/// The model-listing endpoint of an Ollama server.
pub fn ollama_tags_endpoint(base_url: &str) -> (r: Result<String, String>)
    ensures
        result_chars(r) == endpoint_spec(base_url@, "tags"@),
{
    ollama_endpoint(base_url, "tags")
}

/// The longest error detail kept, in bytes.
pub const ERROR_DETAIL_LIMIT: usize = 400;

/// Whether the trimmed text can be cut after its first 400 bytes: it is no longer than
/// that, or a character starts there.
pub open spec fn truncatable(value: Seq<char>) -> bool {
    let bytes = encode_utf8(trim_spec(value));
    bytes.len() <= 400 || is_char_boundary(bytes, 400)
}

/// The trimmed text, cut after 400 bytes and marked with `…` when it is longer.
pub open spec fn truncated_for_error(value: Seq<char>) -> Seq<char> {
    let t = trim_spec(value);
    let bytes = encode_utf8(t);
    if bytes.len() <= 400 {
        t
    } else {
        decode_utf8(bytes.subrange(0, 400)) + "…"@
    }
}

/// Whether a text can be shortened for an error message: its trimmed form is at most
/// 400 bytes long, or byte 400 starts a character.
pub fn is_truncatable(value: &str) -> (r: bool)
    ensures
        r == truncatable(value@),
{
    let trimmed = trim(value);
    if utf8_len_up_to(trimmed, ERROR_DETAIL_LIMIT) <= ERROR_DETAIL_LIMIT {
        true
    } else {
        trimmed.is_char_boundary(ERROR_DETAIL_LIMIT)
    }
}

/// Shortens a response body for an error message.
pub fn truncate_for_error(value: &str) -> (r: String)
    requires
        truncatable(value@),
    ensures
        r@ == truncated_for_error(value@),
{
    let trimmed = trim(value);
    if utf8_len_up_to(trimmed, ERROR_DETAIL_LIMIT) <= ERROR_DETAIL_LIMIT {
        owned(trimmed)
    } else {
        let (head, _) = trimmed.split_at(ERROR_DETAIL_LIMIT);
        proof {
            encode_utf8_decode_utf8(head@);
        }
        owned(head).concat("…")
    }
}

/// An outcome with the given status.
pub open spec fn outcome(action: Seq<char>, target: Seq<char>, status: Seq<char>, detail: Seq<char>) -> (
    Seq<char>,
    Seq<char>,
    Seq<char>,
    Seq<char>,
) {
    (action, target, status, detail)
}

/// The fields of an outcome.
pub open spec fn outcome_view(o: OllamaActionOutcome) -> (Seq<char>, Seq<char>, Seq<char>, Seq<char>) {
    (o.action@, o.target@, o.status@, o.detail@)
}

/// An action that succeeded.
pub fn action_ok(action: &str, target: String, detail: String) -> (r: OllamaActionOutcome)
    ensures
        outcome_view(r) == outcome(action@, target@, "ok"@, detail@),
{
    OllamaActionOutcome { action: owned(action), target, status: String::from_str("ok"), detail }
}

/// An action that succeeded for some of its lights only.
pub fn action_partial(action: &str, target: String, detail: String) -> (r: OllamaActionOutcome)
    ensures
        outcome_view(r) == outcome(action@, target@, "partial"@, detail@),
{
    OllamaActionOutcome { action: owned(action), target, status: String::from_str("partial"), detail }
}

/// An action that failed.
pub fn action_error(action: &str, target: String, detail: String) -> (r: OllamaActionOutcome)
    ensures
        outcome_view(r) == outcome(action@, target@, "error"@, detail@),
{
    OllamaActionOutcome { action: owned(action), target, status: String::from_str("error"), detail }
}

/// The plural suffix for a count: empty for one, `s` otherwise.
pub fn pluralize(count: usize) -> (r: &'static str)
    ensures
        r@ == (if count == 1 {
            ""@
        } else {
            "s"@
        }),
{
    if count == 1 {
        ""
    } else {
        "s"
    }
}

/// A planned brightness or saturation brought into `lo..=254`.
pub open spec fn clamp_to(value: int, lo: int, hi: int) -> int {
    if value < lo {
        lo
    } else if value > hi {
        hi
    } else {
        value
    }
}

/// The light state that a planned action asks for: power is switched on when a colour or
/// brightness is given without it, brightness is brought into 1..=254, saturation into
/// 0..=254 and hue into 0..=65535; a state with no field at all is refused.
pub open spec fn light_state_spec(
    on: Option<bool>,
    brightness: Option<u16>,
    saturation: Option<u16>,
    hue: Option<u32>,
    transition_time: Option<u16>,
) -> Option<LightStateUpdate> {
    let on = if on is None && (brightness is Some || saturation is Some || hue is Some) {
        Some(true)
    } else {
        on
    };
    let state = LightStateUpdate {
        on,
        brightness: match brightness {
            Some(b) => Some(clamp_to(b as int, 1, 254) as u8),
            None => None,
        },
        saturation: match saturation {
            Some(s) => Some(clamp_to(s as int, 0, 254) as u8),
            None => None,
        },
        hue: match hue {
            Some(h) => Some(clamp_to(h as int, 0, 65535) as u16),
            None => None,
        },
        transition_time,
    };
    if state.on is None && state.brightness is None && state.saturation is None && state.hue is None
        && state.transition_time is None {
        None
    } else {
        Some(state)
    }
}

/// What a planned light state does with its fields: a power field given is kept; with no
/// power field, a brightness, saturation or hue switches the light on; each level given is
/// kept when it is in range and otherwise moved to the nearest end (brightness 1..=254,
/// saturation 0..=254, hue 0..=65535); a level not given stays unset; the transition is
/// kept; and only a state with no field at all is refused.
pub proof fn lemma_light_state_fields(
    on: Option<bool>,
    brightness: Option<u16>,
    saturation: Option<u16>,
    hue: Option<u32>,
    transition_time: Option<u16>,
)
    ensures
        light_state_spec(on, brightness, saturation, hue, transition_time) is None <==> (on is None
            && brightness is None && saturation is None && hue is None && transition_time is None),
        light_state_spec(on, brightness, saturation, hue, transition_time) matches Some(s) ==> {
            &&& on matches Some(x) ==> s.on == Some(x)
            &&& (on is None && (brightness is Some || saturation is Some || hue is Some)) ==> s.on == Some(true)
            &&& (on is None && brightness is None && saturation is None && hue is None) ==> s.on is None
            &&& brightness is None ==> s.brightness is None
            &&& brightness matches Some(b) ==> (s.brightness matches Some(v) && 1 <= v <= 254
                && (1 <= b <= 254 ==> v == b) && (b == 0 ==> v == 1) && (b > 254 ==> v == 254))
            &&& saturation is None ==> s.saturation is None
            &&& saturation matches Some(x) ==> (s.saturation matches Some(v) && v <= 254 && (x <= 254 ==> v
                == x) && (x > 254 ==> v == 254))
            &&& hue is None ==> s.hue is None
            &&& hue matches Some(h) ==> (s.hue matches Some(v) && (h <= 65535 ==> v == h) && (h > 65535
                ==> v == 65535))
            &&& s.transition_time == transition_time
        },
{
}

/// Builds the light state of a planned light or group action.
pub fn build_light_state_update(
    on: Option<bool>,
    brightness: Option<u16>,
    saturation: Option<u16>,
    hue: Option<u32>,
    transition_time: Option<u16>,
) -> (r: Result<LightStateUpdate, String>)
    ensures
        match light_state_spec(on, brightness, saturation, hue, transition_time) {
            Some(state) => r == Ok::<LightStateUpdate, String>(state),
            None => r matches Err(e) && e@ == "At least one light-state field is required."@,
        },
{
    let mut on = on;
    if on.is_none() && (brightness.is_some() || saturation.is_some() || hue.is_some()) {
        on = Some(true);
    }
    let state = LightStateUpdate {
        on,
        brightness: match brightness {
            Some(b) => Some(
                if b < 1 {
                    1u8
                } else if b > 254 {
                    254u8
                } else {
                    b as u8
                },
            ),
            None => None,
        },
        saturation: match saturation {
            Some(s) => Some(
                if s > 254 {
                    254u8
                } else {
                    s as u8
                },
            ),
            None => None,
        },
        hue: match hue {
            Some(h) => Some(
                if h > 65535 {
                    65535u16
                } else {
                    h as u16
                },
            ),
            None => None,
        },
        transition_time,
    };
    if state.on.is_none() && state.brightness.is_none() && state.saturation.is_none()
        && state.hue.is_none() && state.transition_time.is_none() {
        return Err(String::from_str("At least one light-state field is required."));
    }
    Ok(state)
}

/// A planned brightness ceiling brought into 1..=254.
pub fn clamp_brightness_ceiling(value: Option<u16>) -> (r: Option<u8>)
    ensures
        r == (match value {
            Some(v) => Some(clamp_to(v as int, 1, 254) as u8),
            None => None,
        }),
{
    match value {
        Some(v) => Some(
            if v < 1 {
                1u8
            } else if v > 254 {
                254u8
            } else {
                v as u8
            },
        ),
        None => None,
    }
}

} // verus!
