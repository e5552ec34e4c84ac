//! Display rules of the interface: labels, icons, device kinds, the values of the option
//! pickers, and notices.
use vstd::prelude::*;
use crate::hue::models::{AudioSyncColorPalette, AudioSyncSpeedMode, Automation, Group, GroupKind, Light, Sensor};
use crate::hue::areas::ByteOrder;
use crate::sorting::{sort_by_order, sorted_by, stably_rearranged, Precedence};
use crate::string_ops::{ascii_lowercase, ascii_lowercase_spec, views};
use crate::text::{
    compare_str, contains_seq, contains_str, decimal, decimal_string, lemma_lex_order_antisym, lex_order, str_eq,
};
use crate::theme::{ThemeMode, ThemePalette};
use vstd::utf8::encode_utf8;

verus! {

/// A brightness as a percentage of the bridge's maximum of 254, rounded down.
pub open spec fn brightness_percent_floor(value: u8) -> nat {
    (value as nat * 100) / 254
}

/// The brightness label of a light or room, such as `50%`.
pub fn brightness_label(value: u8) -> (r: String)
    ensures
        r@ == decimal(brightness_percent_floor(value)) + "%"@,
{
    let percentage = ((value as u16) * 100) / 254;
    decimal_string(percentage as u64).concat("%")
}

/// A value of 0..=254 as the nearest whole percentage.
pub open spec fn rounded_percent(value: u8) -> nat {
    (value as nat * 100 + 127) / 254
}

/// The brightness shown by the scene composer, as a rounded percentage.
pub fn brightness_percent(value: u8) -> (r: u8)
    ensures
        r == rounded_percent(value),
{
    (((value as u32) * 100 + 127) / 254) as u8
}

/// The saturation shown by the scene composer, as a rounded percentage.
pub fn saturation_percent(value: u8) -> (r: u8)
    ensures
        r == rounded_percent(value),
{
    (((value as u32) * 100 + 127) / 254) as u8
}

/// The lower-cased type of a device, empty when unknown.
pub open spec fn lowered_type(t: Option<String>) -> Seq<char> {
    match t {
        Some(s) => ascii_lowercase_spec(s@),
        None => Seq::empty(),
    }
}

fn lowered(t: &Option<String>) -> (r: String)
    ensures
        r@ == lowered_type(*t),
{
    match t {
        Some(s) => ascii_lowercase(s.as_str()),
        None => String::new(),
    }
}

/// The icon of a light: strips and plugs have their own, any other light is a bulb.
pub open spec fn light_icon(light: Light) -> Seq<char> {
    let t = lowered_type(light.light_type);
    if contains_seq(t, "strip"@) {
        "fa-solid fa-grip-lines-vertical"@
    } else if contains_seq(t, "plug"@) {
        "fa-solid fa-plug"@
    } else {
        "fa-solid fa-lightbulb"@
    }
}

/// The icon class of a light's card.
pub fn device_icon_class(light: &Light) -> (r: &'static str)
    ensures
        r@ == light_icon(*light),
{
    let t = lowered(&light.light_type);
    if contains_str(t.as_str(), "strip") {
        "fa-solid fa-grip-lines-vertical"
    } else if contains_str(t.as_str(), "plug") {
        "fa-solid fa-plug"
    } else {
        "fa-solid fa-lightbulb"
    }
}

/// Whether a light is a smart plug.
pub fn is_plug_device(light: &Light) -> (r: bool)
    ensures
        r == contains_seq(lowered_type(light.light_type), "plug"@),
{
    let t = lowered(&light.light_type);
    contains_str(t.as_str(), "plug")
}

/// Whether a sensor is a switch, tap or button.
pub fn is_switch_sensor(sensor: &Sensor) -> (r: bool)
    ensures
        r == ({
            let t = lowered_type(sensor.sensor_type);
            contains_seq(t, "switch"@) || contains_seq(t, "tap"@) || contains_seq(t, "button"@)
        }),
{
    let t = lowered(&sensor.sensor_type);
    contains_str(t.as_str(), "switch") || contains_str(t.as_str(), "tap") || contains_str(t.as_str(), "button")
}

/// The icon of a sensor, by its type.
pub open spec fn sensor_icon(sensor: Sensor) -> Seq<char> {
    let t = lowered_type(sensor.sensor_type);
    if contains_seq(t, "motion"@) {
        "fa-solid fa-person-rays"@
    } else if contains_seq(t, "temperature"@) {
        "fa-solid fa-temperature-half"@
    } else if contains_seq(t, "switch"@) || contains_seq(t, "tap"@) {
        "fa-solid fa-toggle-on"@
    } else if contains_seq(t, "lightlevel"@) || contains_seq(t, "daylight"@) {
        "fa-solid fa-sun"@
    } else {
        "fa-solid fa-wave-square"@
    }
}

/// The icon class of a sensor's card.
pub fn sensor_icon_class(sensor: &Sensor) -> (r: &'static str)
    ensures
        r@ == sensor_icon(*sensor),
{
    let t = lowered(&sensor.sensor_type);
    let t = t.as_str();
    if contains_str(t, "motion") {
        "fa-solid fa-person-rays"
    } else if contains_str(t, "temperature") {
        "fa-solid fa-temperature-half"
    } else if contains_str(t, "switch") || contains_str(t, "tap") {
        "fa-solid fa-toggle-on"
    } else if contains_str(t, "lightlevel") || contains_str(t, "daylight") {
        "fa-solid fa-sun"
    } else {
        "fa-solid fa-wave-square"
    }
}

/// The names of the zones that hold a light, in order of the groups.
pub open spec fn zones_holding(groups: Seq<Group>, light_id: Seq<char>) -> Seq<Seq<char>>
    decreases groups.len(),
{
    if groups.len() == 0 {
        Seq::empty()
    } else {
        let rest = zones_holding(groups.drop_last(), light_id);
        let g = groups.last();
        if views(g.light_ids@).contains(light_id) && g.kind == GroupKind::Zone {
            rest.push(g.name@)
        } else {
            rest
        }
    }
}

/// Where a light sits besides its room: the zones that hold it.
pub struct LightPlacement {
    pub zone_names: Vec<String>,
}

fn has_id(ids: &Vec<String>, id: &str) -> (r: bool)
    ensures
        r == views(ids@).contains(id@),
{
    let mut i: usize = 0;
    while i < ids.len()
        invariant
            i <= ids@.len(),
            forall|k: int| 0 <= k < i ==> views(ids@)[k] != id@,
        decreases ids.len() - i,
    {
        if str_eq(ids[i].as_str(), id) {
            assert(views(ids@)[i as int] == id@);
            return true;
        }
        i += 1;
    }
    false
}

/// The zones that hold a light, their names sorted in byte order.
pub fn derive_placement(light_id: &str, groups: &Vec<Group>) -> (r: LightPlacement)
    ensures
        sorted_by::<String, ByteOrder>(r.zone_names@),
        views(r.zone_names@).to_multiset() == zones_holding(groups@, light_id@).to_multiset(),
{
    let mut names: Vec<String> = Vec::new();
    let mut i: usize = 0;
    while i < groups.len()
        invariant
            i <= groups@.len(),
            views(names@) == zones_holding(groups@.take(i as int), light_id@),
        decreases groups.len() - i,
    {
        assert(groups@.take(i + 1).drop_last() =~= groups@.take(i as int));
        let g = &groups[i];
        if has_id(&g.light_ids, light_id) && g.kind == GroupKind::Zone {
            let ghost before = views(names@);
            names.push(g.name.clone());
            assert(views(names@) =~= before.push(g.name@));
        }
        i += 1;
    }
    assert(groups@.take(groups@.len() as int) =~= groups@);
    let ghost unsorted = names@;
    let sorted = sort_by_order::<String, ByteOrder>(names);
    proof {
        lemma_views_multiset(sorted@, unsorted);
    }
    LightPlacement { zone_names: sorted }
}

/// Lists with the same strings, counted with repeats, have views with the same counts.
proof fn lemma_views_multiset(a: Seq<String>, b: Seq<String>)
    requires
        a.to_multiset() == b.to_multiset(),
    ensures
        views(a).to_multiset() == views(b).to_multiset(),
    decreases a.len(),
{
    broadcast use vstd::seq_lib::group_to_multiset_ensures, vstd::multiset::group_multiset_axioms;

    if a.len() == 0 {
        assert(b.to_multiset().len() == 0);
        assert(b.len() == 0);
        assert(views(a) =~= Seq::<Seq<char>>::empty());
        assert(views(b) =~= Seq::<Seq<char>>::empty());
    } else {
        let x = a.last();
        assert(b.to_multiset().count(x) > 0);
        assert(b.contains(x));
        let j = choose|j: int| 0 <= j < b.len() && b[j] == x;
        let b2 = b.remove(j);
        vstd::seq_lib::to_multiset_remove(b, j);
        assert(a =~= a.drop_last().push(x));
        vstd::seq_lib::to_multiset_build(a.drop_last(), x);
        assert(a.drop_last().to_multiset() =~= b2.to_multiset());
        lemma_views_multiset(a.drop_last(), b2);
        assert(views(a) =~= views(a.drop_last()).push(x@));
        assert(views(b2) =~= views(b).remove(j));
        vstd::seq_lib::to_multiset_build(views(a.drop_last()), x@);
        vstd::seq_lib::to_multiset_remove(views(b), j);
        assert(views(b)[j] == x@);
        assert(views(b).to_multiset().count(x@) > 0);
        assert(views(b).to_multiset() =~= views(b).to_multiset().remove(x@).insert(x@));
    }
}

/// The option value of a speed mode.
pub open spec fn speed_mode_value_spec(mode: AudioSyncSpeedMode) -> Seq<char> {
    match mode {
        AudioSyncSpeedMode::Slow => "slow"@,
        AudioSyncSpeedMode::Medium => "medium"@,
        AudioSyncSpeedMode::High => "high"@,
    }
}

/// The option value of a speed mode.
pub fn audio_sync_speed_mode_value(mode: AudioSyncSpeedMode) -> (r: &'static str)
    ensures
        r@ == speed_mode_value_spec(mode),
{
    match mode {
        AudioSyncSpeedMode::Slow => "slow",
        AudioSyncSpeedMode::Medium => "medium",
        AudioSyncSpeedMode::High => "high",
    }
}

/// The speed mode an option value names; anything unknown is medium.
pub open spec fn speed_mode_of_option(value: Seq<char>) -> AudioSyncSpeedMode {
    if value == "slow"@ {
        AudioSyncSpeedMode::Slow
    } else if value == "high"@ {
        AudioSyncSpeedMode::High
    } else {
        AudioSyncSpeedMode::Medium
    }
}

/// The speed mode of an option value; anything unknown is medium.
pub fn parse_speed_mode_option(value: &str) -> (r: AudioSyncSpeedMode)
    ensures
        r == speed_mode_of_option(value@),
{
    if str_eq(value, "slow") {
        AudioSyncSpeedMode::Slow
    } else if str_eq(value, "high") {
        AudioSyncSpeedMode::High
    } else {
        AudioSyncSpeedMode::Medium
    }
}

/// A speed mode written as its option value reads back as itself.
pub proof fn lemma_speed_mode_option_round_trip(mode: AudioSyncSpeedMode)
    ensures
        speed_mode_of_option(speed_mode_value_spec(mode)) == mode,
{
    reveal_strlit("medium");
    reveal_strlit("slow");
    reveal_strlit("high");
    match mode {
        AudioSyncSpeedMode::Slow => {},
        AudioSyncSpeedMode::Medium => {
            assert("medium"@.len() != "slow"@.len());
            assert("medium"@.len() != "high"@.len());
        },
        AudioSyncSpeedMode::High => {
            assert("high"@[0] != "slow"@[0]);
        },
    }
}

/// The option value of a colour palette.
pub open spec fn palette_value_spec(palette: AudioSyncColorPalette) -> Seq<char> {
    match palette {
        AudioSyncColorPalette::CurrentRoom => "currentRoom"@,
        AudioSyncColorPalette::Sunset => "sunset"@,
        AudioSyncColorPalette::Aurora => "aurora"@,
        AudioSyncColorPalette::Ocean => "ocean"@,
        AudioSyncColorPalette::Rose => "rose"@,
        AudioSyncColorPalette::Mono => "mono"@,
        AudioSyncColorPalette::NeonPulse => "neonPulse"@,
        AudioSyncColorPalette::Prism => "prism"@,
        AudioSyncColorPalette::VocalGlow => "vocalGlow"@,
        AudioSyncColorPalette::FireIce => "fireIce"@,
    }
}

/// The option value of a colour palette.
pub fn audio_sync_color_palette_value(palette: AudioSyncColorPalette) -> (r: &'static str)
    ensures
        r@ == palette_value_spec(palette),
{
    match palette {
        AudioSyncColorPalette::CurrentRoom => "currentRoom",
        AudioSyncColorPalette::Sunset => "sunset",
        AudioSyncColorPalette::Aurora => "aurora",
        AudioSyncColorPalette::Ocean => "ocean",
        AudioSyncColorPalette::Rose => "rose",
        AudioSyncColorPalette::Mono => "mono",
        AudioSyncColorPalette::NeonPulse => "neonPulse",
        AudioSyncColorPalette::Prism => "prism",
        AudioSyncColorPalette::VocalGlow => "vocalGlow",
        AudioSyncColorPalette::FireIce => "fireIce",
    }
}

/// The colour palette an option value names; anything unknown is the current room's
/// colours.
pub open spec fn palette_of_option(value: Seq<char>) -> AudioSyncColorPalette {
    if value == "sunset"@ {
        AudioSyncColorPalette::Sunset
    } else if value == "aurora"@ {
        AudioSyncColorPalette::Aurora
    } else if value == "ocean"@ {
        AudioSyncColorPalette::Ocean
    } else if value == "rose"@ {
        AudioSyncColorPalette::Rose
    } else if value == "mono"@ {
        AudioSyncColorPalette::Mono
    } else if value == "neonPulse"@ {
        AudioSyncColorPalette::NeonPulse
    } else if value == "prism"@ {
        AudioSyncColorPalette::Prism
    } else if value == "vocalGlow"@ {
        AudioSyncColorPalette::VocalGlow
    } else if value == "fireIce"@ {
        AudioSyncColorPalette::FireIce
    } else {
        AudioSyncColorPalette::CurrentRoom
    }
}

/// The colour palette of an option value; anything unknown is the current room's colours.
pub fn parse_palette_option(value: &str) -> (r: AudioSyncColorPalette)
    ensures
        r == palette_of_option(value@),
{
    if str_eq(value, "sunset") {
        AudioSyncColorPalette::Sunset
    } else if str_eq(value, "aurora") {
        AudioSyncColorPalette::Aurora
    } else if str_eq(value, "ocean") {
        AudioSyncColorPalette::Ocean
    } else if str_eq(value, "rose") {
        AudioSyncColorPalette::Rose
    } else if str_eq(value, "mono") {
        AudioSyncColorPalette::Mono
    } else if str_eq(value, "neonPulse") {
        AudioSyncColorPalette::NeonPulse
    } else if str_eq(value, "prism") {
        AudioSyncColorPalette::Prism
    } else if str_eq(value, "vocalGlow") {
        AudioSyncColorPalette::VocalGlow
    } else if str_eq(value, "fireIce") {
        AudioSyncColorPalette::FireIce
    } else {
        AudioSyncColorPalette::CurrentRoom
    }
}

/// A colour palette written as its option value reads back as itself.
pub proof fn lemma_palette_option_round_trip(palette: AudioSyncColorPalette)
    ensures
        palette_of_option(palette_value_spec(palette)) == palette,
{
    reveal_strlit("sunset");
    reveal_strlit("prism");
    reveal_strlit("fireIce");
    reveal_strlit("currentRoom");
    reveal_strlit("mono");
    reveal_strlit("neonPulse");
    reveal_strlit("aurora");
    reveal_strlit("ocean");
    reveal_strlit("vocalGlow");
    reveal_strlit("rose");
    match palette {
        AudioSyncColorPalette::CurrentRoom => {
            assert("currentRoom"@.len() != "sunset"@.len());
            assert("currentRoom"@.len() != "aurora"@.len());
            assert("currentRoom"@.len() != "ocean"@.len());
            assert("currentRoom"@.len() != "rose"@.len());
            assert("currentRoom"@.len() != "mono"@.len());
            assert("currentRoom"@.len() != "neonPulse"@.len());
            assert("currentRoom"@.len() != "prism"@.len());
            assert("currentRoom"@.len() != "vocalGlow"@.len());
            assert("currentRoom"@.len() != "fireIce"@.len());
        },
        AudioSyncColorPalette::Sunset => {},
        AudioSyncColorPalette::Aurora => {
            assert("aurora"@[0] != "sunset"@[0]);
        },
        AudioSyncColorPalette::Ocean => {
            assert("ocean"@.len() != "sunset"@.len());
            assert("ocean"@.len() != "aurora"@.len());
        },
        AudioSyncColorPalette::Rose => {
            assert("rose"@.len() != "sunset"@.len());
            assert("rose"@.len() != "aurora"@.len());
            assert("rose"@.len() != "ocean"@.len());
        },
        AudioSyncColorPalette::Mono => {
            assert("mono"@.len() != "sunset"@.len());
            assert("mono"@.len() != "aurora"@.len());
            assert("mono"@.len() != "ocean"@.len());
            assert("mono"@[0] != "rose"@[0]);
        },
        AudioSyncColorPalette::NeonPulse => {
            assert("neonPulse"@.len() != "sunset"@.len());
            assert("neonPulse"@.len() != "aurora"@.len());
            assert("neonPulse"@.len() != "ocean"@.len());
            assert("neonPulse"@.len() != "rose"@.len());
            assert("neonPulse"@.len() != "mono"@.len());
        },
        AudioSyncColorPalette::Prism => {
            assert("prism"@.len() != "sunset"@.len());
            assert("prism"@.len() != "aurora"@.len());
            assert("prism"@[0] != "ocean"@[0]);
            assert("prism"@.len() != "rose"@.len());
            assert("prism"@.len() != "mono"@.len());
            assert("prism"@.len() != "neonPulse"@.len());
        },
        AudioSyncColorPalette::VocalGlow => {
            assert("vocalGlow"@.len() != "sunset"@.len());
            assert("vocalGlow"@.len() != "aurora"@.len());
            assert("vocalGlow"@.len() != "ocean"@.len());
            assert("vocalGlow"@.len() != "rose"@.len());
            assert("vocalGlow"@.len() != "mono"@.len());
            assert("vocalGlow"@[0] != "neonPulse"@[0]);
            assert("vocalGlow"@.len() != "prism"@.len());
        },
        AudioSyncColorPalette::FireIce => {
            assert("fireIce"@.len() != "sunset"@.len());
            assert("fireIce"@.len() != "aurora"@.len());
            assert("fireIce"@.len() != "ocean"@.len());
            assert("fireIce"@.len() != "rose"@.len());
            assert("fireIce"@.len() != "mono"@.len());
            assert("fireIce"@.len() != "neonPulse"@.len());
            assert("fireIce"@.len() != "prism"@.len());
            assert("fireIce"@.len() != "vocalGlow"@.len());
        },
    }
}

/// The stored value of a theme mode.
pub open spec fn mode_value_spec(mode: ThemeMode) -> Seq<char> {
    match mode {
        ThemeMode::System => "system"@,
        ThemeMode::Dark => "dark"@,
        ThemeMode::Light => "light"@,
    }
}

/// The option value of a theme mode.
pub fn serialize_mode(mode: ThemeMode) -> (r: &'static str)
    ensures
        r@ == mode_value_spec(mode),
{
    match mode {
        ThemeMode::System => "system",
        ThemeMode::Dark => "dark",
        ThemeMode::Light => "light",
    }
}

/// The theme mode an option value names; anything unknown follows the system.
pub open spec fn mode_of_option(value: Seq<char>) -> ThemeMode {
    if value == "dark"@ {
        ThemeMode::Dark
    } else if value == "light"@ {
        ThemeMode::Light
    } else {
        ThemeMode::System
    }
}

/// A theme mode written as its option value reads back as itself.
pub proof fn lemma_mode_option_round_trip(mode: ThemeMode)
    ensures
        mode_of_option(mode_value_spec(mode)) == mode,
{
    reveal_strlit("dark");
    reveal_strlit("light");
    reveal_strlit("system");
    match mode {
        ThemeMode::System => {
            assert("system"@.len() != "dark"@.len());
            assert("system"@.len() != "light"@.len());
        },
        ThemeMode::Dark => {},
        ThemeMode::Light => {
            assert("light"@.len() != "dark"@.len());
        },
    }
}

/// The theme mode of an option value; anything unknown follows the system.
pub fn parse_mode(value: String) -> (r: ThemeMode)
    ensures
        r == mode_of_option(value@),
{
    if str_eq(value.as_str(), "dark") {
        ThemeMode::Dark
    } else if str_eq(value.as_str(), "light") {
        ThemeMode::Light
    } else {
        ThemeMode::System
    }
}

/// The option value of a palette.
pub open spec fn theme_palette_value_spec(palette: ThemePalette) -> Seq<char> {
    match palette {
        ThemePalette::Gruvbox => "gruvbox"@,
        ThemePalette::Nordbones => "nordbones"@,
        ThemePalette::Sonokai => "sonokai"@,
        ThemePalette::Catppuccin => "catppuccin"@,
        ThemePalette::Everforest => "everforest"@,
        ThemePalette::RosePine => "rose-pine"@,
        ThemePalette::Dayfox => "dayfox"@,
    }
}

/// The option value of a palette.
pub fn serialize_palette(palette: ThemePalette) -> (r: &'static str)
    ensures
        r@ == theme_palette_value_spec(palette),
{
    match palette {
        ThemePalette::Gruvbox => "gruvbox",
        ThemePalette::Nordbones => "nordbones",
        ThemePalette::Sonokai => "sonokai",
        ThemePalette::Catppuccin => "catppuccin",
        ThemePalette::Everforest => "everforest",
        ThemePalette::RosePine => "rose-pine",
        ThemePalette::Dayfox => "dayfox",
    }
}

/// The palette an option value names; anything unknown is Rose Pine.
pub open spec fn theme_palette_of_option(value: Seq<char>) -> ThemePalette {
    if value == "gruvbox"@ {
        ThemePalette::Gruvbox
    } else if value == "nordbones"@ {
        ThemePalette::Nordbones
    } else if value == "sonokai"@ {
        ThemePalette::Sonokai
    } else if value == "catppuccin"@ {
        ThemePalette::Catppuccin
    } else if value == "everforest"@ {
        ThemePalette::Everforest
    } else if value == "dayfox"@ {
        ThemePalette::Dayfox
    } else {
        ThemePalette::RosePine
    }
}

/// A palette written as its option value reads back as itself.
pub proof fn lemma_theme_palette_option_round_trip(palette: ThemePalette)
    ensures
        theme_palette_of_option(theme_palette_value_spec(palette)) == palette,
{
    reveal_strlit("everforest");
    reveal_strlit("gruvbox");
    reveal_strlit("rose-pine");
    reveal_strlit("nordbones");
    reveal_strlit("sonokai");
    reveal_strlit("dayfox");
    reveal_strlit("catppuccin");
    match palette {
        ThemePalette::Gruvbox => {},
        ThemePalette::Nordbones => {
            assert("nordbones"@.len() != "gruvbox"@.len());
        },
        ThemePalette::Sonokai => {
            assert("sonokai"@[0] != "gruvbox"@[0]);
            assert("sonokai"@.len() != "nordbones"@.len());
        },
        ThemePalette::Catppuccin => {
            assert("catppuccin"@.len() != "gruvbox"@.len());
            assert("catppuccin"@.len() != "nordbones"@.len());
            assert("catppuccin"@.len() != "sonokai"@.len());
        },
        ThemePalette::Everforest => {
            assert("everforest"@.len() != "gruvbox"@.len());
            assert("everforest"@.len() != "nordbones"@.len());
            assert("everforest"@.len() != "sonokai"@.len());
            assert("everforest"@[0] != "catppuccin"@[0]);
        },
        ThemePalette::RosePine => {
            assert("rose-pine"@.len() != "gruvbox"@.len());
            assert("rose-pine"@[0] != "nordbones"@[0]);
            assert("rose-pine"@.len() != "sonokai"@.len());
            assert("rose-pine"@.len() != "catppuccin"@.len());
            assert("rose-pine"@.len() != "everforest"@.len());
            assert("rose-pine"@.len() != "dayfox"@.len());
        },
        ThemePalette::Dayfox => {
            assert("dayfox"@.len() != "gruvbox"@.len());
            assert("dayfox"@.len() != "nordbones"@.len());
            assert("dayfox"@.len() != "sonokai"@.len());
            assert("dayfox"@.len() != "catppuccin"@.len());
            assert("dayfox"@.len() != "everforest"@.len());
        },
    }
}

/// The palette of an option value; anything unknown is Rose Pine.
pub fn parse_palette(value: String) -> (r: ThemePalette)
    ensures
        r == theme_palette_of_option(value@),
{
    let v = value.as_str();
    if str_eq(v, "gruvbox") {
        ThemePalette::Gruvbox
    } else if str_eq(v, "nordbones") {
        ThemePalette::Nordbones
    } else if str_eq(v, "sonokai") {
        ThemePalette::Sonokai
    } else if str_eq(v, "catppuccin") {
        ThemePalette::Catppuccin
    } else if str_eq(v, "everforest") {
        ThemePalette::Everforest
    } else if str_eq(v, "dayfox") {
        ThemePalette::Dayfox
    } else {
        ThemePalette::RosePine
    }
}

/// The tone of a notice.
#[derive(Clone, Copy, Debug, PartialEq, Eq, Structural)]
pub enum NoticeTone {
    Info,
    Success,
    Warning,
    Error,
}

/// A notice shown to the user.
#[derive(Clone, Debug, PartialEq, Eq)]
pub struct UiNotice {
    pub tone: NoticeTone,
    pub title: String,
    pub message: String,
}

impl UiNotice {
    /// A notice with the given tone.
    pub fn new(tone: NoticeTone, title: String, message: String) -> (r: Self)
        ensures
            r.tone == tone,
            r.title == title,
            r.message == message,
    {
        UiNotice { tone, title, message }
    }

    pub fn info(title: String, message: String) -> (r: Self)
        ensures
            r.tone == NoticeTone::Info,
            r.title == title,
            r.message == message,
    {
        Self::new(NoticeTone::Info, title, message)
    }

    pub fn success(title: String, message: String) -> (r: Self)
        ensures
            r.tone == NoticeTone::Success,
            r.title == title,
            r.message == message,
    {
        Self::new(NoticeTone::Success, title, message)
    }

    pub fn warning(title: String, message: String) -> (r: Self)
        ensures
            r.tone == NoticeTone::Warning,
            r.title == title,
            r.message == message,
    {
        Self::new(NoticeTone::Warning, title, message)
    }

    pub fn error(title: String, message: String) -> (r: Self)
        ensures
            r.tone == NoticeTone::Error,
            r.title == title,
            r.message == message,
    {
        Self::new(NoticeTone::Error, title, message)
    }
}

impl NoticeTone {
    /// The style class of a notice of this tone.
    pub fn class_name(&self) -> (r: &'static str)
        ensures
            r@ == (match *self {
                NoticeTone::Info => "is-info"@,
                NoticeTone::Success => "is-success"@,
                NoticeTone::Warning => "is-warning"@,
                NoticeTone::Error => "is-error"@,
            }),
    {
        match self {
            NoticeTone::Info => "is-info",
            NoticeTone::Success => "is-success",
            NoticeTone::Warning => "is-warning",
            NoticeTone::Error => "is-error",
        }
    }
}


/// The colour family a scene's name suggests, by the first group of words it contains:
/// warm (`sunset`, `gold`, `amber`), cool (`ocean`, `blue`, `arctic`), green (`forest`,
/// `spring`, `green`), night (`night`, `focus`, `dim`), soft (`read`, `relax`, `soft`).
#[derive(Clone, Copy, Debug, PartialEq, Eq, Structural)]
pub enum SceneToneKind {
    Warm,
    Cool,
    Green,
    Night,
    Soft,
    Neutral,
}

/// The family of a (lower-case) scene name.
pub open spec fn scene_tone_of(name: Seq<char>) -> SceneToneKind {
    if contains_seq(name, "sunset"@) || contains_seq(name, "gold"@) || contains_seq(name, "amber"@) {
        SceneToneKind::Warm
    } else if contains_seq(name, "ocean"@) || contains_seq(name, "blue"@) || contains_seq(name, "arctic"@) {
        SceneToneKind::Cool
    } else if contains_seq(name, "forest"@) || contains_seq(name, "spring"@) || contains_seq(name, "green"@) {
        SceneToneKind::Green
    } else if contains_seq(name, "night"@) || contains_seq(name, "focus"@) || contains_seq(name, "dim"@) {
        SceneToneKind::Night
    } else if contains_seq(name, "read"@) || contains_seq(name, "relax"@) || contains_seq(name, "soft"@) {
        SceneToneKind::Soft
    } else {
        SceneToneKind::Neutral
    }
}

/// The colour family of a scene, from its name in lower case.
pub fn classify_scene_tone(name: &str) -> (r: SceneToneKind)
    ensures
        r == scene_tone_of(name@),
{
    if contains_str(name, "sunset") || contains_str(name, "gold") || contains_str(name, "amber") {
        SceneToneKind::Warm
    } else if contains_str(name, "ocean") || contains_str(name, "blue") || contains_str(name, "arctic") {
        SceneToneKind::Cool
    } else if contains_str(name, "forest") || contains_str(name, "spring") || contains_str(name, "green") {
        SceneToneKind::Green
    } else if contains_str(name, "night") || contains_str(name, "focus") || contains_str(name, "dim") {
        SceneToneKind::Night
    } else if contains_str(name, "read") || contains_str(name, "relax") || contains_str(name, "soft") {
        SceneToneKind::Soft
    } else {
        SceneToneKind::Neutral
    }
}

/// The bytes folded into a 32-bit hash: starting from 0, each byte multiplies the hash by
/// `factor` and adds the byte, modulo 2^32.
pub open spec fn bytes_hash(bytes: Seq<u8>, factor: u32) -> u32
    decreases bytes.len(),
{
    if bytes.len() == 0 {
        0
    } else {
        ((bytes_hash(bytes.drop_last(), factor) as nat * factor as nat + bytes.last() as nat) % 0x1_0000_0000) as u32
    }
}

proof fn lemma_wrapping_step(h: u32, f: u32, b: u8)
    ensures
        vstd::wrapping::u32_specs::wrapping_add(vstd::wrapping::u32_specs::wrapping_mul(h, f), b as u32) == ((h as nat
            * f as nat + b as nat) % 0x1_0000_0000) as u32,
{
    let p: nat = h as nat * f as nat;
    let q = p % 0x1_0000_0000;
    vstd::arithmetic::div_mod::lemma_add_mod_noop(p as int, b as int, 0x1_0000_0000);
    vstd::arithmetic::div_mod::lemma_small_mod(b as nat, 0x1_0000_0000);
    if q + b < 0x1_0000_0000 {
        vstd::arithmetic::div_mod::lemma_small_mod((q + b) as nat, 0x1_0000_0000);
    } else {
        vstd::arithmetic::div_mod::lemma_mod_add_multiples_vanish((q + b - 0x1_0000_0000) as int, 0x1_0000_0000);
        vstd::arithmetic::div_mod::lemma_small_mod((q + b - 0x1_0000_0000) as nat, 0x1_0000_0000);
    }
}

/// The hash of a scene's name that seeds its fallback colours (UTF-8 bytes folded with
/// `factor`).
pub fn scene_name_hash(name: &str, factor: u32) -> (r: u32)
    ensures
        r == bytes_hash(encode_utf8(name@), factor),
{
    let bytes = name.as_bytes();
    let mut hash: u32 = 0;
    let mut i: usize = 0;
    while i < bytes.len()
        invariant
            bytes@ == encode_utf8(name@),
            i <= bytes@.len(),
            hash == bytes_hash(bytes@.take(i as int), factor),
        decreases bytes.len() - i,
    {
        assert(bytes@.take(i + 1).drop_last() =~= bytes@.take(i as int));
        proof {
            lemma_wrapping_step(hash, factor, bytes@[i as int]);
        }
        hash = hash.wrapping_mul(factor).wrapping_add(bytes[i] as u32);
        i += 1;
    }
    assert(bytes@.take(bytes@.len() as int) =~= bytes@);
    hash
}


/// Lights ordered by name in byte order.
pub struct LightByName;

impl Precedence<Light> for LightByName {
    open spec fn before(a: Light, b: Light) -> bool {
        lex_order(a.name@, b.name@) < 0
    }

    proof fn lemma_before_asymmetric(a: Light, b: Light) {
        lemma_lex_order_antisym(a.name@, b.name@);
    }

    fn precedes(a: &Light, b: &Light) -> (r: bool) {
        compare_str(a.name.as_str(), b.name.as_str()) < 0
    }
}

/// Sensors ordered by name in byte order.
pub struct SensorByName;

impl Precedence<Sensor> for SensorByName {
    open spec fn before(a: Sensor, b: Sensor) -> bool {
        lex_order(a.name@, b.name@) < 0
    }

    proof fn lemma_before_asymmetric(a: Sensor, b: Sensor) {
        lemma_lex_order_antisym(a.name@, b.name@);
    }

    fn precedes(a: &Sensor, b: &Sensor) -> (r: bool) {
        compare_str(a.name.as_str(), b.name.as_str()) < 0
    }
}

/// Automations ordered by name in byte order.
pub struct AutomationByName;

impl Precedence<Automation> for AutomationByName {
    open spec fn before(a: Automation, b: Automation) -> bool {
        lex_order(a.name@, b.name@) < 0
    }

    proof fn lemma_before_asymmetric(a: Automation, b: Automation) {
        lemma_lex_order_antisym(a.name@, b.name@);
    }

    fn precedes(a: &Automation, b: &Automation) -> (r: bool) {
        compare_str(a.name.as_str(), b.name.as_str()) < 0
    }
}

/// The lights of the device list, stably sorted by name.
pub fn lights_by_name(lights: Vec<Light>) -> (r: Vec<Light>)
    ensures
        r@.to_multiset() == lights@.to_multiset(),
        sorted_by::<Light, LightByName>(r@),
        stably_rearranged::<Light, LightByName>(lights@, r@),
{
    sort_by_order::<Light, LightByName>(lights)
}

/// The sensors of the device list, stably sorted by name.
pub fn sensors_by_name(sensors: Vec<Sensor>) -> (r: Vec<Sensor>)
    ensures
        r@.to_multiset() == sensors@.to_multiset(),
        sorted_by::<Sensor, SensorByName>(r@),
        stably_rearranged::<Sensor, SensorByName>(sensors@, r@),
{
    sort_by_order::<Sensor, SensorByName>(sensors)
}

/// The automations of the automation list, stably sorted by name.
pub fn automations_by_name(automations: Vec<Automation>) -> (r: Vec<Automation>)
    ensures
        r@.to_multiset() == automations@.to_multiset(),
        sorted_by::<Automation, AutomationByName>(r@),
        stably_rearranged::<Automation, AutomationByName>(automations@, r@),
{
    sort_by_order::<Automation, AutomationByName>(automations)
}

} // verus!
