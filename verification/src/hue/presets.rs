//! The curated scene pack: ten named presets, and the state each light of a room gets
//! so that the lights of a scene spread slightly around the preset's colour.
use vstd::prelude::*;
use crate::hue::models::LightStateUpdate;
use crate::ollama::rules::clamp_to;
use crate::text::str_eq;

verus! {

/// A named scene of the curated pack.
#[derive(Clone, Copy, Debug, PartialEq, Eq)]
pub struct CuratedScenePreset {
    pub name: &'static str,
    pub description: &'static str,
}

/// The name and description of each curated scene, in order.
pub open spec fn curated_scene_texts() -> Seq<(Seq<char>, Seq<char>)> {
    seq![
        ("Quiet Focus"@, "clean working light with low color noise"@),
        ("Soft Read"@, "warm reading light with less glare"@),
        ("Night Wind-Down"@, "very warm low light for late hours"@),
        ("Signal Boost"@, "full-bright utility light for resets and cleanup"@),
        ("Blue Hour"@, "cool dusk color with a soft evening edge"@),
        ("Ember Drift"@, "deep amber glow for a warmer room tone"@),
        ("Rain Glass"@, "muted blue gray light for calmer late hours"@),
        ("Velvet Sunset"@, "richer orange pink blend with more atmosphere"@),
        ("After Midnight"@, "low indigo scene for darker listening sessions"@),
        ("Forest Hush"@, "subtle green-tinted ambient light"@),
    ]
}

/// The name and description of a preset.
pub open spec fn preset_texts(p: CuratedScenePreset) -> (Seq<char>, Seq<char>) {
    (p.name@, p.description@)
}

/// The curated scene pack, in the order the app offers it.
pub fn curated_room_scenes() -> (r: Vec<CuratedScenePreset>)
    ensures
        r@.map_values(|p: CuratedScenePreset| preset_texts(p)) == curated_scene_texts(),
{
    let mut v: Vec<CuratedScenePreset> = Vec::new();
    v.push(CuratedScenePreset { name: "Quiet Focus", description: "clean working light with low color noise" });
    v.push(CuratedScenePreset { name: "Soft Read", description: "warm reading light with less glare" });
    v.push(CuratedScenePreset { name: "Night Wind-Down", description: "very warm low light for late hours" });
    v.push(CuratedScenePreset { name: "Signal Boost", description: "full-bright utility light for resets and cleanup" });
    v.push(CuratedScenePreset { name: "Blue Hour", description: "cool dusk color with a soft evening edge" });
    v.push(CuratedScenePreset { name: "Ember Drift", description: "deep amber glow for a warmer room tone" });
    v.push(CuratedScenePreset { name: "Rain Glass", description: "muted blue gray light for calmer late hours" });
    v.push(CuratedScenePreset { name: "Velvet Sunset", description: "richer orange pink blend with more atmosphere" });
    v.push(CuratedScenePreset { name: "After Midnight", description: "low indigo scene for darker listening sessions" });
    v.push(CuratedScenePreset { name: "Forest Hush", description: "subtle green-tinted ambient light" });
    assert(v@.map_values(|p: CuratedScenePreset| preset_texts(p)) =~= curated_scene_texts());
    v
}

/// The `as i16` conversion of an integer: its low sixteen bits, read as signed.
pub open spec fn low_i16(v: int) -> int {
    (v as i16) as int
}

pub open spec fn fits_i16(v: int) -> bool {
    -32768 <= v <= 32767
}

/// The computation of a light's offset stays within `i16`.
pub open spec fn offset_fits(light_index: int, light_count: int) -> bool {
    light_count <= 1 || {
        let a = low_i16(light_index);
        let c = low_i16(light_count - 1);
        fits_i16(a * 2) && fits_i16(a * 2 - c) && fits_i16((a * 2 - c) * 10)
    }
}

/// How far a light sits from the middle of the room, in steps of ten: lights are spread
/// evenly around zero (computed in `i16`, the index and count taken modulo 2^16).
pub open spec fn light_offset_spec(light_index: int, light_count: int) -> int {
    if light_count <= 1 {
        0
    } else {
        (low_i16(light_index) * 2 - low_i16(light_count - 1)) * 10
    }
}

/// The offset of light `light_index` among `light_count` lights.
pub fn light_offset(light_index: usize, light_count: usize) -> (r: i16)
    requires
        offset_fits(light_index as int, light_count as int),
    ensures
        r == light_offset_spec(light_index as int, light_count as int),
{
    if light_count <= 1 {
        return 0;
    }
    let center = (light_count - 1) as i16;
    let index = light_index as i16;
    ((index * 2) - center) * 10
}

/// Division rounding toward zero, as integer division in Rust.
pub open spec fn div_toward_zero(a: int, b: int) -> int {
    if a >= 0 {
        a / b
    } else {
        -((-a) / b)
    }
}

pub open spec fn abs(a: int) -> int {
    if a < 0 {
        -a
    } else {
        a
    }
}

/// The numbers behind a preset: brightness starts at `brightness` and moves by the
/// offset divided by `brightness_divisor` (down by its magnitude when `dims_outward`),
/// within `brightness_min..=brightness_max`; saturation starts at `saturation` and rises
/// by the offset's magnitude divided by `saturation_divisor`, within its bounds; hue
/// moves by `hue_step` per unit of offset.
#[derive(Clone, Copy, Debug, PartialEq, Eq, Structural)]
pub struct PresetShape {
    pub brightness: i32,
    pub brightness_divisor: i32,
    pub dims_outward: bool,
    pub brightness_min: i32,
    pub brightness_max: i32,
    pub saturation: i32,
    pub saturation_divisor: i32,
    pub saturation_min: i32,
    pub saturation_max: i32,
    pub hue: i32,
    pub hue_step: i32,
    pub transition_time: u16,
}

/// The shape of a named preset of the pack.
pub open spec fn preset_shape(name: Seq<char>) -> Option<PresetShape> {
    if name == "Quiet Focus"@ {
        Some(PresetShape {
            brightness: 208,
            brightness_divisor: 2,
            dims_outward: false,
            brightness_min: 140,
            brightness_max: 254,
            saturation: 38,
            saturation_divisor: 3,
            saturation_min: 8,
            saturation_max: 90,
            hue: 8700,
            hue_step: 36,
            transition_time: 4,
        })
    } else if name == "Soft Read"@ {
        Some(PresetShape {
            brightness: 174,
            brightness_divisor: 2,
            dims_outward: false,
            brightness_min: 90,
            brightness_max: 254,
            saturation: 118,
            saturation_divisor: 2,
            saturation_min: 40,
            saturation_max: 180,
            hue: 7800,
            hue_step: 28,
            transition_time: 4,
        })
    } else if name == "Night Wind-Down"@ {
        Some(PresetShape {
            brightness: 44,
            brightness_divisor: 4,
            dims_outward: false,
            brightness_min: 8,
            brightness_max: 90,
            saturation: 150,
            saturation_divisor: 2,
            saturation_min: 80,
            saturation_max: 220,
            hue: 6900,
            hue_step: 24,
            transition_time: 6,
        })
    } else if name == "Signal Boost"@ {
        Some(PresetShape {
            brightness: 248,
            brightness_divisor: 3,
            dims_outward: true,
            brightness_min: 200,
            brightness_max: 254,
            saturation: 18,
            saturation_divisor: 4,
            saturation_min: 0,
            saturation_max: 60,
            hue: 9400,
            hue_step: 20,
            transition_time: 3,
        })
    } else if name == "Blue Hour"@ {
        Some(PresetShape {
            brightness: 132,
            brightness_divisor: 3,
            dims_outward: false,
            brightness_min: 72,
            brightness_max: 190,
            saturation: 168,
            saturation_divisor: 3,
            saturation_min: 96,
            saturation_max: 230,
            hue: 46500,
            hue_step: 42,
            transition_time: 5,
        })
    } else if name == "Ember Drift"@ {
        Some(PresetShape {
            brightness: 118,
            brightness_divisor: 3,
            dims_outward: false,
            brightness_min: 52,
            brightness_max: 188,
            saturation: 184,
            saturation_divisor: 3,
            saturation_min: 120,
            saturation_max: 240,
            hue: 5000,
            hue_step: 20,
            transition_time: 5,
        })
    } else if name == "Rain Glass"@ {
        Some(PresetShape {
            brightness: 102,
            brightness_divisor: 4,
            dims_outward: false,
            brightness_min: 44,
            brightness_max: 164,
            saturation: 134,
            saturation_divisor: 3,
            saturation_min: 72,
            saturation_max: 200,
            hue: 38600,
            hue_step: 34,
            transition_time: 6,
        })
    } else if name == "Velvet Sunset"@ {
        Some(PresetShape {
            brightness: 164,
            brightness_divisor: 3,
            dims_outward: false,
            brightness_min: 94,
            brightness_max: 224,
            saturation: 198,
            saturation_divisor: 4,
            saturation_min: 120,
            saturation_max: 254,
            hue: 3700,
            hue_step: 18,
            transition_time: 4,
        })
    } else if name == "After Midnight"@ {
        Some(PresetShape {
            brightness: 56,
            brightness_divisor: 5,
            dims_outward: false,
            brightness_min: 6,
            brightness_max: 92,
            saturation: 206,
            saturation_divisor: 4,
            saturation_min: 130,
            saturation_max: 254,
            hue: 48200,
            hue_step: 38,
            transition_time: 6,
        })
    } else if name == "Forest Hush"@ {
        Some(PresetShape {
            brightness: 124,
            brightness_divisor: 4,
            dims_outward: false,
            brightness_min: 58,
            brightness_max: 186,
            saturation: 150,
            saturation_divisor: 3,
            saturation_min: 80,
            saturation_max: 220,
            hue: 23800,
            hue_step: 28,
            transition_time: 5,
        })
    } else {
        None
    }
}

/// The state each preset of the pack gives a light at offset `spread` from the middle of
/// the room: on, with brightness, saturation and hue starting from the preset's own
/// numbers and moved by the offset within the preset's bounds, and the preset's
/// transition.  Any other name gets a plain warm white.
pub proof fn lemma_preset_numbers(spread: int, other: Seq<char>)
    ensures
        preset_state("Quiet Focus"@, spread) == (LightStateUpdate {
            on: Some(true),
            brightness: Some(clamp_to(208 + div_toward_zero(spread, 2), 140, 254) as u8),
            saturation: Some(clamp_to(38 + abs(spread) / 3, 8, 90) as u8),
            hue: Some(clamp_to(8700 + spread * 36, 0, 65535) as u16),
            transition_time: Some(4u16),
        }),
        preset_state("Soft Read"@, spread) == (LightStateUpdate {
            on: Some(true),
            brightness: Some(clamp_to(174 + div_toward_zero(spread, 2), 90, 254) as u8),
            saturation: Some(clamp_to(118 + abs(spread) / 2, 40, 180) as u8),
            hue: Some(clamp_to(7800 + spread * 28, 0, 65535) as u16),
            transition_time: Some(4u16),
        }),
        preset_state("Night Wind-Down"@, spread) == (LightStateUpdate {
            on: Some(true),
            brightness: Some(clamp_to(44 + div_toward_zero(spread, 4), 8, 90) as u8),
            saturation: Some(clamp_to(150 + abs(spread) / 2, 80, 220) as u8),
            hue: Some(clamp_to(6900 + spread * 24, 0, 65535) as u16),
            transition_time: Some(6u16),
        }),
        preset_state("Signal Boost"@, spread) == (LightStateUpdate {
            on: Some(true),
            brightness: Some(clamp_to(248 - abs(spread) / 3, 200, 254) as u8),
            saturation: Some(clamp_to(18 + abs(spread) / 4, 0, 60) as u8),
            hue: Some(clamp_to(9400 + spread * 20, 0, 65535) as u16),
            transition_time: Some(3u16),
        }),
        preset_state("Blue Hour"@, spread) == (LightStateUpdate {
            on: Some(true),
            brightness: Some(clamp_to(132 + div_toward_zero(spread, 3), 72, 190) as u8),
            saturation: Some(clamp_to(168 + abs(spread) / 3, 96, 230) as u8),
            hue: Some(clamp_to(46500 + spread * 42, 0, 65535) as u16),
            transition_time: Some(5u16),
        }),
        preset_state("Ember Drift"@, spread) == (LightStateUpdate {
            on: Some(true),
            brightness: Some(clamp_to(118 + div_toward_zero(spread, 3), 52, 188) as u8),
            saturation: Some(clamp_to(184 + abs(spread) / 3, 120, 240) as u8),
            hue: Some(clamp_to(5000 + spread * 20, 0, 65535) as u16),
            transition_time: Some(5u16),
        }),
        preset_state("Rain Glass"@, spread) == (LightStateUpdate {
            on: Some(true),
            brightness: Some(clamp_to(102 + div_toward_zero(spread, 4), 44, 164) as u8),
            saturation: Some(clamp_to(134 + abs(spread) / 3, 72, 200) as u8),
            hue: Some(clamp_to(38600 + spread * 34, 0, 65535) as u16),
            transition_time: Some(6u16),
        }),
        preset_state("Velvet Sunset"@, spread) == (LightStateUpdate {
            on: Some(true),
            brightness: Some(clamp_to(164 + div_toward_zero(spread, 3), 94, 224) as u8),
            saturation: Some(clamp_to(198 + abs(spread) / 4, 120, 254) as u8),
            hue: Some(clamp_to(3700 + spread * 18, 0, 65535) as u16),
            transition_time: Some(4u16),
        }),
        preset_state("After Midnight"@, spread) == (LightStateUpdate {
            on: Some(true),
            brightness: Some(clamp_to(56 + div_toward_zero(spread, 5), 6, 92) as u8),
            saturation: Some(clamp_to(206 + abs(spread) / 4, 130, 254) as u8),
            hue: Some(clamp_to(48200 + spread * 38, 0, 65535) as u16),
            transition_time: Some(6u16),
        }),
        preset_state("Forest Hush"@, spread) == (LightStateUpdate {
            on: Some(true),
            brightness: Some(clamp_to(124 + div_toward_zero(spread, 4), 58, 186) as u8),
            saturation: Some(clamp_to(150 + abs(spread) / 3, 80, 220) as u8),
            hue: Some(clamp_to(23800 + spread * 28, 0, 65535) as u16),
            transition_time: Some(5u16),
        }),
        (other != "Quiet Focus"@ && other != "Soft Read"@ && other != "Night Wind-Down"@ && other
            != "Signal Boost"@ && other != "Blue Hour"@ && other != "Ember Drift"@ && other != "Rain Glass"@
            && other != "Velvet Sunset"@ && other != "After Midnight"@ && other != "Forest Hush"@) ==> preset_state(
            other,
            spread,
        ) == (LightStateUpdate {
            on: Some(true),
            brightness: Some(180u8),
            saturation: Some(60u8),
            hue: Some(8600u16),
            transition_time: Some(4u16),
        }),
{
    reveal_strlit("Quiet Focus");
    reveal_strlit("Soft Read");
    reveal_strlit("Night Wind-Down");
    reveal_strlit("Signal Boost");
    reveal_strlit("Blue Hour");
    reveal_strlit("Ember Drift");
    reveal_strlit("Rain Glass");
    reveal_strlit("Velvet Sunset");
    reveal_strlit("After Midnight");
    reveal_strlit("Forest Hush");
    assert("Quiet Focus"@.len() == 11 && "Quiet Focus"@[0] == 'Q' && "Quiet Focus"@[1] == 'u');
    assert("Soft Read"@.len() == 9 && "Soft Read"@[0] == 'S' && "Soft Read"@[1] == 'o');
    assert("Night Wind-Down"@.len() == 15 && "Night Wind-Down"@[0] == 'N' && "Night Wind-Down"@[1] == 'i');
    assert("Signal Boost"@.len() == 12 && "Signal Boost"@[0] == 'S' && "Signal Boost"@[1] == 'i');
    assert("Blue Hour"@.len() == 9 && "Blue Hour"@[0] == 'B' && "Blue Hour"@[1] == 'l');
    assert("Ember Drift"@.len() == 11 && "Ember Drift"@[0] == 'E' && "Ember Drift"@[1] == 'm');
    assert("Rain Glass"@.len() == 10 && "Rain Glass"@[0] == 'R' && "Rain Glass"@[1] == 'a');
    assert("Velvet Sunset"@.len() == 13 && "Velvet Sunset"@[0] == 'V' && "Velvet Sunset"@[1] == 'e');
    assert("After Midnight"@.len() == 14 && "After Midnight"@[0] == 'A' && "After Midnight"@[1] == 'f');
    assert("Forest Hush"@.len() == 11 && "Forest Hush"@[0] == 'F' && "Forest Hush"@[1] == 'o');
}

/// The state a shape gives a light at offset `spread`.
pub open spec fn shaped_state(shape: PresetShape, spread: int) -> LightStateUpdate {
    let b = if shape.dims_outward {
        shape.brightness - abs(spread) / (shape.brightness_divisor as int)
    } else {
        shape.brightness + div_toward_zero(spread, shape.brightness_divisor as int)
    };
    LightStateUpdate {
        on: Some(true),
        brightness: Some(clamp_to(b, shape.brightness_min as int, shape.brightness_max as int) as u8),
        saturation: Some(
            clamp_to(
                shape.saturation + abs(spread) / (shape.saturation_divisor as int),
                shape.saturation_min as int,
                shape.saturation_max as int,
            ) as u8,
        ),
        hue: Some(clamp_to(shape.hue + spread * shape.hue_step, 0, 65535) as u16),
        transition_time: Some(shape.transition_time),
    }
}

/// The state of one light for a preset, given the light's offset; an unknown name gets
/// a plain warm white.
pub open spec fn preset_state(name: Seq<char>, spread: int) -> LightStateUpdate {
    match preset_shape(name) {
        Some(shape) => shaped_state(shape, spread),
        None => LightStateUpdate {
            on: Some(true),
            brightness: Some(180),
            saturation: Some(60),
            hue: Some(8600),
            transition_time: Some(4),
        },
    }
}

/// The bounds every shape of the pack keeps.
pub open spec fn shape_in_range(shape: PresetShape) -> bool {
    &&& 1 <= shape.brightness_divisor
    &&& 1 <= shape.saturation_divisor
    &&& 1 <= shape.brightness_min <= shape.brightness_max <= 254
    &&& 0 <= shape.saturation_min <= shape.saturation_max <= 254
    &&& 0 <= shape.brightness <= 1000
    &&& 0 <= shape.saturation <= 1000
    &&& 0 <= shape.hue <= 65535
    &&& 0 <= shape.hue_step <= 100
}

/// Looks up the shape of a named preset.
fn shape_for(name: &str) -> (r: Option<PresetShape>)
    ensures
        r == preset_shape(name@),
        r matches Some(shape) ==> shape_in_range(shape),
{
    proof {
        reveal_strlit("Quiet Focus");
        reveal_strlit("Soft Read");
        reveal_strlit("Night Wind-Down");
        reveal_strlit("Signal Boost");
        reveal_strlit("Blue Hour");
        reveal_strlit("Ember Drift");
        reveal_strlit("Rain Glass");
        reveal_strlit("Velvet Sunset");
        reveal_strlit("After Midnight");
        reveal_strlit("Forest Hush");
    }
    if str_eq(name, "Quiet Focus") {
        Some(PresetShape {
            brightness: 208,
            brightness_divisor: 2,
            dims_outward: false,
            brightness_min: 140,
            brightness_max: 254,
            saturation: 38,
            saturation_divisor: 3,
            saturation_min: 8,
            saturation_max: 90,
            hue: 8700,
            hue_step: 36,
            transition_time: 4,
        })
    } else if str_eq(name, "Soft Read") {
        Some(PresetShape {
            brightness: 174,
            brightness_divisor: 2,
            dims_outward: false,
            brightness_min: 90,
            brightness_max: 254,
            saturation: 118,
            saturation_divisor: 2,
            saturation_min: 40,
            saturation_max: 180,
            hue: 7800,
            hue_step: 28,
            transition_time: 4,
        })
    } else if str_eq(name, "Night Wind-Down") {
        Some(PresetShape {
            brightness: 44,
            brightness_divisor: 4,
            dims_outward: false,
            brightness_min: 8,
            brightness_max: 90,
            saturation: 150,
            saturation_divisor: 2,
            saturation_min: 80,
            saturation_max: 220,
            hue: 6900,
            hue_step: 24,
            transition_time: 6,
        })
    } else if str_eq(name, "Signal Boost") {
        Some(PresetShape {
            brightness: 248,
            brightness_divisor: 3,
            dims_outward: true,
            brightness_min: 200,
            brightness_max: 254,
            saturation: 18,
            saturation_divisor: 4,
            saturation_min: 0,
            saturation_max: 60,
            hue: 9400,
            hue_step: 20,
            transition_time: 3,
        })
    } else if str_eq(name, "Blue Hour") {
        Some(PresetShape {
            brightness: 132,
            brightness_divisor: 3,
            dims_outward: false,
            brightness_min: 72,
            brightness_max: 190,
            saturation: 168,
            saturation_divisor: 3,
            saturation_min: 96,
            saturation_max: 230,
            hue: 46500,
            hue_step: 42,
            transition_time: 5,
        })
    } else if str_eq(name, "Ember Drift") {
        Some(PresetShape {
            brightness: 118,
            brightness_divisor: 3,
            dims_outward: false,
            brightness_min: 52,
            brightness_max: 188,
            saturation: 184,
            saturation_divisor: 3,
            saturation_min: 120,
            saturation_max: 240,
            hue: 5000,
            hue_step: 20,
            transition_time: 5,
        })
    } else if str_eq(name, "Rain Glass") {
        Some(PresetShape {
            brightness: 102,
            brightness_divisor: 4,
            dims_outward: false,
            brightness_min: 44,
            brightness_max: 164,
            saturation: 134,
            saturation_divisor: 3,
            saturation_min: 72,
            saturation_max: 200,
            hue: 38600,
            hue_step: 34,
            transition_time: 6,
        })
    } else if str_eq(name, "Velvet Sunset") {
        Some(PresetShape {
            brightness: 164,
            brightness_divisor: 3,
            dims_outward: false,
            brightness_min: 94,
            brightness_max: 224,
            saturation: 198,
            saturation_divisor: 4,
            saturation_min: 120,
            saturation_max: 254,
            hue: 3700,
            hue_step: 18,
            transition_time: 4,
        })
    } else if str_eq(name, "After Midnight") {
        Some(PresetShape {
            brightness: 56,
            brightness_divisor: 5,
            dims_outward: false,
            brightness_min: 6,
            brightness_max: 92,
            saturation: 206,
            saturation_divisor: 4,
            saturation_min: 130,
            saturation_max: 254,
            hue: 48200,
            hue_step: 38,
            transition_time: 6,
        })
    } else if str_eq(name, "Forest Hush") {
        Some(PresetShape {
            brightness: 124,
            brightness_divisor: 4,
            dims_outward: false,
            brightness_min: 58,
            brightness_max: 186,
            saturation: 150,
            saturation_divisor: 3,
            saturation_min: 80,
            saturation_max: 220,
            hue: 23800,
            hue_step: 28,
            transition_time: 5,
        })
    } else {
        None
    }
}

fn clamp_i32(v: i32, lo: i32, hi: i32) -> (r: i32)
    requires
        lo <= hi,
    ensures
        r == clamp_to(v as int, lo as int, hi as int),
{
    if v < lo {
        lo
    } else if v > hi {
        hi
    } else {
        v
    }
}

/// The state a shape gives a light at offset `spread`.
fn shaped_light_state(shape: PresetShape, spread: i16) -> (r: LightStateUpdate)
    requires
        shape_in_range(shape),
    ensures
        r == shaped_state(shape, spread as int),
{
    let s = spread as i32;
    let magnitude = if s < 0 {
        -s
    } else {
        s
    };
    let b = if shape.dims_outward {
        shape.brightness - magnitude / shape.brightness_divisor
    } else if s >= 0 {
        shape.brightness + s / shape.brightness_divisor
    } else {
        shape.brightness - magnitude / shape.brightness_divisor
    };
    let brightness = clamp_i32(b, shape.brightness_min, shape.brightness_max);
    let saturation = clamp_i32(
        shape.saturation + magnitude / shape.saturation_divisor,
        shape.saturation_min,
        shape.saturation_max,
    );
    let step = shape.hue_step;
    assert(-3276800 <= s * step <= 3276700) by (nonlinear_arith)
        requires
            -32768 <= s <= 32767,
            0 <= step <= 100,
    ;
    let hue = clamp_i32(shape.hue + s * step, 0, 65535);
    LightStateUpdate {
        on: Some(true),
        brightness: Some(brightness as u8),
        saturation: Some(saturation as u8),
        hue: Some(hue as u16),
        transition_time: Some(shape.transition_time),
    }
}

/// The state that light `light_index` of `light_count` lights gets for a preset: on, with
/// brightness, saturation and hue moved a little by the light's offset, each kept within
/// the preset's bounds; brightness always lands in 1..=254, saturation never passes 254.
pub fn preset_light_state(preset: CuratedScenePreset, light_index: usize, light_count: usize) -> (r: LightStateUpdate)
    requires
        offset_fits(light_index as int, light_count as int),
    ensures
        r == preset_state(preset.name@, light_offset_spec(light_index as int, light_count as int)),
        r.on == Some(true),
        r.brightness matches Some(b) && 1 <= b <= 254,
        r.saturation matches Some(s) && s <= 254,
        r.hue is Some,
{
    let spread = light_offset(light_index, light_count);
    match shape_for(preset.name) {
        Some(shape) => shaped_light_state(shape, spread),
        None => LightStateUpdate {
            on: Some(true),
            brightness: Some(180),
            saturation: Some(60),
            hue: Some(8600),
            transition_time: Some(4),
        },
    }
}

} // verus!
