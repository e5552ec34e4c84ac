//! Conversion of raw bridge records into the public models.
use vstd::prelude::*;
use crate::hue::models::{
    Automation, EntertainmentChannel, EntertainmentPosition, Group, GroupKind, Light, RawAutomation,
    RawEntertainmentChannel, RawHueGroup, RawHueLight, RawHueScene, Scene,
};
use crate::text::str_eq;

verus! {

impl From<(String, RawHueLight)> for Light {
    fn from(entry: (String, RawHueLight)) -> (r: Self) {
        let (id, raw) = entry;
        Light {
            id,
            name: raw.name,
            is_on: raw.state.on,
            brightness: raw.state.bri,
            saturation: raw.state.sat,
            hue: raw.state.hue,
            xy_bits: raw.state.xy_bits,
            reachable: raw.state.reachable,
            light_type: raw.light_type,
            model_id: raw.modelid,
        }
    }
}

impl vstd::std_specs::convert::FromSpecImpl<(String, RawHueLight)> for Light {
    open spec fn obeys_from_spec() -> bool {
        true
    }

    open spec fn from_spec(entry: (String, RawHueLight)) -> Self {
        Light {
            id: entry.0,
            name: entry.1.name,
            is_on: entry.1.state.on,
            brightness: entry.1.state.bri,
            saturation: entry.1.state.sat,
            hue: entry.1.state.hue,
            xy_bits: entry.1.state.xy_bits,
            reachable: entry.1.state.reachable,
            light_type: entry.1.light_type,
            model_id: entry.1.modelid,
        }
    }
}

impl From<(String, RawHueScene)> for Scene {
    fn from(entry: (String, RawHueScene)) -> (r: Self) {
        let (id, raw) = entry;
        let light_count = raw.lights.len();
        Scene {
            id,
            name: raw.name,
            group_id: raw.group,
            light_count,
            scene_type: raw.scene_type,
            preview_color_soft: None,
            preview_color_main: None,
            preview_color_deep: None,
        }
    }
}

impl vstd::std_specs::convert::FromSpecImpl<(String, RawHueScene)> for Scene {
    open spec fn obeys_from_spec() -> bool {
        true
    }

    open spec fn from_spec(entry: (String, RawHueScene)) -> Self {
        Scene {
            id: entry.0,
            name: entry.1.name,
            group_id: entry.1.group,
            light_count: entry.1.lights@.len() as usize,
            scene_type: entry.1.scene_type,
            preview_color_soft: None,
            preview_color_main: None,
            preview_color_deep: None,
        }
    }
}

impl From<RawAutomation> for Automation {
    fn from(raw: RawAutomation) -> (r: Self) {
        Automation {
            id: raw.id,
            name: raw.metadata_name,
            enabled: raw.enabled,
            automation_type: raw.automation_type,
            script_id: raw.script_id,
        }
    }
}

impl vstd::std_specs::convert::FromSpecImpl<RawAutomation> for Automation {
    open spec fn obeys_from_spec() -> bool {
        true
    }

    open spec fn from_spec(raw: RawAutomation) -> Self {
        Automation {
            id: raw.id,
            name: raw.metadata_name,
            enabled: raw.enabled,
            automation_type: raw.automation_type,
            script_id: raw.script_id,
        }
    }
}

impl From<RawEntertainmentChannel> for EntertainmentChannel {
    fn from(raw: RawEntertainmentChannel) -> (r: Self) {
        EntertainmentChannel { channel_id: raw.channel_id, position: raw.position }
    }
}

impl vstd::std_specs::convert::FromSpecImpl<RawEntertainmentChannel> for EntertainmentChannel {
    open spec fn obeys_from_spec() -> bool {
        true
    }

    open spec fn from_spec(raw: RawEntertainmentChannel) -> Self {
        EntertainmentChannel { channel_id: raw.channel_id, position: raw.position }
    }
}

/// The group kind named by a bridge group type, for rooms and zones only.
pub open spec fn group_kind_of(group_type: Seq<char>) -> Option<GroupKind> {
    if group_type == "Room"@ {
        Some(GroupKind::Room)
    } else if group_type == "Zone"@ {
        Some(GroupKind::Zone)
    } else {
        None
    }
}

impl TryFrom<(String, RawHueGroup)> for Group {
    type Error = ();

    fn try_from(entry: (String, RawHueGroup)) -> (r: Result<Self, ()>) {
        let (id, raw) = entry;
        let kind = if str_eq(raw.group_type.as_str(), "Room") {
            GroupKind::Room
        } else if str_eq(raw.group_type.as_str(), "Zone") {
            GroupKind::Zone
        } else {
            return Err(());
        };
        Ok(Group { id, name: raw.name, kind, light_ids: raw.lights })
    }
}

impl vstd::std_specs::convert::TryFromSpecImpl<(String, RawHueGroup)> for Group {
    open spec fn obeys_try_from_spec() -> bool {
        true
    }

    open spec fn try_from_spec(entry: (String, RawHueGroup)) -> Result<Self, ()> {
        match group_kind_of(entry.1.group_type@) {
            Some(kind) => Ok(Group { id: entry.0, name: entry.1.name, kind, light_ids: entry.1.lights }),
            None => Err(()),
        }
    }
}

} // verus!
