//! Entertainment areas as the bridge's CLIP v2 API describes them, turned into the public
//! model: the area's lights are gathered from its channel members, its light services and
//! its locations, device references left out, sorted and without repeats.
use vstd::prelude::*;
use crate::hue::models::{
    EntertainmentArea, EntertainmentChannel, RawClipV2ResourceServiceIdentifier, RawEntertainmentArea,
    RawEntertainmentAreaStatus, RawEntertainmentChannel, RawEntertainmentChannelMember,
};
use crate::sorting::{Precedence, sort_by_order, sorted_by};
use crate::string_ops::{ascii_lowercase, ascii_lowercase_spec, views};
use crate::text::{compare_str, lemma_lex_order_antisym, lex_order, owned, str_eq, trim, trim_spec};

verus! {

/// The status an area has when the bridge gives none.
pub fn default_inactive_status() -> (r: String)
    ensures
        r@ == "inactive"@,
{
    String::from_str("inactive")
}

impl Default for RawEntertainmentAreaStatus {
    fn default() -> (r: Self)
        ensures
            r matches RawEntertainmentAreaStatus::String(s) && s@ == "inactive"@,
    {
        RawEntertainmentAreaStatus::String(default_inactive_status())
    }
}

impl RawEntertainmentAreaStatus {
    /// The status text, however the bridge sent it.
    pub open spec fn status_spec(self) -> String {
        match self {
            RawEntertainmentAreaStatus::String(s) => s,
            RawEntertainmentAreaStatus::Object { status } => status,
        }
    }

    /// The status text, however the bridge sent it.
    pub fn into_status(self) -> (r: String)
        ensures
            r == self.status_spec(),
    {
        match self {
            RawEntertainmentAreaStatus::String(s) => s,
            RawEntertainmentAreaStatus::Object { status } => status,
        }
    }
}

/// A member or service of type `device` (in any letter case) names a device, not a light.
pub open spec fn excluded_type(rtype: Option<Seq<char>>) -> bool {
    rtype matches Some(t) && ascii_lowercase_spec(t) == "device"@
}

pub open spec fn opt_view(o: Option<String>) -> Option<Seq<char>> {
    match o {
        Some(s) => Some(s@),
        None => None,
    }
}

/// Whether a resource type names a device.
pub fn is_excluded_member_service_type(rtype: Option<&str>) -> (r: bool)
    ensures
        r == excluded_type(match rtype {
            Some(t) => Some(t@),
            None => None,
        }),
{
    match rtype {
        Some(t) => {
            let lower = ascii_lowercase(t);
            proof {
                reveal_strlit("device");
            }
            str_eq(lower.as_str(), "device")
        },
        None => false,
    }
}

fn opt_as_str(o: &Option<String>) -> (r: Option<&str>)
    ensures
        match r {
            Some(t) => opt_view(*o) == Some(t@),
            None => o is None,
        },
{
    match o {
        Some(s) => Some(s.as_str()),
        None => None,
    }
}

/// The light a channel member stands for: its service's trimmed identifier when the
/// service is not a device and the identifier is not blank, else its own trimmed
/// identifier when that is not blank and the member is not a device.
pub open spec fn member_light(m: RawEntertainmentChannelMember) -> Option<Seq<char>> {
    let from_service = match m.service {
        Some(s) => if !excluded_type(opt_view(s.rtype)) && trim_spec(s.rid@).len() > 0 {
            Some(trim_spec(s.rid@))
        } else {
            None
        },
        None => None,
    };
    match from_service {
        Some(x) => Some(x),
        None => match m.rid {
            Some(r) => if trim_spec(r@).len() == 0 || excluded_type(opt_view(m.rtype)) {
                None
            } else {
                Some(trim_spec(r@))
            },
            None => None,
        },
    }
}

impl RawEntertainmentChannelMember {
    /// The light this member stands for, if any.
    pub fn candidate_service_rid(&self) -> (r: Option<String>)
        ensures
            opt_view(r) == member_light(*self),
    {
        if let Some(service) = &self.service {
            let rid = trim(service.rid.as_str());
            if !is_excluded_member_service_type(opt_as_str(&service.rtype)) && rid.unicode_len() > 0 {
                return Some(owned(rid));
            }
        }
        match &self.rid {
            Some(r) => {
                let rid = trim(r.as_str());
                if rid.unicode_len() == 0 || is_excluded_member_service_type(opt_as_str(&self.rtype)) {
                    None
                } else {
                    Some(owned(rid))
                }
            },
            None => None,
        }
    }
}

/// The lights named by a list of members, in order.
pub open spec fn member_lights(ms: Seq<RawEntertainmentChannelMember>) -> Seq<Seq<char>>
    decreases ms.len(),
{
    if ms.len() == 0 {
        Seq::empty()
    } else {
        match member_light(ms.last()) {
            Some(x) => member_lights(ms.drop_last()).push(x),
            None => member_lights(ms.drop_last()),
        }
    }
}

/// The lights named by the members of each channel, channel by channel.
pub open spec fn channel_lights(cs: Seq<RawEntertainmentChannel>) -> Seq<Seq<char>>
    decreases cs.len(),
{
    if cs.len() == 0 {
        Seq::empty()
    } else {
        channel_lights(cs.drop_last()) + member_lights(cs.last().members@)
    }
}

/// The light services that are not devices.
pub open spec fn service_lights(ss: Seq<RawClipV2ResourceServiceIdentifier>) -> Seq<Seq<char>>
    decreases ss.len(),
{
    if ss.len() == 0 {
        Seq::empty()
    } else if excluded_type(opt_view(ss.last().rtype)) {
        service_lights(ss.drop_last())
    } else {
        service_lights(ss.drop_last()).push(ss.last().rid@)
    }
}

/// Every light reference of an area: channel members, light services, then locations.
pub open spec fn area_light_refs(raw: RawEntertainmentArea) -> Seq<Seq<char>> {
    channel_lights(raw.channels@) + service_lights(raw.light_services@) + views(raw.location_ids@)
}

/// Strings in byte order.
pub struct ByteOrder;

impl Precedence<String> for ByteOrder {
    open spec fn before(a: String, b: String) -> bool {
        lex_order(a@, b@) < 0
    }

    proof fn lemma_before_asymmetric(a: String, b: String) {
        lemma_lex_order_antisym(a@, b@);
    }

    fn precedes(a: &String, b: &String) -> (r: bool) {
        compare_str(a.as_str(), b.as_str()) < 0
    }
}

/// Each entry comes strictly before the next in byte order.
pub open spec fn strictly_ascending(s: Seq<Seq<char>>) -> bool {
    forall|i: int| 0 <= i < s.len() - 1 ==> lex_order(#[trigger] s[i], s[i + 1]) < 0
}

/// `ids` sorted in byte order with repeats dropped (`sort` then `dedup`).
pub fn sorted_unique(ids: Vec<String>) -> (r: Vec<String>)
    ensures
        strictly_ascending(views(r@)),
        forall|x: Seq<char>| views(r@).contains(x) <==> views(ids@).contains(x),
{
    broadcast use vstd::seq_lib::group_to_multiset_ensures;

    let ghost initial = ids@;
    let sorted = sort_by_order::<String, ByteOrder>(ids);
    proof {
        assert forall|x: String| sorted@.contains(x) <==> initial.contains(x) by {
            assert(sorted@.to_multiset().count(x) == initial.to_multiset().count(x));
        }
    }
    let mut out: Vec<String> = Vec::new();
    let mut i: usize = 0;
    while i < sorted.len()
        invariant
            i <= sorted@.len(),
            sorted_by::<String, ByteOrder>(sorted@),
            strictly_ascending(views(out@)),
            i > 0 ==> out@.len() > 0 && out@.last()@ == sorted@[i - 1]@,
            i == 0 ==> out@.len() == 0,
            forall|x: Seq<char>|
                views(out@).contains(x) <==> exists|k: int| 0 <= k < i && (#[trigger] sorted@[k])@ == x,
        decreases sorted.len() - i,
    {
        let push = out.len() == 0 || !str_eq(out[out.len() - 1].as_str(), sorted[i].as_str());
        let ghost before = views(out@);
        if push {
            proof {
                if i > 0 {
                    assert(!ByteOrder::before(sorted@[i as int], sorted@[i - 1]));
                    lemma_lex_order_antisym(sorted@[i - 1]@, sorted@[i as int]@);
                }
            }
            out.push(sorted[i].clone());
            assert(views(out@) =~= before.push(sorted@[i as int]@));
        }
        proof {
            assert forall|x: Seq<char>| views(out@).contains(x) implies exists|k: int|
                0 <= k < i + 1 && (#[trigger] sorted@[k])@ == x by {
                if before.contains(x) {
                    let k = choose|k: int| 0 <= k < i && (#[trigger] sorted@[k])@ == x;
                    assert(0 <= k < i + 1 && sorted@[k]@ == x);
                } else {
                    assert(sorted@[i as int]@ == x);
                }
            }
            assert forall|x: Seq<char>| (exists|k: int| 0 <= k < i + 1 && (#[trigger] sorted@[k])@ == x) implies views(
                out@,
            ).contains(x) by {
                let k = choose|k: int| 0 <= k < i + 1 && (#[trigger] sorted@[k])@ == x;
                if k < i {
                    assert(before.contains(x));
                    let j = choose|j: int| 0 <= j < before.len() && before[j] == x;
                    assert(views(out@)[j] == x);
                } else {
                    assert(views(out@)[views(out@).len() - 1] == x);
                }
            }
        }
        i += 1;
    }
    proof {
        assert forall|x: Seq<char>| views(out@).contains(x) <==> views(initial).contains(x) by {
            if views(out@).contains(x) {
                let k = choose|k: int| 0 <= k < sorted@.len() && (#[trigger] sorted@[k])@ == x;
                assert(initial.contains(sorted@[k]));
                let j = choose|j: int| 0 <= j < initial.len() && initial[j] == sorted@[k];
                assert(views(initial)[j] == x);
            }
            if views(initial).contains(x) {
                let j = choose|j: int| 0 <= j < views(initial).len() && views(initial)[j] == x;
                assert(views(initial)[j] == initial[j]@);
                assert(initial.contains(initial[j]));
                assert(sorted@.contains(initial[j]));
                let k = choose|k: int| 0 <= k < sorted@.len() && sorted@[k] == initial[j];
                assert(sorted@[k]@ == x);
            }
        }
    }
    out
}

/// The public model of an area: its lights are the references of `area_light_refs`,
/// sorted in byte order without repeats, its channels converted one by one, and its status
/// taken from whichever form the bridge used.
pub fn entertainment_area_from(raw: RawEntertainmentArea) -> (r: EntertainmentArea)
    ensures
        r.id == raw.id,
        r.name == raw.metadata_name,
        r.configuration_type == raw.configuration_type,
        r.status == raw.status.status_spec(),
        r.channels@.len() == raw.channels@.len(),
        forall|i: int|
            0 <= i < r.channels@.len() ==> (#[trigger] r.channels@[i]).channel_id == raw.channels@[i].channel_id
                && r.channels@[i].position == raw.channels@[i].position,
        strictly_ascending(views(r.light_ids@)),
        forall|x: Seq<char>| views(r.light_ids@).contains(x) <==> area_light_refs(raw).contains(x),
{
    let mut refs: Vec<String> = Vec::new();
    let mut c: usize = 0;
    while c < raw.channels.len()
        invariant
            c <= raw.channels@.len(),
            views(refs@) == channel_lights(raw.channels@.take(c as int)),
        decreases raw.channels.len() - c,
    {
        let ghost cs = raw.channels@.take(c + 1);
        assert(cs.drop_last() =~= raw.channels@.take(c as int));
        let members = &raw.channels[c].members;
        let ghost start = views(refs@);
        let mut m: usize = 0;
        while m < members.len()
            invariant
                m <= members@.len(),
                views(refs@) == start + member_lights(members@.take(m as int)),
            decreases members.len() - m,
        {
            assert(members@.take(m + 1).drop_last() =~= members@.take(m as int));
            let ghost before = views(refs@);
            match members[m].candidate_service_rid() {
                Some(id) => {
                    refs.push(id);
                    assert(views(refs@) =~= before.push(member_light(members@[m as int])->0));
                },
                None => {},
            }
            m += 1;
        }
        assert(members@.take(members@.len() as int) =~= members@);
        c += 1;
    }
    assert(raw.channels@.take(raw.channels@.len() as int) =~= raw.channels@);
    let ghost after_channels = views(refs@);
    let mut k: usize = 0;
    while k < raw.light_services.len()
        invariant
            k <= raw.light_services@.len(),
            views(refs@) == after_channels + service_lights(raw.light_services@.take(k as int)),
        decreases raw.light_services.len() - k,
    {
        assert(raw.light_services@.take(k + 1).drop_last() =~= raw.light_services@.take(k as int));
        let service = &raw.light_services[k];
        if !is_excluded_member_service_type(opt_as_str(&service.rtype)) {
            let ghost before = views(refs@);
            refs.push(service.rid.clone());
            assert(views(refs@) =~= before.push(service.rid@));
        }
        k += 1;
    }
    assert(raw.light_services@.take(raw.light_services@.len() as int) =~= raw.light_services@);
    let ghost after_services = views(refs@);
    let mut l: usize = 0;
    while l < raw.location_ids.len()
        invariant
            l <= raw.location_ids@.len(),
            views(refs@) == after_services + views(raw.location_ids@.take(l as int)),
        decreases raw.location_ids.len() - l,
    {
        let ghost before = views(refs@);
        refs.push(raw.location_ids[l].clone());
        assert(views(refs@) =~= before.push(raw.location_ids@[l as int]@));
        assert(views(raw.location_ids@.take(l + 1)) =~= views(raw.location_ids@.take(l as int)).push(
            raw.location_ids@[l as int]@,
        ));
        l += 1;
    }
    assert(raw.location_ids@.take(raw.location_ids@.len() as int) =~= raw.location_ids@);
    assert(views(refs@) =~= area_light_refs(raw));
    let light_ids = sorted_unique(refs);
    let mut channels: Vec<EntertainmentChannel> = Vec::new();
    let mut j: usize = 0;
    while j < raw.channels.len()
        invariant
            j <= raw.channels@.len(),
            channels@.len() == j,
            forall|i: int|
                0 <= i < j ==> (#[trigger] channels@[i]).channel_id == raw.channels@[i].channel_id
                    && channels@[i].position == raw.channels@[i].position,
        decreases raw.channels.len() - j,
    {
        channels.push(
            EntertainmentChannel { channel_id: raw.channels[j].channel_id, position: raw.channels[j].position },
        );
        j += 1;
    }
    EntertainmentArea {
        id: raw.id,
        name: raw.metadata_name,
        configuration_type: raw.configuration_type,
        status: raw.status.into_status(),
        channels,
        light_ids,
    }
}

} // verus!
