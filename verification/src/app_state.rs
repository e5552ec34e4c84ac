//! The two persisted state files: the configuration file (last bridge connection, theme,
//! audio sync and assistant settings) and the data file (saved room orders per bridge).
//! Reading and writing the files happens outside the library; these are the values they
//! hold and the changes that loading and saving make.
use vstd::prelude::*;
use crate::hue::models::{AudioSyncColorPalette, AudioSyncSpeedMode, BridgeConnection};
use crate::ollama::models::OllamaSettings;
use crate::text::{ends_with, owned, starts_with, str_eq, trim, trim_spec};
use crate::theme::ThemePreference;

verus! {

/// An equal copy of an optional string.
pub fn duplicate_opt_string(o: &Option<String>) -> (r: Option<String>)
    ensures
        r == *o,
{
    match o {
        Some(s) => Some(s.clone()),
        None => None,
    }
}

impl BridgeConnection {
    /// An equal copy of the connection.
    pub fn duplicate(&self) -> (r: Self)
        ensures
            r == *self,
    {
        BridgeConnection {
            bridge_ip: self.bridge_ip.clone(),
            username: self.username.clone(),
            client_key: duplicate_opt_string(&self.client_key),
            application_id: duplicate_opt_string(&self.application_id),
        }
    }
}

/// The audio sync choices that the user made last.
#[derive(Clone, Debug, PartialEq, Eq)]
pub struct AudioSyncPreferences {
    pub selected_entertainment_area_id: Option<String>,
    pub selected_pipewire_target_object: Option<String>,
    pub selected_sync_speed_mode: AudioSyncSpeedMode,
    pub selected_sync_color_palette: AudioSyncColorPalette,
}

impl Default for AudioSyncPreferences {
    fn default() -> (r: Self)
        ensures
            r.selected_entertainment_area_id is None,
            r.selected_pipewire_target_object is None,
            r.selected_sync_speed_mode == AudioSyncSpeedMode::Medium,
            r.selected_sync_color_palette == AudioSyncColorPalette::CurrentRoom,
    {
        AudioSyncPreferences {
            selected_entertainment_area_id: None,
            selected_pipewire_target_object: None,
            selected_sync_speed_mode: AudioSyncSpeedMode::Medium,
            selected_sync_color_palette: AudioSyncColorPalette::CurrentRoom,
        }
    }
}

impl AudioSyncPreferences {
    /// An equal copy of the preferences.
    pub fn duplicate(&self) -> (r: Self)
        ensures
            r == *self,
    {
        AudioSyncPreferences {
            selected_entertainment_area_id: duplicate_opt_string(&self.selected_entertainment_area_id),
            selected_pipewire_target_object: duplicate_opt_string(&self.selected_pipewire_target_object),
            selected_sync_speed_mode: self.selected_sync_speed_mode,
            selected_sync_color_palette: self.selected_sync_color_palette,
        }
    }
}

/// Contents of the configuration file; a missing file reads as the default.
#[derive(Clone, Debug, PartialEq, Eq)]
pub struct AppConfigFile {
    pub last_connection: Option<BridgeConnection>,
    pub theme_preference: ThemePreference,
    pub audio_sync: AudioSyncPreferences,
    pub ollama: OllamaSettings,
}

impl Default for AppConfigFile {
    fn default() -> (r: Self)
        ensures
            r.last_connection is None,
            r.theme_preference == ThemePreference::default_spec(),
            r.audio_sync.selected_entertainment_area_id is None,
            r.audio_sync.selected_pipewire_target_object is None,
            r.audio_sync.selected_sync_speed_mode == AudioSyncSpeedMode::Medium,
            r.audio_sync.selected_sync_color_palette == AudioSyncColorPalette::CurrentRoom,
            r.ollama.base_url@ == "http://localhost:11434"@,
            r.ollama.model@ == "qwen2.5:14b-instruct"@,
            r.ollama.api_key is None,
            r.ollama.request_timeout_seconds == 30,
    {
        AppConfigFile {
            last_connection: None,
            theme_preference: ThemePreference::default(),
            audio_sync: AudioSyncPreferences::default(),
            ollama: OllamaSettings::default(),
        }
    }
}

/// The last bridge connection stored in the configuration.
pub fn load_bridge_connection(config: &AppConfigFile) -> (r: Option<BridgeConnection>)
    ensures
        r == config.last_connection,
{
    match &config.last_connection {
        Some(c) => Some(c.duplicate()),
        None => None,
    }
}

/// The configuration with `connection` stored as the last connection.
pub fn save_bridge_connection(config: AppConfigFile, connection: &BridgeConnection) -> (r: AppConfigFile)
    ensures
        r == (AppConfigFile { last_connection: Some(*connection), ..config }),
{
    let mut config = config;
    config.last_connection = Some(connection.duplicate());
    config
}

/// The configuration without a stored connection.
pub fn clear_bridge_connection(config: AppConfigFile) -> (r: AppConfigFile)
    ensures
        r == (AppConfigFile { last_connection: None, ..config }),
{
    let mut config = config;
    config.last_connection = None;
    config
}

/// The stored theme preference.
pub fn load_theme_preference(config: &AppConfigFile) -> (r: ThemePreference)
    ensures
        r == config.theme_preference,
{
    config.theme_preference
}

/// The configuration with `preference` stored.
pub fn save_theme_preference(config: AppConfigFile, preference: &ThemePreference) -> (r: AppConfigFile)
    ensures
        r == (AppConfigFile { theme_preference: *preference, ..config }),
{
    let mut config = config;
    config.theme_preference = *preference;
    config
}

/// The stored audio sync preferences.
pub fn load_audio_sync_preferences(config: &AppConfigFile) -> (r: AudioSyncPreferences)
    ensures
        r == config.audio_sync,
{
    config.audio_sync.duplicate()
}

/// The configuration with `preferences` stored.
pub fn save_audio_sync_preferences(config: AppConfigFile, preferences: &AudioSyncPreferences) -> (r:
    AppConfigFile)
    ensures
        r == (AppConfigFile { audio_sync: *preferences, ..config }),
{
    let mut config = config;
    config.audio_sync = preferences.duplicate();
    config
}

/// The stored assistant settings.
pub fn load_ollama_settings(config: &AppConfigFile) -> (r: OllamaSettings)
    ensures
        r == config.ollama,
{
    config.ollama.duplicate()
}

/// The configuration with `settings` stored.
pub fn save_ollama_settings(config: AppConfigFile, settings: &OllamaSettings) -> (r: AppConfigFile)
    ensures
        r == (AppConfigFile { ollama: *settings, ..config }),
{
    let mut config = config;
    config.ollama = settings.duplicate();
    config
}


/// The key a room order is saved under: `<bridge>::<username>`, both trimmed.
pub open spec fn room_order_key_spec(bridge_ip: Seq<char>, username: Seq<char>) -> Seq<char> {
    trim_spec(bridge_ip) + "::"@ + trim_spec(username)
}

/// The key under which the room order of a connection is saved.
pub fn room_order_key(connection: &BridgeConnection) -> (r: String)
    ensures
        r@ == room_order_key_spec(connection.bridge_ip@, connection.username@),
{
    owned(trim(connection.bridge_ip.as_str())).concat("::").concat(trim(connection.username.as_str()))
}

/// A room order to save for a connection.
#[derive(Clone, Debug, PartialEq, Eq)]
pub struct SaveRoomOrderRequest {
    pub connection: BridgeConnection,
    pub room_ids: Vec<String>,
}

/// Contents of the data file: the saved room order of each bridge connection, at most
/// one entry per key.
#[derive(Debug)]
pub struct AppDataFile {
    room_orders: Vec<(String, Vec<String>)>,
}

/// The keys of a list of entries are pairwise distinct.
pub open spec fn distinct_keys(entries: Seq<(String, Vec<String>)>) -> bool {
    forall|i: int, j: int|
        0 <= i < entries.len() && 0 <= j < entries.len() && i != j ==> #[trigger] entries[i].0@
            != #[trigger] entries[j].0@
}

/// The saved orders as a map from key to room identifiers.
pub open spec fn orders_map(entries: Seq<(String, Vec<String>)>) -> Map<Seq<char>, Seq<String>> {
    Map::new(
        |k: Seq<char>| exists|i: int| 0 <= i < entries.len() && entries[i].0@ == k,
        |k: Seq<char>|
            entries[choose|i: int| 0 <= i < entries.len() && entries[i].0@ == k].1@,
    )
}

pub proof fn lemma_orders_map_at(entries: Seq<(String, Vec<String>)>, i: int)
    requires
        distinct_keys(entries),
        0 <= i < entries.len(),
    ensures
        orders_map(entries).contains_key(entries[i].0@),
        orders_map(entries)[entries[i].0@] == entries[i].1@,
{
    let k = entries[i].0@;
    assert(exists|j: int| 0 <= j < entries.len() && entries[j].0@ == k);
    let j = choose|j: int| 0 <= j < entries.len() && entries[j].0@ == k;
    if j != i {
        assert(entries[i].0@ != entries[j].0@);
    }
}

impl View for AppDataFile {
    type V = Map<Seq<char>, Seq<String>>;

    closed spec fn view(&self) -> Map<Seq<char>, Seq<String>> {
        orders_map(self.room_orders@)
    }
}

impl Default for AppDataFile {
    fn default() -> (r: Self)
        ensures
            r@ == Map::<Seq<char>, Seq<String>>::empty(),
    {
        AppDataFile::new()
    }
}

impl AppDataFile {
    #[verifier::type_invariant]
    closed spec fn keys_are_distinct(self) -> bool {
        distinct_keys(self.room_orders@)
    }

    /// Whether no order is saved.
    pub fn is_empty(&self) -> (r: bool)
        ensures
            r <==> self@ == Map::<Seq<char>, Seq<String>>::empty(),
    {
        if self.room_orders.len() == 0 {
            assert(self@ =~= Map::<Seq<char>, Seq<String>>::empty());
            true
        } else {
            proof {
                use_type_invariant(self);
                lemma_orders_map_at(self.room_orders@, 0);
            }
            false
        }
    }

    /// No saved orders.
    pub fn new() -> (r: Self)
        ensures
            r@ == Map::<Seq<char>, Seq<String>>::empty(),
    {
        let r = AppDataFile { room_orders: Vec::new() };
        assert(r@ =~= Map::<Seq<char>, Seq<String>>::empty());
        r
    }

    /// Index of the entry saved under `key`.
    fn position_of(&self, key: &str) -> (r: Option<usize>)
        ensures
            r matches Some(i) ==> i < self.room_orders@.len() && self.room_orders@[i as int].0@ == key@,
            r is None ==> forall|i: int|
                0 <= i < self.room_orders@.len() ==> self.room_orders@[i].0@ != key@,
    {
        let mut i: usize = 0;
        while i < self.room_orders.len()
            invariant
                i <= self.room_orders@.len(),
                forall|j: int| 0 <= j < i ==> self.room_orders@[j].0@ != key@,
            decreases self.room_orders.len() - i,
        {
            if str_eq(self.room_orders[i].0.as_str(), key) {
                return Some(i);
            }
            i += 1;
        }
        None
    }

    /// The order saved under `key`, if any.
    pub fn get(&self, key: &str) -> (r: Option<&Vec<String>>)
        ensures
            self@.contains_key(key@) <==> r is Some,
            r matches Some(ids) ==> ids@ == self@[key@],
    {
        proof {
            use_type_invariant(self);
        }
        match self.position_of(key) {
            Some(i) => {
                proof {
                    lemma_orders_map_at(self.room_orders@, i as int);
                }
                Some(&self.room_orders[i].1)
            },
            None => None,
        }
    }

    /// The store with `ids` saved under `key`, replacing any earlier order for that key.
    pub fn insert(self, key: String, ids: Vec<String>) -> (r: Self)
        ensures
            r@ == self@.insert(key@, ids@),
    {
        proof {
            use_type_invariant(&self);
        }
        let pos = self.position_of(key.as_str());
        let ghost old_entries = self.room_orders@;
        let mut entries = self.room_orders;
        let ghost kv = key@;
        let ghost idsv = ids@;
        match pos {
            Some(i) => {
                entries.set(i, (key, ids));
            },
            None => {
                entries.push((key, ids));
            },
        }
        proof {
            assert(distinct_keys(entries@)) by {
                assert forall|a: int, b: int|
                    0 <= a < entries@.len() && 0 <= b < entries@.len() && a != b implies #[trigger] entries@[a].0@
                    != #[trigger] entries@[b].0@ by {
                    if a < old_entries.len() && b < old_entries.len() {
                        if pos is Some && (a == pos->0 || b == pos->0) {
                        } else {
                            assert(old_entries[a].0@ != old_entries[b].0@);
                        }
                    }
                }
            }
            assert forall|k: Seq<char>| #[trigger] orders_map(entries@).contains_key(k) <==> orders_map(
                old_entries,
            ).insert(kv, idsv).contains_key(k) by {
                if orders_map(entries@).contains_key(k) {
                    let j = choose|j: int| 0 <= j < entries@.len() && entries@[j].0@ == k;
                    if k != kv {
                        assert(old_entries[j].0@ == k);
                    }
                }
                if k != kv && orders_map(old_entries).contains_key(k) {
                    let j = choose|j: int| 0 <= j < old_entries.len() && old_entries[j].0@ == k;
                    assert(entries@[j].0@ == k);
                }
                if k == kv {
                    let j: int = match pos {
                        Some(i) => i as int,
                        None => old_entries.len() as int,
                    };
                    assert(entries@[j].0@ == k);
                }
            }
            assert forall|k: Seq<char>| #[trigger] orders_map(entries@).contains_key(k) implies orders_map(
                entries@,
            )[k] == orders_map(old_entries).insert(kv, idsv)[k] by {
                let j = choose|j: int| 0 <= j < entries@.len() && entries@[j].0@ == k;
                lemma_orders_map_at(entries@, j);
                if k != kv {
                    lemma_orders_map_at(old_entries, j);
                }
            }
            assert(orders_map(entries@) =~= orders_map(old_entries).insert(kv, idsv));
        }
        AppDataFile { room_orders: entries }
    }

    /// The store without an order for `key`.
    pub fn remove(self, key: &str) -> (r: Self)
        ensures
            r@ == self@.remove(key@),
    {
        proof {
            use_type_invariant(&self);
        }
        let pos = self.position_of(key);
        let ghost old_entries = self.room_orders@;
        let mut entries = self.room_orders;
        match pos {
            Some(i) => {
                entries.remove(i);
                proof {
                    assert(distinct_keys(entries@)) by {
                        assert forall|a: int, b: int|
                            0 <= a < entries@.len() && 0 <= b < entries@.len() && a != b implies #[trigger] entries@[a].0@
                            != #[trigger] entries@[b].0@ by {
                            let oa = if a < i { a } else { a + 1 };
                            let ob = if b < i { b } else { b + 1 };
                            assert(entries@[a] == old_entries[oa]);
                            assert(entries@[b] == old_entries[ob]);
                        }
                    }
                    assert forall|k: Seq<char>| #[trigger] orders_map(entries@).contains_key(k) <==> orders_map(
                        old_entries,
                    ).remove(key@).contains_key(k) by {
                        if orders_map(entries@).contains_key(k) {
                            let j = choose|j: int| 0 <= j < entries@.len() && entries@[j].0@ == k;
                            let oj = if j < i { j } else { j + 1 };
                            assert(entries@[j] == old_entries[oj]);
                            assert(old_entries[oj].0@ == k);
                            assert(oj != i);
                        }
                        if k != key@ && orders_map(old_entries).contains_key(k) {
                            let j = choose|j: int| 0 <= j < old_entries.len() && old_entries[j].0@ == k;
                            assert(j != i);
                            let nj = if j < i { j } else { j - 1 };
                            assert(entries@[nj] == old_entries[j]);
                        }
                    }
                    assert forall|k: Seq<char>| #[trigger] orders_map(entries@).contains_key(k) implies orders_map(
                        entries@,
                    )[k] == orders_map(old_entries).remove(key@)[k] by {
                        let j = choose|j: int| 0 <= j < entries@.len() && entries@[j].0@ == k;
                        let oj = if j < i { j } else { j + 1 };
                        assert(entries@[j] == old_entries[oj]);
                        lemma_orders_map_at(entries@, j);
                        lemma_orders_map_at(old_entries, oj);
                    }
                    assert(orders_map(entries@) =~= orders_map(old_entries).remove(key@));
                }
            },
            None => {
                proof {
                    assert(orders_map(entries@) =~= orders_map(old_entries).remove(key@));
                }
            },
        }
        AppDataFile { room_orders: entries }
    }

    /// The saved orders as key and room identifiers.
    pub fn entries(&self) -> (r: Vec<(String, Vec<String>)>)
        ensures
            forall|i: int| 0 <= i < r@.len() ==> self@.contains_key(#[trigger] r@[i].0@) && self@[r@[i].0@] == r@[i].1@,
            forall|k: Seq<char>| self@.contains_key(k) ==> exists|i: int| 0 <= i < r@.len() && #[trigger] r@[i].0@ == k,
    {
        proof {
            use_type_invariant(self);
        }
        let mut out: Vec<(String, Vec<String>)> = Vec::new();
        let mut i: usize = 0;
        while i < self.room_orders.len()
            invariant
                i <= self.room_orders@.len(),
                distinct_keys(self.room_orders@),
                out@.len() == i,
                forall|j: int| 0 <= j < i ==> (#[trigger] out@[j]).0@ == self.room_orders@[j].0@ && out@[j].1@ == self.room_orders@[j].1@,
            decreases self.room_orders.len() - i,
        {
            let key = self.room_orders[i].0.clone();
            let ids = self.room_orders[i].1.clone();
            assert(ids@ =~= self.room_orders@[i as int].1@) by {
                assert forall|j: int| 0 <= j < ids@.len() implies ids@[j] == self.room_orders@[i as int].1@[j] by {
                    assert(vstd::pervasive::cloned::<String>(self.room_orders@[i as int].1@[j], ids@[j]));
                }
            }
            out.push((key, ids));
            i += 1;
        }
        proof {
            assert forall|j: int| 0 <= j < out@.len() implies self@.contains_key(#[trigger] out@[j].0@) && self@[out@[j].0@] == out@[j].1@ by {
                lemma_orders_map_at(self.room_orders@, j);
            }
            assert forall|k: Seq<char>| self@.contains_key(k) implies exists|j: int| 0 <= j < out@.len() && #[trigger] out@[j].0@ == k by {
                let j = choose|j: int| 0 <= j < self.room_orders@.len() && self.room_orders@[j].0@ == k;
                assert(out@[j].0@ == k);
            }
        }
        out
    }
}

/// The order saved under `key`; none saved reads as an empty order.
pub open spec fn room_order_in(orders: Map<Seq<char>, Seq<String>>, key: Seq<char>) -> Seq<String> {
    if orders.contains_key(key) {
        orders[key]
    } else {
        Seq::<String>::empty()
    }
}

/// The room order saved for a connection; none saved reads as an empty order.
pub fn load_room_order(data: &AppDataFile, connection: &BridgeConnection) -> (r: Vec<String>)
    ensures
        r@ == room_order_in(data@, room_order_key_spec(connection.bridge_ip@, connection.username@)),
{
    let key = room_order_key(connection);
    match data.get(key.as_str()) {
        Some(ids) => {
            let copy = ids.clone();
            assert(copy@ =~= ids@) by {
                assert forall|j: int| 0 <= j < copy@.len() implies copy@[j] == ids@[j] by {
                    assert(vstd::pervasive::cloned::<String>(ids@[j], copy@[j]));
                }
            }
            copy
        },
        None => Vec::new(),
    }
}

/// The data file with the request's order saved for its connection.
pub fn save_room_order(data: AppDataFile, request: &SaveRoomOrderRequest) -> (r: AppDataFile)
    ensures
        r@ == data@.insert(
            room_order_key_spec(request.connection.bridge_ip@, request.connection.username@),
            request.room_ids@,
        ),
{
    let key = room_order_key(&request.connection);
    let ids = request.room_ids.clone();
    assert(ids@ =~= request.room_ids@) by {
        assert forall|j: int| 0 <= j < ids@.len() implies ids@[j] == request.room_ids@[j] by {
            assert(vstd::pervasive::cloned::<String>(request.room_ids@[j], ids@[j]));
        }
    }
    data.insert(key, ids)
}

/// The data file without a saved order for the connection.
pub fn clear_room_order(data: AppDataFile, connection: &BridgeConnection) -> (r: AppDataFile)
    ensures
        r@ == data@.remove(room_order_key_spec(connection.bridge_ip@, connection.username@)),
{
    let key = room_order_key(connection);
    data.remove(key.as_str())
}

/// Loading the room order of a connection right after saving one for it gives back the
/// saved order.
pub proof fn lemma_room_order_read_after_save(
    orders: Map<Seq<char>, Seq<String>>,
    connection: BridgeConnection,
    room_ids: Seq<String>,
)
    ensures
        ({
            let key = room_order_key_spec(connection.bridge_ip@, connection.username@);
            room_order_in(orders.insert(key, room_ids), key) == room_ids
        }),
{
}

/// After clearing the room order of a connection, loading it gives an empty order.
pub proof fn lemma_room_order_empty_after_clear(orders: Map<Seq<char>, Seq<String>>, connection: BridgeConnection)
    ensures
        ({
            let key = room_order_key_spec(connection.bridge_ip@, connection.username@);
            room_order_in(orders.remove(key), key) == Seq::<String>::empty()
        }),
{
}

/// Saving or clearing the room order of one connection leaves the order loaded for a
/// connection with another key as it was.
pub proof fn lemma_room_order_other_connections_unchanged(
    orders: Map<Seq<char>, Seq<String>>,
    saved: BridgeConnection,
    other: BridgeConnection,
    room_ids: Seq<String>,
)
    requires
        room_order_key_spec(saved.bridge_ip@, saved.username@) != room_order_key_spec(
            other.bridge_ip@,
            other.username@,
        ),
    ensures
        ({
            let key = room_order_key_spec(saved.bridge_ip@, saved.username@);
            let other_key = room_order_key_spec(other.bridge_ip@, other.username@);
            &&& room_order_in(orders.insert(key, room_ids), other_key) == room_order_in(orders, other_key)
            &&& room_order_in(orders.remove(key), other_key) == room_order_in(orders, other_key)
        }),
{
}

/// Connections whose bridge address and username agree once trimmed share one saved room
/// order.
pub proof fn lemma_room_order_key_ignores_surrounding_whitespace(a: BridgeConnection, b: BridgeConnection)
    requires
        trim_spec(a.bridge_ip@) == trim_spec(b.bridge_ip@),
        trim_spec(a.username@) == trim_spec(b.username@),
    ensures
        room_order_key_spec(a.bridge_ip@, a.username@) == room_order_key_spec(b.bridge_ip@, b.username@),
{
}

/// Directory name of the application under the configuration and data roots.
pub const APP_DIR_NAME: &'static str = "seasons";

/// File name of the configuration file.
pub const CONFIG_FILE_NAME: &'static str = "config.json";

/// File name of the data file.
pub const DATA_FILE_NAME: &'static str = "state.json";

/// `segment` appended to `base` as one path component: an absolute segment replaces the
/// path, and a separator is put between the two unless `base` is empty or already ends
/// with one.
pub open spec fn path_join_spec(base: Seq<char>, segment: Seq<char>) -> Seq<char> {
    if segment.len() > 0 && segment[0] == '/' {
        segment
    } else if base.len() == 0 || base.last() == '/' {
        base + segment
    } else {
        base + "/"@ + segment
    }
}

/// `base` with each of `segments` appended in turn.
pub open spec fn path_join_all(base: Seq<char>, segments: Seq<&str>) -> Seq<char>
    decreases segments.len(),
{
    if segments.len() == 0 {
        base
    } else {
        path_join_spec(path_join_all(base, segments.drop_last()), segments.last()@)
    }
}

/// `segment` appended to `base` as one path component.
pub fn path_join(base: &str, segment: &str) -> (r: String)
    ensures
        r@ == path_join_spec(base@, segment@),
{
    proof {
        reveal_strlit("/");
        assert("/"@ =~= seq!['/']);
    }
    let absolute = starts_with(segment, "/");
    proof {
        if segment@.len() > 0 {
            assert(segment@.take(1) =~= seq![segment@[0]]);
        }
    }
    if absolute {
        assert(segment@.take(1)[0] == "/"@[0]);
        return owned(segment);
    }
    assert(!(segment@.len() > 0 && segment@[0] == '/')) by {
        if segment@.len() > 0 && segment@[0] == '/' {
            assert(segment@.take(1) =~= "/"@);
        }
    }
    let ends_with_separator = ends_with(base, "/");
    proof {
        if base@.len() > 0 {
            assert(base@.skip(base@.len() - 1) =~= seq![base@.last()]);
        }
    }
    if base.unicode_len() == 0 || ends_with_separator {
        proof {
            if base@.len() > 0 {
                assert(base@.skip(base@.len() - 1)[0] == "/"@[0]);
            }
        }
        owned(base).concat(segment)
    } else {
        assert(base@.last() != '/') by {
            if base@.last() == '/' {
                assert(base@.skip(base@.len() - 1) =~= "/"@);
            }
        }
        owned(base).concat("/").concat(segment)
    }
}

/// The message of the error given when neither the variable nor `HOME` is usable.
pub open spec fn missing_home_message(env_key: Seq<char>) -> Seq<char> {
    env_key + " is not set and HOME is unavailable"@
}

/// The application directory under an XDG base directory: `<env_value>/seasons` when the
/// variable is set and not empty, else `<home>` followed by `fallback_segments` when the
/// home directory is known and not empty, else an error naming the variable.
pub fn resolve_xdg_dir(
    env_key: &str,
    env_value: Option<&str>,
    home: Option<&str>,
    fallback_segments: &[&str],
) -> (r: Result<String, String>)
    ensures
        match env_value {
            Some(v) if v@.len() > 0 => r matches Ok(p) && p@ == path_join_spec(v@, APP_DIR_NAME@),
            _ => match home {
                Some(h) if h@.len() > 0 => r matches Ok(p) && p@ == path_join_all(h@, fallback_segments@),
                _ => r matches Err(e) && e@ == missing_home_message(env_key@),
            },
        },
{
    if let Some(v) = env_value {
        if v.unicode_len() > 0 {
            return Ok(path_join(v, APP_DIR_NAME));
        }
    }
    match home {
        Some(h) if h.unicode_len() > 0 => {
            let mut path = owned(h);
            let mut i: usize = 0;
            while i < fallback_segments.len()
                invariant
                    i <= fallback_segments@.len(),
                    path@ == path_join_all(h@, fallback_segments@.take(i as int)),
                decreases fallback_segments.len() - i,
            {
                assert(fallback_segments@.take(i + 1).drop_last() =~= fallback_segments@.take(i as int));
                path = path_join(path.as_str(), fallback_segments[i]);
                i += 1;
            }
            assert(fallback_segments@.take(i as int) =~= fallback_segments@);
            Ok(path)
        },
        _ => Err(owned(env_key).concat(" is not set and HOME is unavailable")),
    }
}

/// The view of an optional string.
pub open spec fn opt_str_view(o: Option<&str>) -> Option<Seq<char>> {
    match o {
        Some(s) => Some(s@),
        None => None,
    }
}

/// The view of a path or an error message.
pub open spec fn path_result_view(r: Result<String, String>) -> Result<Seq<char>, Seq<char>> {
    match r {
        Ok(p) => Ok(p@),
        Err(e) => Err(e@),
    }
}

/// Where the configuration directory is: `$XDG_CONFIG_HOME/seasons`, else
/// `$HOME/.config/seasons`, else an error.
pub open spec fn config_dir_spec(xdg_config_home: Option<Seq<char>>, home: Option<Seq<char>>) -> Result<
    Seq<char>,
    Seq<char>,
> {
    match xdg_config_home {
        Some(v) if v.len() > 0 => Ok(path_join_spec(v, APP_DIR_NAME@)),
        _ => match home {
            Some(h) if h.len() > 0 => Ok(path_join_spec(path_join_spec(h, ".config"@), APP_DIR_NAME@)),
            _ => Err(missing_home_message("XDG_CONFIG_HOME"@)),
        },
    }
}

/// Where the data directory is: `$XDG_DATA_HOME/seasons`, else
/// `$HOME/.local/share/seasons`, else an error.
pub open spec fn data_dir_spec(xdg_data_home: Option<Seq<char>>, home: Option<Seq<char>>) -> Result<
    Seq<char>,
    Seq<char>,
> {
    match xdg_data_home {
        Some(v) if v.len() > 0 => Ok(path_join_spec(v, APP_DIR_NAME@)),
        _ => match home {
            Some(h) if h.len() > 0 => Ok(
                path_join_spec(path_join_spec(path_join_spec(h, ".local"@), "share"@), APP_DIR_NAME@),
            ),
            _ => Err(missing_home_message("XDG_DATA_HOME"@)),
        },
    }
}

/// A file inside the directory that `dir` names, or the directory's error.
pub open spec fn file_in_dir(dir: Result<Seq<char>, Seq<char>>, file: Seq<char>) -> Result<Seq<char>, Seq<char>> {
    match dir {
        Ok(d) => Ok(path_join_spec(d, file)),
        Err(e) => Err(e),
    }
}

/// The configuration directory.
pub fn config_dir(xdg_config_home: Option<&str>, home: Option<&str>) -> (r: Result<String, String>)
    ensures
        path_result_view(r) == config_dir_spec(opt_str_view(xdg_config_home), opt_str_view(home)),
{
    let segments: [&str; 2] = [".config", APP_DIR_NAME];
    let r = resolve_xdg_dir("XDG_CONFIG_HOME", xdg_config_home, home, &segments);
    proof {
        if let Some(h) = home {
            let s = segments@;
            assert(s.len() == 2);
            assert(s[0] == ".config");
            assert(s.drop_last().drop_last() =~= Seq::<&str>::empty());
            assert(path_join_all(h@, s.drop_last().drop_last()) == h@);
            assert(s.drop_last().last() == ".config");
            assert(path_join_all(h@, s.drop_last()) == path_join_spec(h@, ".config"@));
            assert(path_join_all(h@, s) == path_join_spec(path_join_all(h@, s.drop_last()), APP_DIR_NAME@));
        }
    }
    r
}

/// The data directory.
pub fn data_dir(xdg_data_home: Option<&str>, home: Option<&str>) -> (r: Result<String, String>)
    ensures
        path_result_view(r) == data_dir_spec(opt_str_view(xdg_data_home), opt_str_view(home)),
{
    let segments: [&str; 3] = [".local", "share", APP_DIR_NAME];
    let r = resolve_xdg_dir("XDG_DATA_HOME", xdg_data_home, home, &segments);
    proof {
        if let Some(h) = home {
            let s = segments@;
            assert(s.len() == 3);
            assert(s[0] == ".local");
            assert(s[1] == "share");
            assert(s.drop_last().drop_last().drop_last() =~= Seq::<&str>::empty());
            assert(path_join_all(h@, s.drop_last().drop_last().drop_last()) == h@);
            assert(s.drop_last().drop_last().last() == ".local");
            assert(s.drop_last().last() == "share");
            assert(path_join_all(h@, s.drop_last().drop_last()) == path_join_spec(h@, ".local"@));
            assert(path_join_all(h@, s.drop_last()) == path_join_spec(path_join_all(h@, s.drop_last().drop_last()), "share"@));
            assert(path_join_all(h@, s) == path_join_spec(path_join_all(h@, s.drop_last()), APP_DIR_NAME@));
        }
    }
    r
}

/// The configuration file inside the configuration directory.
pub fn config_file_path(xdg_config_home: Option<&str>, home: Option<&str>) -> (r: Result<String, String>)
    ensures
        path_result_view(r) == file_in_dir(
            config_dir_spec(opt_str_view(xdg_config_home), opt_str_view(home)),
            CONFIG_FILE_NAME@,
        ),
{
    match config_dir(xdg_config_home, home) {
        Ok(d) => Ok(path_join(d.as_str(), CONFIG_FILE_NAME)),
        Err(e) => Err(e),
    }
}

/// The data file inside the data directory.
pub fn data_file_path(xdg_data_home: Option<&str>, home: Option<&str>) -> (r: Result<String, String>)
    ensures
        path_result_view(r) == file_in_dir(
            data_dir_spec(opt_str_view(xdg_data_home), opt_str_view(home)),
            DATA_FILE_NAME@,
        ),
{
    match data_dir(xdg_data_home, home) {
        Ok(d) => Ok(path_join(d.as_str(), DATA_FILE_NAME)),
        Err(e) => Err(e),
    }
}

} // verus!
