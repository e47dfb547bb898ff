//! Decoding of one event line into an [`NcspotEvent`].
//!
//! The wire `mode` value is untagged, so the decoder resolves it by shape, in
//! a fixed order: an object with a `"Playing"` field holding a timestamp,
//! else an object with a `"Paused"` field holding a position, else a bare
//! string. Decoding is defensive: a structural mismatch yields an error for
//! the caller to log and drop, never a panic.
//!
//! Of the track descriptor only `title`, `album` and `artists` are required;
//! the metadata fields the controller merely carries through may be absent,
//! in which case they decode to empty or zero values.

use vstd::prelude::*;

use crate::json::{json_of, parse_json, JsonValue};
use crate::ncspot_event::{Mode, NcspotEvent, PausedPosition, Playable, PlayingTimestamp};

verus! {

/// Why a line was dropped.
#[derive(Debug, Clone, Copy, PartialEq, Eq, Structural)]
pub enum DecodeError {
    /// The line is not a JSON document.
    NotJson,
    /// The line is JSON, but not shaped like a status event.
    BadShape,
}

/// The first value stored under `key`, scanning entries front to back.
pub open spec fn obj_lookup(es: Seq<(String, JsonValue)>, key: Seq<char>) -> Option<JsonValue>
    decreases es.len(),
{
    if es.len() == 0 {
        None
    } else if es[0].0@ == key {
        Some(es[0].1)
    } else {
        obj_lookup(es.drop_first(), key)
    }
}

pub open spec fn json_str(j: JsonValue) -> Option<Seq<char>> {
    match j {
        JsonValue::Str(s) => Some(s@),
        _ => None,
    }
}

pub open spec fn json_u64(j: JsonValue) -> Option<u64> {
    match j {
        JsonValue::Num(n) => n,
        _ => None,
    }
}

pub open spec fn json_u32(j: JsonValue) -> Option<u32> {
    match j {
        JsonValue::Num(Some(n)) => if n <= u32::MAX as u64 {
            Some(n as u32)
        } else {
            None
        },
        _ => None,
    }
}

pub open spec fn json_bool(j: JsonValue) -> Option<bool> {
    match j {
        JsonValue::Bool(b) => Some(b),
        _ => None,
    }
}

pub open spec fn all_strings(a: Seq<JsonValue>) -> bool {
    forall|i: int| 0 <= i < a.len() ==> a[i] is Str
}

pub open spec fn string_views(a: Seq<JsonValue>) -> Seq<Seq<char>> {
    a.map_values(|j: JsonValue| j->Str_0@)
}

pub open spec fn json_str_arr(j: JsonValue) -> Option<Seq<Seq<char>>> {
    match j {
        JsonValue::Arr(a) => if all_strings(a@) {
            Some(string_views(a@))
        } else {
            None
        },
        _ => None,
    }
}

/// A field that must be present as a string.
pub open spec fn req_str(es: Seq<(String, JsonValue)>, key: Seq<char>) -> Option<Seq<char>> {
    match obj_lookup(es, key) {
        Some(j) => json_str(j),
        None => None,
    }
}

pub open spec fn req_u64(es: Seq<(String, JsonValue)>, key: Seq<char>) -> Option<u64> {
    match obj_lookup(es, key) {
        Some(j) => json_u64(j),
        None => None,
    }
}

pub open spec fn req_u32(es: Seq<(String, JsonValue)>, key: Seq<char>) -> Option<u32> {
    match obj_lookup(es, key) {
        Some(j) => json_u32(j),
        None => None,
    }
}

pub open spec fn req_str_arr(es: Seq<(String, JsonValue)>, key: Seq<char>) -> Option<
    Seq<Seq<char>>,
> {
    match obj_lookup(es, key) {
        Some(j) => json_str_arr(j),
        None => None,
    }
}

/// A string field that may be absent, defaulting to the empty string.
pub open spec fn opt_str(es: Seq<(String, JsonValue)>, key: Seq<char>) -> Option<Seq<char>> {
    match obj_lookup(es, key) {
        Some(j) => json_str(j),
        None => Some(Seq::<char>::empty()),
    }
}

pub open spec fn opt_u64(es: Seq<(String, JsonValue)>, key: Seq<char>) -> Option<u64> {
    match obj_lookup(es, key) {
        Some(j) => json_u64(j),
        None => Some(0),
    }
}

pub open spec fn opt_u32(es: Seq<(String, JsonValue)>, key: Seq<char>) -> Option<u32> {
    match obj_lookup(es, key) {
        Some(j) => json_u32(j),
        None => Some(0),
    }
}

pub open spec fn opt_bool(es: Seq<(String, JsonValue)>, key: Seq<char>) -> Option<bool> {
    match obj_lookup(es, key) {
        Some(j) => json_bool(j),
        None => Some(false),
    }
}

pub open spec fn opt_str_arr(es: Seq<(String, JsonValue)>, key: Seq<char>) -> Option<
    Seq<Seq<char>>,
> {
    match obj_lookup(es, key) {
        Some(j) => json_str_arr(j),
        None => Some(Seq::<Seq<char>>::empty()),
    }
}

/// A string field that may be absent or null, both read as `None`.
pub open spec fn nullable_str(es: Seq<(String, JsonValue)>, key: Seq<char>) -> Option<
    Option<Seq<char>>,
> {
    match obj_lookup(es, key) {
        None => Some(None),
        Some(JsonValue::Null) => Some(None),
        Some(JsonValue::Str(s)) => Some(Some(s@)),
        Some(_) => None,
    }
}

pub open spec fn timestamp_shape(j: JsonValue) -> bool {
    &&& j matches JsonValue::Obj(fs)
    &&& req_u64(fs@, "secs_since_epoch"@) is Some
    &&& req_u32(fs@, "nanos_since_epoch"@) is Some
}

pub open spec fn timestamp_rel(j: JsonValue, t: PlayingTimestamp) -> bool {
    &&& j matches JsonValue::Obj(fs)
    &&& req_u64(fs@, "secs_since_epoch"@) == Some(t.secs_since_epoch)
    &&& req_u32(fs@, "nanos_since_epoch"@) == Some(t.nanos_since_epoch)
}

pub open spec fn position_shape(j: JsonValue) -> bool {
    &&& j matches JsonValue::Obj(fs)
    &&& req_u64(fs@, "secs"@) is Some
    &&& req_u32(fs@, "nanos"@) is Some
}

pub open spec fn position_rel(j: JsonValue, p: PausedPosition) -> bool {
    &&& j matches JsonValue::Obj(fs)
    &&& req_u64(fs@, "secs"@) == Some(p.secs)
    &&& req_u32(fs@, "nanos"@) == Some(p.nanos)
}

pub open spec fn playing_shape(j: JsonValue) -> bool {
    &&& j matches JsonValue::Obj(es)
    &&& obj_lookup(es@, "Playing"@) matches Some(inner)
    &&& timestamp_shape(inner)
}

pub open spec fn paused_shape(j: JsonValue) -> bool {
    &&& j matches JsonValue::Obj(es)
    &&& obj_lookup(es@, "Paused"@) matches Some(inner)
    &&& position_shape(inner)
}

/// The shapes the untagged `mode` accepts, in resolution order.
pub open spec fn mode_shape(j: JsonValue) -> bool {
    playing_shape(j) || paused_shape(j) || j is Str
}

/// Which `Mode` the value decodes to. The resolution order is part of the
/// contract: a `Playing`-shaped object never decodes to anything else.
pub open spec fn mode_rel(j: JsonValue, m: Mode) -> bool {
    if playing_shape(j) {
        &&& m matches Mode::Playing { playing }
        &&& j matches JsonValue::Obj(es)
        &&& obj_lookup(es@, "Playing"@) matches Some(inner)
        &&& timestamp_rel(inner, playing)
    } else if paused_shape(j) {
        &&& m matches Mode::Paused { paused }
        &&& j matches JsonValue::Obj(es)
        &&& obj_lookup(es@, "Paused"@) matches Some(inner)
        &&& position_rel(inner, paused)
    } else {
        match j {
            JsonValue::Str(s) => m matches Mode::Simple(t) && t@ == s@,
            _ => false,
        }
    }
}

pub open spec fn playable_shape(j: JsonValue) -> bool {
    &&& j matches JsonValue::Obj(es)
    &&& req_str(es@, "title"@) is Some
    &&& req_str(es@, "album"@) is Some
    &&& req_str_arr(es@, "artists"@) is Some
    &&& opt_str(es@, "type"@) is Some
    &&& opt_str(es@, "id"@) is Some
    &&& opt_str(es@, "uri"@) is Some
    &&& opt_u32(es@, "track_number"@) is Some
    &&& opt_u32(es@, "disc_number"@) is Some
    &&& opt_u64(es@, "duration"@) is Some
    &&& opt_str_arr(es@, "artist_ids"@) is Some
    &&& opt_str(es@, "album_id"@) is Some
    &&& opt_str_arr(es@, "album_artists"@) is Some
    &&& opt_str(es@, "cover_url"@) is Some
    &&& opt_str(es@, "url"@) is Some
    &&& nullable_str(es@, "added_at"@) is Some
    &&& opt_u32(es@, "list_index"@) is Some
    &&& opt_bool(es@, "is_local"@) is Some
    &&& opt_bool(es@, "is_playable"@) is Some
}

pub open spec fn playable_rel(j: JsonValue, p: Playable) -> bool {
    &&& j matches JsonValue::Obj(es)
    &&& req_str(es@, "title"@) == Some(p.title@)
    &&& req_str(es@, "album"@) == Some(p.album@)
    &&& req_str_arr(es@, "artists"@) == Some(p.artists.deep_view())
    &&& opt_str(es@, "type"@) == Some(p.playable_type@)
    &&& opt_str(es@, "id"@) == Some(p.id@)
    &&& opt_str(es@, "uri"@) == Some(p.uri@)
    &&& opt_u32(es@, "track_number"@) == Some(p.track_number)
    &&& opt_u32(es@, "disc_number"@) == Some(p.disc_number)
    &&& opt_u64(es@, "duration"@) == Some(p.duration)
    &&& opt_str_arr(es@, "artist_ids"@) == Some(p.artist_ids.deep_view())
    &&& opt_str(es@, "album_id"@) == Some(p.album_id@)
    &&& opt_str_arr(es@, "album_artists"@) == Some(p.album_artists.deep_view())
    &&& opt_str(es@, "cover_url"@) == Some(p.cover_url@)
    &&& opt_str(es@, "url"@) == Some(p.url@)
    &&& nullable_str(es@, "added_at"@) == Some(p.added_at.deep_view())
    &&& opt_u32(es@, "list_index"@) == Some(p.list_index)
    &&& opt_bool(es@, "is_local"@) == Some(p.is_local)
    &&& opt_bool(es@, "is_playable"@) == Some(p.is_playable)
}

pub open spec fn event_shape(j: JsonValue) -> bool {
    &&& j matches JsonValue::Obj(es)
    &&& obj_lookup(es@, "mode"@) matches Some(m)
    &&& mode_shape(m)
    &&& match obj_lookup(es@, "playable"@) {
        None => true,
        Some(JsonValue::Null) => true,
        Some(p) => playable_shape(p),
    }
}

pub open spec fn event_rel(j: JsonValue, e: NcspotEvent) -> bool {
    &&& j matches JsonValue::Obj(es)
    &&& obj_lookup(es@, "mode"@) matches Some(m)
    &&& mode_rel(m, e.mode)
    &&& match obj_lookup(es@, "playable"@) {
        None => e.playable is None,
        Some(JsonValue::Null) => e.playable is None,
        Some(p) => e.playable matches Some(pl) && playable_rel(p, pl),
    }
}

/// View-level equality of decoded modes.
pub open spec fn mode_like(m1: Mode, m2: Mode) -> bool {
    match (m1, m2) {
        (Mode::Playing { playing: a }, Mode::Playing { playing: b }) => a == b,
        (Mode::Paused { paused: a }, Mode::Paused { paused: b }) => a == b,
        (Mode::Simple(a), Mode::Simple(b)) => a@ == b@,
        _ => false,
    }
}

/// View-level equality of decoded track descriptors.
pub open spec fn playable_like(p1: Playable, p2: Playable) -> bool {
    &&& p1.playable_type@ == p2.playable_type@
    &&& p1.id@ == p2.id@
    &&& p1.uri@ == p2.uri@
    &&& p1.title@ == p2.title@
    &&& p1.track_number == p2.track_number
    &&& p1.disc_number == p2.disc_number
    &&& p1.duration == p2.duration
    &&& p1.artists.deep_view() == p2.artists.deep_view()
    &&& p1.artist_ids.deep_view() == p2.artist_ids.deep_view()
    &&& p1.album@ == p2.album@
    &&& p1.album_id@ == p2.album_id@
    &&& p1.album_artists.deep_view() == p2.album_artists.deep_view()
    &&& p1.cover_url@ == p2.cover_url@
    &&& p1.url@ == p2.url@
    &&& p1.added_at.deep_view() == p2.added_at.deep_view()
    &&& p1.list_index == p2.list_index
    &&& p1.is_local == p2.is_local
    &&& p1.is_playable == p2.is_playable
}

/// View-level equality of decoded events.
pub open spec fn event_like(e1: NcspotEvent, e2: NcspotEvent) -> bool {
    &&& mode_like(e1.mode, e2.mode)
    &&& match (e1.playable, e2.playable) {
        (None, None) => true,
        (Some(a), Some(b)) => playable_like(a, b),
        _ => false,
    }
}

/// Law: a `Playing`-shaped object always decodes to the `Playing` variant,
/// never falling through to `Paused` or to a bare state name.
pub proof fn lemma_playing_shape_decodes_to_playing(j: JsonValue, m: Mode)
    requires
        playing_shape(j),
        mode_rel(j, m),
    ensures
        m is Playing,
{
}

/// Law: decoding is a function of the document. Any two events that decode
/// from the same JSON value agree on every field, so decoding the same line
/// twice yields the same event.
pub proof fn lemma_decode_deterministic(j: JsonValue, e1: NcspotEvent, e2: NcspotEvent)
    requires
        event_rel(j, e1),
        event_rel(j, e2),
    ensures
        event_like(e1, e2),
{
}

fn get_field<'a>(es: &'a Vec<(String, JsonValue)>, key: &str) -> (r: Option<&'a JsonValue>)
    ensures
        match r {
            Some(j) => obj_lookup(es@, key@) == Some(*j),
            None => obj_lookup(es@, key@) is None,
        },
{
    let owned_key: String = key.to_owned();
    let n = es.len();
    proof {
        assert(es@.skip(0) =~= es@);
    }
    for i in 0..n
        invariant
            n == es@.len(),
            owned_key@ == key@,
            obj_lookup(es@, key@) == obj_lookup(es@.skip(i as int), key@),
    {
        let entry = &es[i];
        proof {
            assert(es@.skip(i as int)[0] == es@[i as int]);
        }
        if entry.0 == owned_key {
            return Some(&entry.1);
        }
        proof {
            assert(es@.skip(i as int).drop_first() =~= es@.skip(i as int + 1));
        }
    }
    None
}

fn get_str(es: &Vec<(String, JsonValue)>, key: &str) -> (r: Option<String>)
    ensures
        r matches Some(s) ==> req_str(es@, key@) == Some(s@),
        r is None ==> req_str(es@, key@) is None,
{
    match get_field(es, key) {
        Some(j) => match j {
            JsonValue::Str(s) => Some(s.clone()),
            _ => None,
        },
        None => None,
    }
}

fn get_opt_str(es: &Vec<(String, JsonValue)>, key: &str) -> (r: Option<String>)
    ensures
        r matches Some(s) ==> opt_str(es@, key@) == Some(s@),
        r is None ==> opt_str(es@, key@) is None,
{
    match get_field(es, key) {
        Some(j) => match j {
            JsonValue::Str(s) => Some(s.clone()),
            _ => None,
        },
        None => Some(String::new()),
    }
}

fn get_req_u64(es: &Vec<(String, JsonValue)>, key: &str) -> (r: Option<u64>)
    ensures
        r == req_u64(es@, key@),
{
    match get_field(es, key) {
        Some(j) => match j {
            JsonValue::Num(n) => *n,
            _ => None,
        },
        None => None,
    }
}

fn get_req_u32(es: &Vec<(String, JsonValue)>, key: &str) -> (r: Option<u32>)
    ensures
        r == req_u32(es@, key@),
{
    match get_field(es, key) {
        Some(j) => match j {
            JsonValue::Num(n) => match n {
                Some(v) => if *v <= u32::MAX as u64 {
                    Some(*v as u32)
                } else {
                    None
                },
                None => None,
            },
            _ => None,
        },
        None => None,
    }
}

fn get_opt_u64(es: &Vec<(String, JsonValue)>, key: &str) -> (r: Option<u64>)
    ensures
        r == opt_u64(es@, key@),
{
    match get_field(es, key) {
        Some(j) => match j {
            JsonValue::Num(n) => *n,
            _ => None,
        },
        None => Some(0),
    }
}

fn get_opt_u32(es: &Vec<(String, JsonValue)>, key: &str) -> (r: Option<u32>)
    ensures
        r == opt_u32(es@, key@),
{
    match get_field(es, key) {
        Some(j) => match j {
            JsonValue::Num(n) => match n {
                Some(v) => if *v <= u32::MAX as u64 {
                    Some(*v as u32)
                } else {
                    None
                },
                None => None,
            },
            _ => None,
        },
        None => Some(0),
    }
}

fn get_opt_bool(es: &Vec<(String, JsonValue)>, key: &str) -> (r: Option<bool>)
    ensures
        r == opt_bool(es@, key@),
{
    match get_field(es, key) {
        Some(j) => match j {
            JsonValue::Bool(b) => Some(*b),
            _ => None,
        },
        None => Some(false),
    }
}

fn strings_of_arr(a: &Vec<JsonValue>) -> (r: Option<Vec<String>>)
    ensures
        r matches Some(v) ==> all_strings(a@) && v.deep_view() == string_views(a@),
        r is None ==> !all_strings(a@),
{
    let mut out: Vec<String> = Vec::new();
    let n = a.len();
    for i in 0..n
        invariant
            n == a@.len(),
            out@.len() == i,
            forall|k: int| 0 <= k < i ==> a@[k] is Str,
            out.deep_view() =~= string_views(a@.take(i as int)),
    {
        match &a[i] {
            JsonValue::Str(s) => {
                let ghost prev = out.deep_view();
                out.push(s.clone());
                proof {
                    assert forall|k: int| 0 <= k < i + 1 implies out.deep_view()[k]
                        == string_views(a@.take(i as int + 1))[k] by {
                        assert(a@.take(i as int + 1)[k] == a@[k]);
                        if k < i {
                            assert(out.deep_view()[k] == prev[k]);
                            assert(prev[k] == string_views(a@.take(i as int))[k]);
                            assert(string_views(a@.take(i as int))[k] == a@.take(i as int)[k]->Str_0@);
                        } else {
                            assert(out@[k] == out@.last());
                        }
                    }
                    assert(out.deep_view() =~= string_views(a@.take(i as int + 1)));
                }
            },
            _ => {
                return None;
            },
        }
    }
    proof {
        assert(a@.take(n as int) =~= a@);
    }
    Some(out)
}

fn get_req_str_arr(es: &Vec<(String, JsonValue)>, key: &str) -> (r: Option<Vec<String>>)
    ensures
        r matches Some(v) ==> req_str_arr(es@, key@) == Some(v.deep_view()),
        r is None ==> req_str_arr(es@, key@) is None,
{
    match get_field(es, key) {
        Some(j) => match j {
            JsonValue::Arr(a) => strings_of_arr(a),
            _ => None,
        },
        None => None,
    }
}

fn get_opt_str_arr(es: &Vec<(String, JsonValue)>, key: &str) -> (r: Option<Vec<String>>)
    ensures
        r matches Some(v) ==> opt_str_arr(es@, key@) == Some(v.deep_view()),
        r is None ==> opt_str_arr(es@, key@) is None,
{
    match get_field(es, key) {
        Some(j) => match j {
            JsonValue::Arr(a) => strings_of_arr(a),
            _ => None,
        },
        None => Some(Vec::new()),
    }
}

fn get_nullable_str(es: &Vec<(String, JsonValue)>, key: &str) -> (r: Option<Option<String>>)
    ensures
        r matches Some(v) ==> nullable_str(es@, key@) == Some(v.deep_view()),
        r is None ==> nullable_str(es@, key@) is None,
{
    match get_field(es, key) {
        None => Some(None),
        Some(j) => match j {
            JsonValue::Null => Some(None),
            JsonValue::Str(s) => Some(Some(s.clone())),
            _ => None,
        },
    }
}

fn decode_timestamp(j: &JsonValue) -> (r: Option<PlayingTimestamp>)
    ensures
        r matches Some(t) ==> timestamp_shape(*j) && timestamp_rel(*j, t),
        r is None ==> !timestamp_shape(*j),
{
    match j {
        JsonValue::Obj(fs) => {
            match (get_req_u64(fs, "secs_since_epoch"), get_req_u32(fs, "nanos_since_epoch")) {
                (Some(s), Some(n)) => Some(
                    PlayingTimestamp { secs_since_epoch: s, nanos_since_epoch: n },
                ),
                _ => None,
            }
        },
        _ => None,
    }
}

fn decode_position(j: &JsonValue) -> (r: Option<PausedPosition>)
    ensures
        r matches Some(p) ==> position_shape(*j) && position_rel(*j, p),
        r is None ==> !position_shape(*j),
{
    match j {
        JsonValue::Obj(fs) => {
            match (get_req_u64(fs, "secs"), get_req_u32(fs, "nanos")) {
                (Some(s), Some(n)) => Some(PausedPosition { secs: s, nanos: n }),
                _ => None,
            }
        },
        _ => None,
    }
}

/// Resolve the untagged `mode` value by shape, trying `Playing`, then
/// `Paused`, then a bare state name.
pub fn decode_mode(j: &JsonValue) -> (r: Result<Mode, DecodeError>)
    ensures
        mode_shape(*j) <==> r is Ok,
        r matches Ok(m) ==> mode_rel(*j, m),
        r matches Err(e) ==> e == DecodeError::BadShape,
{
    match j {
        JsonValue::Obj(es) => {
            if let Some(inner) = get_field(es, "Playing") {
                if let Some(t) = decode_timestamp(inner) {
                    return Ok(Mode::Playing { playing: t });
                }
            }
            if let Some(inner) = get_field(es, "Paused") {
                if let Some(p) = decode_position(inner) {
                    return Ok(Mode::Paused { paused: p });
                }
            }
            Err(DecodeError::BadShape)
        },
        JsonValue::Str(s) => Ok(Mode::Simple(s.clone())),
        _ => Err(DecodeError::BadShape),
    }
}

fn decode_playable(j: &JsonValue) -> (r: Option<Playable>)
    ensures
        r matches Some(p) ==> playable_shape(*j) && playable_rel(*j, p),
        r is None ==> !playable_shape(*j),
{
    match j {
        JsonValue::Obj(es) => {
            let title = match get_str(es, "title") {
                Some(s) => s,
                None => return None,
            };
            let album = match get_str(es, "album") {
                Some(s) => s,
                None => return None,
            };
            let artists = match get_req_str_arr(es, "artists") {
                Some(v) => v,
                None => return None,
            };
            let playable_type = match get_opt_str(es, "type") {
                Some(s) => s,
                None => return None,
            };
            let id = match get_opt_str(es, "id") {
                Some(s) => s,
                None => return None,
            };
            let uri = match get_opt_str(es, "uri") {
                Some(s) => s,
                None => return None,
            };
            let track_number = match get_opt_u32(es, "track_number") {
                Some(v) => v,
                None => return None,
            };
            let disc_number = match get_opt_u32(es, "disc_number") {
                Some(v) => v,
                None => return None,
            };
            let duration = match get_opt_u64(es, "duration") {
                Some(v) => v,
                None => return None,
            };
            let artist_ids = match get_opt_str_arr(es, "artist_ids") {
                Some(v) => v,
                None => return None,
            };
            let album_id = match get_opt_str(es, "album_id") {
                Some(s) => s,
                None => return None,
            };
            let album_artists = match get_opt_str_arr(es, "album_artists") {
                Some(v) => v,
                None => return None,
            };
            let cover_url = match get_opt_str(es, "cover_url") {
                Some(s) => s,
                None => return None,
            };
            let url = match get_opt_str(es, "url") {
                Some(s) => s,
                None => return None,
            };
            let added_at = match get_nullable_str(es, "added_at") {
                Some(v) => v,
                None => return None,
            };
            let list_index = match get_opt_u32(es, "list_index") {
                Some(v) => v,
                None => return None,
            };
            let is_local = match get_opt_bool(es, "is_local") {
                Some(v) => v,
                None => return None,
            };
            let is_playable = match get_opt_bool(es, "is_playable") {
                Some(v) => v,
                None => return None,
            };
            Some(
                Playable {
                    playable_type,
                    id,
                    uri,
                    title,
                    track_number,
                    disc_number,
                    duration,
                    artists,
                    artist_ids,
                    album,
                    album_id,
                    album_artists,
                    cover_url,
                    url,
                    added_at,
                    list_index,
                    is_local,
                    is_playable,
                },
            )
        },
        _ => None,
    }
}

/// Decode a parsed JSON value as a status event.
pub fn decode_event(j: &JsonValue) -> (r: Result<NcspotEvent, DecodeError>)
    ensures
        event_shape(*j) <==> r is Ok,
        r matches Ok(e) ==> event_rel(*j, e),
        r matches Err(e) ==> e == DecodeError::BadShape,
{
    match j {
        JsonValue::Obj(es) => {
            let mode = match get_field(es, "mode") {
                Some(mj) => match decode_mode(mj) {
                    Ok(m) => m,
                    Err(e) => return Err(e),
                },
                None => return Err(DecodeError::BadShape),
            };
            let playable = match get_field(es, "playable") {
                None => None,
                Some(pj) => match pj {
                    JsonValue::Null => None,
                    _ => match decode_playable(pj) {
                        Some(p) => Some(p),
                        None => return Err(DecodeError::BadShape),
                    },
                },
            };
            Ok(NcspotEvent { mode, playable })
        },
        _ => Err(DecodeError::BadShape),
    }
}

/// Decode one line of text from the event stream.
pub fn decode_line(line: &str) -> (r: Result<NcspotEvent, DecodeError>)
    ensures
        json_of(line@) is None ==> (r matches Err(e) && e == DecodeError::NotJson),
        json_of(line@) matches Some(j) ==> {
            &&& event_shape(j) <==> r is Ok
            &&& (r matches Ok(e) ==> event_rel(j, e))
            &&& (!event_shape(j) ==> (r matches Err(x) && x == DecodeError::BadShape))
        },
{
    match parse_json(line) {
        None => Err(DecodeError::NotJson),
        Some(j) => decode_event(&j),
    }
}

} // verus!
