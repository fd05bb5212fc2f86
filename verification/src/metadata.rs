//! The metadata record that an NCM file carries as encrypted JSON.

use crate::error::NcmError;
use crate::json::{
    array_of, json_data_error, json_document, json_values, lemma_array_view, parse_json, text_of,
    value_of, Json, JsonValue,
};
use vstd::prelude::*;
use vstd::slice::slice_subrange;
use vstd::string::StringExecFns;

verus! {

/// What the file says of the track.
#[derive(Debug, Clone)]
pub struct NcmMetadata {
    pub music_name: String,
    pub album: String,
    /// One entry per artist: its name, then its id.
    pub artist: Vec<Vec<Json>>,
    pub bitrate: u64,
    pub duration: u64,
    pub format: String,
}

/// The mathematical value of an [`NcmMetadata`].
pub struct MetadataView {
    pub music_name: Seq<char>,
    pub album: Seq<char>,
    pub artist: Seq<Seq<JsonValue>>,
    pub bitrate: u64,
    pub duration: u64,
    pub format: Seq<char>,
}

impl View for NcmMetadata {
    type V = MetadataView;

    open spec fn view(&self) -> MetadataView {
        MetadataView {
            music_name: self.music_name@,
            album: self.album@,
            artist: Seq::new(self.artist@.len(), |i: int| json_values(self.artist@[i]@)),
            bitrate: self.bitrate,
            duration: self.duration,
            format: self.format@,
        }
    }
}

/// The six bytes `music:` that may stand before the JSON text.
pub open spec fn music_prefix() -> Seq<u8> {
    seq![0x6du8, 0x75u8, 0x73u8, 0x69u8, 0x63u8, 0x3au8]
}

/// `data` without a leading `music:`, where it has one.
pub open spec fn strip_music_prefix(data: Seq<u8>) -> Seq<u8> {
    if data.len() >= 6 && data.take(6) == music_prefix() {
        data.skip(6)
    } else {
        data
    }
}

/// The entries of an artist list. Each has to be an array itself.
pub open spec fn artist_entries(items: Seq<JsonValue>) -> Option<Seq<Seq<JsonValue>>> {
    if forall|i: int| 0 <= i < items.len() ==> (#[trigger] items[i]) is Array {
        Some(Seq::new(items.len(), |i: int| items[i]->Array_0))
    } else {
        None
    }
}

/// The six values of a record, in the order name, album, artists, bitrate,
/// duration, format. In an object they stand under `musicName`, `album`,
/// `artist`, `bitrate`, `duration` and `format`, and other members are
/// passed over; an array has to hold exactly the six.
pub open spec fn metadata_fields(v: JsonValue) -> Option<Seq<JsonValue>> {
    match v {
        JsonValue::Object(_) => Some(
            seq![
                v.field("musicName"@),
                v.field("album"@),
                v.field("artist"@),
                v.field("bitrate"@),
                v.field("duration"@),
                v.field("format"@),
            ],
        ),
        JsonValue::Array(items) => if items.len() == 6 {
            Some(items)
        } else {
            None
        },
        _ => None,
    }
}

/// The record that a JSON value holds: its six values, of which the name,
/// the album and the format are strings, the bitrate and the duration
/// integers from zero up, and the artists an array of arrays.
pub open spec fn metadata_of_json(v: JsonValue) -> Option<MetadataView> {
    match metadata_fields(v) {
        Some(f) => match (
            f[0].as_str(),
            f[1].as_str(),
            f[2].as_array(),
            f[3].as_u64(),
            f[4].as_u64(),
            f[5].as_str(),
        ) {
            (
                Some(music_name),
                Some(album),
                Some(items),
                Some(bitrate),
                Some(duration),
                Some(format),
            ) => match artist_entries(items) {
                Some(artist) => Some(
                    MetadataView { music_name, album, artist, bitrate, duration, format },
                ),
                None => None,
            },
            _ => None,
        },
        None => None,
    }
}

/// The record that decrypted metadata bytes hold, where they hold one.
pub open spec fn metadata_of_bytes(data: Seq<u8>) -> Option<MetadataView> {
    match json_document(strip_music_prefix(data)) {
        Some(v) => metadata_of_json(v),
        None => None,
    }
}

/// The name of an artist entry: its first element, where that is a string.
pub open spec fn entry_name(entry: Seq<JsonValue>) -> Option<Seq<char>> {
    if entry.len() > 0 {
        entry[0].as_str()
    } else {
        None
    }
}

/// The names of the entries that have one, in order.
pub open spec fn artist_name_list(artist: Seq<Seq<JsonValue>>) -> Seq<Seq<char>>
    decreases artist.len(),
{
    if artist.len() == 0 {
        Seq::empty()
    } else {
        let before = artist_name_list(artist.drop_last());
        match entry_name(artist.last()) {
            Some(name) => before.push(name),
            None => before,
        }
    }
}

/// `names` in one text, with `sep` between each two.
pub open spec fn join_names(names: Seq<Seq<char>>, sep: Seq<char>) -> Seq<char>
    decreases names.len(),
{
    if names.len() == 0 {
        Seq::empty()
    } else if names.len() == 1 {
        names[0]
    } else {
        join_names(names.drop_last(), sep) + sep + names.last()
    }
}

/// The artist names of a record, joined with " / ".
pub open spec fn artist_names_spec(m: MetadataView) -> Seq<char> {
    join_names(artist_name_list(m.artist), " / "@)
}

/// Copies of `items`, value for value.
fn clone_items(items: &Vec<Json>) -> (copies: Vec<Json>)
    ensures
        json_values(copies@) == json_values(items@),
{
    let mut copies: Vec<Json> = Vec::new();
    let mut i: usize = 0;
    while i < items.len()
        invariant
            i <= items@.len(),
            copies@.len() == i,
            forall|k: int| 0 <= k < i ==> copies@[k]@ == items@[k]@,
        decreases items@.len() - i,
    {
        copies.push(items[i].clone());
        i += 1;
    }
    assert(json_values(copies@) =~= json_values(items@));
    copies
}

/// The entries of an artist list, where each is an array.
fn read_artist(items: &Vec<Json>) -> (r: Option<Vec<Vec<Json>>>)
    ensures
        match r {
            Some(artist) => artist_entries(json_values(items@)) == Some(
                Seq::new(artist@.len(), |i: int| json_values(artist@[i]@)),
            ),
            None => artist_entries(json_values(items@)) is None,
        },
{
    let ghost values = json_values(items@);
    let mut artist: Vec<Vec<Json>> = Vec::new();
    let mut i: usize = 0;
    while i < items.len()
        invariant
            i <= items@.len(),
            artist@.len() == i,
            values == json_values(items@),
            forall|k: int| 0 <= k < i ==> (#[trigger] values[k]) is Array,
            forall|k: int| 0 <= k < i ==> json_values(artist@[k]@) == values[k]->Array_0,
        decreases items@.len() - i,
    {
        match items[i].as_array() {
            Some(entry) => {
                artist.push(clone_items(entry));
            },
            None => {
                assert(!(values[i as int] is Array));
                return None;
            },
        }
        i += 1;
    }
    assert(Seq::new(artist@.len(), |i: int| json_values(artist@[i]@)) =~= Seq::new(
        values.len(),
        |i: int| values[i]->Array_0,
    ));
    Some(artist)
}

/// Reads a record from its six values.
fn read_record(
    music_name: Option<&Json>,
    album: Option<&Json>,
    artist: Option<&Json>,
    bitrate: Option<&Json>,
    duration: Option<&Json>,
    format: Option<&Json>,
) -> (r: Option<NcmMetadata>)
    ensures
        match (
            value_of(music_name).as_str(),
            value_of(album).as_str(),
            value_of(artist).as_array(),
            value_of(bitrate).as_u64(),
            value_of(duration).as_u64(),
            value_of(format).as_str(),
        ) {
            (Some(n), Some(a), Some(items), Some(b), Some(d), Some(f)) => match artist_entries(
                items,
            ) {
                Some(entries) => r matches Some(m) && m@ == (MetadataView {
                    music_name: n,
                    album: a,
                    artist: entries,
                    bitrate: b,
                    duration: d,
                    format: f,
                }),
                None => r is None,
            },
            _ => r is None,
        },
{
    let music_name = match text_of(music_name) {
        Some(s) => s,
        None => return None,
    };
    let album = match text_of(album) {
        Some(s) => s,
        None => return None,
    };
    let items = match array_of(artist) {
        Some(items) => items,
        None => return None,
    };
    let bitrate: u64 = match bitrate {
        Some(v) => match v.as_u64() {
            Some(n) => n,
            None => return None,
        },
        None => return None,
    };
    let duration: u64 = match duration {
        Some(v) => match v.as_u64() {
            Some(n) => n,
            None => return None,
        },
        None => return None,
    };
    let format = match text_of(format) {
        Some(s) => s,
        None => return None,
    };
    match read_artist(items) {
        Some(artist) => Some(NcmMetadata { music_name, album, artist, bitrate, duration, format }),
        None => None,
    }
}

impl NcmMetadata {
    /// Reads the record out of a JSON value.
    pub fn from_json(json: &Json) -> (r: Option<NcmMetadata>)
        ensures
            match r {
                Some(m) => metadata_of_json(json@) == Some(m@),
                None => metadata_of_json(json@) is None,
            },
    {
        match json {
            Json::Object(_) => read_record(
                json.get("musicName"),
                json.get("album"),
                json.get("artist"),
                json.get("bitrate"),
                json.get("duration"),
                json.get("format"),
            ),
            Json::Array(items) => {
                proof {
                    lemma_array_view(*json);
                }
                if items.len() == 6 {
                    read_record(
                        Some(&items[0]),
                        Some(&items[1]),
                        Some(&items[2]),
                        Some(&items[3]),
                        Some(&items[4]),
                        Some(&items[5]),
                    )
                } else {
                    None
                }
            },
            _ => None,
        }
    }

    /// Parses the record from decrypted metadata bytes. A leading `music:`
    /// is passed over. Fails with `Json` exactly where the bytes hold no
    /// record: the text is not JSON, or the JSON is not that of a record.
    pub fn from_decrypted(data: &[u8]) -> (res: Result<NcmMetadata, NcmError>)
        ensures
            match res {
                Ok(m) => metadata_of_bytes(data@) == Some(m@),
                Err(e) => metadata_of_bytes(data@) is None && e is Json,
            },
    {
        let text = if has_music_prefix(data) {
            slice_subrange(data, 6, data.len())
        } else {
            data
        };
        match parse_json(text) {
            Ok(json) => match NcmMetadata::from_json(&json) {
                Some(m) => Ok(m),
                None => Err(NcmError::Json(json_data_error("not a metadata record"))),
            },
            Err(e) => Err(NcmError::Json(e)),
        }
    }

    /// The names of the artists, joined with " / ". An entry whose first
    /// element is no string gives no name.
    pub fn artist_names(&self) -> (names: String)
        ensures
            names@ == artist_names_spec(self@),
    {
        let mut names = String::new();
        let mut found: bool = false;
        let mut i: usize = 0;
        assert(self@.artist.take(0) =~= Seq::empty());
        while i < self.artist.len()
            invariant
                i <= self.artist@.len(),
                self@.artist.len() == self.artist@.len(),
                names@ == join_names(artist_name_list(self@.artist.take(i as int)), " / "@),
                found == (artist_name_list(self@.artist.take(i as int)).len() > 0),
            decreases self.artist@.len() - i,
        {
            let ghost before = artist_name_list(self@.artist.take(i as int));
            proof {
                let upto = self@.artist.take(i + 1);
                assert(upto.drop_last() =~= self@.artist.take(i as int));
                assert(upto.last() == json_values(self.artist@[i as int]@));
            }
            let entry = &self.artist[i];
            if entry.len() > 0 {
                match entry[0].as_str() {
                    Some(name) => {
                        if found {
                            names.append(" / ");
                        }
                        names.append(name);
                        found = true;
                        proof {
                            let after = before.push(name@);
                            assert(after.drop_last() =~= before);
                            assert(before.len() == 0 ==> join_names(after, " / "@) =~= name@);
                        }
                    },
                    None => {},
                }
            }
            i += 1;
        }
        assert(self@.artist.take(i as int) =~= self@.artist);
        names
    }
}

/// Whether `data` starts with the bytes `music:`.
fn has_music_prefix(data: &[u8]) -> (b: bool)
    ensures
        b == (data@.len() >= 6 && data@.take(6) == music_prefix()),
{
    if data.len() < 6 {
        return false;
    }
    let b = data[0] == 0x6d && data[1] == 0x75 && data[2] == 0x73 && data[3] == 0x69 && data[4]
        == 0x63 && data[5] == 0x3a;
    assert(b == (data@.take(6) =~= music_prefix()));
    b
}

} // verus!
