//! The metadata normalizer: turns the remote player's loosely-typed metadata
//! mapping into the fixed-shape `Metadata` record.
//!
//! The remote protocol's schema is fixed, so a value of the wrong shape under
//! a known key is a protocol violation, reported as a `ShapeViolation` for
//! the caller to treat as fatal — never silently replaced by a default.
//! A *missing* key, by contrast, is ordinary and maps to the field's zero
//! value.

use vstd::prelude::*;
use crate::text::str_eq;

verus! {

/// One loosely-typed value from the remote metadata mapping, reduced to the
/// representations the normalizer reads. Any other remote representation is
/// carried as `Other`.
pub enum MetaValue {
    Str(String),
    ObjectPath(String),
    U64(u64),
    I64(i64),
    StrArray(Vec<String>),
    Other,
}

/// The fixed-shape record every poll of the remote mapping is normalized to.
/// Equality is structural, field by field; the state-diff poller uses it to
/// decide that nothing changed between polls.
pub struct Metadata {
    pub track_id: String,
    pub title: String,
    pub art_url: String,
    pub url: String,
    pub length: i64,
    pub artist: Vec<String>,
}

/// The mathematical value of a `Metadata` record.
#[verifier::ext_equal]
pub ghost struct MetadataView {
    pub track_id: Seq<char>,
    pub title: Seq<char>,
    pub art_url: Seq<char>,
    pub url: Seq<char>,
    pub length: int,
    pub artist: Seq<Seq<char>>,
}

impl View for Metadata {
    type V = MetadataView;

    open spec fn view(&self) -> MetadataView {
        MetadataView {
            track_id: self.track_id@,
            title: self.title@,
            art_url: self.art_url@,
            url: self.url@,
            length: self.length as int,
            artist: self.artist.deep_view(),
        }
    }
}

/// The view of a `Metadata` with every field at its zero value.
pub open spec fn empty_metadata_view() -> MetadataView {
    MetadataView {
        track_id: Seq::<char>::empty(),
        title: Seq::<char>::empty(),
        art_url: Seq::<char>::empty(),
        url: Seq::<char>::empty(),
        length: 0,
        artist: Seq::<Seq<char>>::empty(),
    }
}

impl Default for Metadata {
    /// A record with every field at its zero value.
    fn default() -> (r: Metadata)
        ensures
            r@ == empty_metadata_view(),
    {
        let r = Metadata {
            track_id: String::new(),
            title: String::new(),
            art_url: String::new(),
            url: String::new(),
            length: 0,
            artist: Vec::new(),
        };
        proof {
            assert(r@ =~= empty_metadata_view());
        }
        r
    }
}

impl PartialEq for Metadata {
    /// Structural, field-by-field equality.
    fn eq(&self, other: &Metadata) -> (r: bool) {
        let fields_eq = self.track_id == other.track_id && self.title == other.title
            && self.art_url == other.art_url && self.url == other.url && self.length
            == other.length;
        if !fields_eq {
            return false;
        }
        let r = string_vec_eq(&self.artist, &other.artist);
        proof {
            if r {
                assert(self@ =~= other@);
            }
        }
        r
    }
}

impl vstd::std_specs::cmp::PartialEqSpecImpl for Metadata {
    open spec fn obeys_eq_spec() -> bool {
        true
    }

    open spec fn eq_spec(&self, other: &Metadata) -> bool {
        self@ == other@
    }
}

/// Element-wise, character-exact equality of two string vectors.
pub fn string_vec_eq(a: &Vec<String>, b: &Vec<String>) -> (r: bool)
    ensures
        r == (a.deep_view() == b.deep_view()),
{
    if a.len() != b.len() {
        proof {
            assert(a.deep_view().len() == a@.len());
            assert(b.deep_view().len() == b@.len());
        }
        return false;
    }
    let n = a.len();
    let mut i: usize = 0;
    while i < n
        invariant
            n == a.len(),
            n == b.len(),
            i <= n,
            forall|j: int| 0 <= j < i ==> a.deep_view()[j] == b.deep_view()[j],
        decreases n - i,
    {
        if !str_eq(a[i].as_str(), b[i].as_str()) {
            proof {
                assert(a.deep_view()[i as int] != b.deep_view()[i as int]);
            }
            return false;
        }
        i += 1;
    }
    proof {
        assert(a.deep_view() =~= b.deep_view());
    }
    true
}

/// The mapping keys the normalizer reads.
pub open spec fn key_track_id() -> Seq<char> {
    "mpris:trackid"@
}

pub open spec fn key_title() -> Seq<char> {
    "xesam:title"@
}

pub open spec fn key_art_url() -> Seq<char> {
    "mpris:artUrl"@
}

pub open spec fn key_url() -> Seq<char> {
    "xesam:url"@
}

pub open spec fn key_length() -> Seq<char> {
    "mpris:length"@
}

pub open spec fn key_artist() -> Seq<char> {
    "xesam:artist"@
}

/// The first entry under `key`, if any.
pub open spec fn lookup(entries: Seq<(String, MetaValue)>, key: Seq<char>) -> Option<MetaValue>
    decreases entries.len(),
{
    if entries.len() == 0 {
        None
    } else if entries[0].0@ == key {
        Some(entries[0].1)
    } else {
        lookup(entries.drop_first(), key)
    }
}

/// Which field of the record a malformed entry corrupts, in the order the
/// normalizer inspects the keys.
#[derive(Debug)]
pub enum ShapeViolation {
    /// The track id entry is neither a string nor an object path.
    TrackIdShape,
    /// The title entry is not a string.
    TitleShape,
    /// The artwork entry is not a string.
    ArtUrlShape,
    /// The location entry is not a string.
    UrlShape,
    /// The length entry is not a 64-bit integer of either signedness.
    LengthShape,
    /// The length entry is unsigned and exceeds the signed 64-bit range.
    LengthRange,
    /// The artist entry is not an array of strings.
    ArtistShape,
}

pub open spec fn track_id_shape_ok(entries: Seq<(String, MetaValue)>) -> bool {
    match lookup(entries, key_track_id()) {
        Some(v) => v is Str || v is ObjectPath,
        None => true,
    }
}

pub open spec fn title_shape_ok(entries: Seq<(String, MetaValue)>) -> bool {
    match lookup(entries, key_title()) {
        Some(v) => v is Str,
        None => true,
    }
}

pub open spec fn art_url_shape_ok(entries: Seq<(String, MetaValue)>) -> bool {
    match lookup(entries, key_art_url()) {
        Some(v) => v is Str,
        None => true,
    }
}

pub open spec fn url_shape_ok(entries: Seq<(String, MetaValue)>) -> bool {
    match lookup(entries, key_url()) {
        Some(v) => v is Str,
        None => true,
    }
}

pub open spec fn length_shape_ok(entries: Seq<(String, MetaValue)>) -> bool {
    match lookup(entries, key_length()) {
        Some(v) => v matches MetaValue::U64(u) && u <= i64::MAX || v is I64,
        None => true,
    }
}

pub open spec fn artist_shape_ok(entries: Seq<(String, MetaValue)>) -> bool {
    match lookup(entries, key_artist()) {
        Some(v) => v is StrArray,
        None => true,
    }
}

/// Every entry the normalizer reads has the shape the remote protocol fixes
/// for its key.
pub open spec fn well_shaped(entries: Seq<(String, MetaValue)>) -> bool {
    &&& track_id_shape_ok(entries)
    &&& title_shape_ok(entries)
    &&& art_url_shape_ok(entries)
    &&& url_shape_ok(entries)
    &&& length_shape_ok(entries)
    &&& artist_shape_ok(entries)
}

/// The violation the normalizer reports: the first ill-shaped entry in key
/// inspection order.
pub open spec fn first_violation(entries: Seq<(String, MetaValue)>) -> ShapeViolation
    recommends
        !well_shaped(entries),
{
    if !track_id_shape_ok(entries) {
        ShapeViolation::TrackIdShape
    } else if !title_shape_ok(entries) {
        ShapeViolation::TitleShape
    } else if !art_url_shape_ok(entries) {
        ShapeViolation::ArtUrlShape
    } else if !url_shape_ok(entries) {
        ShapeViolation::UrlShape
    } else if !length_shape_ok(entries) {
        if lookup(entries, key_length()) matches Some(MetaValue::U64(_)) {
            ShapeViolation::LengthRange
        } else {
            ShapeViolation::LengthShape
        }
    } else {
        ShapeViolation::ArtistShape
    }
}

pub open spec fn norm_track_id(entries: Seq<(String, MetaValue)>) -> Seq<char> {
    match lookup(entries, key_track_id()) {
        Some(MetaValue::Str(s)) => s@,
        Some(MetaValue::ObjectPath(s)) => s@,
        _ => Seq::<char>::empty(),
    }
}

pub open spec fn norm_title(entries: Seq<(String, MetaValue)>) -> Seq<char> {
    match lookup(entries, key_title()) {
        Some(MetaValue::Str(s)) => s@,
        _ => Seq::<char>::empty(),
    }
}

pub open spec fn norm_art_url(entries: Seq<(String, MetaValue)>) -> Seq<char> {
    match lookup(entries, key_art_url()) {
        Some(MetaValue::Str(s)) => s@,
        _ => Seq::<char>::empty(),
    }
}

pub open spec fn norm_url(entries: Seq<(String, MetaValue)>) -> Seq<char> {
    match lookup(entries, key_url()) {
        Some(MetaValue::Str(s)) => s@,
        _ => Seq::<char>::empty(),
    }
}

/// The numeric length, whichever 64-bit representation carried it; zero when
/// the key is missing.
pub open spec fn norm_length(entries: Seq<(String, MetaValue)>) -> int {
    match lookup(entries, key_length()) {
        Some(MetaValue::U64(u)) => u as int,
        Some(MetaValue::I64(i)) => i as int,
        _ => 0,
    }
}

pub open spec fn norm_artist(entries: Seq<(String, MetaValue)>) -> Seq<Seq<char>> {
    match lookup(entries, key_artist()) {
        Some(MetaValue::StrArray(v)) => v.deep_view(),
        _ => Seq::<Seq<char>>::empty(),
    }
}

/// What a well-shaped mapping normalizes to.
pub open spec fn normalized(entries: Seq<(String, MetaValue)>) -> MetadataView {
    MetadataView {
        track_id: norm_track_id(entries),
        title: norm_title(entries),
        art_url: norm_art_url(entries),
        url: norm_url(entries),
        length: norm_length(entries),
        artist: norm_artist(entries),
    }
}

/// If no key among the first `i` entries matches, the lookup is decided by
/// the rest.
proof fn lemma_lookup_skip(entries: Seq<(String, MetaValue)>, key: Seq<char>, i: int)
    requires
        0 <= i <= entries.len(),
        forall|j: int| 0 <= j < i ==> (#[trigger] entries[j]).0@ != key,
    ensures
        lookup(entries, key) == lookup(entries.skip(i), key),
    decreases i,
{
    if i == 0 {
        assert(entries.skip(0) =~= entries);
    } else {
        assert(entries[0].0@ != key);
        lemma_lookup_skip(entries.drop_first(), key, i - 1);
        assert(entries.drop_first().skip(i - 1) =~= entries.skip(i));
    }
}

/// The first entry of `entries` under `key`, by character-exact key
/// comparison.
fn lookup_exec<'a>(entries: &'a Vec<(String, MetaValue)>, key: &str) -> (r: Option<&'a MetaValue>)
    ensures
        match r {
            Some(v) => lookup(entries@, key@) == Some(*v),
            None => lookup(entries@, key@) is None,
        },
{
    let n = entries.len();
    let mut i: usize = 0;
    while i < n
        invariant
            n == entries@.len(),
            i <= n,
            forall|j: int| 0 <= j < i ==> (#[trigger] entries@[j]).0@ != key@,
        decreases n - i,
    {
        if str_eq(entries[i].0.as_str(), key) {
            proof {
                lemma_lookup_skip(entries@, key@, i as int);
                assert(entries@.skip(i as int)[0] == entries@[i as int]);
            }
            return Some(&entries[i].1);
        }
        i += 1;
    }
    proof {
        lemma_lookup_skip(entries@, key@, n as int);
        assert(entries@.skip(n as int) =~= Seq::<(String, MetaValue)>::empty());
    }
    None
}

/// Normalize the remote metadata mapping into a `Metadata` record.
///
/// Missing keys yield the field's zero value; an ill-shaped entry under a
/// known key yields the first `ShapeViolation` in key inspection order, and
/// the caller treats it as fatal.
pub fn normalize(raw: &Vec<(String, MetaValue)>) -> (r: Result<Metadata, ShapeViolation>)
    ensures
        well_shaped(raw@) ==> (r matches Ok(m) && m@ == normalized(raw@)),
        !well_shaped(raw@) ==> (r matches Err(v) && v == first_violation(raw@)),
{
    let track_id: String = match lookup_exec(raw, "mpris:trackid") {
        None => String::new(),
        Some(MetaValue::Str(s)) => s.clone(),
        Some(MetaValue::ObjectPath(s)) => s.clone(),
        Some(_) => {
            return Err(ShapeViolation::TrackIdShape);
        },
    };
    let title: String = match lookup_exec(raw, "xesam:title") {
        None => String::new(),
        Some(MetaValue::Str(s)) => s.clone(),
        Some(_) => {
            return Err(ShapeViolation::TitleShape);
        },
    };
    let art_url: String = match lookup_exec(raw, "mpris:artUrl") {
        None => String::new(),
        Some(MetaValue::Str(s)) => s.clone(),
        Some(_) => {
            return Err(ShapeViolation::ArtUrlShape);
        },
    };
    let url: String = match lookup_exec(raw, "xesam:url") {
        None => String::new(),
        Some(MetaValue::Str(s)) => s.clone(),
        Some(_) => {
            return Err(ShapeViolation::UrlShape);
        },
    };
    let length: i64 = match lookup_exec(raw, "mpris:length") {
        None => 0,
        Some(MetaValue::U64(u)) => {
            if *u > 0x7fffffffffffffff {
                return Err(ShapeViolation::LengthRange);
            }
            *u as i64
        },
        Some(MetaValue::I64(v)) => *v,
        Some(_) => {
            return Err(ShapeViolation::LengthShape);
        },
    };
    let artist: Vec<String> = match lookup_exec(raw, "xesam:artist") {
        None => Vec::new(),
        Some(MetaValue::StrArray(v)) => {
            let c = v.clone();
            proof {
                assert(c.deep_view() =~= v.deep_view());
            }
            c
        },
        Some(_) => {
            return Err(ShapeViolation::ArtistShape);
        },
    };
    let m = Metadata { track_id, title, art_url, url, length, artist };
    proof {
        assert(m@ =~= normalized(raw@));
    }
    Ok(m)
}

/// Law: a missing key normalizes to the field's zero value — in particular a
/// mapping without the title key normalizes to an empty title.
pub proof fn lemma_missing_keys_normalize_to_zero(entries: Seq<(String, MetaValue)>)
    ensures
        lookup(entries, key_track_id()) is None ==> normalized(entries).track_id == Seq::<
            char,
        >::empty(),
        lookup(entries, key_title()) is None ==> normalized(entries).title == Seq::<char>::empty(),
        lookup(entries, key_art_url()) is None ==> normalized(entries).art_url == Seq::<
            char,
        >::empty(),
        lookup(entries, key_url()) is None ==> normalized(entries).url == Seq::<char>::empty(),
        lookup(entries, key_length()) is None ==> normalized(entries).length == 0,
        lookup(entries, key_artist()) is None ==> normalized(entries).artist == Seq::<
            Seq<char>,
        >::empty(),
{
}

/// The numeric value the length entry carries, whichever representation
/// holds it.
pub open spec fn length_entry_value(entries: Seq<(String, MetaValue)>) -> Option<int> {
    match lookup(entries, key_length()) {
        Some(MetaValue::U64(u)) => Some(u as int),
        Some(MetaValue::I64(i)) => Some(i as int),
        _ => None,
    }
}

/// Law: the normalized length is decided by the numeric value of the length
/// entry alone — two mappings whose length entries carry the same number
/// normalize to the same length, whichever 64-bit representation each used.
pub proof fn lemma_length_representation_independent(
    e1: Seq<(String, MetaValue)>,
    e2: Seq<(String, MetaValue)>,
)
    requires
        length_entry_value(e1) is Some,
        length_entry_value(e1) == length_entry_value(e2),
    ensures
        normalized(e1).length == normalized(e2).length,
{
}

} // verus!
