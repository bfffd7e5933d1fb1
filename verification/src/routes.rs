//! Route-level decision logic that runs before any remote call: which bus
//! names are players, whether an artwork reference is local or remote, and
//! the validation of the set-position route's parameters.

use vstd::prelude::*;
use crate::error::ApiError;
use crate::text::{has_prefix, has_prefix_spec, parse_i64, parsed_i64};

verus! {

/// The bus-name prefix every player of the remote protocol announces.
pub open spec fn player_name_prefix() -> Seq<char> {
    "org.mpris.MediaPlayer2"@
}

/// Whether one bus name announces a player.
pub open spec fn is_player_name(s: String) -> bool {
    has_prefix_spec(s@, player_name_prefix())
}

/// The player names among `names`, in their order of appearance.
pub open spec fn player_names_of(names: Seq<String>) -> Seq<String>
    decreases names.len(),
{
    if names.len() == 0 {
        Seq::<String>::empty()
    } else if is_player_name(names[0]) {
        seq![names[0]] + player_names_of(names.drop_first())
    } else {
        player_names_of(names.drop_first())
    }
}

/// Keep the bus names that announce a player, in order.
pub fn filter_player_names(names: Vec<String>) -> (r: Vec<String>)
    ensures
        r@ == player_names_of(names@),
{
    let ghost orig = names@;
    let mut names = names;
    let mut r: Vec<String> = Vec::new();
    while names.len() > 0
        invariant
            r@ + player_names_of(names@) == player_names_of(orig),
        decreases names.len(),
    {
        let ghost before = names@;
        let s = names.remove(0);
        if has_prefix(s.as_str(), "org.mpris.MediaPlayer2") {
            r.push(s);
        }
        proof {
            assert(before.drop_first() =~= names@);
            assert(r@ + player_names_of(names@) =~= player_names_of(orig));
        }
    }
    proof {
        assert(player_names_of(names@) =~= Seq::<String>::empty());
        assert(r@ =~= player_names_of(orig));
    }
    r
}

/// Where an artwork reference points: a local file (named by the part after
/// the local-file marker) or a remote resource.
pub enum ImageSource {
    /// Read the named path from disk.
    Local(String),
    /// Fetch the reference over the network.
    Remote(String),
}

/// The marker a local-file artwork reference begins with.
pub open spec fn file_marker() -> Seq<char> {
    "file://"@
}

/// Decide whether an artwork reference is a local file or a remote resource;
/// a local reference is returned with the marker stripped.
pub fn classify_image_url(url: &str) -> (r: ImageSource)
    ensures
        has_prefix_spec(url@, file_marker()) ==> (r matches ImageSource::Local(p) && p@
            == url@.skip(file_marker().len() as int)),
        !has_prefix_spec(url@, file_marker()) ==> (r matches ImageSource::Remote(u) && u@ == url@),
{
    if has_prefix(url, "file://") {
        let plen = "file://".unicode_len();
        let n = url.unicode_len();
        let rest = url.substring_char(plen, n);
        proof {
            assert(rest@ =~= url@.skip(file_marker().len() as int));
        }
        ImageSource::Local(rest.to_owned())
    } else {
        ImageSource::Remote(url.to_owned())
    }
}

/// A character a path-shaped identifier's segments may hold: ASCII letters,
/// digits and the underscore.
pub open spec fn is_path_char(c: char) -> bool {
    ('a' <= c <= 'z') || ('A' <= c <= 'Z') || ('0' <= c <= '9') || c == '_'
}

/// A path-shaped track identifier: a leading `/`, then `/`-separated
/// nonempty segments of path characters, with no empty segment and no
/// trailing separator (`/` alone is the root and is valid).
pub open spec fn is_object_path(s: Seq<char>) -> bool {
    &&& s.len() >= 1
    &&& s[0] == '/'
    &&& forall|i: int| 0 <= i < s.len() ==> (is_path_char(#[trigger] s[i]) || s[i] == '/')
    &&& forall|i: int| 1 <= i < s.len() ==> !(#[trigger] s[i] == '/' && s[i - 1] == '/')
    &&& s.len() > 1 ==> s[s.len() - 1] != '/'
}

/// Relies on `zvariant::ObjectPath::try_from(&str)`: its validation accepts
/// exactly the strings `is_object_path` describes — at least one character,
/// a leading `/`, then `/`-separated nonempty runs of ASCII alphanumerics
/// and `_`, consuming the whole input, so no `//`, no other characters, and
/// no trailing `/`.
#[verifier::external_body]
fn object_path_accepted(s: &str) -> (r: bool)
    ensures
        r == is_object_path(s@),
{
    zvariant::ObjectPath::try_from(s).is_ok()
}

/// A validated set-position request: the path-shaped track identifier and
/// the position to set.
pub struct SetPositionRequest {
    pub track_id: String,
    pub position: i64,
}

/// Validate the set-position route's query parameters, before any remote
/// call. A missing `track_id` is rejected, and so is a missing `position` —
/// both answered with the missing-track-id error — a non-numeric `position`
/// with the invalid-position error, and a `track_id` that is not
/// path-shaped with the invalid-track-id error.
pub fn validate_set_position(track_id: Option<&str>, position: Option<&str>) -> (r: Result<
    SetPositionRequest,
    ApiError,
>)
    ensures
        track_id is None ==> (r matches Err(e) && e is MissingTrackId),
        track_id is Some && position is None ==> (r matches Err(e) && e is MissingTrackId),
        track_id matches Some(t) ==> (position matches Some(p) ==> (match parsed_i64(p@) {
            None => r matches Err(e) && e is InvalidPosition,
            Some(v) => if is_object_path(t@) {
                r matches Ok(req) && req.track_id@ == t@ && req.position == v
            } else {
                r matches Err(e) && e is InvalidTrackId
            },
        })),
{
    match track_id {
        None => Err(ApiError::MissingTrackId),
        Some(t) => match position {
            None => Err(ApiError::MissingTrackId),
            Some(p) => match parse_i64(p) {
                None => Err(ApiError::InvalidPosition),
                Some(v) => {
                    if object_path_accepted(t) {
                        Ok(SetPositionRequest { track_id: t.to_owned(), position: v })
                    } else {
                        Err(ApiError::InvalidTrackId)
                    }
                },
            },
        },
    }
}

} // verus!
