//! Track identifiers: a 128-bit content id with an item-type tag.
//!
//! The textual form is the canonical fixed-width 22-digit base-62 numeral, so
//! every accepted text re-encodes to itself, digit for digit. An identifier
//! parsed from text carries no reliable type information; every use on the
//! playback path must first force the tag to `Track` (the textual form is
//! ambiguous by design).

use vstd::prelude::*;
use vstd::string::StrSliceExecFns;
use crate::base62::all_b62;
use crate::base62::b62_decode;
use crate::base62::b62_encode;
use crate::base62::decode_base62;
use crate::base62::encode_base62;
use crate::base62::lemma_encode_decode;
use crate::base62::BASE62_WIDTH;

verus! {

/// Semantic kind of a content id. A freshly parsed id is `Unknown` until a
/// caller sets the kind it means to use.
#[derive(Clone, Copy, Debug, PartialEq, Eq, Structural)]
pub enum ItemType {
    Track,
    Unknown,
}

/// A content identifier: the raw 128-bit value and its item-type tag.
#[derive(Clone, Copy, Debug, PartialEq, Eq, Structural)]
pub struct TrackId {
    pub id: u128,
    pub item_type: ItemType,
}

/// A well-formed textual identifier: canonical width, digits of the alphabet,
/// and a value that fits in 128 bits.
pub open spec fn valid_track_text(s: Seq<char>) -> bool {
    &&& s.len() == BASE62_WIDTH
    &&& all_b62(s)
    &&& b62_decode(s) <= u128::MAX
}

impl TrackId {
    /// Parse the canonical textual form; the tag of the result is `Unknown`.
    pub fn from_base62(s: &str) -> (r: Option<TrackId>)
        ensures
            r matches Some(t) ==> valid_track_text(s@) && t.id as int == b62_decode(s@)
                && t.item_type == ItemType::Unknown,
            r is None ==> !valid_track_text(s@),
    {
        if s.unicode_len() != BASE62_WIDTH {
            return None;
        }
        match decode_base62(s) {
            Some(v) => Some(TrackId { id: v, item_type: ItemType::Unknown }),
            None => None,
        }
    }

    /// The fixed-width textual form of the raw value; the tag plays no part.
    pub fn to_base62(&self) -> (r: String)
        ensures
            r@ == b62_encode(self.id as int, BASE62_WIDTH as nat),
            r@.len() == BASE62_WIDTH,
    {
        encode_base62(self.id)
    }

    /// The same identifier with its tag forced to `Track`.
    pub fn as_track(self) -> (r: TrackId)
        ensures
            r.id == self.id,
            r.item_type == ItemType::Track,
    {
        TrackId { id: self.id, item_type: ItemType::Track }
    }
}

/// Every text the parser accepts re-encodes to exactly itself: parsing then
/// printing an identifier is the identity on its textual form.
pub proof fn lemma_track_text_round_trip(s: Seq<char>)
    requires
        valid_track_text(s),
    ensures
        b62_encode(b62_decode(s), BASE62_WIDTH as nat) == s,
{
    lemma_encode_decode(s);
}

} // verus!
