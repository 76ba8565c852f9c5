//! The compatibility marker: the bytes kept under one reserved key, which
//! say under which schema version and operating mode a store was written.

use vstd::prelude::*;
use crate::keys::{key_order, KeyOrder};

verus! {

/// The schema version that this library reads and writes.
pub const DB_VERSION: u32 = 1;

/// The four bytes of `v`, least significant first.
pub open spec fn le_bytes(v: u32) -> Seq<u8> {
    seq![
        (v % 256) as u8,
        ((v / 256) % 256) as u8,
        ((v / 65536) % 256) as u8,
        (v / 16777216) as u8,
    ]
}

/// The marker of a store of schema `version`: the version's four bytes, and
/// one more byte of value 1 where the store holds reduced data.
pub open spec fn marker_bytes(version: u32, light_mode: bool) -> Seq<u8> {
    if light_mode {
        le_bytes(version).push(1u8)
    } else {
        le_bytes(version)
    }
}

/// The reserved key: the single byte `V`.
pub open spec fn spec_marker_key() -> Seq<u8> {
    seq![86u8]
}

/// What an open does about the marker.
#[derive(Clone, Copy, Debug, PartialEq, Eq, Structural)]
pub enum MarkerCheck {
    /// No marker yet: the store is new, and the marker is written.
    Initialize,
    /// The marker is the expected one: nothing is written.
    Proceed,
    /// Another marker: the store must not be used.
    Refuse,
}

/// The decision for a store that holds `stored` under the reserved key.
pub open spec fn check_marker(stored: Option<Seq<u8>>, light_mode: bool) -> MarkerCheck {
    match stored {
        None => MarkerCheck::Initialize,
        Some(found) => if found == marker_bytes(DB_VERSION, light_mode) {
            MarkerCheck::Proceed
        } else {
            MarkerCheck::Refuse
        },
    }
}

/// What the store holds under the reserved key once an open has gone
/// through. A refused open leaves the store as it was.
pub open spec fn marker_after_open(stored: Option<Seq<u8>>, light_mode: bool) -> Option<Seq<u8>> {
    match check_marker(stored, light_mode) {
        MarkerCheck::Initialize => Some(marker_bytes(DB_VERSION, light_mode)),
        MarkerCheck::Proceed => stored,
        MarkerCheck::Refuse => stored,
    }
}

pub fn marker_key() -> (key: Vec<u8>)
    ensures
        key@ == spec_marker_key(),
{
    let mut key: Vec<u8> = Vec::new();
    key.push(86u8);
    key
}

/// The marker that an open under this configuration expects to find.
pub fn compatibility_bytes(light_mode: bool) -> (bytes: Vec<u8>)
    ensures
        bytes@ == marker_bytes(DB_VERSION, light_mode),
{
    let v: u32 = DB_VERSION;
    let mut bytes: Vec<u8> = Vec::new();
    bytes.push((v % 256) as u8);
    bytes.push(((v / 256) % 256) as u8);
    bytes.push(((v / 65536) % 256) as u8);
    bytes.push((v / 16777216) as u8);
    if light_mode {
        bytes.push(1u8);
    }
    proof {
        assert(bytes@ =~= marker_bytes(DB_VERSION, light_mode));
    }
    bytes
}

/// Decides what an open does, from what was read under the reserved key.
pub fn verify_compatibility(stored: &Option<Vec<u8>>, light_mode: bool) -> (verdict: MarkerCheck)
    ensures
        verdict == check_marker(
            match *stored {
                Some(found) => Some(found@),
                None => None,
            },
            light_mode,
        ),
{
    match stored {
        None => MarkerCheck::Initialize,
        Some(found) => {
            let expected = compatibility_bytes(light_mode);
            match key_order(found.as_slice(), expected.as_slice()) {
                KeyOrder::Same => MarkerCheck::Proceed,
                _ => MarkerCheck::Refuse,
            }
        },
    }
}

/// The version can be read back from its four bytes.
pub proof fn lemma_le_bytes_injective(v: u32, w: u32)
    requires
        le_bytes(v) == le_bytes(w),
    ensures
        v == w,
{
    assert(le_bytes(v)[0] == le_bytes(w)[0]);
    assert(le_bytes(v)[1] == le_bytes(w)[1]);
    assert(le_bytes(v)[2] == le_bytes(w)[2]);
    assert(le_bytes(v)[3] == le_bytes(w)[3]);
}

/// Two markers are the same bytes only for the same version and mode.
pub proof fn lemma_marker_injective(v: u32, light: bool, w: u32, other_light: bool)
    requires
        marker_bytes(v, light) == marker_bytes(w, other_light),
    ensures
        v == w,
        light == other_light,
{
    assert(le_bytes(v).len() == 4);
    assert(le_bytes(w).len() == 4);
    assert(marker_bytes(v, light).len() == marker_bytes(w, other_light).len());
    assert(light == other_light);
    assert(le_bytes(v) =~= marker_bytes(v, light).subrange(0, 4));
    assert(le_bytes(w) =~= marker_bytes(w, other_light).subrange(0, 4));
    lemma_le_bytes_injective(v, w);
}

/// A store that an open has accepted is accepted again under the same
/// configuration, and that second open leaves the marker as it is.
pub proof fn lemma_reopen_keeps_marker(stored: Option<Seq<u8>>, light_mode: bool)
    requires
        check_marker(stored, light_mode) != MarkerCheck::Refuse,
    ensures
        check_marker(marker_after_open(stored, light_mode), light_mode) == MarkerCheck::Proceed,
        marker_after_open(marker_after_open(stored, light_mode), light_mode) == marker_after_open(
            stored,
            light_mode,
        ),
        check_marker(stored, light_mode) == MarkerCheck::Proceed ==> marker_after_open(
            stored,
            light_mode,
        ) == stored,
{
}

/// A store marked with another schema version, or with the other mode, is
/// refused.
pub proof fn lemma_foreign_marker_refused(version: u32, marked_light: bool, light_mode: bool)
    requires
        version != DB_VERSION || marked_light != light_mode,
    ensures
        check_marker(Some(marker_bytes(version, marked_light)), light_mode) == MarkerCheck::Refuse,
{
    if marker_bytes(version, marked_light) == marker_bytes(DB_VERSION, light_mode) {
        lemma_marker_injective(version, marked_light, DB_VERSION, light_mode);
    }
}

} // verus!
