//! Identifiers that join plugin calls and catalog rows.

use vstd::prelude::*;

verus! {

/// Compact integer the catalog assigns to a plugin at first registration.
#[derive(Debug, Clone, Copy, PartialEq, Eq, Hash, Structural)]
pub struct PluginId(pub i64);

/// Catalog key of an artist row.
#[derive(Debug, Clone, Copy, PartialEq, Eq, Hash, Structural)]
pub struct ArtistId(pub i64);

/// Catalog key of an album row.
#[derive(Debug, Clone, Copy, PartialEq, Eq, Hash, Structural)]
pub struct AlbumId(pub i64);

/// Catalog key of a track row.
#[derive(Debug, Clone, Copy, PartialEq, Eq, Hash, Structural)]
pub struct TrackId(pub i64);

/// Catalog key of a track group.
#[derive(Debug, Clone, Copy, PartialEq, Eq, Hash, Structural)]
pub struct TrackGroupId(pub i64);

/// Number of a background task, in the order of spawning.
#[derive(Debug, Clone, Copy, PartialEq, Eq, Hash, Structural)]
pub struct TaskId(pub usize);

/// Opaque bytes by which a plugin finds one of its own tracks again.
#[derive(Debug, PartialEq, Eq, Hash)]
pub struct PluginTrackIdentifier(pub Vec<u8>);

impl View for PluginTrackIdentifier {
    type V = Seq<u8>;

    open spec fn view(&self) -> Seq<u8> {
        self.0@
    }
}

impl Clone for PluginTrackIdentifier {
    fn clone(&self) -> (res: Self)
        ensures
            res@ == self@,
    {
        PluginTrackIdentifier(copy_bytes(&self.0))
    }
}

impl PluginTrackIdentifier {
    /// Byte-wise comparison.
    pub fn same(&self, other: &PluginTrackIdentifier) -> (r: bool)
        ensures
            r == (self@ == other@),
    {
        bytes_equal(&self.0, &other.0)
    }
}

/// What a `UniqueTrackIdentifier` stands for: the plugin's number and the plugin's own bytes.
pub struct TrackKey {
    pub plugin_id: i64,
    pub plugin_data: Seq<u8>,
}

/// The globally unique name of a track: which plugin, and which of its tracks.
#[derive(Debug, PartialEq, Eq, Hash)]
pub struct UniqueTrackIdentifier {
    pub plugin_id: PluginId,
    pub plugin_data: PluginTrackIdentifier,
}

impl View for UniqueTrackIdentifier {
    type V = TrackKey;

    open spec fn view(&self) -> TrackKey {
        TrackKey { plugin_id: self.plugin_id.0, plugin_data: self.plugin_data@ }
    }
}

impl Clone for UniqueTrackIdentifier {
    fn clone(&self) -> (res: Self)
        ensures
            res@ == self@,
    {
        UniqueTrackIdentifier { plugin_id: self.plugin_id, plugin_data: self.plugin_data.clone() }
    }
}

impl UniqueTrackIdentifier {
    /// Both parts agree.
    pub fn same(&self, other: &UniqueTrackIdentifier) -> (r: bool)
        ensures
            r == (self@ == other@),
    {
        let r = self.plugin_id.0 == other.plugin_id.0 && self.plugin_data.same(&other.plugin_data);
        proof {
            if self@ == other@ {
                assert(self.plugin_data@ == other.plugin_data@);
            }
        }
        r
    }
}

/// A fresh vector with the same bytes.
pub fn copy_bytes(v: &Vec<u8>) -> (res: Vec<u8>)
    ensures
        res@ == v@,
{
    let mut out: Vec<u8> = Vec::new();
    let mut i: usize = 0;
    while i < v.len()
        invariant
            i <= v.len(),
            out@ == v@.subrange(0, i as int),
        decreases v.len() - i,
    {
        out.push(v[i]);
        i += 1;
    }
    assert(v@.subrange(0, v.len() as int) == v@);
    out
}

/// Whether two vectors hold the same bytes in the same order.
pub fn bytes_equal(a: &Vec<u8>, b: &Vec<u8>) -> (r: bool)
    ensures
        r == (a@ == b@),
{
    if a.len() != b.len() {
        return false;
    }
    let mut i: usize = 0;
    while i < a.len()
        invariant
            i <= a.len(),
            a.len() == b.len(),
            a@.subrange(0, i as int) == b@.subrange(0, i as int),
        decreases a.len() - i,
    {
        if a[i] != b[i] {
            return false;
        }
        assert(a@.subrange(0, i + 1) == a@.subrange(0, i as int).push(a@[i as int]));
        assert(b@.subrange(0, i + 1) == b@.subrange(0, i as int).push(b@[i as int]));
        i += 1;
    }
    assert(a@.subrange(0, a.len() as int) == a@);
    assert(b@.subrange(0, b.len() as int) == b@);
    true
}

} // verus!
