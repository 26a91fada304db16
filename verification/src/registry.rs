//! The asset registry: an ordered, immutable set of relative paths with
//! their content, together with the bundle's version tag. A well-formed
//! registry has a trimmed version string and nonempty, pairwise-distinct
//! relative paths.

use vstd::prelude::*;
use vstd::string::*;
use crate::text::{trim_chars, trimmed};

verus! {

/// One bundled asset: a relative path and the content written there.
pub struct AssetEntry {
    pub path: String,
    pub content: String,
}

/// The mathematical value of an asset entry.
pub ghost struct AssetEntryV {
    pub path: Seq<char>,
    pub content: Seq<char>,
}

impl View for AssetEntry {
    type V = AssetEntryV;

    open spec fn view(&self) -> AssetEntryV {
        AssetEntryV { path: self.path@, content: self.content@ }
    }
}

/// The mathematical value of a registry.
pub ghost struct RegistryV {
    pub entries: Seq<AssetEntryV>,
    pub version: Seq<char>,
}

impl RegistryV {
    /// A registry is well formed when its version tag carries no leading or
    /// trailing whitespace (so the marker written from it reads back equal)
    /// and its relative paths are nonempty and pairwise distinct.
    pub open spec fn wf(self) -> bool {
        &&& trimmed(self.version) == self.version
        &&& forall|i: int|
            0 <= i < self.entries.len() ==> (#[trigger] self.entries[i]).path.len() > 0
        &&& forall|i: int, j: int|
            0 <= i < j < self.entries.len() ==> (#[trigger] self.entries[i]).path != (
            #[trigger] self.entries[j]).path
    }
}

/// The views of a sequence of entries.
pub open spec fn entries_view(s: Seq<AssetEntry>) -> Seq<AssetEntryV> {
    s.map_values(|e: AssetEntry| e@)
}

/// The fixed, ordered mapping from relative path to content, with the
/// bundle's version tag.
pub struct Registry {
    entries: Vec<AssetEntry>,
    version: String,
}

impl View for Registry {
    type V = RegistryV;

    closed spec fn view(&self) -> RegistryV {
        RegistryV { entries: entries_view(self.entries@), version: self.version@ }
    }
}

impl Registry {
    /// Builds a registry after checking well-formedness; returns `None`
    /// exactly when the given entries and version are not well formed.
    pub fn try_new(entries: Vec<AssetEntry>, version: String) -> (r: Option<Registry>)
        ensures
            (r is Some) == (RegistryV {
                entries: entries_view(entries@),
                version: version@,
            }).wf(),
            r matches Some(g) ==> g@ == (RegistryV {
                entries: entries_view(entries@),
                version: version@,
            }),
    {
        let t = trim_chars(version.as_str());
        if !(t == version) {
            return None;
        }
        let n = entries.len();
        let mut i: usize = 0;
        while i < n
            invariant
                i <= n,
                n == entries.len(),
                trimmed(version@) == version@,
                forall|k: int| 0 <= k < i ==> (#[trigger] entries@[k])@.path.len() > 0,
                forall|k: int, l: int|
                    0 <= k < i && k < l < n ==> (#[trigger] entries@[k])@.path != (
                    #[trigger] entries@[l])@.path,
            decreases n - i,
        {
            if entries[i].path.as_str().is_empty() {
                proof {
                    let rv = RegistryV { entries: entries_view(entries@), version: version@ };
                    assert(rv.entries[i as int].path.len() == 0);
                    assert(!rv.wf());
                }
                return None;
            }
            let mut j: usize = i + 1;
            while j < n
                invariant
                    i < j <= n,
                    n == entries.len(),
                    forall|l: int|
                        i < l < j ==> (#[trigger] entries@[l])@.path != entries@[i as int]@.path,
                decreases n - j,
            {
                if entries[i].path == entries[j].path {
                    proof {
                        let rv = RegistryV {
                            entries: entries_view(entries@),
                            version: version@,
                        };
                        assert(rv.entries[i as int].path == rv.entries[j as int].path);
                        assert(!rv.wf());
                    }
                    return None;
                }
                j = j + 1;
            }
            i = i + 1;
        }
        Some(Registry { entries, version })
    }

    /// The bundle's version tag.
    pub fn version(&self) -> (r: &String)
        ensures
            r@ == self@.version,
    {
        &self.version
    }

    /// How many assets the bundle holds.
    pub fn len(&self) -> (r: usize)
        ensures
            r == self@.entries.len(),
    {
        self.entries.len()
    }

    /// The asset at position `i`, in registry order.
    pub fn entry_at(&self, i: usize) -> (r: &AssetEntry)
        requires
            i < self@.entries.len(),
        ensures
            r@ == self@.entries[i as int],
    {
        &self.entries[i]
    }
}

} // verus!
