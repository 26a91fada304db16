//! Shapes of the paths the launcher touches: the assets directory and the
//! version marker under a cache root, the target path of each bundled asset,
//! the parent directory that must exist before an asset is written, and the
//! entry-point script inside a resolved directory. Paths are modelled as
//! character sequences joined with `/`.

use vstd::prelude::*;
use vstd::string::*;

verus! {

/// The directory under a cache root that holds the synced bundle.
pub open spec fn assets_dir_chars(root: Seq<char>) -> Seq<char> {
    root + seq!['/', 'a', 's', 's', 'e', 't', 's']
}

/// The one-line file under a cache root that records the synced version.
pub open spec fn marker_path_chars(root: Seq<char>) -> Seq<char> {
    root + seq!['/', '.', 'v', 'e', 'r', 's', 'i', 'o', 'n']
}

/// Where the asset with relative path `rel` is written under a cache root.
pub open spec fn asset_path_chars(root: Seq<char>, rel: Seq<char>) -> Seq<char> {
    assets_dir_chars(root) + seq!['/'] + rel
}

/// The index of the last `/` in `s`, if any.
pub open spec fn last_slash(s: Seq<char>) -> Option<int>
    decreases s.len(),
{
    if s.len() == 0 {
        None
    } else if s[s.len() - 1] == '/' {
        Some(s.len() - 1)
    } else {
        last_slash(s.take(s.len() - 1))
    }
}

/// The directory that must exist before the asset with relative path `rel`
/// is written: the assets directory itself for a top-level asset, or the
/// asset's parent directory for a nested one.
pub open spec fn parent_dir_chars(root: Seq<char>, rel: Seq<char>) -> Seq<char> {
    match last_slash(rel) {
        None => assets_dir_chars(root),
        Some(k) => assets_dir_chars(root) + seq!['/'] + rel.take(k),
    }
}

/// The well-known entry-point script inside a resolved assets directory.
pub open spec fn entry_point_chars(dir: Seq<char>) -> Seq<char> {
    dir + seq!['/', 'n', 'f', 'o', 'r', 'g', 'e']
}

/// Builds the assets directory path under `root`.
pub fn assets_dir_in(root: &String) -> (r: String)
    ensures
        r@ == assets_dir_chars(root@),
{
    proof {
        reveal_strlit("/assets");
        assert("/assets"@ =~= seq!['/', 'a', 's', 's', 'e', 't', 's']);
    }
    root.clone().concat("/assets")
}

/// Builds the version-marker path under `root`.
pub fn marker_path_in(root: &String) -> (r: String)
    ensures
        r@ == marker_path_chars(root@),
{
    proof {
        reveal_strlit("/.version");
        assert("/.version"@ =~= seq!['/', '.', 'v', 'e', 'r', 's', 'i', 'o', 'n']);
    }
    root.clone().concat("/.version")
}

/// Builds the target path of the asset with relative path `rel` under `root`.
pub fn asset_path_in(root: &String, rel: &String) -> (r: String)
    ensures
        r@ == asset_path_chars(root@, rel@),
{
    proof {
        reveal_strlit("/");
        assert("/"@ =~= seq!['/']);
    }
    assets_dir_in(root).concat("/").concat(rel.as_str())
}

/// Builds the entry-point script path inside `dir`.
pub fn entry_point_in(dir: &String) -> (r: String)
    ensures
        r@ == entry_point_chars(dir@),
{
    proof {
        reveal_strlit("/nforge");
        assert("/nforge"@ =~= seq!['/', 'n', 'f', 'o', 'r', 'g', 'e']);
    }
    dir.clone().concat("/nforge")
}

/// Finds the index of the last `/` in `rel`, if any.
pub fn find_last_slash(rel: &str) -> (r: Option<usize>)
    ensures
        match r {
            Some(k) => last_slash(rel@) == Some(k as int) && k < rel@.len(),
            None => last_slash(rel@) is None,
        },
{
    let n = rel.unicode_len();
    proof {
        assert(rel@.take(n as int) =~= rel@);
    }
    let mut j: usize = n;
    while j > 0 && s_not_slash(rel, j - 1)
        invariant
            j <= n,
            n == rel@.len(),
            last_slash(rel@) == last_slash(rel@.take(j as int)),
        decreases j,
    {
        proof {
            let t = rel@.take(j as int);
            assert(t[t.len() - 1] == rel@[j - 1]);
            assert(t.take(t.len() - 1) =~= rel@.take(j as int - 1));
        }
        j = j - 1;
    }
    if j == 0 {
        proof {
            assert(rel@.take(0).len() == 0);
        }
        None
    } else {
        proof {
            let t = rel@.take(j as int);
            assert(t[t.len() - 1] == rel@[j - 1]);
        }
        Some(j - 1)
    }
}

fn s_not_slash(s: &str, i: usize) -> (r: bool)
    requires
        i < s@.len(),
    ensures
        r == (s@[i as int] != '/'),
{
    s.get_char(i) != '/'
}

/// Builds the directory that must exist before the asset with relative path
/// `rel` is written under `root`.
pub fn parent_dir_in(root: &String, rel: &String) -> (r: String)
    ensures
        r@ == parent_dir_chars(root@, rel@),
{
    proof {
        reveal_strlit("/");
        assert("/"@ =~= seq!['/']);
    }
    match find_last_slash(rel.as_str()) {
        None => assets_dir_in(root),
        Some(k) => {
            let head = rel.as_str().substring_char(0, k);
            assets_dir_in(root).concat("/").concat(head)
        },
    }
}

/// The asset path and the marker path under one root never coincide.
pub proof fn lemma_asset_path_ne_marker(root: Seq<char>, rel: Seq<char>)
    ensures
        asset_path_chars(root, rel) != marker_path_chars(root),
{
    let a = asset_path_chars(root, rel);
    let m = marker_path_chars(root);
    assert(a[root.len() as int + 1] == 'a');
    assert(m[root.len() as int + 1] == '.');
}

/// Distinct relative paths are written to distinct target paths.
pub proof fn lemma_asset_path_injective(root: Seq<char>, rel1: Seq<char>, rel2: Seq<char>)
    requires
        asset_path_chars(root, rel1) == asset_path_chars(root, rel2),
    ensures
        rel1 == rel2,
{
    let a1 = asset_path_chars(root, rel1);
    let a2 = asset_path_chars(root, rel2);
    assert(a1.len() == root.len() + 8 + rel1.len());
    assert(a2.len() == root.len() + 8 + rel2.len());
    assert(rel1.len() == rel2.len());
    assert forall|i: int| 0 <= i < rel1.len() implies rel1[i] == rel2[i] by {
        assert(a1[root.len() + 8 + i] == rel1[i]);
        assert(a2[root.len() + 8 + i] == rel2[i]);
    }
    assert(rel1 =~= rel2);
}

} // verus!
