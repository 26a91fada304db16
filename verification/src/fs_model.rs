//! An injected filesystem abstraction for the sync engine: an in-memory
//! filesystem with an optional budget of file writes that will still
//! succeed, so that a sync interrupted partway can be exercised and its
//! guarantees proved. The ghost snapshot `FsSnap` is the mathematical
//! state; `MemFs` is its executable counterpart.

use vstd::prelude::*;
use vstd::string::*;

verus! {

/// A snapshot of the model filesystem: file contents by path, the set of
/// directories that exist, how many file writes have succeeded, and an
/// optional budget of file writes that will still succeed (`None` means
/// writes never fail).
#[verifier::ext_equal]
pub ghost struct FsSnap {
    pub files: Map<Seq<char>, Seq<char>>,
    pub dirs: Set<Seq<char>>,
    pub writes: nat,
    pub budget: Option<nat>,
}

impl FsSnap {
    /// Whether the next file write succeeds.
    pub open spec fn can_write(self) -> bool {
        self.budget matches Some(b) ==> b > 0
    }

    /// The snapshot after a successful file write.
    pub open spec fn after_write(self, path: Seq<char>, content: Seq<char>) -> FsSnap {
        FsSnap {
            files: self.files.insert(path, content),
            dirs: self.dirs,
            writes: self.writes + 1,
            budget: match self.budget {
                None => None,
                Some(b) => Some((b - 1) as nat),
            },
        }
    }

    /// The snapshot after a directory is created (creating an existing
    /// directory changes nothing and never fails).
    pub open spec fn after_mkdir(self, path: Seq<char>) -> FsSnap {
        FsSnap { dirs: self.dirs.insert(path), ..self }
    }
}

/// The empty filesystem with unlimited writes.
pub open spec fn fs_init() -> FsSnap {
    FsSnap { files: Map::empty(), dirs: Set::empty(), writes: 0, budget: None }
}

/// The file contents recorded by an association list, later pairs winning.
pub open spec fn files_map(s: Seq<(String, String)>) -> Map<Seq<char>, Seq<char>>
    decreases s.len(),
{
    if s.len() == 0 {
        Map::empty()
    } else {
        files_map(s.drop_last()).insert(s.last().0@, s.last().1@)
    }
}

/// The set of directories recorded by a list of paths.
pub open spec fn dirs_set(s: Seq<String>) -> Set<Seq<char>>
    decreases s.len(),
{
    if s.len() == 0 {
        Set::empty()
    } else {
        dirs_set(s.drop_last()).insert(s.last()@)
    }
}

/// Looking a path up ignores trailing pairs whose key differs from it.
proof fn lemma_files_map_agree(s: Seq<(String, String)>, i: int, p: Seq<char>)
    requires
        0 <= i <= s.len(),
        forall|j: int| i <= j < s.len() ==> (#[trigger] s[j]).0@ != p,
    ensures
        files_map(s).contains_key(p) == files_map(s.take(i)).contains_key(p),
        files_map(s).contains_key(p) ==> files_map(s)[p] == files_map(s.take(i))[p],
    decreases s.len() - i,
{
    if i == s.len() {
        assert(s.take(i) =~= s);
    } else {
        let s1 = s.drop_last();
        assert(s[s.len() - 1].0@ != p);
        assert(forall|j: int| i <= j < s1.len() ==> (#[trigger] s1[j]).0@ != p);
        lemma_files_map_agree(s1, i, p);
        assert(s1.take(i) =~= s.take(i));
    }
}

/// A path list records a directory exactly when some element is it.
proof fn lemma_dirs_set_contains(s: Seq<String>, p: Seq<char>)
    ensures
        dirs_set(s).contains(p) == (exists|j: int|
            0 <= j < s.len() && (#[trigger] s[j])@ == p),
    decreases s.len(),
{
    if s.len() == 0 {
    } else {
        let s1 = s.drop_last();
        lemma_dirs_set_contains(s1, p);
        if s.last()@ == p {
            assert(s[s.len() - 1]@ == p);
        } else if exists|j: int| 0 <= j < s1.len() && (#[trigger] s1[j])@ == p {
            let j = choose|j: int| 0 <= j < s1.len() && (#[trigger] s1[j])@ == p;
            assert(s[j]@ == p);
        } else {
            assert forall|j: int| 0 <= j < s.len() implies (#[trigger] s[j])@ != p by {
                if j < s.len() - 1 {
                    assert(s1[j] == s[j]);
                }
            }
        }
    }
}

/// An in-memory filesystem with injectable write failures.
pub struct MemFs {
    files: Vec<(String, String)>,
    dirs: Vec<String>,
    budget: Option<usize>,
    writes: Ghost<nat>,
}

impl View for MemFs {
    type V = FsSnap;

    closed spec fn view(&self) -> FsSnap {
        FsSnap {
            files: files_map(self.files@),
            dirs: dirs_set(self.dirs@),
            writes: self.writes@,
            budget: match self.budget {
                None => None,
                Some(b) => Some(b as nat),
            },
        }
    }
}

impl MemFs {
    /// An empty filesystem whose writes always succeed.
    pub fn new() -> (r: MemFs)
        ensures
            r@ == fs_init(),
    {
        let r = MemFs {
            files: Vec::new(),
            dirs: Vec::new(),
            budget: None,
            writes: Ghost(0),
        };
        proof {
            assert(r@ =~= fs_init());
        }
        r
    }

    /// An empty filesystem on which only the next `b` file writes succeed.
    pub fn with_write_budget(b: usize) -> (r: MemFs)
        ensures
            r@ == (FsSnap { budget: Some(b as nat), ..fs_init() }),
    {
        let r = MemFs {
            files: Vec::new(),
            dirs: Vec::new(),
            budget: Some(b),
            writes: Ghost(0),
        };
        proof {
            assert(r@ =~= (FsSnap { budget: Some(b as nat), ..fs_init() }));
        }
        r
    }

    /// Allows only the next `b` file writes to succeed.
    pub fn set_write_budget(&mut self, b: usize)
        ensures
            final(self)@ == (FsSnap { budget: Some(b as nat), ..old(self)@ }),
    {
        self.budget = Some(b);
        proof {
            assert(self@ =~= (FsSnap { budget: Some(b as nat), ..old(self)@ }));
        }
    }

    /// Lets every later file write succeed again.
    pub fn clear_write_budget(&mut self)
        ensures
            final(self)@ == (FsSnap { budget: None, ..old(self)@ }),
    {
        self.budget = None;
        proof {
            assert(self@ =~= (FsSnap { budget: None, ..old(self)@ }));
        }
    }

    /// Reads a file's content, or `None` when no file exists at `path`.
    pub fn read_file(&self, path: &String) -> (r: Option<String>)
        ensures
            match r {
                Some(c) => self@.files.contains_key(path@) && c@ == self@.files[path@],
                None => !self@.files.contains_key(path@),
            },
    {
        let n = self.files.len();
        let mut i: usize = n;
        while i > 0
            invariant
                i <= n,
                n == self.files@.len(),
                forall|j: int| i <= j < n ==> (#[trigger] self.files@[j]).0@ != path@,
            decreases i,
        {
            i = i - 1;
            if self.files[i].0 == *path {
                proof {
                    lemma_files_map_agree(self.files@, i + 1, path@);
                    let t = self.files@.take(i as int + 1);
                    assert(t.drop_last() =~= self.files@.take(i as int));
                    assert(t.last() == self.files@[i as int]);
                }
                return Some(self.files[i].1.clone());
            }
        }
        proof {
            lemma_files_map_agree(self.files@, 0, path@);
            assert(self.files@.take(0) =~= Seq::<(String, String)>::empty());
        }
        None
    }

    /// Attempts to write `content` at `path`, overwriting any existing
    /// file; fails exactly when the write budget is exhausted, leaving the
    /// filesystem unchanged.
    pub fn write_file(&mut self, path: &String, content: &String) -> (ok: bool)
        ensures
            ok == old(self)@.can_write(),
            ok ==> final(self)@ == old(self)@.after_write(path@, content@),
            !ok ==> final(self)@ == old(self)@,
    {
        match self.budget {
            Some(b) => {
                if b == 0 {
                    return false;
                }
                self.budget = Some(b - 1);
            },
            None => {},
        }
        self.files.push((path.clone(), content.clone()));
        proof {
            self.writes@ = self.writes@ + 1;
        }
        proof {
            assert(self.files@.drop_last() =~= old(self).files@);
            assert(self@ =~= old(self)@.after_write(path@, content@));
        }
        true
    }

    /// Creates a directory (and, in the model, whatever lies above it);
    /// never fails, and changes nothing when the directory exists.
    pub fn make_dir(&mut self, path: &String)
        ensures
            final(self)@ == old(self)@.after_mkdir(path@),
    {
        self.dirs.push(path.clone());
        proof {
            assert(self.dirs@.drop_last() =~= old(self).dirs@);
            assert(self@ =~= old(self)@.after_mkdir(path@));
        }
    }

    /// Whether a directory exists at `path`.
    pub fn has_dir(&self, path: &String) -> (r: bool)
        ensures
            r == self@.dirs.contains(path@),
    {
        let n = self.dirs.len();
        let mut i: usize = 0;
        while i < n
            invariant
                i <= n,
                n == self.dirs@.len(),
                forall|j: int| 0 <= j < i ==> (#[trigger] self.dirs@[j])@ != path@,
            decreases n - i,
        {
            if self.dirs[i] == *path {
                proof {
                    lemma_dirs_set_contains(self.dirs@, path@);
                    assert(self.dirs@[i as int]@ == path@);
                }
                return true;
            }
            i = i + 1;
        }
        proof {
            lemma_dirs_set_contains(self.dirs@, path@);
        }
        false
    }
}

} // verus!
