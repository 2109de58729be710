//! A filesystem-free model of paths. A path is an absolute or relative list
//! of components; `.` and `..` are resolved without touching the filesystem,
//! so safety decisions about patches work even for files that do not exist.

use vstd::prelude::*;

verus! {

/// Mathematical image of a path: its absoluteness and its components.
pub struct PathV {
    pub absolute: bool,
    pub parts: Seq<Seq<char>>,
}

/// A path, held as plain components so that the safety rules over it can be
/// stated and proved. Front ends convert between this and their native paths.
#[derive(Debug)]
pub struct FsPath {
    pub absolute: bool,
    pub parts: Vec<String>,
}

impl View for FsPath {
    type V = PathV;

    open spec fn view(&self) -> PathV {
        PathV { absolute: self.absolute, parts: self.parts.deep_view() }
    }
}

impl DeepView for FsPath {
    type V = PathV;

    open spec fn deep_view(&self) -> PathV {
        self.view()
    }
}

impl Clone for FsPath {
    fn clone(&self) -> (r: Self)
        ensures
            r@ == self@,
    {
        FsPath { absolute: self.absolute, parts: clone_strings(&self.parts) }
    }
}

/// Clones a vector of strings, keeping its contents.
pub fn clone_strings(v: &Vec<String>) -> (r: Vec<String>)
    ensures
        r@ == v@,
        r.deep_view() == v.deep_view(),
{
    let mut r: Vec<String> = Vec::new();
    let mut i: usize = 0;
    while i < v.len()
        invariant
            i <= v.len(),
            r@ =~= v@.take(i as int),
        decreases v.len() - i,
    {
        r.push(v[i].clone());
        proof {
            assert(r@ =~= v@.take(i + 1 as int));
        }
        i = i + 1;
    }
    proof {
        assert(r@ =~= v@);
    }
    r
}

/// Resolution of `.` and `..` over a component list: `.` is dropped and `..`
/// removes the preceding component, if any.
pub open spec fn spec_normalize_parts(parts: Seq<Seq<char>>) -> Seq<Seq<char>>
    decreases parts.len(),
{
    if parts.len() == 0 {
        Seq::empty()
    } else {
        let prev = spec_normalize_parts(parts.drop_last());
        let last = parts.last();
        if last == ".."@ {
            if prev.len() > 0 {
                prev.drop_last()
            } else {
                prev
            }
        } else if last == "."@ {
            prev
        } else {
            prev.push(last)
        }
    }
}

/// The normal form of a path: components resolved, absoluteness kept.
pub open spec fn spec_normalize(p: PathV) -> PathV {
    PathV { absolute: p.absolute, parts: spec_normalize_parts(p.parts) }
}

/// A path interpreted relative to `cwd` unless it is already absolute.
pub open spec fn spec_join(cwd: PathV, p: PathV) -> PathV {
    if p.absolute {
        p
    } else {
        PathV { absolute: cwd.absolute, parts: cwd.parts + p.parts }
    }
}

/// Component-wise prefix: `pre` names a directory that contains `all`.
pub open spec fn spec_path_prefix(pre: PathV, all: PathV) -> bool {
    &&& pre.absolute == all.absolute
    &&& pre.parts.len() <= all.parts.len()
    &&& pre.parts == all.parts.take(pre.parts.len() as int)
}

impl FsPath {
    /// Builds a path from its components.
    pub fn new(absolute: bool, parts: Vec<String>) -> (r: Self)
        ensures
            r@ == (PathV { absolute, parts: parts.deep_view() }),
    {
        FsPath { absolute, parts }
    }

    pub fn is_absolute(&self) -> (r: bool)
        ensures
            r == self@.absolute,
    {
        self.absolute
    }

    /// Resolves `.` and `..` components without filesystem access; `..` at
    /// the front of a path is dropped.
    pub fn normalize(&self) -> (r: FsPath)
        ensures
            r@ == spec_normalize(self@),
    {
        let dot: String = String::from_str(".");
        let dotdot: String = String::from_str("..");
        let mut out: Vec<String> = Vec::new();
        let mut i: usize = 0;
        while i < self.parts.len()
            invariant
                i <= self.parts.len(),
                dot@ == "."@,
                dotdot@ == ".."@,
                out.deep_view() == spec_normalize_parts(self.parts.deep_view().take(i as int)),
            decreases self.parts.len() - i,
        {
            let ghost prefix_next = self.parts.deep_view().take(i + 1 as int);
            let ghost prev = out.deep_view();
            proof {
                assert(prefix_next.drop_last() =~= self.parts.deep_view().take(i as int));
                assert(prefix_next.last() == self.parts@[i as int]@);
            }
            let part = &self.parts[i];
            if *part == dotdot {
                let popped = out.pop();
                proof {
                    if prev.len() > 0 {
                        assert forall|j: int| 0 <= j < out@.len() implies out.deep_view()[j]
                            == prev.drop_last()[j] by {}
                        assert(out.deep_view() =~= prev.drop_last());
                    } else {
                        assert(out.deep_view() =~= prev);
                    }
                }
            } else if *part == dot {
            } else {
                out.push(part.clone());
                proof {
                    assert forall|j: int| 0 <= j < out@.len() implies out.deep_view()[j]
                        == prev.push(prefix_next.last())[j] by {}
                    assert(out.deep_view() =~= prev.push(prefix_next.last()));
                }
            }
            proof {
                assert(out.deep_view() == spec_normalize_parts(prefix_next));
            }
            i = i + 1;
        }
        proof {
            assert(self.parts.deep_view().take(self.parts.len() as int) =~= self.parts.deep_view());
        }
        FsPath { absolute: self.absolute, parts: out }
    }

    /// The path interpreted relative to `cwd` unless it is already absolute.
    pub fn join_under(&self, cwd: &FsPath) -> (r: FsPath)
        ensures
            r@ == spec_join(cwd@, self@),
    {
        if self.absolute {
            self.clone()
        } else {
            let mut parts = clone_strings(&cwd.parts);
            let mut i: usize = 0;
            while i < self.parts.len()
                invariant
                    i <= self.parts.len(),
                    parts@ =~= cwd.parts@ + self.parts@.take(i as int),
                decreases self.parts.len() - i,
            {
                parts.push(self.parts[i].clone());
                proof {
                    assert(parts@ =~= cwd.parts@ + self.parts@.take(i + 1 as int));
                }
                i = i + 1;
            }
            proof {
                assert(parts@ =~= cwd.parts@ + self.parts@);
                assert forall|j: int| 0 <= j < parts@.len() implies parts.deep_view()[j] == (
                cwd.parts.deep_view() + self.parts.deep_view())[j] by {}
                assert(parts.deep_view() =~= cwd.parts.deep_view() + self.parts.deep_view());
            }
            FsPath { absolute: cwd.absolute, parts }
        }
    }

    /// Whether `prefix` names a directory (or the file itself) containing
    /// this path, compared component by component.
    pub fn starts_with(&self, prefix: &FsPath) -> (r: bool)
        ensures
            r == spec_path_prefix(prefix@, self@),
    {
        if self.absolute != prefix.absolute || prefix.parts.len() > self.parts.len() {
            return false;
        }
        let n = prefix.parts.len();
        let mut i: usize = 0;
        while i < n
            invariant
                i <= n,
                n == prefix.parts@.len() <= self.parts@.len(),
                forall|j: int|
                    0 <= j < i ==> prefix.parts.deep_view()[j] == self.parts.deep_view()[j],
            decreases n - i,
        {
            if !(self.parts[i] == prefix.parts[i]) {
                proof {
                    assert(prefix@.parts[i as int] != self@.parts.take(n as int)[i as int]);
                }
                return false;
            }
            i = i + 1;
        }
        proof {
            assert(prefix@.parts =~= self@.parts.take(n as int));
        }
        true
    }
}

} // verus!
