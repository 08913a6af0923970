use vstd::prelude::*;

verus! {

/// A filesystem path, held as the sequence of its components.
///
/// Two paths are the same path exactly when they have the same components,
/// so `dir` and `dir/` do not differ. A path with no component is the empty
/// relative path. The root directory is the single component `/`.
#[derive(Debug, PartialEq, Eq)]
pub struct FsPath {
    pub parts: Vec<String>,
}

/// The mathematical value of a path: its components, each a sequence of
/// characters.
pub type PathView = Seq<Seq<char>>;

impl View for FsPath {
    type V = PathView;

    open spec fn view(&self) -> PathView {
        Seq::new(self.parts@.len(), |i: int| self.parts@[i]@)
    }
}

/// The values of a list of paths, in order.
pub open spec fn path_views(paths: Seq<FsPath>) -> Seq<PathView> {
    paths.map_values(|p: FsPath| p@)
}

/// `inner` lies strictly below `outer`: `outer` is a proper prefix of it.
pub open spec fn is_inside(inner: PathView, outer: PathView) -> bool {
    outer.len() < inner.len() && outer.is_prefix_of(inner)
}

/// A component that names an entry of a directory, as opposed to the root,
/// the current directory or the parent directory.
pub open spec fn is_entry_name(part: Seq<char>) -> bool {
    part != seq!['/'] && part != seq!['.'] && part != seq!['.', '.']
}

/// The final component of a path, where it names an entry.
pub open spec fn spec_file_name(path: PathView) -> Option<Seq<char>> {
    if path.len() > 0 && is_entry_name(path.last()) {
        Some(path.last())
    } else {
        None
    }
}

/// Appending the same base in front keeps and reflects containment.
pub proof fn lemma_join_inside(base: PathView, a: PathView, b: PathView)
    ensures
        is_inside(base + a, base + b) <==> is_inside(a, b),
{
    if is_inside(a, b) {
        assert((base + b) =~= (base + a).subrange(0, (base + b).len() as int));
    }
    if is_inside(base + a, base + b) {
        let whole = (base + a).subrange(0, (base + b).len() as int);
        assert(whole == base + b);
        assert forall|i: int| 0 <= i < b.len() implies b[i] == a[i] by {
            assert((base + b)[base.len() + i] == b[i]);
            assert(whole[base.len() + i] == (base + a)[base.len() + i]);
        }
        assert(b =~= a.subrange(0, b.len() as int));
    }
}

/// Where neither of two bases lies strictly below the other, a path below
/// the one lies inside a path below the other only if the bases are the same
/// path.
pub proof fn lemma_join_inside_apart(
    base: PathView,
    a: PathView,
    other: PathView,
    b: PathView,
)
    requires
        !is_inside(base, other),
        !is_inside(other, base),
        is_inside(base + a, other + b),
    ensures
        base == other,
        is_inside(a, b),
{
    let whole = (base + a).subrange(0, (other + b).len() as int);
    assert(whole == other + b);
    if other.len() <= base.len() {
        assert forall|i: int| 0 <= i < other.len() implies other[i] == base[i] by {
            assert((other + b)[i] == other[i]);
            assert(whole[i] == (base + a)[i]);
        }
        assert(other =~= base.subrange(0, other.len() as int));
    } else {
        assert forall|i: int| 0 <= i < base.len() implies base[i] == other[i] by {
            assert((other + b)[i] == other[i]);
            assert(whole[i] == (base + a)[i]);
        }
        assert(base =~= other.subrange(0, base.len() as int));
    }
    assert(base =~= other);
    lemma_join_inside(base, a, b);
}

impl Clone for FsPath {
    fn clone(&self) -> (copy: FsPath)
        ensures
            copy@ == self@,
    {
        let mut parts: Vec<String> = Vec::new();
        let mut i: usize = 0;
        while i < self.parts.len()
            invariant
                i <= self.parts.len(),
                parts@.len() == i,
                forall|k: int| 0 <= k < i ==> parts@[k]@ == self.parts@[k]@,
            decreases self.parts.len() - i,
        {
            parts.push(self.parts[i].clone());
            i += 1;
        }
        let copy = FsPath { parts };
        assert(copy@ =~= self@);
        copy
    }
}

impl FsPath {
    /// The path with the given components.
    pub fn new(parts: Vec<String>) -> (path: FsPath)
        ensures
            path.parts == parts,
    {
        FsPath { parts }
    }

    /// The number of components.
    pub fn len(&self) -> (n: usize)
        ensures
            n == self@.len(),
    {
        self.parts.len()
    }

    /// Whether both paths have the same components.
    pub fn equals(&self, other: &FsPath) -> (same: bool)
        ensures
            same == (self@ == other@),
    {
        if self.parts.len() != other.parts.len() {
            assert(self@.len() != other@.len());
            return false;
        }
        let mut i: usize = 0;
        while i < self.parts.len()
            invariant
                i <= self.parts.len(),
                self.parts.len() == other.parts.len(),
                forall|k: int| 0 <= k < i ==> self.parts@[k]@ == other.parts@[k]@,
            decreases self.parts.len() - i,
        {
            if self.parts[i] != other.parts[i] {
                assert(self@[i as int] != other@[i as int]);
                return false;
            }
            i += 1;
        }
        assert(self@ =~= other@);
        true
    }

    /// Whether `base` is this path or one of its ancestors.
    pub fn starts_with(&self, base: &FsPath) -> (yes: bool)
        ensures
            yes == base@.is_prefix_of(self@),
    {
        if base.parts.len() > self.parts.len() {
            return false;
        }
        let mut i: usize = 0;
        while i < base.parts.len()
            invariant
                i <= base.parts.len(),
                base.parts.len() <= self.parts.len(),
                forall|k: int| 0 <= k < i ==> self.parts@[k]@ == base.parts@[k]@,
            decreases base.parts.len() - i,
        {
            if self.parts[i] != base.parts[i] {
                assert(self@.subrange(0, base@.len() as int)[i as int] != base@[i as int]);
                return false;
            }
            i += 1;
        }
        assert(base@ =~= self@.subrange(0, base@.len() as int));
        true
    }

    /// Whether this path lies strictly below `outer`.
    pub fn is_inside(&self, outer: &FsPath) -> (yes: bool)
        ensures
            yes == self::is_inside(self@, outer@),
    {
        outer.parts.len() < self.parts.len() && self.starts_with(outer)
    }

    /// This path followed by the components of `rel`.
    pub fn join(&self, rel: &FsPath) -> (joined: FsPath)
        ensures
            joined@ == self@ + rel@,
    {
        let mut parts: Vec<String> = Vec::new();
        let mut i: usize = 0;
        while i < self.parts.len()
            invariant
                i <= self.parts.len(),
                parts@.len() == i,
                forall|k: int| 0 <= k < i ==> parts@[k]@ == self.parts@[k]@,
            decreases self.parts.len() - i,
        {
            parts.push(self.parts[i].clone());
            i += 1;
        }
        let mut j: usize = 0;
        while j < rel.parts.len()
            invariant
                j <= rel.parts.len(),
                parts@.len() == self.parts.len() + j,
                forall|k: int| 0 <= k < self.parts.len() ==> parts@[k]@ == self.parts@[k]@,
                forall|k: int| 0 <= k < j ==> parts@[self.parts.len() + k]@ == rel.parts@[k]@,
            decreases rel.parts.len() - j,
        {
            parts.push(rel.parts[j].clone());
            j += 1;
        }
        let joined = FsPath { parts };
        assert(joined@ =~= self@ + rel@);
        joined
    }

    /// This path followed by one more component.
    pub fn join_name(&self, name: &String) -> (joined: FsPath)
        ensures
            joined@ == self@.push(name@),
    {
        let mut copy = self.clone();
        copy.parts.push(name.clone());
        assert(copy@ =~= self@.push(name@));
        copy
    }

    /// What is left of this path below `base`, where `base` is this path or
    /// one of its ancestors.
    pub fn strip_prefix(&self, base: &FsPath) -> (rest: Option<FsPath>)
        ensures
            rest is Some <==> base@.is_prefix_of(self@),
            rest matches Some(r) ==> r@ == self@.skip(base@.len() as int),
    {
        if !self.starts_with(base) {
            return None;
        }
        let mut parts: Vec<String> = Vec::new();
        let mut i: usize = base.parts.len();
        while i < self.parts.len()
            invariant
                base.parts.len() <= i <= self.parts.len(),
                parts@.len() == i - base.parts.len(),
                forall|k: int|
                    0 <= k < parts@.len() ==> parts@[k]@ == self.parts@[base.parts.len() + k]@,
            decreases self.parts.len() - i,
        {
            parts.push(self.parts[i].clone());
            i += 1;
        }
        let rest = FsPath { parts };
        assert(rest@ =~= self@.skip(base@.len() as int));
        Some(rest)
    }

    /// The final component, unless the path is empty or ends in the root,
    /// the current directory or the parent directory.
    pub fn file_name(&self) -> (name: Option<String>)
        ensures
            name is Some <==> spec_file_name(self@) is Some,
            name matches Some(n) ==> Some(n@) == spec_file_name(self@),
    {
        let n = self.parts.len();
        if n == 0 {
            return None;
        }
        let last = &self.parts[n - 1];
        assert(last@ == self@.last());
        proof {
            reveal_strlit("/");
            reveal_strlit(".");
            reveal_strlit("..");
            assert("/"@ =~= seq!['/']);
            assert("."@ =~= seq!['.']);
            assert(".."@ =~= seq!['.', '.']);
        }
        let root = "/".to_owned();
        let here = ".".to_owned();
        let up = "..".to_owned();
        if *last == root || *last == here || *last == up {
            None
        } else {
            Some(last.clone())
        }
    }
}

} // verus!
