use crate::path::{is_inside, FsPath, PathView};
use crate::planner::action::FsObjectKind;
use vstd::prelude::*;

verus! {

/// One entry met while walking a directory tree: where it lies below the
/// root of the walk, and what it is. The root itself has the empty path.
#[derive(Debug, PartialEq, Eq)]
pub struct WalkEntry {
    pub rel: FsPath,
    pub kind: FsObjectKind,
}

/// The mathematical value of a [`WalkEntry`].
pub struct WalkEntryView {
    pub rel: PathView,
    pub kind: FsObjectKind,
}

impl View for WalkEntry {
    type V = WalkEntryView;

    open spec fn view(&self) -> WalkEntryView {
        WalkEntryView { rel: self.rel@, kind: self.kind }
    }
}

/// The values of a list of walk entries, in order.
pub open spec fn walk_views(walk: Seq<WalkEntry>) -> Seq<WalkEntryView> {
    walk.map_values(|e: WalkEntry| e@)
}

/// How many entries of the walk are of the given kind.
pub open spec fn count_kind(walk: Seq<WalkEntryView>, kind: FsObjectKind) -> nat
    decreases walk.len(),
{
    if walk.len() == 0 {
        0
    } else {
        count_kind(walk.drop_last(), kind) + if walk.last().kind == kind {
            1nat
        } else {
            0nat
        }
    }
}

/// Every directory of the walk comes before what lies inside it.
pub open spec fn is_preorder(walk: Seq<WalkEntryView>) -> bool {
    forall|i: int, j: int|
        0 <= i < walk.len() && 0 <= j < walk.len() && is_inside(
            #[trigger] walk[j].rel,
            #[trigger] walk[i].rel,
        ) ==> i < j
}

/// Every directory of the walk comes after what lies inside it.
pub open spec fn is_contents_first(walk: Seq<WalkEntryView>) -> bool {
    forall|i: int, j: int|
        0 <= i < walk.len() && 0 <= j < walk.len() && is_inside(
            #[trigger] walk[j].rel,
            #[trigger] walk[i].rel,
        ) ==> j < i
}

/// What was observed of one path.
#[derive(Debug, PartialEq, Eq)]
pub struct PathProbe {
    pub path: FsPath,
    /// The path leads to something.
    pub exists: bool,
    /// The path leads to a directory.
    pub is_dir: bool,
    /// The kind of the entry itself, or `None` where its metadata could not
    /// be read.
    pub metadata: Option<FsObjectKind>,
    /// Whether reading the directory gave at least one entry, or `None`
    /// where it could not be read.
    pub has_entries: Option<bool>,
    /// The tree below the path, each directory before its contents.
    pub walk: Vec<WalkEntry>,
    /// The tree below the path, each directory after its contents.
    pub walk_contents_first: Vec<WalkEntry>,
}

/// The mathematical value of a [`PathProbe`].
pub struct PathProbeView {
    pub path: PathView,
    pub exists: bool,
    pub is_dir: bool,
    pub metadata: Option<FsObjectKind>,
    pub has_entries: Option<bool>,
    pub walk: Seq<WalkEntryView>,
    pub walk_contents_first: Seq<WalkEntryView>,
}

impl View for PathProbe {
    type V = PathProbeView;

    open spec fn view(&self) -> PathProbeView {
        PathProbeView {
            path: self.path@,
            exists: self.exists,
            is_dir: self.is_dir,
            metadata: self.metadata,
            has_entries: self.has_entries,
            walk: walk_views(self.walk@),
            walk_contents_first: walk_views(self.walk_contents_first@),
        }
    }
}

impl PathProbeView {
    /// What is assumed of a path that was not observed: nothing is there.
    pub open spec fn missing(path: PathView) -> PathProbeView {
        PathProbeView {
            path,
            exists: false,
            is_dir: false,
            metadata: None,
            has_entries: None,
            walk: Seq::empty(),
            walk_contents_first: Seq::empty(),
        }
    }
}

/// The state of the filesystem as observed at one moment: one probe for each
/// path that was looked at.
#[derive(Debug, PartialEq, Eq)]
pub struct FsSnapshot {
    pub probes: Vec<PathProbe>,
}

/// The mathematical value of an [`FsSnapshot`].
pub struct SnapshotView {
    pub probes: Seq<PathProbeView>,
}

impl View for FsSnapshot {
    type V = SnapshotView;

    open spec fn view(&self) -> SnapshotView {
        SnapshotView { probes: self.probes@.map_values(|p: PathProbe| p@) }
    }
}

impl SnapshotView {
    /// The index of the first probe of `path` at or after `start`.
    pub open spec fn find_from(self, path: PathView, start: int) -> Option<int>
        decreases self.probes.len() - start,
    {
        if start < 0 || start >= self.probes.len() {
            None
        } else if self.probes[start].path == path {
            Some(start)
        } else {
            self.find_from(path, start + 1)
        }
    }

    /// The index of the first probe of `path`.
    pub open spec fn find(self, path: PathView) -> Option<int> {
        self.find_from(path, 0)
    }

    /// What was observed of `path`: its first probe, or that nothing is
    /// there where it was not probed.
    pub open spec fn probe(self, path: PathView) -> PathProbeView {
        match self.find(path) {
            Some(i) => self.probes[i],
            None => PathProbeView::missing(path),
        }
    }

    /// Entry `j` of the walk of probe `i` is `path`.
    pub open spec fn listed_at(self, i: int, j: int, path: PathView) -> bool {
        &&& 0 <= i < self.probes.len()
        &&& 0 <= j < self.probes[i].walk.len()
        &&& self.probes[i].path + self.probes[i].walk[j].rel == path
    }

    /// Some walk met `path`.
    pub open spec fn listed(self, path: PathView) -> bool {
        exists|i: int, j: int| self.listed_at(i, j, path)
    }

    /// Whether something is at `path`: what its own probe says, or, where it
    /// has none, whether a walk met it.
    pub open spec fn is_present(self, path: PathView) -> bool {
        match self.find(path) {
            Some(i) => self.probes[i].exists,
            None => self.listed(path),
        }
    }
}

/// Whether the walk lists every directory before what lies inside it, where
/// `parents_first` is set, and after what lies inside it, where it is not.
/// Every pair of entries is looked at.
fn walk_in_order(walk: &Vec<WalkEntry>, parents_first: bool) -> (ok: bool)
    ensures
        ok == if parents_first {
            is_preorder(walk_views(walk@))
        } else {
            is_contents_first(walk_views(walk@))
        },
{
    let ghost entries = walk_views(walk@);
    let mut i: usize = 0;
    while i < walk.len()
        invariant
            i <= walk.len(),
            entries == walk_views(walk@),
            forall|a: int, b: int|
                0 <= a < i && 0 <= b < entries.len() && is_inside(
                    #[trigger] entries[b].rel,
                    #[trigger] entries[a].rel,
                ) ==> if parents_first {
                    a < b
                } else {
                    b < a
                },
        decreases walk.len() - i,
    {
        let mut j: usize = 0;
        while j < walk.len()
            invariant
                i < walk.len(),
                j <= walk.len(),
                entries == walk_views(walk@),
                forall|b: int|
                    0 <= b < j && is_inside(
                        (#[trigger] entries[b]).rel,
                        entries[i as int].rel,
                    ) ==> if parents_first {
                        i < b
                    } else {
                        b < i
                    },
            decreases walk.len() - j,
        {
            assert(entries[i as int] == walk@[i as int]@);
            assert(entries[j as int] == walk@[j as int]@);
            let in_order = if parents_first {
                i < j
            } else {
                j < i
            };
            if !in_order && walk[j].rel.is_inside(&walk[i].rel) {
                assert(is_inside(entries[j as int].rel, entries[i as int].rel));
                return false;
            }
            j += 1;
        }
        i += 1;
    }
    true
}

/// Whether the walk lists every directory before what lies inside it. Every
/// pair of entries is looked at.
pub fn lists_parents_first(walk: &Vec<WalkEntry>) -> (ok: bool)
    ensures
        ok == is_preorder(walk_views(walk@)),
{
    walk_in_order(walk, true)
}

/// Whether the walk lists every directory after what lies inside it. Every
/// pair of entries is looked at.
pub fn lists_contents_first(walk: &Vec<WalkEntry>) -> (ok: bool)
    ensures
        ok == is_contents_first(walk_views(walk@)),
{
    walk_in_order(walk, false)
}

impl PathProbe {
    /// The probe of a path at which nothing is.
    pub fn missing(path: FsPath) -> (probe: PathProbe)
        ensures
            probe@ == PathProbeView::missing(path@),
    {
        let probe = PathProbe {
            path,
            exists: false,
            is_dir: false,
            metadata: None,
            has_entries: None,
            walk: Vec::new(),
            walk_contents_first: Vec::new(),
        };
        assert(probe@.walk =~= Seq::empty());
        assert(probe@.walk_contents_first =~= Seq::empty());
        probe
    }
}

impl FsSnapshot {
    /// A snapshot without probes.
    pub fn new() -> (fs: FsSnapshot)
        ensures
            fs@.probes == Seq::<PathProbeView>::empty(),
    {
        let fs = FsSnapshot { probes: Vec::new() };
        assert(fs@.probes =~= Seq::empty());
        fs
    }

    /// Adds a probe after those already held.
    pub fn record(&mut self, probe: PathProbe)
        ensures
            final(self)@.probes == old(self)@.probes.push(probe@),
    {
        self.probes.push(probe);
        assert(self@.probes =~= old(self)@.probes.push(probe@));
    }

    /// The index of the first probe of `path`.
    pub fn find(&self, path: &FsPath) -> (found: Option<usize>)
        ensures
            found is Some <==> self@.find(path@) is Some,
            found matches Some(i) ==> self@.find(path@) == Some(i as int) && i < self.probes.len(),
    {
        let mut i: usize = 0;
        while i < self.probes.len()
            invariant
                i <= self.probes.len(),
                self@.find(path@) == self@.find_from(path@, i as int),
            decreases self.probes.len() - i,
        {
            assert(self@.probes[i as int] == self.probes@[i as int]@);
            if self.probes[i].path.equals(path) {
                return Some(i);
            }
            i += 1;
        }
        None
    }

    /// What was observed of `path`, where it was probed.
    pub fn probe(&self, path: &FsPath) -> (found: Option<&PathProbe>)
        ensures
            found is Some <==> self@.find(path@) is Some,
            found matches Some(p) ==> p@ == self@.probe(path@),
            found is None ==> self@.probe(path@) == PathProbeView::missing(path@),
    {
        match self.find(path) {
            Some(i) => {
                assert(self@.probes[i as int] == self.probes@[i as int]@);
                Some(&self.probes[i])
            },
            None => None,
        }
    }

    /// Whether something is at `path`.
    pub fn is_present(&self, path: &FsPath) -> (yes: bool)
        ensures
            yes == self@.is_present(path@),
    {
        match self.find(path) {
            Some(i) => {
                assert(self@.probes[i as int] == self.probes@[i as int]@);
                self.probes[i].exists
            },
            None => self.listed(path),
        }
    }

    /// Whether some walk met `path`.
    pub fn listed(&self, path: &FsPath) -> (yes: bool)
        ensures
            yes == self@.listed(path@),
    {
        let mut i: usize = 0;
        while i < self.probes.len()
            invariant
                i <= self.probes.len(),
                forall|a: int, b: int| 0 <= a < i ==> !self@.listed_at(a, b, path@),
            decreases self.probes.len() - i,
        {
            let probe = &self.probes[i];
            assert(self@.probes[i as int] == probe@);
            match path.strip_prefix(&probe.path) {
                Some(rest) => {
                    let mut j: usize = 0;
                    while j < probe.walk.len()
                        invariant
                            j <= probe.walk.len(),
                            i < self.probes.len(),
                            self@.probes[i as int] == probe@,
                            probe.path@.is_prefix_of(path@),
                            rest@ == path@.skip(probe.path@.len() as int),
                            forall|b: int| 0 <= b < j ==> !self@.listed_at(i as int, b, path@),
                        decreases probe.walk.len() - j,
                    {
                        assert(probe@.walk[j as int] == probe.walk@[j as int]@);
                        if probe.walk[j].rel.equals(&rest) {
                            assert(probe.path@ + rest@ =~= path@);
                            assert(self@.listed_at(i as int, j as int, path@));
                            return true;
                        }
                        assert(!self@.listed_at(i as int, j as int, path@)) by {
                            if self@.listed_at(i as int, j as int, path@) {
                                assert((probe.path@ + probe@.walk[j as int].rel).skip(
                                    probe.path@.len() as int,
                                ) =~= probe@.walk[j as int].rel);
                            }
                        }
                        j += 1;
                    }
                },
                None => {
                    assert forall|b: int| !self@.listed_at(i as int, b, path@) by {
                        if self@.listed_at(i as int, b, path@) {
                            assert(probe.path@ =~= path@.subrange(0, probe.path@.len() as int));
                        }
                    }
                },
            }
            i += 1;
        }
        false
    }
}

} // verus!
