use vstd::prelude::*;
use std::collections::hash_map::DefaultHasher;
use std::collections::HashMap;
use std::hash::Hasher;
use std::sync::Arc;
use crate::importer::{CountedImporter, Importer};
use vstd::std_specs::hash::DefaultHasherAdditionalSpecFns;
use vstd::string::StringSliceAdditionalSpecFns;

verus! {

broadcast use vstd::std_specs::hash::group_hash_axioms;

/// Identifier of an imported resource, derived from its path.
pub type ResourceId = u64;

/// The import key of a path: the default hasher's digest of the path's bytes.
pub open spec fn spec_import_key(path: Seq<u8>) -> ResourceId {
    DefaultHasher::spec_finish(seq![path])
}

/// Computes the import key of `path`; equal paths always give equal keys.
pub fn import_key(path: &str) -> (r: ResourceId)
    ensures
        r == spec_import_key(path.spec_bytes()),
{
    let mut hasher = DefaultHasher::new();
    hasher.write(path.as_bytes());
    hasher.finish()
}

/// `after` and `r` are the cache and the handle after loading `path` into `before`,
/// with an importer that had run `n0` imports before and `n1` after: a present key
/// hands back the stored handle, changes nothing and imports nothing; a missing one
/// imports once and stores the new resource under the key.
pub open spec fn loaded<T>(
    before: Map<ResourceId, Arc<T>>,
    path: Seq<u8>,
    after: Map<ResourceId, Arc<T>>,
    r: Arc<T>,
    n0: nat,
    n1: nat,
) -> bool {
    let k = spec_import_key(path);
    if before.contains_key(k) {
        &&& r == before[k]
        &&& after == before
        &&& n1 == n0
    } else {
        &&& after == before.insert(k, r)
        &&& n1 == n0 + 1
    }
}

/// Maps import keys to shared, immutable resources; each path is imported at most once
/// while its entry stays in the table.
pub struct ResourceCache<T> {
    table: HashMap<ResourceId, Arc<T>>,
}

impl<T> View for ResourceCache<T> {
    type V = Map<ResourceId, Arc<T>>;

    closed spec fn view(&self) -> Map<ResourceId, Arc<T>> {
        self.table@
    }
}

impl<T> ResourceCache<T> {
    /// An empty cache; `cap` only sizes the table initially.
    pub fn with_capacity(cap: usize) -> (r: Self)
        ensures
            r@ == Map::<ResourceId, Arc<T>>::empty(),
    {
        ResourceCache { table: HashMap::with_capacity(cap) }
    }

    /// A cache over an existing table.
    pub fn new(table: HashMap<ResourceId, Arc<T>>) -> (r: Self)
        ensures
            r@ == table@,
    {
        ResourceCache { table }
    }

    pub fn table(&self) -> (r: &HashMap<ResourceId, Arc<T>>)
        ensures
            r@ == self@,
    {
        &self.table
    }

    /// Drops every entry.
    pub fn clear(&mut self)
        ensures
            final(self)@ == Map::<ResourceId, Arc<T>>::empty(),
    {
        self.table.clear();
    }

    pub fn contains(&self, other: ResourceId) -> (r: bool)
        ensures
            r == self@.contains_key(other),
    {
        self.table.contains_key(&other)
    }

    pub fn get(&self, other: ResourceId) -> (r: Option<&Arc<T>>)
        ensures
            match r {
                Some(v) => self@.contains_key(other) && *v == self@[other],
                None => !self@.contains_key(other),
            },
    {
        self.table.get(&other)
    }

    pub fn insert(&mut self, k: ResourceId, v: Arc<T>)
        ensures
            final(self)@ == old(self)@.insert(k, v),
    {
        self.table.insert(k, v);
    }

    /// Returns the resource of `path`, running `importer` only when the path's key is
    /// not in the table yet; the new resource is then stored under that key.
    pub fn load<I: Importer<T>>(&mut self, importer: &mut CountedImporter<I>, path: &str) -> (r: Arc<T>)
        ensures
            loaded(
                old(self)@,
                path.spec_bytes(),
                final(self)@,
                r,
                old(importer).imports(),
                final(importer).imports(),
            ),
    {
        let id: ResourceId = import_key(path);
        match self.table.get(&id) {
            Some(ptr) => ptr.clone(),
            None => {
                let ptr = Arc::new(importer.import(path));
                self.table.insert(id, ptr.clone());
                ptr
            },
        }
    }
}

impl<T> ResourceCache<T> {
    /// `load` for a path given as a string literal or slice.
    pub fn load_imm<I: Importer<T>>(&mut self, importer: &mut CountedImporter<I>, path: &str) -> (r: Arc<T>)
        ensures
            loaded(
                old(self)@,
                path.spec_bytes(),
                final(self)@,
                r,
                old(importer).imports(),
                final(importer).imports(),
            ),
    {
        self.load(importer, path)
    }
}

/// The caches of the resource kinds that scene code imports.
pub struct ResourceManager<Tex, Mesh> {
    pub texture_cache: ResourceCache<Tex>,
    pub mesh_cache: ResourceCache<Mesh>,
}

impl<Tex, Mesh> ResourceManager<Tex, Mesh> {
    /// Two empty caches, each sized for `capacity` entries.
    pub fn with_capacity(capacity: usize) -> (r: Self)
        ensures
            r.texture_cache@ == Map::<ResourceId, Arc<Tex>>::empty(),
            r.mesh_cache@ == Map::<ResourceId, Arc<Mesh>>::empty(),
    {
        ResourceManager {
            texture_cache: ResourceCache::with_capacity(capacity),
            mesh_cache: ResourceCache::with_capacity(capacity),
        }
    }
}

/// Byte-identical paths have the same import key.
pub proof fn import_key_deterministic(p1: Seq<u8>, p2: Seq<u8>)
    requires
        p1 == p2,
    ensures
        spec_import_key(p1) == spec_import_key(p2),
{
}

/// Loading the same path twice hands back the same shared resource, leaves the table
/// as the first load left it, and imports at most once: exactly once when the path was
/// not cached before.
pub proof fn load_twice_same_handle<T>(
    c0: Map<ResourceId, Arc<T>>,
    c1: Map<ResourceId, Arc<T>>,
    c2: Map<ResourceId, Arc<T>>,
    path: Seq<u8>,
    r1: Arc<T>,
    r2: Arc<T>,
    n0: nat,
    n1: nat,
    n2: nat,
)
    requires
        loaded(c0, path, c1, r1, n0, n1),
        loaded(c1, path, c2, r2, n1, n2),
    ensures
        r2 == r1,
        c2 == c1,
        c1.contains_key(spec_import_key(path)),
        c1[spec_import_key(path)] == r1,
        n2 == n0 + if c0.contains_key(spec_import_key(path)) {
            0nat
        } else {
            1nat
        },
{
}

/// The import keys of a sequence of paths.
pub open spec fn keys_of(paths: Seq<Seq<u8>>) -> Set<ResourceId>
    decreases paths.len(),
{
    if paths.len() == 0 {
        Set::empty()
    } else {
        keys_of(paths.drop_last()).insert(spec_import_key(paths.last()))
    }
}

proof fn lemma_keys_of_finite(paths: Seq<Seq<u8>>)
    ensures
        keys_of(paths).finite(),
    decreases paths.len(),
{
    if paths.len() > 0 {
        lemma_keys_of_finite(paths.drop_last());
    }
}

/// Over a run of loads `caches[i] -> caches[i + 1]` of `paths[i]`, with the importer's
/// count going from `counts[i]` to `counts[i + 1]`, the importer runs exactly once for
/// each distinct key that was not cached at the start, and the table then holds the
/// starting keys and every loaded key.
pub proof fn loads_import_each_key_once<T>(
    caches: Seq<Map<ResourceId, Arc<T>>>,
    paths: Seq<Seq<u8>>,
    handles: Seq<Arc<T>>,
    counts: Seq<nat>,
)
    requires
        caches.len() == paths.len() + 1,
        counts.len() == paths.len() + 1,
        handles.len() == paths.len(),
        forall|i: int|
            0 <= i < paths.len() ==> loaded(
                #[trigger] caches[i],
                paths[i],
                caches[i + 1],
                handles[i],
                counts[i],
                counts[i + 1],
            ),
    ensures
        caches.last().dom() == caches[0].dom().union(keys_of(paths)),
        counts.last() == counts[0] + keys_of(paths).difference(caches[0].dom()).len(),
    decreases paths.len(),
{
    lemma_keys_of_finite(paths);
    if paths.len() == 0 {
        assert(keys_of(paths).difference(caches[0].dom()) =~= Set::empty());
        assert(caches[0].dom().union(keys_of(paths)) =~= caches[0].dom());
    } else {
        let n = paths.len() - 1;
        let cs = caches.drop_last();
        let ps = paths.drop_last();
        let hs = handles.drop_last();
        let ns = counts.drop_last();
        assert forall|i: int| 0 <= i < ps.len() implies loaded(
            #[trigger] cs[i],
            ps[i],
            cs[i + 1],
            hs[i],
            ns[i],
            ns[i + 1],
        ) by {
            assert(loaded(caches[i], paths[i], caches[i + 1], handles[i], counts[i], counts[i + 1]));
        }
        loads_import_each_key_once(cs, ps, hs, ns);
        lemma_keys_of_finite(ps);
        let d0 = caches[0].dom();
        let k = spec_import_key(paths[n]);
        assert(loaded(caches[n], paths[n], caches[n + 1], handles[n], counts[n], counts[n + 1]));
        assert(cs.last() == caches[n]);
        assert(ns.last() == counts[n]);
        assert(paths.last() == paths[n]);
        assert(keys_of(paths) == keys_of(ps).insert(k));
        assert(caches.last() == caches[n + 1]);
        assert(counts.last() == counts[n + 1]);
        if caches[n].contains_key(k) {
            assert(keys_of(paths).difference(d0) =~= keys_of(ps).difference(d0));
            assert(caches.last().dom() =~= d0.union(keys_of(paths)));
        } else {
            assert(!keys_of(ps).difference(d0).contains(k));
            assert(keys_of(paths).difference(d0) =~= keys_of(ps).difference(d0).insert(k));
            assert(caches.last().dom() =~= d0.union(keys_of(paths)));
        }
    }
}

/// The distinct paths of a sequence of paths.
pub open spec fn paths_of(paths: Seq<Seq<u8>>) -> Set<Seq<u8>>
    decreases paths.len(),
{
    if paths.len() == 0 {
        Set::empty()
    } else {
        paths_of(paths.drop_last()).insert(paths.last())
    }
}

proof fn lemma_keys_of_contains(paths: Seq<Seq<u8>>, p: Seq<u8>)
    requires
        paths_of(paths).contains(p),
    ensures
        keys_of(paths).contains(spec_import_key(p)),
    decreases paths.len(),
{
    if paths.len() > 0 && p != paths.last() {
        lemma_keys_of_contains(paths.drop_last(), p);
    }
}

proof fn lemma_keys_of_member(paths: Seq<Seq<u8>>, k: ResourceId)
    requires
        keys_of(paths).contains(k),
    ensures
        exists|p: Seq<u8>| paths_of(paths).contains(p) && spec_import_key(p) == k,
    decreases paths.len(),
{
    if paths.len() > 0 && k != spec_import_key(paths.last()) {
        lemma_keys_of_member(paths.drop_last(), k);
    } else {
        assert(paths_of(paths).contains(paths.last()));
    }
}

/// Without key collisions among the paths, there are as many keys as distinct paths.
proof fn lemma_keys_match_paths(paths: Seq<Seq<u8>>)
    requires
        forall|a: Seq<u8>, b: Seq<u8>|
            paths_of(paths).contains(a) && paths_of(paths).contains(b) && a != b
                ==> spec_import_key(a) != spec_import_key(b),
    ensures
        paths_of(paths).finite(),
        keys_of(paths).len() == paths_of(paths).len(),
    decreases paths.len(),
{
    lemma_keys_of_finite(paths);
    if paths.len() > 0 {
        let rest = paths.drop_last();
        let last = paths.last();
        assert forall|a: Seq<u8>, b: Seq<u8>|
            paths_of(rest).contains(a) && paths_of(rest).contains(b) && a != b implies spec_import_key(a)
                != spec_import_key(b) by {
            assert(paths_of(paths).contains(a) && paths_of(paths).contains(b));
        }
        lemma_keys_match_paths(rest);
        lemma_keys_of_finite(rest);
        if paths_of(rest).contains(last) {
            lemma_keys_of_contains(rest, last);
        } else if keys_of(rest).contains(spec_import_key(last)) {
            lemma_keys_of_member(rest, spec_import_key(last));
            let p = choose|p: Seq<u8>| paths_of(rest).contains(p) && spec_import_key(p) == spec_import_key(last);
            assert(paths_of(paths).contains(p) && paths_of(paths).contains(last));
        }
    }
}

/// Loading paths into an empty cache runs the importer exactly once per distinct path,
/// as long as no two distinct paths among them share an import key (a collision is not
/// detected: such paths share one entry).
pub proof fn loads_import_each_path_once<T>(
    caches: Seq<Map<ResourceId, Arc<T>>>,
    paths: Seq<Seq<u8>>,
    handles: Seq<Arc<T>>,
    counts: Seq<nat>,
)
    requires
        caches.len() == paths.len() + 1,
        counts.len() == paths.len() + 1,
        handles.len() == paths.len(),
        caches[0] == Map::<ResourceId, Arc<T>>::empty(),
        forall|i: int|
            0 <= i < paths.len() ==> loaded(
                #[trigger] caches[i],
                paths[i],
                caches[i + 1],
                handles[i],
                counts[i],
                counts[i + 1],
            ),
        forall|a: Seq<u8>, b: Seq<u8>|
            paths_of(paths).contains(a) && paths_of(paths).contains(b) && a != b
                ==> spec_import_key(a) != spec_import_key(b),
    ensures
        counts.last() == counts[0] + paths_of(paths).len(),
{
    loads_import_each_key_once(caches, paths, handles, counts);
    lemma_keys_match_paths(paths);
    assert(keys_of(paths).difference(caches[0].dom()) =~= keys_of(paths));
}

} // verus!
