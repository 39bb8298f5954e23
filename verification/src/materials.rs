//! The deduplicated material store: each loaded texture is keyed by its
//! source path and assigned a stable integer id, partitioned into the flat
//! and the cube-map list. Lookup is a linear scan by path equality, and the
//! same path always resolves to the same id, so each distinct source is
//! decoded and uploaded at most once per session.
//!
//! The store holds only the identity data; the caller keeps the GPU texture
//! views in lists parallel to these, appending one view whenever a
//! registration reports a fresh entry.

use vstd::prelude::*;

verus! {

/// A stable index into one of the material lists.
pub type MaterialId = usize;

/// The sequences of path views of both lists.
pub open spec fn path_views(l: Seq<String>) -> Seq<Seq<char>> {
    l.map(|i: int, s: String| s@)
}

/// Whether some entry of `l` has the path view `p`.
pub open spec fn contains_path(l: Seq<String>, p: Seq<char>) -> bool {
    exists|i: int| 0 <= i < l.len() && l[i]@ == p
}

/// `i` names the first entry of `l` whose path view is `p`.
pub open spec fn is_first_path_index(l: Seq<String>, p: Seq<char>, i: int) -> bool {
    &&& 0 <= i < l.len()
    &&& l[i]@ == p
    &&& forall|j: int| 0 <= j < i ==> l[j]@ != p
}

/// What one registration leaves behind: either the path was present and
/// nothing changed, or the path was appended and got the next id.
pub open spec fn register_post(
    old_l: Seq<String>,
    p: Seq<char>,
    new_l: Seq<String>,
    id: MaterialId,
    fresh: bool,
) -> bool {
    if contains_path(old_l, p) {
        &&& !fresh
        &&& is_first_path_index(old_l, p, id as int)
        &&& new_l == old_l
    } else {
        &&& fresh
        &&& id == old_l.len()
        &&& new_l.len() == old_l.len() + 1
        &&& new_l.drop_last() == old_l
        &&& new_l.last()@ == p
    }
}

/// The deduplicated material lists: flat textures and cube maps.
pub struct MaterialsStorage {
    pub list_2d: Vec<String>,
    pub list_cube: Vec<String>,
}

/// The first id whose entry in `list` carries `path`, if any.
pub fn get_material_id(path: &String, list: &Vec<String>) -> (r: Option<MaterialId>)
    ensures
        r is Some ==> is_first_path_index(list@, path@, r->Some_0 as int),
        r is None ==> !contains_path(list@, path@),
{
    let mut i: usize = 0;
    while i < list.len()
        invariant
            0 <= i <= list@.len(),
            forall|j: int| 0 <= j < i ==> list@[j]@ != path@,
        decreases list@.len() - i,
    {
        if path.eq(&list[i]) {
            return Some(i);
        }
        i = i + 1;
    }
    None
}

impl MaterialsStorage {
    /// An empty store.
    pub fn new() -> (r: Self)
        ensures
            r.list_2d@.len() == 0,
            r.list_cube@.len() == 0,
    {
        MaterialsStorage { list_2d: Vec::new(), list_cube: Vec::new() }
    }

    /// Appends a flat material unconditionally and returns its new id. The
    /// caller uses this only after a lookup missed; `get_or_insert_2d`
    /// combines the two steps.
    pub fn insert_material_2d(&mut self, path: String) -> (r: MaterialId)
        ensures
            r == old(self).list_2d@.len(),
            final(self).list_2d@ == old(self).list_2d@.push(path),
            final(self).list_cube == old(self).list_cube,
    {
        let id = self.list_2d.len();
        self.list_2d.push(path);
        id
    }

    /// Appends a cube-map material unconditionally and returns its new id.
    pub fn insert_material_cube(&mut self, path: String) -> (r: MaterialId)
        ensures
            r == old(self).list_cube@.len(),
            final(self).list_cube@ == old(self).list_cube@.push(path),
            final(self).list_2d == old(self).list_2d,
    {
        let id = self.list_cube.len();
        self.list_cube.push(path);
        id
    }

    /// The id for `path` in the flat list: the existing entry's id when the
    /// path was already registered, else a fresh entry's. The flag reports
    /// whether the entry is fresh, in which case the caller must decode and
    /// upload the texture — exactly once per distinct path.
    pub fn get_or_insert_2d(&mut self, path: &String) -> (r: (MaterialId, bool))
        ensures
            register_post(old(self).list_2d@, path@, final(self).list_2d@, r.0, r.1),
            final(self).list_cube == old(self).list_cube,
    {
        match get_material_id(path, &self.list_2d) {
            Some(id) => (id, false),
            None => {
                let id = self.insert_material_2d(path.clone());
                proof {
                    assert(final(self).list_2d@.drop_last() =~= old(self).list_2d@);
                }
                (id, true)
            },
        }
    }

    /// The id for `path` in the cube-map list, with the same contract as
    /// the flat variant.
    pub fn get_or_insert_cube(&mut self, path: &String) -> (r: (MaterialId, bool))
        ensures
            register_post(old(self).list_cube@, path@, final(self).list_cube@, r.0, r.1),
            final(self).list_2d == old(self).list_2d,
    {
        match get_material_id(path, &self.list_cube) {
            Some(id) => (id, false),
            None => {
                let id = self.insert_material_cube(path.clone());
                proof {
                    assert(final(self).list_cube@.drop_last() =~= old(self).list_cube@);
                }
                (id, true)
            },
        }
    }
}

/// Resolves one model's material references against the store, in order: a
/// missing diffuse reference falls back to material id zero, every other
/// reference is registered with deduplication. Within the result, two equal
/// paths always carry the same id, and only the first of them is marked
/// fresh — so the caller decodes and uploads each distinct texture once,
/// whatever the model's material table looks like.
pub fn resolve_material_ids(names: &Vec<Option<String>>, storage: &mut MaterialsStorage) -> (r:
    Vec<(MaterialId, bool)>)
    ensures
        r@.len() == names@.len(),
        old(storage).list_2d@.len() <= final(storage).list_2d@.len(),
        forall|j: int|
            0 <= j < old(storage).list_2d@.len() ==> final(storage).list_2d@[j] == #[trigger] old(
                storage,
            ).list_2d@[j],
        final(storage).list_cube == old(storage).list_cube,
        forall|k: int|
            0 <= k < names@.len() ==> match #[trigger] names@[k] {
                Some(p) => is_first_path_index(final(storage).list_2d@, p@, r@[k].0 as int),
                None => r@[k] == (0usize, false),
            },
        forall|k1: int, k2: int|
            #![trigger r@[k1], r@[k2]]
            0 <= k1 < k2 < names@.len() && names@[k1] is Some && names@[k2] is Some
                && names@[k1]->Some_0@ == names@[k2]->Some_0@ ==> r@[k2].0 == r@[k1].0
                && !r@[k2].1,
{
    let mut out: Vec<(MaterialId, bool)> = Vec::new();
    let mut i: usize = 0;
    while i < names.len()
        invariant
            0 <= i <= names@.len(),
            out@.len() == i,
            old(storage).list_2d@.len() <= storage.list_2d@.len(),
            forall|j: int|
                0 <= j < old(storage).list_2d@.len() ==> storage.list_2d@[j] == #[trigger] old(
                    storage,
                ).list_2d@[j],
            storage.list_cube == old(storage).list_cube,
            forall|k: int|
                0 <= k < i ==> match #[trigger] names@[k] {
                    Some(p) => is_first_path_index(storage.list_2d@, p@, out@[k].0 as int),
                    None => out@[k] == (0usize, false),
                },
            forall|k1: int, k2: int|
                #![trigger out@[k1], out@[k2]]
                0 <= k1 < k2 < i && names@[k1] is Some && names@[k2] is Some
                    && names@[k1]->Some_0@ == names@[k2]->Some_0@ ==> out@[k2].0 == out@[k1].0
                    && !out@[k2].1,
        decreases names@.len() - i,
    {
        let ghost pre = storage.list_2d@;
        let ghost pre_out = out@;
        match &names[i] {
            Some(p) => {
                let (id, fresh) = storage.get_or_insert_2d(p);
                out.push((id, fresh));
                proof {
                    lemma_register_preserves_first_indices(pre, p@, storage.list_2d@, id, fresh);
                    assert forall|k: int|
                        0 <= k < i + 1 implies match #[trigger] names@[k] {
                        Some(q) => is_first_path_index(storage.list_2d@, q@, out@[k].0 as int),
                        None => out@[k] == (0usize, false),
                    } by {
                        if k < i {
                            assert(out@[k] == pre_out[k]);
                        } else {
                            assert(out@[k] == (id, fresh));
                            lemma_register_result_is_first(pre, p@, storage.list_2d@, id, fresh);
                        }
                    }
                }
            },
            None => {
                out.push((0, false));
                proof {
                    assert forall|k: int|
                        0 <= k < i + 1 implies match #[trigger] names@[k] {
                        Some(q) => is_first_path_index(storage.list_2d@, q@, out@[k].0 as int),
                        None => out@[k] == (0usize, false),
                    } by {
                        if k < i {
                            assert(out@[k] == pre_out[k]);
                        }
                    }
                }
            },
        }
        i = i + 1;
    }
    out
}

/// A registration never disturbs the first index of any path already
/// present: the list only ever grows at its end.
proof fn lemma_register_preserves_first_indices(
    old_l: Seq<String>,
    p: Seq<char>,
    new_l: Seq<String>,
    id: MaterialId,
    fresh: bool,
)
    requires
        register_post(old_l, p, new_l, id, fresh),
    ensures
        forall|q: Seq<char>, j: int|
            is_first_path_index(old_l, q, j) ==> #[trigger] is_first_path_index(new_l, q, j),
        old_l.len() <= new_l.len(),
        forall|j: int| 0 <= j < old_l.len() ==> new_l[j] == #[trigger] old_l[j],
{
    if !contains_path(old_l, p) {
        assert forall|j: int| 0 <= j < old_l.len() implies new_l[j] == #[trigger] old_l[j] by {
            assert(new_l[j] == new_l.drop_last()[j]);
        }
        assert forall|q: Seq<char>, j: int|
            is_first_path_index(old_l, q, j) implies #[trigger] is_first_path_index(
            new_l,
            q,
            j,
        ) by {
            assert(new_l[j] == old_l[j]);
            assert(forall|m: int| 0 <= m < j ==> #[trigger] new_l[m] == old_l[m]);
        }
    }
}

/// The id a registration returns names the first entry carrying the path
/// in the list the registration leaves behind.
proof fn lemma_register_result_is_first(
    old_l: Seq<String>,
    p: Seq<char>,
    new_l: Seq<String>,
    id: MaterialId,
    fresh: bool,
)
    requires
        register_post(old_l, p, new_l, id, fresh),
    ensures
        is_first_path_index(new_l, p, id as int),
{
    if contains_path(old_l, p) {
    } else {
        assert forall|j: int| 0 <= j < id as int implies #[trigger] new_l[j]@ != p by {
            assert(new_l[j] == new_l.drop_last()[j]);
            assert(!(old_l[j]@ == p));
        }
        assert(new_l[id as int]@ == p);
    }
}

/// Material deduplication: registering the same path twice returns the
/// same id both times, and the second registration neither grows the list
/// nor reports a fresh entry, so at most one decode and upload happens per
/// distinct path.
pub proof fn lemma_material_dedup(
    l0: Seq<String>,
    l1: Seq<String>,
    l2: Seq<String>,
    p: Seq<char>,
    id1: MaterialId,
    fresh1: bool,
    id2: MaterialId,
    fresh2: bool,
)
    requires
        register_post(l0, p, l1, id1, fresh1),
        register_post(l1, p, l2, id2, fresh2),
    ensures
        id2 == id1,
        !fresh2,
        l2 == l1,
{
    if contains_path(l0, p) {
        assert(is_first_path_index(l1, p, id1 as int));
        assert(is_first_path_index(l1, p, id2 as int));
    } else {
        assert(l1[id1 as int]@ == p);
        assert(contains_path(l1, p));
        assert(is_first_path_index(l1, p, id2 as int));
        assert(forall|j: int| 0 <= j < l1.len() - 1 ==> l1[j] == #[trigger] l0[j]);
        if id2 < id1 {
            assert(l0[id2 as int]@ == p);
        }
        if id2 > id1 {
            assert(l1[id1 as int]@ != p);
        }
    }
}

} // verus!
