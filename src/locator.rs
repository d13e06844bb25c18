use vstd::prelude::*;

use crate::error::HookError;

verus! {

/// One row of the process's memory-map table: the backing file, if any, and
/// the range of addresses it is mapped at.
#[derive(Debug)]
pub struct ModuleMapping {
    pub path: Option<String>,
    pub start_address: u64,
    pub end_address: u64,
}

/// `s` ends with `suffix`.
pub open spec fn ends_with(s: Seq<char>, suffix: Seq<char>) -> bool {
    suffix.len() <= s.len() && s.subrange(s.len() - suffix.len(), s.len() as int) == suffix
}

/// The mapping is backed by a file whose path ends with `path`.
pub open spec fn names_module(m: ModuleMapping, path: Seq<char>) -> bool {
    match m.path {
        Some(p) => ends_with(p@, path),
        None => false,
    }
}

/// Row `i` is the first row of `maps` that names the module at `path`.
pub open spec fn is_first_mapping(maps: Seq<ModuleMapping>, path: Seq<char>, i: int) -> bool {
    &&& 0 <= i < maps.len()
    &&& names_module(maps[i], path)
    &&& forall|j: int| 0 <= j < i ==> !names_module(#[trigger] maps[j], path)
}

/// Some row of `maps` names the module at `path`.
pub open spec fn has_mapping(maps: Seq<ModuleMapping>, path: Seq<char>) -> bool {
    exists|i: int| 0 <= i < maps.len() && names_module(#[trigger] maps[i], path)
}

/// The base address of the module at `path`, given whether the loader could
/// make it resident and the memory-map table read afterwards.
pub open spec fn located(loaded: bool, maps: Seq<ModuleMapping>, path: Seq<char>) -> Result<
    u64,
    HookError,
> {
    if !loaded {
        Err(HookError::ModuleNotFound)
    } else if !has_mapping(maps, path) {
        Err(HookError::MappingNotFound)
    } else {
        Ok(maps[choose|i: int| is_first_mapping(maps, path, i)].start_address)
    }
}

/// There is at most one first row naming a module.
pub proof fn lemma_first_mapping_unique(maps: Seq<ModuleMapping>, path: Seq<char>, i: int, k: int)
    requires
        is_first_mapping(maps, path, i),
        is_first_mapping(maps, path, k),
    ensures
        i == k,
{
    if i < k {
        assert(!names_module(maps[i], path));
    } else if k < i {
        assert(!names_module(maps[k], path));
    }
}

/// Whether the string `s` ends with `suffix`.
pub fn path_ends_with(s: &str, suffix: &str) -> (r: bool)
    ensures
        r == ends_with(s@, suffix@),
{
    let n = s.unicode_len();
    let m = suffix.unicode_len();
    if m > n {
        return false;
    }
    let d: usize = n - m;
    let mut i: usize = 0;
    while i < m
        invariant
            n == s@.len(),
            m == suffix@.len(),
            m <= n,
            d == n - m,
            i <= m,
            forall|j: int| 0 <= j < i ==> s@[d + j] == suffix@[j],
        decreases m - i,
    {
        if s.get_char(d + i) != suffix.get_char(i) {
            assert(s@.subrange(d as int, n as int)[i as int] != suffix@[i as int]);
            return false;
        }
        i = i + 1;
    }
    assert(s@.subrange(d as int, n as int) =~= suffix@);
    true
}

/// Whether `m` is backed by a file whose path ends with `path`.
pub fn mapping_names_module(m: &ModuleMapping, path: &str) -> (r: bool)
    ensures
        r == names_module(*m, path@),
{
    match &m.path {
        Some(p) => path_ends_with(p.as_str(), path),
        None => false,
    }
}

/// The base address of the module at `so_path`: `ModuleNotFound` where the
/// loader could not make it resident (`loaded` is false), else the start of the
/// first mapping whose path ends with `so_path`, else `MappingNotFound`.
pub fn base_addr(so_path: &str, loaded: bool, maps: &Vec<ModuleMapping>) -> (r: Result<
    u64,
    HookError,
>)
    ensures
        r == located(loaded, maps@, so_path@),
{
    if !loaded {
        return Err(HookError::ModuleNotFound);
    }
    let mut i: usize = 0;
    while i < maps.len()
        invariant
            loaded,
            i <= maps@.len(),
            forall|j: int| 0 <= j < i ==> !names_module(#[trigger] maps@[j], so_path@),
        decreases maps@.len() - i,
    {
        if mapping_names_module(&maps[i], so_path) {
            proof {
                assert(names_module(maps@[i as int], so_path@));
                assert(is_first_mapping(maps@, so_path@, i as int));
                assert(has_mapping(maps@, so_path@));
                let k = choose|k: int| is_first_mapping(maps@, so_path@, k);
                lemma_first_mapping_unique(maps@, so_path@, i as int, k);
                assert(located(loaded, maps@, so_path@) == Ok::<u64, HookError>(
                    maps@[k].start_address,
                ));
            }
            return Ok(maps[i].start_address);
        }
        i = i + 1;
    }
    assert(!has_mapping(maps@, so_path@));
    Err(HookError::MappingNotFound)
}

} // verus!

verus! {

/// The base address of one module, computed once and kept for the rest of the
/// process's lifetime (write once, read many).
pub struct BaseCache {
    base: Option<u64>,
}

/// The cache's contents and the result after one lookup of the module at
/// `path`: a cached address is answered without the loader or the table; else
/// the module is located, and a base address found is kept.
pub open spec fn after_lookup(
    cached: Option<u64>,
    loaded: bool,
    maps: Seq<ModuleMapping>,
    path: Seq<char>,
) -> (Option<u64>, Result<u64, HookError>) {
    match cached {
        Some(b) => (Some(b), Ok(b)),
        None => match located(loaded, maps, path) {
            Ok(b) => (Some(b), Ok(b)),
            Err(e) => (None, Err(e)),
        },
    }
}

impl BaseCache {
    /// The base address held, if one was recorded.
    pub closed spec fn cached_base(&self) -> Option<u64> {
        self.base
    }

    /// An empty cache.
    pub fn new() -> (c: BaseCache)
        ensures
            c.cached_base() is None,
    {
        BaseCache { base: None }
    }

    /// The base address held, if one was recorded. Where this is `None` the
    /// caller loads the module and reads the table, then calls `lookup`.
    pub fn cached(&self) -> (r: Option<u64>)
        ensures
            r == self.cached_base(),
    {
        self.base
    }

    /// The base address of the module at `so_path`: the cached one if there is
    /// one, else the one `base_addr` finds, which is then kept.
    pub fn lookup(&mut self, so_path: &str, loaded: bool, maps: &Vec<ModuleMapping>) -> (r: Result<
        u64,
        HookError,
    >)
        ensures
            (final(self).cached_base(), r) == after_lookup(
                old(self).cached_base(),
                loaded,
                maps@,
                so_path@,
            ),
    {
        match self.base {
            Some(b) => Ok(b),
            None => {
                let r = base_addr(so_path, loaded, maps);
                if let Ok(b) = r {
                    self.base = Some(b);
                }
                r
            },
        }
    }
}

/// Locating a module twice gives the same base address both times: once a
/// lookup has succeeded, a second lookup answers the same address and leaves
/// the cache as it was, whatever the loader and the table would say.
pub proof fn law_lookup_idempotent(
    cached: Option<u64>,
    loaded: bool,
    maps: Seq<ModuleMapping>,
    loaded2: bool,
    maps2: Seq<ModuleMapping>,
    path: Seq<char>,
)
    requires
        after_lookup(cached, loaded, maps, path).1 is Ok,
    ensures
        ({
            let (c1, r1) = after_lookup(cached, loaded, maps, path);
            let (c2, r2) = after_lookup(c1, loaded2, maps2, path);
            r2 == r1 && c2 == c1
        }),
{
}

/// A located base address is the start of the first row of the table whose
/// path ends with the module's path.
pub proof fn law_located_first_mapping(loaded: bool, maps: Seq<ModuleMapping>, path: Seq<char>)
    ensures
        located(loaded, maps, path) is Ok ==> exists|i: int|
            is_first_mapping(maps, path, i) && located(loaded, maps, path) == Ok::<u64, HookError>(
                #[trigger] maps[i].start_address,
            ),
{
    if located(loaded, maps, path) is Ok {
        let w = choose|i: int| 0 <= i < maps.len() && names_module(#[trigger] maps[i], path);
        lemma_first_exists(maps, path, w);
    }
}

/// A row naming the module implies that a first such row exists.
proof fn lemma_first_exists(maps: Seq<ModuleMapping>, path: Seq<char>, w: int)
    requires
        0 <= w < maps.len(),
        names_module(maps[w], path),
    ensures
        exists|i: int| is_first_mapping(maps, path, i),
    decreases w,
{
    if exists|j: int| 0 <= j < w && names_module(#[trigger] maps[j], path) {
        let j = choose|j: int| 0 <= j < w && names_module(#[trigger] maps[j], path);
        lemma_first_exists(maps, path, j);
    } else {
        assert(is_first_mapping(maps, path, w));
    }
}

} // verus!
