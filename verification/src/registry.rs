//! The registry of plugins: one pool for each plugin, under the number the catalog gave
//! it, in the order in which the pools joined.

use crate::db::database::Database;
use crate::db::policy;
use crate::db::store::DbError;
use crate::ident::PluginId;
use crate::plugin::{capabilities_of, is_takeover_failure, PluginCapabilities, PluginError};
use crate::runtime::callable_exports;
use crate::pool::{is_first_pool, Acquire, AcquireKind, PluginHandle, PluginPool, PoolView};
use vstd::prelude::*;

verus! {

/// All pools, each under the number of its plugin.
#[derive(Debug)]
pub struct PluginSystem {
    pub pools: Vec<PluginPool>,
}

/// The numbers under which the pools stand, in their order.
pub open spec fn ids_of(pools: Seq<PluginPool>) -> Seq<PluginId> {
    pools.map_values(|p: PluginPool| p.id)
}

/// The numbers of the pools whose plugin can decode, in the order of the pools.
pub open spec fn decoders_among(pools: Seq<PluginPool>) -> Seq<PluginId>
    decreases pools.len(),
{
    if pools.len() == 0 {
        Seq::empty()
    } else if pools.last().capabilities.decode {
        decoders_among(pools.drop_last()).push(pools.last().id)
    } else {
        decoders_among(pools.drop_last())
    }
}

/// The numbers of the pools whose plugin can provide tracks, in the order of the pools.
pub open spec fn providers_among(pools: Seq<PluginPool>) -> Seq<PluginId>
    decreases pools.len(),
{
    if pools.len() == 0 {
        Seq::empty()
    } else if pools.last().capabilities.provide_tracks {
        providers_among(pools.drop_last()).push(pools.last().id)
    } else {
        providers_among(pools.drop_last())
    }
}

/// Whether a directory entry is a plugin: a file whose name ends in `.wasm`.
pub open spec fn names_plugin(name: Seq<char>) -> bool {
    name.len() >= 5 && name.subrange(name.len() - 5, name.len() as int) == seq![
        '.',
        'w',
        'a',
        's',
        'm',
    ]
}

impl PluginSystem {
    /// No number stands for two pools.
    pub open spec fn wf(&self) -> bool {
        ids_of(self.pools@).no_duplicates()
    }

    /// Where the pool of a plugin stands, if the plugin is registered.
    pub open spec fn position(&self, id: PluginId) -> Option<int> {
        if ids_of(self.pools@).contains(id) {
            Some(ids_of(self.pools@).index_of(id))
        } else {
            None
        }
    }

    /// A registry without pools.
    pub fn new() -> (r: PluginSystem)
        ensures
            r.wf(),
            r.pools@.len() == 0,
    {
        PluginSystem { pools: Vec::new() }
    }

    /// How many plugins are registered.
    pub fn len(&self) -> (r: usize)
        ensures
            r == self.pools@.len(),
    {
        self.pools.len()
    }

    fn find(&self, id: PluginId) -> (r: Option<usize>)
        requires
            self.wf(),
        ensures
            match r {
                Some(i) => i < self.pools@.len() && self.pools@[i as int].id == id
                    && self.position(id) == Some(i as int),
                None => self.position(id) is None,
            },
    {
        let mut i: usize = 0;
        while i < self.pools.len()
            invariant
                self.wf(),
                i <= self.pools@.len(),
                forall|j: int| 0 <= j < i ==> self.pools@[j].id != id,
            decreases self.pools@.len() - i,
        {
            if self.pools[i].id.0 == id.0 {
                proof {
                    let ids = ids_of(self.pools@);
                    assert(ids[i as int] == id);
                    assert(ids.contains(id));
                    let k = ids.index_of(id);
                    assert(0 <= k < ids.len() && ids[k] == id);
                    assert(k == i);
                }
                return Some(i);
            }
            i += 1;
        }
        proof {
            let ids = ids_of(self.pools@);
            if ids.contains(id) {
                let k = choose|k: int| 0 <= k < ids.len() && ids[k] == id;
                assert(self.pools@[k].id == id);
            }
        }
        None
    }

    /// Enters a pool under the number the catalog gave its plugin. A pool that stood
    /// under that number before is replaced, in its place; a new number joins at the end.
    pub fn register(&mut self, id: PluginId, pool: PluginPool)
        requires
            old(self).wf(),
        ensures
            final(self).wf(),
            match old(self).position(id) {
                Some(i) => final(self).pools@ == old(self).pools@.update(
                    i,
                    PluginPool { id, ..pool },
                ),
                None => final(self).pools@ == old(self).pools@.push(PluginPool { id, ..pool }),
            },
    {
        let mut pool = pool;
        pool.id = id;
        match self.find(id) {
            Some(i) => {
                self.pools[i] = pool;
                assert(ids_of(final(self).pools@) =~= ids_of(old(self).pools@));
            },
            None => {
                self.pools.push(pool);
                proof {
                    let before = ids_of(old(self).pools@);
                    let after = ids_of(final(self).pools@);
                    assert(after =~= before.push(id));
                    assert forall|a: int, b: int|
                        0 <= a < after.len() && 0 <= b < after.len() && a != b implies after[a]
                        != after[b] by {
                        if a < before.len() && b < before.len() {
                        } else if a < before.len() {
                            assert(before.contains(before[a]));
                        } else {
                            assert(before.contains(before[b]));
                        }
                    }
                }
            },
        }
    }

    /// Whether a plugin is registered under the number.
    pub fn contains(&self, id: PluginId) -> (r: bool)
        requires
            self.wf(),
        ensures
            r == self.position(id) is Some,
    {
        self.find(id).is_some()
    }

    /// What the plugin under the number can do, if one is registered.
    pub fn capabilities(&self, id: PluginId) -> (r: Option<PluginCapabilities>)
        requires
            self.wf(),
        ensures
            match self.position(id) {
                Some(i) => r == Some(self.pools@[i].capabilities),
                None => r is None,
            },
    {
        match self.find(id) {
            Some(i) => Some(self.pools[i].capabilities),
            None => None,
        }
    }

    /// Asks the pool of a plugin for an instance. `None` says that no plugin is
    /// registered under the number; nothing changes then.
    pub fn get_plugin(&mut self, id: PluginId) -> (r: Option<Acquire>)
        requires
            old(self).wf(),
        ensures
            final(self).wf(),
            final(self).pools@.len() == old(self).pools@.len(),
            match old(self).position(id) {
                Some(i) => {
                    &&& ids_of(final(self).pools@) == ids_of(old(self).pools@)
                    &&& forall|j: int|
                        0 <= j < old(self).pools@.len() && j != i ==> final(self).pools@[j] == old(self).pools@[j]
                    &&& final(self).pools@[i]@ == old(self).pools@[i]@.acquire()
                    &&& final(self).pools@[i].capabilities == old(self).pools@[i].capabilities
                    &&& match r {
                        Some(Acquire::Ready(handle)) => {
                            &&& old(self).pools@[i]@.decision() is Ready
                            &&& handle.plugin == old(self).pools@[i]@.idle[0]
                            &&& handle.pool == id
                            &&& handle.capabilities == old(self).pools@[i].capabilities
                        },
                        Some(Acquire::Load) => old(self).pools@[i]@.decision() is Load,
                        Some(Acquire::Wait) => old(self).pools@[i]@.decision() is Wait,
                        None => false,
                    }
                },
                None => r is None && final(self).pools@ == old(self).pools@,
            },
    {
        match self.find(id) {
            Some(i) => {
                let r = self.pools[i].get_plugin();
                proof {
                    assert(ids_of(final(self).pools@) =~= ids_of(old(self).pools@));
                }
                Some(r)
            },
            None => None,
        }
    }

    /// Gives an instance back to the pool it came from. Where that pool is gone, the
    /// handle comes back to the caller.
    pub fn release(&mut self, handle: PluginHandle) -> (r: Option<PluginHandle>)
        requires
            old(self).wf(),
        ensures
            final(self).wf(),
            final(self).pools@.len() == old(self).pools@.len(),
            match old(self).position(handle.pool) {
                Some(i) => {
                    &&& r is None
                    &&& ids_of(final(self).pools@) == ids_of(old(self).pools@)
                    &&& forall|j: int|
                        0 <= j < old(self).pools@.len() && j != i ==> final(self).pools@[j] == old(self).pools@[j]
                    &&& final(self).pools@[i]@ == old(self).pools@[i]@.release(handle.plugin)
                    &&& final(self).pools@[i].capabilities == old(self).pools@[i].capabilities
                },
                None => r == Some(handle) && final(self).pools@ == old(self).pools@,
            },
    {
        match self.find(handle.pool) {
            Some(i) => {
                self.pools[i].release(handle);
                proof {
                    assert(ids_of(final(self).pools@) =~= ids_of(old(self).pools@));
                }
                None
            },
            None => Some(handle),
        }
    }

    /// The numbers of the plugins that can decode, in the order of the registry.
    pub fn decoders(&self) -> (r: Vec<PluginId>)
        ensures
            r@ == decoders_among(self.pools@),
    {
        let mut out: Vec<PluginId> = Vec::new();
        let mut i: usize = 0;
        assert(self.pools@.take(0) =~= Seq::empty());
        while i < self.pools.len()
            invariant
                i <= self.pools@.len(),
                out@ == decoders_among(self.pools@.take(i as int)),
            decreases self.pools@.len() - i,
        {
            assert(self.pools@.take(i + 1).drop_last() =~= self.pools@.take(i as int));
            if self.pools[i].capabilities.decode {
                out.push(self.pools[i].id);
            }
            i += 1;
        }
        assert(self.pools@.take(self.pools@.len() as int) =~= self.pools@);
        out
    }

    /// The numbers of the plugins that can provide tracks, in the order of the registry.
    pub fn providers(&self) -> (r: Vec<PluginId>)
        ensures
            r@ == providers_among(self.pools@),
    {
        let mut out: Vec<PluginId> = Vec::new();
        let mut i: usize = 0;
        assert(self.pools@.take(0) =~= Seq::empty());
        while i < self.pools.len()
            invariant
                i <= self.pools@.len(),
                out@ == providers_among(self.pools@.take(i as int)),
            decreases self.pools@.len() - i,
        {
            assert(self.pools@.take(i + 1).drop_last() =~= self.pools@.take(i as int));
            if self.pools[i].capabilities.provide_tracks {
                out.push(self.pools[i].id);
            }
            i += 1;
        }
        assert(self.pools@.take(self.pools@.len() as int) =~= self.pools@);
        out
    }

    /// Trims every pool down to the instance it retains, as after a scan, and returns how
    /// many instances were discarded.
    pub fn cleanup_pool(&mut self) -> (discarded: usize)
        requires
            old(self).wf(),
        ensures
            final(self).wf(),
            final(self).pools@.len() == old(self).pools@.len(),
            ids_of(final(self).pools@) == ids_of(old(self).pools@),
            forall|j: int|
                0 <= j < old(self).pools@.len() ==> (#[trigger] final(self).pools@[j])@ == old(self).pools@[j]@.evict(),
    {
        let mut total: usize = 0;
        let mut i: usize = 0;
        while i < self.pools.len()
            invariant
                i <= self.pools@.len(),
                self.pools@.len() == old(self).pools@.len(),
                ids_of(self.pools@) == ids_of(old(self).pools@),
                forall|j: int| 0 <= j < i ==> (#[trigger] self.pools@[j])@ == old(self).pools@[j]@.evict(),
                forall|j: int|
                    i <= j < self.pools@.len() ==> #[trigger] self.pools@[j] == old(self).pools@[j],
            decreases self.pools@.len() - i,
        {
            let ghost before = self.pools@;
            let n = self.pools[i].cleanup();
            total = total.saturating_add(n);
            proof {
                assert(ids_of(self.pools@) =~= ids_of(before));
            }
            i += 1;
        }
        total
    }
}

/// Whether a directory entry names a plugin: a file whose name ends in `.wasm`.
pub fn is_plugin_file(name: &str, is_file: bool) -> (r: bool)
    ensures
        r == (is_file && names_plugin(name@)),
{
    if !is_file {
        return false;
    }
    let n = name.unicode_len();
    if n < 5 {
        return false;
    }
    let r = name.get_char(n - 5) == '.' && name.get_char(n - 4) == 'w' && name.get_char(n - 3)
        == 'a' && name.get_char(n - 2) == 's' && name.get_char(n - 1) == 'm';
    proof {
        let tail = name@.subrange(n - 5, n as int);
        let want = seq!['.', 'w', 'a', 's', 'm'];
        if r {
            assert(tail =~= want);
        } else {
            if tail == want {
                assert(tail[0] == '.' && tail[1] == 'w' && tail[2] == 'a' && tail[3] == 's'
                    && tail[4] == 'm');
            }
        }
    }
    r
}


/// Why a plugin did not join the registry.
#[derive(Debug)]
pub enum InstallError {
    /// The plugin could not be taken over.
    Plugin(PluginError),
    /// The catalog could not give the plugin a number.
    Catalog(DbError),
}

/// The pools after one more has been entered under a number: it takes the place of the
/// pool that stood under that number, or joins at the end.
pub open spec fn entered(pools: Seq<PluginPool>, id: PluginId, pool: PluginPool) -> Seq<PluginPool> {
    if ids_of(pools).contains(id) {
        pools.update(ids_of(pools).index_of(id), PluginPool { id, ..pool })
    } else {
        pools.push(PluginPool { id, ..pool })
    }
}

/// Whether registry `b` and catalog `d` are what registry `a` and catalog `c` become when
/// the pool is enrolled and gets the number `id`: the catalog had a number to give, gave
/// that one, and the pool has been entered under it.
pub open spec fn enrolled(
    a: PluginSystem,
    c: Database,
    pool: PluginPool,
    id: PluginId,
    b: PluginSystem,
    d: Database,
) -> bool {
    &&& policy::can_register(c@, pool.metadata.uuid)
    &&& (d@, id.0) == policy::register_plugin(c@, pool.metadata.uuid)
    &&& b.pools@ == entered(a.pools@, id, pool)
}

/// Whether registry `b` and catalog `d` are what registry `a` and catalog `c` become when
/// a plugin with the given exports is installed and gets the number `id`: the pool made
/// around its first instance has been enrolled.
pub open spec fn installed(
    a: PluginSystem,
    c: Database,
    exports: Set<Seq<char>>,
    id: PluginId,
    b: PluginSystem,
    d: Database,
) -> bool {
    exists|pool: PluginPool| is_first_pool(pool, exports) && #[trigger] enrolled(a, c, pool, id, b, d)
}

impl PluginSystem {
    /// Enters the pool of a plugin that has said what it is: the catalog gives the plugin
    /// its number, a known plugin keeping the number it has, and the pool stands under
    /// that number from then on. Where the catalog has no number left to give, registry
    /// and catalog stay as they were.
    pub fn enroll(&mut self, catalog: &mut Database, pool: PluginPool) -> (r: Result<
        PluginId,
        DbError,
    >)
        requires
            old(self).wf(),
            old(catalog).wf(),
        ensures
            final(self).wf(),
            final(catalog).wf(),
            final(catalog).stats == old(catalog).stats,
            match r {
                Ok(id) => enrolled(*old(self), *old(catalog), pool, id, *final(self), *final(catalog)),
                Err(e) => {
                    &&& !policy::can_register(old(catalog)@, pool.metadata.uuid)
                    &&& e == DbError::Full
                    &&& final(self).pools@ == old(self).pools@
                    &&& final(catalog)@ == old(catalog)@
                },
            },
    {
        let id = match catalog.register_plugin(pool.metadata.uuid) {
            Ok(id) => id,
            Err(e) => {
                return Err(e);
            },
        };
        self.register(id, pool);
        Ok(id)
    }

    /// Takes a plugin that the runtime has loaded into the registry: makes a pool around
    /// it, which asks the plugin what it is, and enrolls the pool. A plugin that cannot be
    /// taken over or numbered leaves registry and catalog as they were.
    pub fn install(&mut self, catalog: &mut Database, loaded: extism::Plugin) -> (r: Result<
        PluginId,
        InstallError,
    >)
        requires
            old(self).wf(),
            old(catalog).wf(),
        ensures
            final(self).wf(),
            final(catalog).wf(),
            final(catalog).stats == old(catalog).stats,
            r matches Ok(id) ==> installed(
                *old(self),
                *old(catalog),
                callable_exports(loaded),
                id,
                *final(self),
                *final(catalog),
            ),
            r matches Err(InstallError::Plugin(e)) ==> is_takeover_failure(
                e,
                callable_exports(loaded),
            ),
            r matches Err(InstallError::Catalog(e)) ==> e == DbError::Full && callable_exports(
                loaded,
            ).contains("get_metadata"@) && exists|uuid: u128|
                !#[trigger] policy::can_register(old(catalog)@, uuid),
            r is Err ==> final(self).pools@ == old(self).pools@ && final(catalog)@ == old(catalog)@,
    {
        let pool = match PluginPool::try_new(loaded) {
            Ok(pool) => pool,
            Err(e) => {
                return Err(InstallError::Plugin(e));
            },
        };
        let ghost first = pool;
        let enrolment = self.enroll(catalog, pool);
        proof {
            if let Ok(id) = enrolment {
                assert(enrolled(*old(self), *old(catalog), first, id, *self, *catalog));
            } else {
                assert(!policy::can_register(old(catalog)@, first.metadata.uuid));
            }
        }
        match enrolment {
            Ok(id) => Ok(id),
            Err(e) => Err(InstallError::Catalog(e)),
        }
    }
}

} // verus!
