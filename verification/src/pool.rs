//! The pool of one plugin: its idle instances, reused first in, first out, and the rules by
//! which instances leave it and come back.

use crate::ident::PluginId;
use crate::messages::{PluginMetadata, PluginMetadataView};
use crate::plugin::{
    capabilities_of, is_takeover_failure, is_told, PluginCapabilities, PluginError,
    PluginInstance,
};
use crate::runtime::callable_exports;
use std::collections::VecDeque;
use vstd::prelude::*;

verus! {

/// How many idle instances an eviction leaves in a pool.
pub const RETAINED_INSTANCES: usize = 1;

/// One instance of a plugin, owned by whoever holds the handle until the handle goes back
/// to the pool it came from.
#[derive(Debug)]
pub struct PluginHandle {
    pub plugin: PluginInstance,
    /// What the plugin of the pool can do.
    pub capabilities: PluginCapabilities,
    /// The pool the handle came from.
    pub pool: PluginId,
}

impl PluginHandle {
    /// A handle on `plugin`, taken out of `pool`.
    pub fn new(pool: &PluginPool, plugin: PluginInstance) -> (r: PluginHandle)
        ensures
            r.plugin == plugin,
            r.capabilities == pool.capabilities,
            r.pool == pool.id,
    {
        PluginHandle { plugin, capabilities: pool.capabilities, pool: pool.id }
    }

    /// What the plugin of the pool can do.
    pub fn capabilities(&self) -> (r: &PluginCapabilities)
        ensures
            *r == self.capabilities,
    {
        &self.capabilities
    }

}

/// What a pool decides when an instance is asked of it.
#[derive(Debug)]
pub enum Acquire {
    /// An idle instance was detached.
    Ready(PluginHandle),
    /// No instance is idle and the plugin allows instances side by side: load one more.
    Load,
    /// No instance is idle and the plugin forbids instances side by side: wait until one
    /// comes back.
    Wait,
}

/// The decision alone.
#[derive(Debug, Clone, Copy, PartialEq, Eq, Structural)]
pub enum AcquireKind {
    Ready,
    Load,
    Wait,
}

/// A pool as a plain value: the idle instances in the order of their return, and whether
/// the plugin forbids instances side by side.
pub struct PoolView {
    pub idle: Seq<PluginInstance>,
    pub serialized: bool,
}

impl PoolView {
    /// What the pool decides when an instance is asked of it.
    pub open spec fn decision(self) -> AcquireKind {
        if self.idle.len() > 0 {
            AcquireKind::Ready
        } else if !self.serialized {
            AcquireKind::Load
        } else {
            AcquireKind::Wait
        }
    }

    /// The pool after an instance was asked of it: the longest idle instance leaves, if
    /// there is one.
    pub open spec fn acquire(self) -> PoolView {
        if self.idle.len() > 0 {
            PoolView { idle: self.idle.subrange(1, self.idle.len() as int), ..self }
        } else {
            self
        }
    }

    /// The pool after an instance came back.
    pub open spec fn release(self, plugin: PluginInstance) -> PoolView {
        PoolView { idle: self.idle.push(plugin), ..self }
    }

    /// The pool after an eviction: what it would hand out next stays, the rest goes.
    pub open spec fn evict(self) -> PoolView {
        if self.idle.len() > RETAINED_INSTANCES {
            PoolView { idle: self.idle.subrange(0, RETAINED_INSTANCES as int), ..self }
        } else {
            self
        }
    }
}

/// The reusable instances of one plugin.
#[derive(Debug)]
pub struct PluginPool {
    pub metadata: PluginMetadata,
    pub capabilities: PluginCapabilities,
    /// The number the catalog gave the plugin; set when the pool joins the registry.
    pub id: PluginId,
    /// The idle instances, in the order of their return.
    pub plugins: VecDeque<PluginInstance>,
}

impl View for PluginPool {
    type V = PoolView;

    open spec fn view(&self) -> PoolView {
        PoolView {
            idle: self.plugins@,
            serialized: self.metadata.decode_serialization_required,
        }
    }
}

/// Whether the pool is one as it is made around the first instance of a plugin with the
/// given exports: the instance can say what the plugin is, and the metadata of the pool
/// are what it said; it is the one idle instance of the pool; the capabilities are those
/// that the exports give; and the pool stands under no number of the catalog yet.
pub open spec fn is_first_pool(pool: PluginPool, exports: Set<Seq<char>>) -> bool {
    &&& exports.contains("get_metadata"@)
    &&& is_told(pool.metadata)
    &&& pool.plugins@.len() == 1
    &&& pool.plugins@[0].exports() == exports
    &&& pool.capabilities == capabilities_of(exports)
    &&& pool.id == PluginId(0)
}

impl PluginPool {
    /// The pool of a plugin that has said what it is, around the instance that said it:
    /// the metadata are the pool's, the instance is probed for what the plugin can do and
    /// is the one idle instance, and the pool stands under no number of the catalog yet.
    pub fn around(plugin: PluginInstance, metadata: PluginMetadata) -> (r: PluginPool)
        ensures
            r.metadata == metadata,
            r.plugins@ == seq![plugin],
            r.capabilities == capabilities_of(plugin.exports()),
            r.id == PluginId(0),
    {
        let capabilities = PluginCapabilities::from_plugin(&plugin);
        let mut plugins: VecDeque<PluginInstance> = VecDeque::new();
        plugins.push_back(plugin);
        assert(plugins@ =~= seq![plugin]);
        PluginPool { metadata, capabilities, id: PluginId(0), plugins }
    }

    /// A pool around the first instance of a plugin. The instance is asked what the plugin
    /// is and probed for what it can do, and stays in the pool as its first idle instance.
    pub fn try_new(loaded: extism::Plugin) -> (r: Result<PluginPool, PluginError>)
        ensures
            match r {
                Ok(pool) => is_first_pool(pool, callable_exports(loaded)),
                Err(e) => is_takeover_failure(e, callable_exports(loaded)),
            },
    {
        let mut plugin = PluginInstance::from_loaded(loaded)?;
        let metadata = plugin.get_metadata()?;
        Ok(PluginPool::around(plugin, metadata))
    }

    /// How many instances are idle.
    pub fn idle_count(&self) -> (r: usize)
        ensures
            r == self@.idle.len(),
    {
        self.plugins.len()
    }

    /// Asks the pool for an instance. An idle instance is detached and handed out, the
    /// longest idle first. Where none is idle, a plugin that allows instances side by
    /// side has one more loaded, and any other makes the caller wait.
    pub fn get_plugin(&mut self) -> (r: Acquire)
        ensures
            final(self)@ == old(self)@.acquire(),
            final(self).metadata == old(self).metadata,
            final(self).capabilities == old(self).capabilities,
            final(self).id == old(self).id,
            match r {
                Acquire::Ready(handle) => {
                    &&& old(self)@.decision() is Ready
                    &&& handle.plugin == old(self)@.idle[0]
                    &&& handle.capabilities == old(self).capabilities
                    &&& handle.pool == old(self).id
                },
                Acquire::Load => old(self)@.decision() is Load,
                Acquire::Wait => old(self)@.decision() is Wait,
            },
    {
        match self.plugins.pop_front() {
            Some(plugin) => Acquire::Ready(
                PluginHandle { plugin, capabilities: self.capabilities, pool: self.id },
            ),
            None => if !self.metadata.decode_serialization_required {
                Acquire::Load
            } else {
                Acquire::Wait
            },
        }
    }

    /// Takes over an instance that was loaded because the pool asked for one more, and
    /// hands it out at once. The pool itself stays as it was.
    pub fn adopt(&self, loaded: extism::Plugin) -> (r: Result<PluginHandle, PluginError>)
        ensures
            match r {
                Ok(handle) => {
                    &&& callable_exports(loaded).contains("get_metadata"@)
                    &&& handle.plugin.exports() == callable_exports(loaded)
                    &&& handle.capabilities == self.capabilities
                    &&& handle.pool == self.id
                },
                Err(e) => is_takeover_failure(e, callable_exports(loaded)),
            },
    {
        let plugin = PluginInstance::from_loaded(loaded)?;
        Ok(PluginHandle::new(self, plugin))
    }

    /// Takes an instance back. It becomes the last in line for reuse; one waiter, if
    /// there is any, may now be woken.
    pub fn release(&mut self, handle: PluginHandle)
        ensures
            final(self)@ == old(self)@.release(handle.plugin),
            final(self).metadata == old(self).metadata,
            final(self).capabilities == old(self).capabilities,
            final(self).id == old(self).id,
    {
        self.plugins.push_back(handle.plugin);
    }

    /// Discards the idle instances beyond the one the pool retains, and returns how many
    /// were discarded. Run once per eviction interval, this discards every instance that
    /// was not used for an interval, but for the one retained.
    pub fn evict_idle(&mut self) -> (discarded: usize)
        ensures
            final(self)@ == old(self)@.evict(),
            discarded == old(self)@.idle.len() - final(self)@.idle.len(),
            final(self).metadata == old(self).metadata,
            final(self).capabilities == old(self).capabilities,
            final(self).id == old(self).id,
    {
        let before = self.plugins.len();
        if before > RETAINED_INSTANCES {
            self.plugins.truncate(RETAINED_INSTANCES);
            before - RETAINED_INSTANCES
        } else {
            0
        }
    }

    /// Trims the pool down to the one instance it retains, as after a scan.
    pub fn cleanup(&mut self) -> (discarded: usize)
        ensures
            final(self)@ == old(self)@.evict(),
            discarded == old(self)@.idle.len() - final(self)@.idle.len(),
            final(self).metadata == old(self).metadata,
            final(self).capabilities == old(self).capabilities,
            final(self).id == old(self).id,
    {
        self.evict_idle()
    }
}

/// An eviction leaves at most the retained instances, and never takes the instance that
/// the pool would hand out next.
pub proof fn lemma_evict_keeps_front(pool: PoolView)
    ensures
        pool.evict().idle.len() <= RETAINED_INSTANCES,
        pool.evict().idle.len() <= pool.idle.len(),
        pool.idle.len() > 0 ==> pool.evict().idle.len() > 0 && pool.evict().idle[0]
            == pool.idle[0],
        pool.evict().decision() == pool.decision(),
{
}

/// A plugin that forbids instances side by side, with its one instance handed out,
/// makes the next caller wait, and never has a second instance loaded; once the instance
/// is back, the next caller gets that very instance.
pub proof fn lemma_serialized_pool_waits(pool: PoolView, instance: PluginInstance)
    requires
        pool.serialized,
        pool.idle == seq![instance],
    ensures
        pool.decision() is Ready,
        pool.acquire().decision() is Wait,
        pool.acquire().acquire() == pool.acquire(),
        pool.acquire().release(instance).decision() is Ready,
        pool.acquire().release(instance).idle[0] == instance,
{
    assert(pool.acquire().idle =~= Seq::empty());
}

/// No pool ever asks for one more instance of a plugin that forbids instances side by
/// side.
pub proof fn lemma_serialized_never_loads(pool: PoolView)
    requires
        pool.serialized,
    ensures
        !(pool.decision() is Load),
{
}

/// An instance that was handed out is no longer idle: the pool gives it to nobody else
/// until it is back.
pub proof fn lemma_handed_out_once(pool: PoolView)
    requires
        pool.idle.len() > 0,
        pool.idle.no_duplicates(),
    ensures
        !pool.acquire().idle.contains(pool.idle[0]),
        pool.acquire().idle.no_duplicates(),
{
    let rest = pool.acquire().idle;
    if rest.contains(pool.idle[0]) {
        let j = choose|j: int| 0 <= j < rest.len() && rest[j] == pool.idle[0];
        assert(pool.idle[j + 1] == pool.idle[0]);
    }
}

} // verus!
