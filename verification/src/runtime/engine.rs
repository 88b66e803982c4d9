//! The runtime's registry of plugins, each a module under an id, with
//! the tasks that wait for the runtime.

use vstd::prelude::*;
use vstd::string::StringExecFns;
use crate::runtime::scheduler::{Priority, Scheduler};
use crate::runtime::vm::VM;

verus! {

/// What is known of a plugin of the runtime.
#[derive(Debug, Clone)]
pub struct PluginMetadata {
    /// Its name.
    pub name: String,
    /// Its version.
    pub version: String,
    /// When it was loaded, in nanoseconds since the epoch.
    pub loaded_at: u64,
}

/// A plugin in the registry.
pub struct PluginEntry {
    /// The id under which it was loaded.
    pub id: String,
    /// Its module.
    pub vm: VM,
    /// What is known of it.
    pub metadata: PluginMetadata,
}

/// Whether some plugin of the list has the id.
pub open spec fn has_plugin(plugins: Seq<PluginEntry>, id: Seq<char>) -> bool {
    exists|i: int| 0 <= i < plugins.len() && (#[trigger] plugins[i]).id@ == id
}

/// The place of the plugin with the id.
pub open spec fn index_of_plugin(plugins: Seq<PluginEntry>, id: Seq<char>) -> int {
    choose|i: int| 0 <= i < plugins.len() && (#[trigger] plugins[i]).id@ == id
}

/// Whether no two plugins share an id.
pub open spec fn distinct_ids(plugins: Seq<PluginEntry>) -> bool {
    forall|i: int, j: int|
        0 <= i < plugins.len() && 0 <= j < plugins.len() && i != j ==> (#[trigger] plugins[i]).id@ != (
        #[trigger] plugins[j]).id@
}

/// The message for an id that no plugin has.
pub open spec fn plugin_not_found_message() -> Seq<char> {
    "Plugin not found"@
}

/// The runtime: its plugins and its tasks.
pub struct RuntimeEngine {
    plugins: Vec<PluginEntry>,
    scheduler: Scheduler,
}

impl RuntimeEngine {
    /// The plugins, in the order in which their ids were first loaded.
    pub closed spec fn loaded(&self) -> Seq<PluginEntry> {
        self.plugins@
    }

    /// The tasks that wait.
    pub closed spec fn tasks(&self) -> Scheduler {
        self.scheduler
    }

    /// No two plugins share an id.
    pub open spec fn wf(&self) -> bool {
        distinct_ids(self.loaded())
    }

    /// A runtime without plugins or tasks, for so many tasks at a time.
    pub fn new(max_concurrent: usize) -> (e: Self)
        ensures
            e.wf(),
            e.loaded().len() == 0,
            e.tasks().pending() == 0,
            e.tasks().next_id() == 0,
            e.tasks().limit() == max_concurrent,
    {
        RuntimeEngine { plugins: Vec::new(), scheduler: Scheduler::new(max_concurrent) }
    }

    /// The place of the plugin with the id.
    fn find(&self, id: &str) -> (r: Option<usize>)
        ensures
            match r {
                Some(i) => i < self.loaded().len() && self.loaded()[i as int].id@ == id@,
                None => !has_plugin(self.loaded(), id@),
            },
    {
        let key = String::from_str(id);
        let mut i: usize = 0;
        while i < self.plugins.len()
            invariant
                i <= self.plugins.len(),
                key@ == id@,
                forall|j: int| 0 <= j < i ==> (#[trigger] self.plugins@[j]).id@ != id@,
            decreases self.plugins.len() - i,
        {
            if self.plugins[i].id == key {
                return Some(i);
            }
            i = i + 1;
        }
        None
    }

    /// Files a compiled module under the id, in place of the plugin of
    /// that id where there is one.
    pub fn register(&mut self, id: String, vm: VM, metadata: PluginMetadata)
        requires
            old(self).wf(),
        ensures
            final(self).wf(),
            final(self).tasks() == old(self).tasks(),
            has_plugin(final(self).loaded(), id@),
            final(self).loaded()[index_of_plugin(final(self).loaded(), id@)].metadata == metadata,
            final(self).loaded()[index_of_plugin(final(self).loaded(), id@)].vm == vm,
            final(self).loaded().len() == if has_plugin(old(self).loaded(), id@) {
                old(self).loaded().len()
            } else {
                old(self).loaded().len() + 1
            },
            forall|i: int|
                0 <= i < old(self).loaded().len() && old(self).loaded()[i].id@ != id@ ==> final(self).loaded()[i] == old(self).loaded()[i],
    {
        let ghost name = id@;
        match self.find(id.as_str()) {
            Some(i) => {
                self.plugins[i] = PluginEntry { id, vm, metadata };
                assert(self.plugins@[i as int].id@ == name);
            },
            None => {
                self.plugins.push(PluginEntry { id, vm, metadata });
                assert(self.plugins@[self.plugins@.len() - 1].id@ == name);
            },
        }
    }

    /// Compiles the bytes and files the module under the id, in place of
    /// the plugin of that id where there is one. Bytes that are refused
    /// give an error with the reason and change nothing.
    pub fn load_plugin(&mut self, id: String, wasm_bytes: &[u8], metadata: PluginMetadata) -> (r: Result<
        (),
        String,
    >)
        requires
            old(self).wf(),
        ensures
            final(self).wf(),
            final(self).tasks() == old(self).tasks(),
            r is Err ==> final(self).loaded() == old(self).loaded(),
            r is Ok ==> {
                &&& has_plugin(final(self).loaded(), id@)
                &&& final(self).loaded()[index_of_plugin(final(self).loaded(), id@)].metadata == metadata
                &&& final(self).loaded().len() == if has_plugin(old(self).loaded(), id@) {
                    old(self).loaded().len()
                } else {
                    old(self).loaded().len() + 1
                }
                &&& forall|i: int|
                    0 <= i < old(self).loaded().len() && old(self).loaded()[i].id@ != id@ ==> final(self).loaded()[i] == old(self).loaded()[i]
            },
    {
        match VM::from_bytes(wasm_bytes) {
            Ok(vm) => {
                self.register(id, vm, metadata);
                Ok(())
            },
            Err(e) => Err(e),
        }
    }

    /// Runs a function of the plugin with the id on a fresh instance of
    /// its module. An id that no plugin has is the error
    /// `Plugin not found`; the rest is as the module's `execute` has it.
    pub fn execute_plugin(&self, plugin_id: &str, function: &str, args: &[i64]) -> (r: Result<Vec<i64>, String>)
        ensures
            !has_plugin(self.loaded(), plugin_id@) ==> r is Err && r->Err_0@ == plugin_not_found_message(),
            r is Ok ==> r->Ok_0@.len() == 1,
    {
        match self.find(plugin_id) {
            Some(i) => self.plugins[i].vm.execute(function, args),
            None => Err(String::from_str("Plugin not found")),
        }
    }

    /// Takes in a task and returns its number.
    pub fn schedule_task(&mut self, priority: Priority, payload: Vec<u8>) -> (id: u64)
        ensures
            final(self).loaded() == old(self).loaded(),
            id == old(self).tasks().next_id(),
            final(self).tasks().next_id() == old(self).tasks().next_id().wrapping_add(1),
            final(self).tasks().limit() == old(self).tasks().limit(),
            final(self).tasks().waiting(priority).len() == old(self).tasks().waiting(priority).len() + 1,
            final(self).tasks().waiting(priority).drop_last() == old(self).tasks().waiting(priority),
            final(self).tasks().waiting(priority).last().id == id,
            final(self).tasks().waiting(priority).last().priority == priority,
            final(self).tasks().waiting(priority).last().payload == payload,
            forall|p: Priority| p != priority ==> final(self).tasks().waiting(p) == old(self).tasks().waiting(p),
    {
        self.scheduler.submit(priority, payload)
    }

    /// The number of plugins.
    pub fn plugin_count(&self) -> (n: usize)
        ensures
            n == self.loaded().len(),
    {
        self.plugins.len()
    }

    /// The number of tasks that wait, cut to the range of `usize`.
    pub fn pending_tasks(&self) -> (n: usize)
        ensures
            n == if self.tasks().pending() > usize::MAX {
                usize::MAX
            } else {
                self.tasks().pending() as usize
            },
    {
        self.scheduler.pending_count()
    }
}

} // verus!
