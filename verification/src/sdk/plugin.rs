//! The plugins that a binding has loaded, each under its name.

use vstd::prelude::*;
use vstd::slice::slice_to_vec;
use vstd::string::StringExecFns;

verus! {

/// What is known of a loaded plugin.
#[derive(Clone, Debug)]
pub struct PluginInfo {
    /// Its name.
    pub name: String,
    /// Its version.
    pub version: String,
    /// Where it came from.
    pub path: String,
    /// Its size, in bytes.
    pub size_bytes: usize,
}

/// Whether some plugin of the list has the name.
pub open spec fn has_plugin(plugins: Seq<PluginInfo>, name: Seq<char>) -> bool {
    exists|i: int| 0 <= i < plugins.len() && (#[trigger] plugins[i]).name@ == name
}

/// The place of the plugin with the name.
pub open spec fn index_of_plugin(plugins: Seq<PluginInfo>, name: Seq<char>) -> int {
    choose|i: int| 0 <= i < plugins.len() && (#[trigger] plugins[i]).name@ == name
}

/// Whether no two plugins share a name.
pub open spec fn distinct_names(plugins: Seq<PluginInfo>) -> bool {
    forall|i: int, j: int|
        0 <= i < plugins.len() && 0 <= j < plugins.len() && i != j ==> (#[trigger] plugins[i]).name@ != (
        #[trigger] plugins[j]).name@
}

/// The message for a name that no plugin has.
pub open spec fn not_found_message(name: Seq<char>) -> Seq<char> {
    "Plugin not found: "@ + name
}

/// The loaded plugins.
pub struct PluginManager {
    plugins: Vec<PluginInfo>,
}

impl PluginManager {
    /// The plugins, in the order in which their names were first loaded.
    pub closed spec fn loaded(&self) -> Seq<PluginInfo> {
        self.plugins@
    }

    /// No two plugins share a name.
    pub open spec fn wf(&self) -> bool {
        distinct_names(self.loaded())
    }

    /// A manager without plugins.
    pub fn new() -> (m: Self)
        ensures
            m.wf(),
            m.loaded().len() == 0,
    {
        PluginManager { plugins: Vec::new() }
    }

    /// The place of the plugin with the name.
    fn find(&self, name: &str) -> (r: Option<usize>)
        ensures
            match r {
                Some(i) => i < self.loaded().len() && self.loaded()[i as int].name@ == name@,
                None => !has_plugin(self.loaded(), name@),
            },
            self.wf() && r is Some ==> r->0 == index_of_plugin(self.loaded(), name@),
    {
        let key = String::from_str(name);
        let mut i: usize = 0;
        while i < self.plugins.len()
            invariant
                i <= self.plugins.len(),
                key@ == name@,
                forall|j: int| 0 <= j < i ==> (#[trigger] self.plugins@[j]).name@ != name@,
            decreases self.plugins.len() - i,
        {
            if self.plugins[i].name == key {
                return Some(i);
            }
            i = i + 1;
        }
        None
    }

    /// Takes in a plugin that was read from a file: it is listed under
    /// its name with version 0.1.0, in place of the plugin of that name
    /// where there is one. Returns what is known of it.
    pub fn load(&mut self, name: &str, path: &str, size_bytes: usize) -> (r: Result<PluginInfo, String>)
        requires
            old(self).wf(),
        ensures
            final(self).wf(),
            r is Ok,
            r->Ok_0.name@ == name@,
            r->Ok_0.version@ == "0.1.0"@,
            r->Ok_0.path@ == path@,
            r->Ok_0.size_bytes == size_bytes,
            has_plugin(final(self).loaded(), name@),
            final(self).loaded()[index_of_plugin(final(self).loaded(), name@)] == r->Ok_0,
            final(self).loaded().len() == if has_plugin(old(self).loaded(), name@) {
                old(self).loaded().len()
            } else {
                old(self).loaded().len() + 1
            },
            forall|i: int|
                0 <= i < old(self).loaded().len() && old(self).loaded()[i].name@ != name@ ==> final(self).loaded()[i] == old(self).loaded()[i],
    {
        let info = PluginInfo {
            name: String::from_str(name),
            version: String::from_str("0.1.0"),
            path: String::from_str(path),
            size_bytes,
        };
        let copy = PluginInfo {
            name: info.name.clone(),
            version: info.version.clone(),
            path: info.path.clone(),
            size_bytes,
        };
        match self.find(name) {
            Some(i) => {
                self.plugins[i] = info;
                assert(self.plugins@[i as int].name@ == name@);
            },
            None => {
                self.plugins.push(info);
                assert(self.plugins@[self.plugins@.len() - 1].name@ == name@);
            },
        }
        Ok(copy)
    }

    /// Takes the plugin with the name off the list; returns whether there
    /// was one.
    pub fn unload(&mut self, name: &str) -> (r: bool)
        requires
            old(self).wf(),
        ensures
            final(self).wf(),
            r == has_plugin(old(self).loaded(), name@),
            !has_plugin(final(self).loaded(), name@),
            final(self).loaded() == if r {
                old(self).loaded().remove(index_of_plugin(old(self).loaded(), name@))
            } else {
                old(self).loaded()
            },
    {
        match self.find(name) {
            Some(i) => {
                self.plugins.remove(i);
                assert forall|j: int| 0 <= j < self.plugins@.len() implies (#[trigger] self.plugins@[j]).name@
                    != name@ by {
                    if j < i {
                        assert(self.plugins@[j] == old(self).plugins@[j]);
                    } else {
                        assert(self.plugins@[j] == old(self).plugins@[j + 1]);
                    }
                }
                true
            },
            None => false,
        }
    }

    /// The plugin with the name.
    pub fn get(&self, name: &str) -> (r: Option<&PluginInfo>)
        requires
            self.wf(),
        ensures
            r is Some <==> has_plugin(self.loaded(), name@),
            r is Some ==> *r->0 == self.loaded()[index_of_plugin(self.loaded(), name@)],
    {
        match self.find(name) {
            Some(i) => Some(&self.plugins[i]),
            None => None,
        }
    }

    /// The plugins.
    pub fn list(&self) -> (r: &Vec<PluginInfo>)
        ensures
            r@ == self.loaded(),
    {
        &self.plugins
    }

    /// The number of plugins.
    pub fn count(&self) -> (n: usize)
        ensures
            n == self.loaded().len(),
    {
        self.plugins.len()
    }

    /// Runs the plugin with the name on the input: the output is the
    /// input. A name that no plugin has is an error.
    pub fn execute(&self, name: &str, input: &[u8]) -> (r: Result<Vec<u8>, String>)
        ensures
            r is Ok <==> has_plugin(self.loaded(), name@),
            match r {
                Ok(out) => out@ == input@,
                Err(e) => e@ == not_found_message(name@),
            },
    {
        match self.find(name) {
            Some(_) => Ok(slice_to_vec(input)),
            None => {
                let mut msg = String::from_str("Plugin not found: ");
                msg.append(name);
                Err(msg)
            },
        }
    }
}

impl Default for PluginManager {
    fn default() -> (m: PluginManager)
        ensures
            m.wf(),
            m.loaded().len() == 0,
    {
        PluginManager::new()
    }
}

} // verus!
