//! Plugins: the traits a plugin implements, the registry of loaded plugins,
//! and the manager that knows where plugins are installed.

use vstd::prelude::*;
use std::path::PathBuf;
use crate::events::EditorEvent;

verus! {

/// The directory that plugins are installed into and loaded from.
pub const PLUGIN_DIR: &'static str = "~/.config/velo/plugins/";

/// Hooks that run when a plugin is loaded and when it is unloaded. `S` is
/// the state that the host hands to its plugins.
pub trait PluginLifecycle<S = ()> {
    /// Called once when the plugin is loaded.
    fn on_load(&mut self, _state: &mut S) {
    }

    /// Called once when the plugin is unloaded.
    fn on_unload(&mut self, _state: &mut S) {
    }
}

/// A plugin: a name, and a handler for every event the editor reports.
pub trait Plugin<S = ()>: PluginLifecycle<S> + Send + Sync {
    /// The plugin's name.
    fn name(&self) -> &str;

    /// Called for every event the editor reports.
    fn on_event(&mut self, event: &EditorEvent, state: &mut S);
}

fn push_item<T>(v: &mut Vec<T>, x: T)
    ensures
        final(v)@ == old(v)@.push(x),
        final(v)@.len() == old(v)@.len() + 1,
        final(v)@.take(old(v)@.len() as int) == old(v)@,
{
    v.push(x);
    assert(v@.take(old(v)@.len() as int) =~= old(v)@);
}

fn item_mut<T>(v: &mut Vec<T>, i: usize) -> (e: &mut T)
    requires
        i < old(v)@.len(),
    ensures
        *e == old(v)@[i as int],
        final(v)@ == old(v)@.update(i as int, *final(e)),
{
    &mut v[i]
}

/// The loaded plugins, in the order they were registered.
#[verifier::reject_recursive_types(S)]
pub struct PluginRegistry<S = ()> {
    plugins: Vec<Box<dyn Plugin<S>>>,
}

impl<S> PluginRegistry<S> {
    /// The number of registered plugins.
    pub closed spec fn count(self) -> nat {
        self.plugins@.len()
    }

    /// The registered plugins, in registration order.
    pub closed spec fn plugins(self) -> Seq<Box<dyn Plugin<S>>> {
        self.plugins@
    }

    /// An empty registry.
    pub fn new() -> (r: Self)
        ensures
            r.count() == 0,
    {
        Self { plugins: Vec::new() }
    }

    /// Adds a plugin after those already registered.
    pub fn register(&mut self, plugin: Box<dyn Plugin<S>>)
        ensures
            final(self).plugins() == old(self).plugins().push(plugin),
            final(self).plugins().len() == old(self).plugins().len() + 1,
            final(self).plugins().take(old(self).plugins().len() as int) == old(self).plugins(),
            final(self).count() == old(self).count() + 1,
    {
        push_item(&mut self.plugins, plugin);
    }

    /// The number of registered plugins.
    pub fn len(&self) -> (n: usize)
        ensures
            n == self.count(),
    {
        self.plugins.len()
    }

    /// The plugin at position `index`, to hand it an event or unload it;
    /// whatever is done through it becomes the registry's plugin at `index`,
    /// and the others stay as they are.
    pub fn plugin_mut(&mut self, index: usize) -> (p: &mut Box<dyn Plugin<S>>)
        requires
            index < old(self).count(),
        ensures
            *p == old(self).plugins()[index as int],
            final(self).plugins().len() == old(self).plugins().len(),
            final(self).plugins()[index as int] == *final(p),
            forall|k: int|
                0 <= k < old(self).count() && k != index
                    ==> final(self).plugins()[k] == old(self).plugins()[k],
            final(self).count() == old(self).count(),
    {
        item_mut(&mut self.plugins, index)
    }

    /// Unloads every plugin, in registration order.
    pub fn unload_all(&mut self, state: &mut S)
        ensures
            final(self).count() == old(self).count(),
    {
        let n = self.plugins.len();
        let mut i: usize = 0;
        while i < n
            invariant
                i <= n,
                n == self.plugins@.len(),
            decreases n - i,
        {
            self.plugins[i].on_unload(state);
            i = i + 1;
        }
    }
}

impl<S> Default for PluginRegistry<S> {
    fn default() -> (r: Self)
        ensures
            r.count() == 0,
    {
        Self::new()
    }
}

/// Knows the directory that plugins are loaded from.
pub struct PluginManager {
    plugin_dir: PathBuf,
}

impl PluginManager {
    /// A manager for the plugins in `plugin_dir`.
    pub fn new(plugin_dir: PathBuf) -> (m: Self)
        ensures
            m.dir() == plugin_dir,
    {
        Self { plugin_dir }
    }

    pub closed spec fn dir(self) -> PathBuf {
        self.plugin_dir
    }

    /// The directory that plugins are loaded from.
    pub fn plugin_dir(&self) -> (d: &PathBuf)
        ensures
            *d == self.dir(),
    {
        &self.plugin_dir
    }

    /// Whether a file with this extension is a plugin library: "so", "dll"
    /// or "dylib".
    pub fn is_plugin_extension(ext: &str) -> (b: bool)
        ensures
            b == (ext@ == "so"@ || ext@ == "dll"@ || ext@ == "dylib"@),
    {
        crate::strs::str_equal(ext, "so") || crate::strs::str_equal(ext, "dll")
            || crate::strs::str_equal(ext, "dylib")
    }
}

} // verus!
