use vstd::prelude::*;

use crate::error::{RuntimeError, RuntimeErrorType};
use crate::plugin::RuntimePlugin;

verus! {

/// The abstract state of a manager: the loaded modules in load order, and the
/// activated plugin instances in load order, each with the name it reported
/// and the index of the module that constructed it.
pub struct ManagerView<M, P> {
    pub modules: Seq<M>,
    pub instances: Seq<P>,
    pub names: Seq<Seq<char>>,
    pub owners: Seq<nat>,
}

impl<M, P> ManagerView<M, P> {
    /// Every instance has a name and an owning module, and that module is stored.
    pub open spec fn wf(self) -> bool {
        &&& self.names.len() == self.instances.len()
        &&& self.owners.len() == self.instances.len()
        &&& forall|i: int| 0 <= i < self.owners.len() ==> #[trigger] self.owners[i] < self.modules.len()
    }

    /// `self` was reached from `earlier` by appending only: every module and
    /// every instance stored in `earlier` is still there, at the same index.
    pub open spec fn extends(self, earlier: ManagerView<M, P>) -> bool {
        &&& earlier.modules.is_prefix_of(self.modules)
        &&& earlier.instances.is_prefix_of(self.instances)
        &&& earlier.names.is_prefix_of(self.names)
        &&& earlier.owners.is_prefix_of(self.owners)
    }

    /// What a query for `id` answers: the name itself when some stored plugin
    /// carries it, `NotFound` otherwise.
    pub open spec fn lookup(self, id: Seq<char>) -> Result<Seq<char>, RuntimeErrorType> {
        if self.names.contains(id) {
            Ok(id)
        } else {
            Err(RuntimeErrorType::NotFound)
        }
    }
}

struct PluginSlot<P> {
    instance: P,
    name: String,
    module: usize,
}

/// Owns every loaded code module and every plugin instance built from one.
///
/// Both sequences only ever grow. An instance refers to its module by index,
/// and the instances are declared first so that they are dropped before any
/// module they came from.
pub struct RuntimePluginManager<M, P> {
    plugins: Vec<PluginSlot<P>>,
    loaded_libraries: Vec<M>,
}

impl<M, P> View for RuntimePluginManager<M, P> {
    type V = ManagerView<M, P>;

    closed spec fn view(&self) -> ManagerView<M, P> {
        ManagerView {
            modules: self.loaded_libraries@,
            instances: self.plugins@.map_values(|s: PluginSlot<P>| s.instance),
            names: self.plugins@.map_values(|s: PluginSlot<P>| s.name@),
            owners: self.plugins@.map_values(|s: PluginSlot<P>| s.module as nat),
        }
    }
}

impl<M, P> RuntimePluginManager<M, P> {
    /// The manager's invariant: every stored instance's module is stored too.
    pub open spec fn wf(&self) -> bool {
        self@.wf()
    }

    /// A manager with no modules and no plugins.
    pub fn new() -> (r: Self)
        ensures
            r.wf(),
            r@.modules == Seq::<M>::empty(),
            r@.instances == Seq::<P>::empty(),
            r@.names == Seq::<Seq<char>>::empty(),
            r@.owners == Seq::<nat>::empty(),
    {
        let r = RuntimePluginManager { plugins: Vec::new(), loaded_libraries: Vec::new() };
        assert(r@.instances =~= Seq::<P>::empty());
        assert(r@.names =~= Seq::<Seq<char>>::empty());
        assert(r@.owners =~= Seq::<nat>::empty());
        r
    }

    /// The index of the first stored plugin whose name is `id`.
    pub fn find_plugin(&self, id: &String) -> (r: Option<usize>)
        ensures
            r is None <==> !self@.names.contains(id@),
            r matches Some(i) ==> {
                &&& i < self@.names.len()
                &&& self@.names[i as int] == id@
                &&& forall|j: int| 0 <= j < i ==> self@.names[j] != id@
            },
    {
        let n = self.plugins.len();
        let mut i: usize = 0;
        while i < n
            invariant
                n == self.plugins@.len(),
                i <= n,
                forall|j: int| 0 <= j < i ==> self@.names[j] != id@,
            decreases n - i,
        {
            if self.plugins[i].name == *id {
                assert(self@.names[i as int] == id@);
                return Some(i);
            }
            i += 1;
        }
        assert(!self@.names.contains(id@));
        None
    }

    /// The name of the first stored plugin called `id`, or `NotFound`.
    pub fn get_plugin_name(&self, id: String) -> (r: Result<String, RuntimeError>)
        ensures
            r matches Ok(s) ==> self@.lookup(id@) == Ok::<Seq<char>, RuntimeErrorType>(s@),
            r matches Err(e) ==> self@.lookup(id@) == Err::<Seq<char>, RuntimeErrorType>(e.kind),
    {
        match self.find_plugin(&id) {
            Some(i) => Ok(self.plugins[i].name.clone()),
            None => Err(RuntimeError::new(RuntimeErrorType::NotFound)),
        }
    }
    /// Takes ownership of a freshly opened module, or reports why it could not
    /// be opened. The module is stored before anything is resolved in it, and
    /// its index is returned so that the entry point can be looked up in the
    /// stored copy.
    pub fn store_module<E>(&mut self, opened: Result<M, E>) -> (r: Result<usize, RuntimeError>)
        requires
            old(self).wf(),
        ensures
            final(self).wf(),
            final(self)@.extends(old(self)@),
            opened is Err ==> r == Err::<usize, RuntimeError>(RuntimeError { kind: RuntimeErrorType::LoadFailure })
                && final(self)@ == old(self)@,
            opened matches Ok(m) ==> {
                &&& r == Ok::<usize, RuntimeError>(old(self)@.modules.len() as usize)
                &&& final(self)@.modules == old(self)@.modules.push(m)
                &&& final(self)@.instances == old(self)@.instances
                &&& final(self)@.names == old(self)@.names
                &&& final(self)@.owners == old(self)@.owners
            },
    {
        match opened {
            Ok(m) => {
                let index = self.loaded_libraries.len();
                self.loaded_libraries.push(m);
                Ok(index)
            },
            Err(_) => Err(RuntimeError::new(RuntimeErrorType::LoadFailure)),
        }
    }

    /// Activates the plugin that module `module` constructed, or reports that
    /// the module has no entry point. `constructed` carries the new instance
    /// together with the name it reported. On success the load hook is run
    /// once and the instance is stored under exactly that name.
    pub fn activate_plugin<E>(
        &mut self,
        module: usize,
        constructed: Result<(P, String), E>,
    ) -> (r: Result<(), RuntimeError>)
        where
            P: RuntimePlugin,
        requires
            old(self).wf(),
            module < old(self)@.modules.len(),
        ensures
            final(self).wf(),
            final(self)@.extends(old(self)@),
            final(self)@.modules == old(self)@.modules,
            constructed is Err ==> r == Err::<(), RuntimeError>(RuntimeError { kind: RuntimeErrorType::SymbolMissing })
                && final(self)@ == old(self)@,
            constructed matches Ok((p, n)) ==> {
                &&& r is Ok
                &&& final(self)@.instances == old(self)@.instances.push(p)
                &&& final(self)@.owners == old(self)@.owners.push(module as nat)
                &&& final(self)@.names == old(self)@.names.push(n@)
            },
    {
        match constructed {
            Ok((p, name)) => {
                p.on_plugin_load();
                let ghost before = self@;
                self.plugins.push(PluginSlot { instance: p, name, module });
                assert(self@.instances =~= before.instances.push(p));
                assert(self@.owners =~= before.owners.push(module as nat));
                assert(self@.names =~= before.names.push(name@));
                Ok(())
            },
            Err(_) => Err(RuntimeError::new(RuntimeErrorType::SymbolMissing)),
        }
    }

    /// The number of loaded modules.
    pub fn module_count(&self) -> (r: usize)
        ensures
            r == self@.modules.len(),
    {
        self.loaded_libraries.len()
    }

    /// The module stored at `index`.
    pub fn module(&self, index: usize) -> (r: &M)
        requires
            index < self@.modules.len(),
        ensures
            *r == self@.modules[index as int],
    {
        &self.loaded_libraries[index]
    }

    /// The number of activated plugins.
    pub fn plugin_count(&self) -> (r: usize)
        ensures
            r == self@.instances.len(),
    {
        self.plugins.len()
    }

    /// The plugin instance stored at `index`.
    pub fn plugin(&self, index: usize) -> (r: &P)
        requires
            index < self@.instances.len(),
        ensures
            *r == self@.instances[index as int],
    {
        &self.plugins[index].instance
    }
}

} // verus!
