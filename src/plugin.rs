use vstd::prelude::*;
use vstd::string::StringExecFns;

verus! {

/// The capability set every loadable plugin object offers.
///
/// `name` identifies the plugin and returns the same text on every call; the
/// host reads it once, when the plugin is loaded, and the manager stores it.
/// `on_plugin_load` is the one-time activation hook that the manager runs
/// right after the object has been constructed.
pub trait RuntimePlugin {
    fn name(&self) -> String;

    fn on_plugin_load(&self);
}

/// The subdirectory, relative to the working directory, that holds modules.
pub open spec fn plugin_dir() -> Seq<char> {
    seq!['p', 'l', 'u', 'g', 'i', 'n', 's', '/']
}

/// The symbol that every plugin module exports to construct its plugin.
pub open spec fn entry_point() -> Seq<char> {
    seq!['_', 'p', 'l', 'u', 'g', 'i', 'n', '_', 'c', 'r', 'e', 'a', 't', 'e']
}

/// The relative path at which the module `filename` is looked up.
pub fn plugin_path(filename: &str) -> (r: String)
    ensures
        r@ == plugin_dir() + filename@,
{
    let dir = String::from_str("plugins/");
    proof {
        reveal_strlit("plugins/");
        assert(dir@ =~= plugin_dir());
    }
    dir.concat(filename)
}

/// The name of the exported constructor that a plugin module must provide.
pub fn entry_point_name() -> (r: &'static str)
    ensures
        r@ == entry_point(),
{
    let s = "_plugin_create";
    proof {
        reveal_strlit("_plugin_create");
        assert(s@ =~= entry_point());
    }
    s
}

} // verus!
