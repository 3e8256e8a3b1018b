use vstd::prelude::*;

use crate::error::RuntimeErrorType;
use crate::manager::RuntimePluginManager;

verus! {

/// After a plugin that reports `name` has been activated, a query for
/// `name` answers with that same name.
pub proof fn lemma_query_after_load<M, P>(
    before: RuntimePluginManager<M, P>,
    after: RuntimePluginManager<M, P>,
    name: Seq<char>,
)
    requires
        after@.names == before@.names.push(name),
    ensures
        after@.lookup(name) == Ok::<Seq<char>, RuntimeErrorType>(name),
{
    assert(after@.names[before@.names.len() as int] == name);
}

/// A query for a name that no stored plugin carries fails with `NotFound`.
pub proof fn lemma_query_unknown<M, P>(m: RuntimePluginManager<M, P>, id: Seq<char>)
    requires
        !m@.names.contains(id),
    ensures
        m@.lookup(id) == Err::<Seq<char>, RuntimeErrorType>(RuntimeErrorType::NotFound),
{
}

/// Activating a plugin with another name does not make a query for `id`
/// succeed: if `id` was unknown before, it is still `NotFound` after.
pub proof fn lemma_query_unknown_after_load<M, P>(
    before: RuntimePluginManager<M, P>,
    after: RuntimePluginManager<M, P>,
    name: Seq<char>,
    id: Seq<char>,
)
    requires
        after@.names == before@.names.push(name),
        !before@.names.contains(id),
        name != id,
    ensures
        after@.lookup(id) == Err::<Seq<char>, RuntimeErrorType>(RuntimeErrorType::NotFound),
{
    assert forall|i: int| 0 <= i < after@.names.len() implies after@.names[i] != id by {
        if i < before@.names.len() {
            assert(after@.names[i] == before@.names[i]);
        }
    }
}

/// A fresh manager knows no name at all.
pub proof fn lemma_query_empty<M, P>(m: RuntimePluginManager<M, P>, id: Seq<char>)
    requires
        m@.names == Seq::<Seq<char>>::empty(),
    ensures
        m@.lookup(id) == Err::<Seq<char>, RuntimeErrorType>(RuntimeErrorType::NotFound),
{
}

/// After a plugin that reports `na` and then one that reports `nb` have been
/// activated, a query for either name answers with that name.
pub proof fn lemma_query_two_loads<M, P>(
    m0: RuntimePluginManager<M, P>,
    m1: RuntimePluginManager<M, P>,
    m2: RuntimePluginManager<M, P>,
    na: Seq<char>,
    nb: Seq<char>,
)
    requires
        m1@.names == m0@.names.push(na),
        m2@.names == m1@.names.push(nb),
    ensures
        m2@.lookup(na) == Ok::<Seq<char>, RuntimeErrorType>(na),
        m2@.lookup(nb) == Ok::<Seq<char>, RuntimeErrorType>(nb),
{
    assert(m2@.names[m0@.names.len() as int] == na);
    assert(m2@.names[m1@.names.len() as int] == nb);
}

/// The order in which two plugins are loaded does not change any answer:
/// activating the plugin named `na` then the one named `nb`, or the other
/// way round, on the same manager gives the same result for every query.
pub proof fn lemma_load_order_irrelevant<M, P>(
    m0: RuntimePluginManager<M, P>,
    x1: RuntimePluginManager<M, P>,
    x2: RuntimePluginManager<M, P>,
    y1: RuntimePluginManager<M, P>,
    y2: RuntimePluginManager<M, P>,
    na: Seq<char>,
    nb: Seq<char>,
    id: Seq<char>,
)
    requires
        x1@.names == m0@.names.push(na),
        x2@.names == x1@.names.push(nb),
        y1@.names == m0@.names.push(nb),
        y2@.names == y1@.names.push(na),
    ensures
        x2@.lookup(id) == y2@.lookup(id),
{
    let n = m0@.names.len() as int;
    assert(x2@.names.contains(id) <==> y2@.names.contains(id)) by {
        if x2@.names.contains(id) {
            let i = choose|i: int| 0 <= i < x2@.names.len() && x2@.names[i] == id;
            if i < n {
                assert(y2@.names[i] == id);
            } else if i == n {
                assert(y2@.names[n + 1] == id);
            } else {
                assert(y2@.names[n] == id);
            }
        }
        if y2@.names.contains(id) {
            let i = choose|i: int| 0 <= i < y2@.names.len() && y2@.names[i] == id;
            if i < n {
                assert(x2@.names[i] == id);
            } else if i == n {
                assert(x2@.names[n + 1] == id);
            } else {
                assert(x2@.names[n] == id);
            }
        }
    }
}

/// Loading further modules leaves an earlier plugin untouched: its instance,
/// its name, its owning module index and that module are what they were.
pub proof fn lemma_earlier_plugin_kept<M, P>(
    m0: RuntimePluginManager<M, P>,
    m1: RuntimePluginManager<M, P>,
    m2: RuntimePluginManager<M, P>,
    i: int,
)
    requires
        m0.wf(),
        m1@.extends(m0@),
        m2@.extends(m1@),
        0 <= i < m0@.instances.len(),
    ensures
        m2@.instances[i] == m0@.instances[i],
        m2@.names[i] == m0@.names[i],
        m2@.owners[i] == m0@.owners[i],
        m2@.modules[m0@.owners[i] as int] == m0@.modules[m0@.owners[i] as int],
{
    let o = m0@.owners[i] as int;
    assert(m1@.instances[i] == m0@.instances[i]);
    assert(m1@.names[i] == m0@.names[i]);
    assert(m1@.owners[i] == m0@.owners[i]);
    assert(m1@.modules[o] == m0@.modules[o]);
}

/// Once a plugin that reports `na` has been activated, a query for `na` keeps
/// answering with that name however many modules are loaded afterwards.
pub proof fn lemma_query_after_later_loads<M, P>(
    m0: RuntimePluginManager<M, P>,
    m1: RuntimePluginManager<M, P>,
    m2: RuntimePluginManager<M, P>,
    na: Seq<char>,
)
    requires
        m1@.names == m0@.names.push(na),
        m2@.extends(m1@),
    ensures
        m2@.lookup(na) == Ok::<Seq<char>, RuntimeErrorType>(na),
{
    let k = m0@.names.len() as int;
    assert(m1@.names[k] == na);
    assert(m2@.names[k] == na);
}

} // verus!
