use std::cell::Cell;
use std::rc::Rc;

use runtime_plugins::error::{RuntimeError, RuntimeErrorType};
use runtime_plugins::manager::RuntimePluginManager;
use runtime_plugins::plugin::{entry_point_name, plugin_path, RuntimePlugin};

struct FakeModule {
    path: String,
}

struct TestPlugin {
    label: String,
    hook_calls: Rc<Cell<u32>>,
}

impl TestPlugin {
    fn new(label: &str) -> (TestPlugin, Rc<Cell<u32>>) {
        let hooks = Rc::new(Cell::new(0));
        let plugin = TestPlugin {
            label: label.to_string(),
            hook_calls: hooks.clone(),
        };
        (plugin, hooks)
    }
}

impl RuntimePlugin for TestPlugin {
    fn name(&self) -> String {
        self.label.clone()
    }

    fn on_plugin_load(&self) {
        self.hook_calls.set(self.hook_calls.get() + 1);
    }
}

type Manager = RuntimePluginManager<FakeModule, TestPlugin>;

fn open(filename: &str) -> Result<FakeModule, String> {
    let path = plugin_path(filename);
    if filename.ends_with(".so") {
        Ok(FakeModule { path })
    } else {
        Err(format!("cannot open {}", path))
    }
}

fn load(m: &mut Manager, filename: &str, plugin: Option<TestPlugin>) -> Result<(), RuntimeError> {
    let module = m.store_module(open(filename))?;
    let constructed = plugin
        .map(|p| {
            let name = p.name();
            (p, name)
        })
        .ok_or(());
    m.activate_plugin(module, constructed)
}

#[test]
fn new_manager_is_empty() {
    let m = Manager::new();
    assert_eq!(m.module_count(), 0);
    assert_eq!(m.plugin_count(), 0);
    assert_eq!(
        m.get_plugin_name("anything".to_string()),
        Err(RuntimeError::new(RuntimeErrorType::NotFound))
    );
}

#[test]
fn query_after_load_returns_name() {
    let mut m = Manager::new();
    let (p, _) = TestPlugin::new("alpha");
    assert_eq!(load(&mut m, "alpha.so", Some(p)), Ok(()));
    assert_eq!(m.get_plugin_name("alpha".to_string()), Ok("alpha".to_string()));
}

#[test]
fn query_unknown_is_not_found() {
    let mut m = Manager::new();
    let (p, _) = TestPlugin::new("alpha");
    load(&mut m, "alpha.so", Some(p)).unwrap();
    for id in ["beta", "", "alph", "alpha ", "ALPHA"] {
        let r = m.get_plugin_name(id.to_string());
        assert_eq!(r.unwrap_err().kind(), RuntimeErrorType::NotFound);
    }
}

#[test]
fn two_plugins_found_in_either_load_order() {
    for order in [["one", "two"], ["two", "one"]] {
        let mut m = Manager::new();
        for label in order {
            let (p, _) = TestPlugin::new(label);
            load(&mut m, &format!("{}.so", label), Some(p)).unwrap();
        }
        assert_eq!(m.get_plugin_name("one".to_string()), Ok("one".to_string()));
        assert_eq!(m.get_plugin_name("two".to_string()), Ok("two".to_string()));
    }
}

#[test]
fn hook_runs_once_per_successful_load() {
    let mut m = Manager::new();
    let (a, a_hooks) = TestPlugin::new("a");
    let (b, b_hooks) = TestPlugin::new("b");
    load(&mut m, "a.so", Some(a)).unwrap();
    assert_eq!(a_hooks.get(), 1);
    load(&mut m, "b.so", Some(b)).unwrap();
    assert_eq!(a_hooks.get(), 1);
    assert_eq!(b_hooks.get(), 1);
    m.get_plugin_name("a".to_string()).unwrap();
    m.get_plugin_name("b".to_string()).unwrap();
    assert_eq!(a_hooks.get(), 1);
    assert_eq!(b_hooks.get(), 1);
    assert_eq!(m.plugin_count(), 2);
}

#[test]
fn missing_module_is_load_failure() {
    let mut m = Manager::new();
    let (p, hooks) = TestPlugin::new("ghost");
    let r = load(&mut m, "missing", Some(p));
    assert_eq!(r, Err(RuntimeError::new(RuntimeErrorType::LoadFailure)));
    assert_eq!(hooks.get(), 0);
    assert_eq!(m.module_count(), 0);
    assert_eq!(m.plugin_count(), 0);
    // The manager keeps working after the failure.
    let (q, _) = TestPlugin::new("after");
    assert_eq!(load(&mut m, "after.so", Some(q)), Ok(()));
    assert_eq!(m.get_plugin_name("after".to_string()), Ok("after".to_string()));
}

#[test]
fn missing_entry_point_is_symbol_missing() {
    let mut m = Manager::new();
    let r = load(&mut m, "empty.so", None);
    assert_eq!(r, Err(RuntimeError::new(RuntimeErrorType::SymbolMissing)));
    assert_eq!(m.module_count(), 1);
    assert_eq!(m.plugin_count(), 0);
    assert_eq!(m.module(0).path, "plugins/empty.so");
}

#[test]
fn earlier_plugin_kept_after_later_load() {
    let mut m = Manager::new();
    let (a, _) = TestPlugin::new("first");
    let (b, _) = TestPlugin::new("second");
    load(&mut m, "first.so", Some(a)).unwrap();
    load(&mut m, "second.so", Some(b)).unwrap();
    assert_eq!(m.plugin(0).name(), "first");
    assert_eq!(m.plugin(1).name(), "second");
    assert_eq!(m.module(0).path, "plugins/first.so");
    assert_eq!(m.module(1).path, "plugins/second.so");
}

#[test]
fn foo_example() {
    let mut m = Manager::new();
    assert_eq!(plugin_path("foo.so"), "plugins/foo.so");
    let (p, _) = TestPlugin::new("foo");
    load(&mut m, "foo.so", Some(p)).unwrap();
    assert_eq!(m.get_plugin_name("foo".to_string()), Ok("foo".to_string()));
    assert_eq!(
        m.get_plugin_name("bar".to_string()),
        Err(RuntimeError::new(RuntimeErrorType::NotFound))
    );
}

#[test]
fn duplicate_names_resolve_to_first() {
    let mut m = Manager::new();
    let (a, _) = TestPlugin::new("dup");
    let (b, _) = TestPlugin::new("dup");
    load(&mut m, "a.so", Some(a)).unwrap();
    load(&mut m, "b.so", Some(b)).unwrap();
    assert_eq!(m.find_plugin(&"dup".to_string()), Some(0));
    assert_eq!(m.get_plugin_name("dup".to_string()), Ok("dup".to_string()));
    assert_eq!(m.find_plugin(&"other".to_string()), None);
}

#[test]
fn entry_point_is_fixed() {
    assert_eq!(entry_point_name(), "_plugin_create");
}

#[test]
fn error_carries_its_kind() {
    for kind in [
        RuntimeErrorType::LoadFailure,
        RuntimeErrorType::SymbolMissing,
        RuntimeErrorType::NotFound,
    ] {
        let e = RuntimeError::new(kind);
        assert_eq!(e.kind(), kind);
        assert_eq!(e.kind, kind);
    }
}
