//! Registry ordering, module selection and run summaries.

use lmtt::config::{Config, ModuleSetting};
use lmtt::error::Error;
use lmtt::registry::{
    builtin_modules, summarize_results, ModuleEntry, ModuleRegistry, ModuleResult,
};

#[test]
fn builtin_registry_is_priority_ordered() {
    let registry = ModuleRegistry::new();
    let names: Vec<&str> = registry.modules.iter().map(|m| m.name.as_str()).collect();
    assert_eq!(
        names,
        vec![
            "gtk",
            "xdg",
            "qt",
            "waybar",
            "wofi",
            "swaync",
            "vscode",
            "nvim",
            "hyprpanel"
        ]
    );
    for w in registry.modules.windows(2) {
        assert!(w[0].priority <= w[1].priority);
    }
}

#[test]
fn platform_modules_come_before_application_modules() {
    let registry = ModuleRegistry::new();
    let last_platform = registry
        .modules
        .iter()
        .rposition(|m| m.priority < 50)
        .unwrap();
    let first_application = registry
        .modules
        .iter()
        .position(|m| m.priority >= 100)
        .unwrap();
    assert!(last_platform < first_application);
}

fn entry(name: &str, priority: u8) -> ModuleEntry {
    ModuleEntry {
        name: name.to_string(),
        binary: name.to_string(),
        priority,
    }
}

#[test]
fn sort_is_stable_for_equal_priorities() {
    let registry = ModuleRegistry::with_modules(vec![
        entry("b", 100),
        entry("a", 100),
        entry("platform", 10),
        entry("c", 100),
    ]);
    let names: Vec<&str> = registry.modules.iter().map(|m| m.name.as_str()).collect();
    assert_eq!(names, vec!["platform", "b", "a", "c"]);
}

#[test]
fn custom_modules_sort_in_with_the_builtins() {
    let registry = ModuleRegistry::with_custom(vec![entry("early", 5), entry("late", 100)]);
    assert_eq!(registry.modules.len(), 11);
    assert_eq!(registry.modules[0].name, "early");
    assert_eq!(registry.modules.last().unwrap().name, "late");
    for w in registry.modules.windows(2) {
        assert!(w[0].priority <= w[1].priority);
    }
}

#[test]
fn disabled_modules_are_not_selected() {
    let mut config = Config::new_default();
    for m in builtin_modules() {
        config
            .modules
            .modules
            .push((m.name.clone(), ModuleSetting {
                enabled: false,
                restart: false,
                command: None,
            }));
    }
    let registry = ModuleRegistry::new();
    let enabled = registry.enabled_modules(&config);
    assert!(enabled.is_empty());
}

fn result(name: &str, duration_ms: u64, ok: bool) -> ModuleResult {
    ModuleResult {
        name: name.to_string(),
        duration_ms,
        result: if ok {
            Ok(())
        } else {
            Err(Error::Module("boom".to_string()))
        },
    }
}

#[test]
fn one_failure_is_reported_beside_two_successes() {
    let results = vec![
        result("gtk", 12, true),
        result("waybar", 300, false),
        result("wofi", 7, true),
    ];
    assert_eq!(results.len(), 3);
    let (successes, failures) = summarize_results(&results);
    assert_eq!(successes, 2);
    assert_eq!(failures, 1);
}

#[test]
fn result_flags() {
    let ok = result("gtk", 100, true);
    assert!(ok.is_success());
    assert!(!ok.is_slow(250));
    let slow_failure = result("waybar", 300, false);
    assert!(!slow_failure.is_success());
    assert!(slow_failure.is_slow(250));
    assert!(!slow_failure.is_slow(300));
}
