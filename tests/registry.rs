use loom::registry::{register, BuiltModule, ModuleReport};

fn built(name: &str, result: Result<u32, &str>) -> BuiltModule<u32> {
    BuiltModule {
        name: name.to_string(),
        result: result.map_err(|d| d.to_string()),
    }
}

#[test]
fn failed_module_is_skipped_and_reported_once() {
    let r = register(vec![built("A", Ok(1)), built("B", Err("x")), built("C", Ok(3))]);
    let names: Vec<&str> = r.namespaces.iter().map(|(n, _)| n.as_str()).collect();
    assert_eq!(names, vec!["A", "C"]);
    assert_eq!(r.namespaces[1].1, 3);
    let failures: Vec<&ModuleReport> = r
        .reports
        .iter()
        .filter(|m| matches!(m, ModuleReport::Failed { .. }))
        .collect();
    assert_eq!(
        failures,
        vec![&ModuleReport::Failed { name: "B".to_string(), detail: "x".to_string() }]
    );
    assert_eq!(r.reports[0], ModuleReport::Loaded { name: "A".to_string() });
    assert_eq!(r.reports[2], ModuleReport::Loaded { name: "C".to_string() });
}

#[test]
fn no_modules_make_an_empty_namespace() {
    let r = register(Vec::<BuiltModule<u32>>::new());
    assert!(r.namespaces.is_empty());
    assert!(r.reports.is_empty());
}

#[test]
fn all_failing_modules_leave_no_namespace() {
    let r = register(vec![built("log", Err("a")), built("debug", Err("b"))]);
    assert!(r.namespaces.is_empty());
    assert_eq!(r.reports.len(), 2);
}
