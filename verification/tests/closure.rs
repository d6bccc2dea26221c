use wego::deps::find_all_deps;
use wego::request::ConfigYaml;

fn entry(name: &str, deps: &[&str]) -> ConfigYaml {
    ConfigYaml {
        name: name.to_string(),
        description: format!("{} component", name),
        dependencies: deps.iter().map(|d| d.to_string()).collect(),
    }
}

fn names(v: &[&str]) -> Vec<String> {
    v.iter().map(|s| s.to_string()).collect()
}

#[test]
fn closure_of_simple_manifest() {
    let catalog = vec![entry("A", &["B"]), entry("B", &[])];
    let r = find_all_deps(names(&["A"]), catalog);
    assert_eq!(r, names(&["A", "B"]));
}

#[test]
fn closure_contains_seed() {
    let catalog = vec![entry("A", &["B"]), entry("B", &["C"]), entry("C", &[])];
    let r = find_all_deps(names(&["A", "C"]), catalog);
    assert!(r.contains(&"A".to_string()));
    assert!(r.contains(&"C".to_string()));
    assert_eq!(r, names(&["A", "C", "B"]));
}

#[test]
fn closure_terminates_on_cycle() {
    let catalog = vec![entry("A", &["B"]), entry("B", &["A"])];
    let r = find_all_deps(names(&["A"]), catalog);
    assert_eq!(r, names(&["A", "B"]));
}

#[test]
fn closure_terminates_on_self_reference() {
    let catalog = vec![entry("A", &["A"])];
    let r = find_all_deps(names(&["A"]), catalog);
    assert_eq!(r, names(&["A"]));
}

#[test]
fn absent_name_survives_unchanged() {
    let catalog = vec![entry("A", &["B"]), entry("B", &[])];
    let r = find_all_deps(names(&["Nowhere"]), catalog);
    assert_eq!(r, names(&["Nowhere"]));
}

#[test]
fn absent_dependency_survives_as_leaf() {
    let catalog = vec![entry("A", &["Ghost"])];
    let r = find_all_deps(names(&["A"]), catalog);
    assert_eq!(r, names(&["A", "Ghost"]));
}

#[test]
fn closure_is_idempotent() {
    let catalog = vec![
        entry("A", &["B", "C"]),
        entry("B", &["C", "A"]),
        entry("C", &[]),
        entry("D", &["A"]),
    ];
    let r1 = find_all_deps(names(&["A"]), catalog.clone());
    let r2 = find_all_deps(r1.clone(), catalog);
    assert_eq!(r2, r1);
}

#[test]
fn duplicate_seed_names_collapse() {
    let catalog = vec![entry("A", &[])];
    let r = find_all_deps(names(&["A", "A", "B", "A", "B"]), catalog);
    assert_eq!(r, names(&["A", "B"]));
}

#[test]
fn empty_seed_gives_empty_closure() {
    let catalog = vec![entry("A", &["B"])];
    let r = find_all_deps(Vec::new(), catalog);
    assert!(r.is_empty());
}

#[test]
fn deep_chain_is_fully_resolved() {
    let catalog = vec![
        entry("A", &["B"]),
        entry("B", &["C"]),
        entry("C", &["D"]),
        entry("D", &["E"]),
        entry("E", &[]),
    ];
    let r = find_all_deps(names(&["A"]), catalog);
    assert_eq!(r, names(&["A", "B", "C", "D", "E"]));
}
