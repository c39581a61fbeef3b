use lineup::tsort::tsort;

fn g(pairs: &[(&str, &[&str])]) -> Vec<(String, Vec<String>)> {
    pairs
        .iter()
        .map(|(n, rs)| (n.to_string(), rs.iter().map(|r| r.to_string()).collect()))
        .collect()
}

fn expect(layers: &[&[&str]]) -> Vec<Vec<String>> {
    layers.iter().map(|l| l.iter().map(|s| s.to_string()).collect()).collect()
}

#[test]
fn empty_graph() {
    let graph = g(&[]);
    let layers = tsort(&graph, "test").unwrap();
    let want: Vec<Vec<String>> = vec![];
    assert_eq!(layers, want);
}

#[test]
fn edgeless_graph() {
    let graph = g(&[("A", &[]), ("B", &[]), ("C", &[])]);
    let layers = tsort(&graph, "test").unwrap();
    assert_eq!(layers, expect(&[&["A", "B", "C"]]));
}

#[test]
fn chain_graph() {
    let graph = g(&[("A", &[]), ("B", &["A"]), ("C", &["B"])]);
    let layers = tsort(&graph, "test").unwrap();
    assert_eq!(layers, expect(&[&["A"], &["B"], &["C"]]));
}

#[test]
fn tree3() {
    let graph = g(&[("A", &[]), ("B", &["A"]), ("C", &["A"])]);
    let layers = tsort(&graph, "test").unwrap();
    assert_eq!(layers, expect(&[&["A"], &["B", "C"]]));
}

#[test]
fn tree4() {
    let graph = g(&[("A", &[]), ("B", &["A"]), ("C", &["B"]), ("D", &["A"])]);
    let layers = tsort(&graph, "test").unwrap();
    assert_eq!(layers, expect(&[&["A"], &["B", "D"], &["C"]]));
}

#[test]
fn diamond() {
    let graph = g(&[("A", &[]), ("B", &["A"]), ("C", &["A"]), ("D", &["B", "C"])]);
    let layers = tsort(&graph, "test").unwrap();
    assert_eq!(layers, expect(&[&["A"], &["B", "C"], &["D"]]));
}

#[test]
fn cycle_fails_with_tsort() {
    let graph = g(&[("A", &["B"]), ("B", &["A"])]);
    let r = tsort(&graph, "taskset requires");
    match r {
        Err(lineup::error::Error::TSort(place)) => assert_eq!(place, "taskset requires"),
        _ => panic!("expected a TSort error"),
    }
}

#[test]
fn missing_requirement_fails() {
    let graph = g(&[("A", &["ghost"])]);
    assert!(matches!(tsort(&graph, "t"), Err(lineup::error::Error::TSort(_))));
}
