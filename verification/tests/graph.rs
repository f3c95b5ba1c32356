use ame::graph::build_order;

#[test]
fn build_order_of_empty_graph_is_empty() {
    assert_eq!(build_order(&vec![]), Ok(vec![]));
}

#[test]
fn build_order_without_dependencies_keeps_the_numbering() {
    assert_eq!(build_order(&vec![vec![], vec![], vec![]]), Ok(vec![0, 1, 2]));
}

#[test]
fn build_order_puts_a_dependency_first() {
    // node 0 depends on node 1
    assert_eq!(build_order(&vec![vec![1], vec![]]), Ok(vec![1, 0]));
}

#[test]
fn build_order_takes_the_smallest_ready_node() {
    // 0 -> 2, 1 free: 1 and 2 are ready, 1 comes first
    assert_eq!(build_order(&vec![vec![2], vec![], vec![]]), Ok(vec![1, 2, 0]));
}

#[test]
fn build_order_of_a_chain() {
    // 0 -> 1 -> 2
    assert_eq!(build_order(&vec![vec![1], vec![2], vec![]]), Ok(vec![2, 1, 0]));
}

#[test]
fn build_order_of_a_diamond() {
    // 0 -> 1, 0 -> 2, 1 -> 3, 2 -> 3
    assert_eq!(build_order(&vec![vec![1, 2], vec![3], vec![3], vec![]]), Ok(vec![3, 1, 2, 0]));
}

#[test]
fn build_order_puts_every_node_behind_its_dependencies() {
    let graph = vec![vec![3, 4], vec![0], vec![1, 4], vec![], vec![3], vec![2]];
    let order = build_order(&graph).unwrap();
    assert_eq!(order.len(), graph.len());
    for (place, node) in order.iter().enumerate() {
        for dependency in &graph[*node] {
            let before = order.iter().position(|n| n == dependency).unwrap();
            assert!(before < place);
        }
    }
}

#[test]
fn build_order_finds_a_self_loop() {
    assert_eq!(build_order(&vec![vec![0]]), Err(vec![0]));
}

#[test]
fn build_order_finds_a_cycle_of_two() {
    assert_eq!(build_order(&vec![vec![1], vec![0]]), Err(vec![0, 1]));
}

#[test]
fn build_order_finds_a_cycle_behind_a_tail() {
    // 0 is free; 1 -> 2 -> 3 -> 2
    let graph = vec![vec![], vec![2], vec![3], vec![2]];
    let cycle = build_order(&graph).unwrap_err();
    assert_eq!(cycle, vec![2, 3]);
    for (k, node) in cycle.iter().enumerate() {
        let next = cycle[(k + 1) % cycle.len()];
        assert!(graph[*node].contains(&next));
    }
}
