use ictmon::nodes::{create_nodes_from_cli, create_nodes_from_list, record_arrivals, NodeListError, Nodes};

#[test]
fn node_list_parses_each_line() {
    let list = Nodes::from_text("ict-0:127.0.0.1:5561\nict-1:example.org:15561\n").unwrap();
    assert_eq!(list.nodes.len(), 2);
    assert_eq!(list.nodes[0].name, "ict-0");
    assert_eq!(list.nodes[0].ip_address, "127.0.0.1");
    assert_eq!(list.nodes[0].port, 5561);
    assert_eq!(list.nodes[1].name, "ict-1");
    assert_eq!(list.nodes[1].ip_address, "example.org");
    assert_eq!(list.nodes[1].port, 15561);
}

#[test]
fn node_list_accepts_crlf_and_no_final_newline() {
    let list = Nodes::from_text("a:h:1\r\nb:h:65535").unwrap();
    assert_eq!(list.nodes.len(), 2);
    assert_eq!(list.nodes[0].port, 1);
    assert_eq!(list.nodes[1].name, "b");
    assert_eq!(list.nodes[1].port, 65535);
}

#[test]
fn node_list_errors() {
    assert_eq!(Nodes::from_text("").unwrap_err(), NodeListError::Empty);
    assert_eq!(Nodes::from_text("\n").unwrap_err(), NodeListError::Malformed { line: 0 });
    assert_eq!(Nodes::from_text("a:h").unwrap_err(), NodeListError::Malformed { line: 0 });
    assert_eq!(Nodes::from_text("a:h:1\nb:h:65536").unwrap_err(), NodeListError::Malformed { line: 1 });
    assert_eq!(Nodes::from_text("a:h:1\nb:h:x1").unwrap_err(), NodeListError::Malformed { line: 1 });
    assert_eq!(Nodes::from_text("a:h:1\nb:h:").unwrap_err(), NodeListError::Malformed { line: 1 });
    assert_eq!(Nodes::from_text("a:h:1:2").unwrap_err(), NodeListError::Malformed { line: 0 });
    assert_eq!(
        Nodes::from_text("a:h:1\nb:h:2\na:g:3\n").unwrap_err(),
        NodeListError::DuplicateName { line: 2 }
    );
}

#[test]
fn nodes_from_cli_are_fresh() {
    let nodes = create_nodes_from_cli("ict-0", "localhost", 5561);
    assert_eq!(nodes.len(), 1);
    assert_eq!(nodes[0].name, "ict-0");
    assert_eq!(nodes[0].address, "localhost");
    assert_eq!(nodes[0].port, 5561);
    assert_eq!(nodes[0].events.short_count(), 0);
    assert_eq!(nodes[0].metrics.latest_short(), None);
}

#[test]
fn nodes_from_list_keep_order() {
    let list = Nodes::from_text("a:h1:1\nb:h2:2\n").unwrap();
    let nodes = create_nodes_from_list(&list);
    assert_eq!(nodes.len(), 2);
    assert_eq!(nodes[1].name, "b");
    assert_eq!(nodes[1].address, "h2");
    assert_eq!(nodes[1].port, 2);
}

#[test]
fn poll_step_records_both_ready_nodes_separately() {
    let mut nodes = create_nodes_from_cli("a", "h", 1);
    nodes.extend(create_nodes_from_cli("b", "h", 2));
    record_arrivals(&mut nodes, &[true, true], 10);
    record_arrivals(&mut nodes, &[true, false], 20);
    record_arrivals(&mut nodes, &[false, true], 30);
    assert_eq!(nodes[0].events.short_arrivals(), vec![10, 20]);
    assert_eq!(nodes[0].events.long_arrivals(), vec![10, 20]);
    assert_eq!(nodes[1].events.short_arrivals(), vec![10, 30]);
    assert_eq!(nodes[1].events.long_arrivals(), vec![10, 30]);
}
