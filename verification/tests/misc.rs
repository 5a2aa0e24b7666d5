use std::collections::HashMap;
use xcb_util::misc::{client_window, Query, Step};

struct Server {
    clients: Vec<u32>,
    children: HashMap<u32, Vec<u32>>,
}

fn run(server: &Server, window: u32) -> (Option<u32>, Vec<Query>) {
    let mut search = client_window(window);
    let mut asked = Vec::new();
    loop {
        match search.pending() {
            Step::Done(found) => return (found, asked),
            Step::Ask(query) => {
                asked.push(query);
                match query {
                    Query::State(w) => search.state_known(server.clients.contains(&w)),
                    Query::Children(w) => search.children_known(server.children.get(&w).cloned()),
                }
            }
        }
    }
}

fn server(clients: &[u32], children: &[(u32, &[u32])]) -> Server {
    Server {
        clients: clients.to_vec(),
        children: children.iter().map(|(w, c)| (*w, c.to_vec())).collect(),
    }
}

#[test]
fn window_with_state_is_its_own_client() {
    let server = server(&[1], &[(1, &[2, 3])]);
    assert_eq!(run(&server, 1), (Some(1), vec![Query::State(1)]));
}

#[test]
fn first_child_with_state_is_found() {
    let server = server(&[3, 4], &[(1, &[2, 3, 4]), (2, &[]), (3, &[]), (4, &[])]);
    let (found, asked) = run(&server, 1);
    assert_eq!(found, Some(3));
    assert_eq!(
        asked,
        vec![
            Query::State(1),
            Query::Children(1),
            Query::State(2),
            Query::Children(2),
            Query::State(3),
        ]
    );
}

#[test]
fn descendants_come_before_later_siblings() {
    let server = server(&[5, 3], &[(1, &[2, 3]), (2, &[4]), (4, &[5]), (5, &[]), (3, &[])]);
    let (found, asked) = run(&server, 1);
    assert_eq!(found, Some(5));
    assert_eq!(
        asked,
        vec![
            Query::State(1),
            Query::Children(1),
            Query::State(2),
            Query::Children(2),
            Query::State(4),
            Query::Children(4),
            Query::State(5),
        ]
    );
}

#[test]
fn tree_without_state_has_no_client() {
    let server = server(&[], &[(1, &[2, 3]), (2, &[4]), (3, &[]), (4, &[])]);
    let (found, asked) = run(&server, 1);
    assert_eq!(found, None);
    assert_eq!(asked.len(), 8);
    assert_eq!(asked[7], Query::Children(3));
}

#[test]
fn unlisted_children_are_passed_over() {
    let server = server(&[3], &[(1, &[2, 3])]);
    let (found, asked) = run(&server, 1);
    assert_eq!(found, Some(3));
    assert_eq!(
        asked,
        vec![
            Query::State(1),
            Query::Children(1),
            Query::State(2),
            Query::Children(2),
            Query::State(3),
        ]
    );
    let server = server_without_tree();
    assert_eq!(run(&server, 9), (None, vec![Query::State(9), Query::Children(9)]));
}

fn server_without_tree() -> Server {
    server(&[], &[])
}

#[test]
fn answer_to_another_question_changes_nothing() {
    let mut search = client_window(1);
    search.children_known(Some(vec![2]));
    assert_eq!(search.pending(), Step::Ask(Query::State(1)));
    search.state_known(false);
    assert_eq!(search.pending(), Step::Ask(Query::Children(1)));
    search.state_known(true);
    assert_eq!(search.pending(), Step::Ask(Query::Children(1)));
    search.children_known(None);
    assert_eq!(search.pending(), Step::Done(None));
    search.state_known(true);
    search.children_known(Some(vec![5]));
    assert_eq!(search.pending(), Step::Done(None));
}
