use indices::TryIndicesError;
use indices::indices3;
use indices::indices_array;
use indices::indices_slice;
use indices::indices_slices;
use indices::try_indices_slice;
use indices::try_indices_slices;

#[test]
fn indices_slice_works() {
    let mut data = vec![5, 4, 3, 2, 1];
    let positions = vec![1, 3];
    let handles = indices_slice(&data, &positions);
    let one = handles[0];
    let two = handles[1];
    assert_eq!(*one.read(&data), 4);
    assert_eq!(*two.read(&data), 2);
    one.write(&mut data, 10);
    two.write(&mut data, 20);
    assert_eq!(data, vec![5, 10, 3, 20, 1]);
}

#[test]
fn indices_slice_out_of_order() {
    let mut data = vec![5, 4, 3, 2, 1];
    let positions = vec![3, 1];
    let handles = indices_slice(&data, &positions);
    let one = handles[0];
    let two = handles[1];
    assert_eq!(*one.read(&data), 2);
    assert_eq!(*two.read(&data), 4);
    one.write(&mut data, 10);
    two.write(&mut data, 20);
    assert_eq!(data, vec![5, 20, 3, 10, 1]);
}

#[test]
fn indices_slice_more_than_two_indices() {
    let mut data = vec![5, 4, 3, 2, 1];
    let positions = vec![3, 1, 2];
    let handles = indices_slice(&data, &positions);
    let (one, two, three) = (handles[0], handles[1], handles[2]);
    assert_eq!(*one.read(&data), 2);
    assert_eq!(*two.read(&data), 4);
    assert_eq!(*three.read(&data), 3);
    one.write(&mut data, 10);
    two.write(&mut data, 20);
    three.write(&mut data, 30);
    assert_eq!(data, vec![5, 20, 30, 10, 1]);
}

#[test]
fn indices_slice_empty_requested_empty() {
    let data: Vec<i32> = vec![];
    let positions: Vec<usize> = vec![];
    let result = indices_slice(&data, &positions);
    assert!(result.is_empty())
}

#[test]
fn indices_slice_not_empty_slice_requested_empty() {
    let data: Vec<i32> = vec![1];
    let positions: Vec<usize> = vec![];
    let result = indices_slice(&data, &positions);
    assert!(result.is_empty())
}

#[test]
fn try_indices_slice_duplicate_indices() {
    let data = vec![5, 4, 3, 2, 1];
    let positions = vec![3, 3];
    let result = try_indices_slice(&data, &positions);
    assert_eq!(result.unwrap_err(), TryIndicesError::DuplicateIndex);
}

#[test]
fn try_indices_slice_out_of_bounds() {
    let data = vec![5, 4, 3, 2, 1];
    let positions = vec![3, 5];
    let result = try_indices_slice(&data, &positions);
    assert_eq!(result.unwrap_err(), TryIndicesError::IndexOutOfBounds);
}

#[test]
fn try_indices_slice_empty_collection_requested_indices() {
    let data: Vec<i32> = vec![];
    let positions = vec![0];
    let result = try_indices_slice(&data, &positions);
    assert_eq!(result.unwrap_err(), TryIndicesError::IndexOutOfBounds);
}

#[test]
fn indices_array_works() {
    let mut data = vec![5, 4, 3, 2, 1];
    let handles = indices_array(&data, &[1, 3]);
    let one = handles[0];
    let two = handles[1];
    assert_eq!(*one.read(&data), 4);
    assert_eq!(*two.read(&data), 2);
    one.write(&mut data, 10);
    two.write(&mut data, 20);
    assert_eq!(data, vec![5, 10, 3, 20, 1]);
}

#[test]
fn indices_array_out_of_order() {
    let mut data = vec![5, 4, 3, 2, 1];
    let handles = indices_array(&data, &[3, 1]);
    let one = handles[0];
    let two = handles[1];
    assert_eq!(*one.read(&data), 2);
    assert_eq!(*two.read(&data), 4);
    one.write(&mut data, 10);
    two.write(&mut data, 20);
    assert_eq!(data, vec![5, 20, 3, 10, 1]);
}

#[test]
fn indices_array_more_than_two_indices() {
    let mut data = vec![5, 4, 3, 2, 1];
    let handles = indices_array(&data, &[3, 1, 2]);
    let (one, two, three) = (handles[0], handles[1], handles[2]);
    assert_eq!(*one.read(&data), 2);
    assert_eq!(*two.read(&data), 4);
    assert_eq!(*three.read(&data), 3);
    one.write(&mut data, 10);
    two.write(&mut data, 20);
    three.write(&mut data, 30);
    assert_eq!(data, vec![5, 20, 30, 10, 1]);
}

#[test]
fn indices_array_empty_requested_empty() {
    let data: Vec<i32> = vec![];
    let positions: [usize; 0] = [];
    let result = indices_array(&data, &positions);
    assert!(result.is_empty())
}

#[test]
fn indices_array_not_empty_slice_requested_empty() {
    let data: Vec<i32> = vec![1];
    let positions: [usize; 0] = [];
    let result = indices_array(&data, &positions);
    assert!(result.is_empty())
}

#[test]
fn indices_slices_works() {
    let mut data = vec![5, 4, 3, 2, 1];
    let groups = vec![vec![1, 3], vec![4, 2]];
    let handle_groups = indices_slices(&data, &groups);
    let one = &handle_groups[0];
    let two = &handle_groups[1];
    assert_eq!(*one[0].read(&data), 4);
    assert_eq!(*one[1].read(&data), 2);
    assert_eq!(*two[0].read(&data), 1);
    assert_eq!(*two[1].read(&data), 3);
    one[0].write(&mut data, 10);
    two[0].write(&mut data, 20);
    assert_eq!(data, vec![5, 10, 3, 2, 20]);
}

#[test]
fn indices_slices_more_than_two_indices() {
    let data = vec![5, 4, 3, 2, 1];
    let groups = vec![vec![3, 1, 2], vec![0]];
    let handle_groups = indices_slices(&data, &groups);
    let one = &handle_groups[0];
    let two = &handle_groups[1];
    assert_eq!(*one[0].read(&data), 2);
    assert_eq!(*one[1].read(&data), 4);
    assert_eq!(*one[2].read(&data), 3);
    assert_eq!(one.len(), 3);
    assert_eq!(*two[0].read(&data), 5);
    assert_eq!(two.len(), 1);
}

#[test]
fn try_indices_slices_duplicate_indices() {
    let data = vec![5, 4, 3, 2, 1];
    let groups = vec![vec![3, 3], vec![1, 2]];
    let result = try_indices_slices(&data, &groups);
    assert_eq!(result.unwrap_err(), TryIndicesError::DuplicateIndex);
}

#[test]
fn try_indices_slices_duplicate_indices_different_slice() {
    let data = vec![5, 4, 3, 2, 1];
    let groups = vec![vec![3, 1], vec![2, 3]];
    let result = try_indices_slices(&data, &groups);
    assert_eq!(result.unwrap_err(), TryIndicesError::DuplicateIndex);
}

#[test]
fn try_indices_slices_out_of_bounds() {
    let data = vec![5, 4, 3, 2, 1];
    let groups = vec![vec![3, 5], vec![1, 0]];
    let result = try_indices_slices(&data, &groups);
    assert_eq!(result.unwrap_err(), TryIndicesError::IndexOutOfBounds);
}

#[test]
fn indices_slices_data_not_empty_and_indices_requested_has_indices() {
    let data: Vec<i32> = vec![1];
    let groups = vec![vec![0]];
    let result = indices_slices(&data, &groups);
    assert_eq!(result.len(), 1);
    assert_eq!(*result[0][0].read(&data), 1)
}

#[test]
fn try_indices_slices_data_empty_and_indices_requested_has_indices() {
    let data: Vec<i32> = vec![];
    let groups = vec![vec![0]];
    let result = try_indices_slices(&data, &groups);
    assert_eq!(result.unwrap_err(), TryIndicesError::IndexOutOfBounds);
}

#[test]
fn indices_slices_data_not_empty_and_indices_requested_has_no_indices() {
    let data: Vec<i32> = vec![1];
    let groups: Vec<Vec<usize>> = vec![vec![]];
    let result = indices_slices(&data, &groups);
    assert_eq!(result.len(), 1);
    assert!(result[0].is_empty())
}

#[test]
fn indices_slices_data_empty_and_indices_requested_has_no_indices() {
    let data: Vec<i32> = vec![];
    let groups: Vec<Vec<usize>> = vec![vec![]];
    let result = indices_slices(&data, &groups);
    assert_eq!(result.len(), 1);
    assert!(result[0].is_empty())
}

#[test]
fn indices_slices_data_not_empty_and_indices_requested_empty() {
    let data: Vec<i32> = vec![1];
    let groups: Vec<Vec<usize>> = vec![];
    let result = indices_slices(&data, &groups);
    assert_eq!(result.len(), 0);
}

#[test]
fn indices_slices_data_empty_and_indices_requested_empty() {
    let data: Vec<i32> = vec![];
    let groups: Vec<Vec<usize>> = vec![];
    let result = indices_slices(&data, &groups);
    assert_eq!(result.len(), 0);
}

#[derive(Clone)]
struct Person {
    first: String,
    last: String,
}

#[test]
fn example1() {
    let mut data = vec![
        Person {
            first: "John".to_string(),
            last: "Doe".to_string(),
        },
        Person {
            first: "Jane".to_string(),
            last: "Smith".to_string(),
        },
        Person {
            first: "Alice".to_string(),
            last: "Johnson".to_string(),
        },
        Person {
            first: "Bob".to_string(),
            last: "Brown".to_string(),
        },
        Person {
            first: "Charlie".to_string(),
            last: "White".to_string(),
        },
    ];
    fn modify(data: &mut Vec<Person>, index: usize) {
        let (four, function_provided, three) = indices3(data, 4, index, 3);
        let mut p = four.read(data).clone();
        p.last = "Black".to_string();
        four.write(data, p);
        let mut p = function_provided.read(data).clone();
        p.first = "Jack".to_string();
        function_provided.write(data, p);
        let mut p = three.read(data).clone();
        p.last = "Jones".to_string();
        three.write(data, p);
    }
    modify(&mut data, 1);
    assert_eq!(data[4].last, "Black");
    assert_eq!(data[1].first, "Jack");
    assert_eq!(data[3].last, "Jones");
}

#[derive(Clone)]
struct Node {
    index: usize,
    visited: usize,
    edges: Vec<usize>,
    message: String,
}

#[test]
fn graph_example() {
    let mut graph = vec![
        Node {
            index: 0,
            visited: usize::MAX,
            edges: vec![1, 2],
            message: String::new(),
        },
        Node {
            index: 1,
            visited: usize::MAX,
            edges: vec![0, 2],
            message: String::new(),
        },
        Node {
            index: 2,
            visited: usize::MAX,
            edges: vec![3],
            message: String::new(),
        },
        Node {
            index: 4,
            visited: usize::MAX,
            edges: vec![1],
            message: String::new(),
        },
    ];

    fn traverse_graph(graph: &mut Vec<Node>, current: usize, start: usize) -> bool {
        if current == start {
            return true;
        }
        let edges = graph[current].edges.clone();
        let groups = vec![vec![current], edges.clone()];
        let handle_groups = indices_slices(graph, &groups);
        let current_node = handle_groups[0].clone();
        let edge_nodes = handle_groups[1].clone();
        for edge_node in edge_nodes.iter() {
            let mut cur = current_node[0].read(graph).clone();
            cur.visited = current;
            current_node[0].write(graph, cur);
            let came_from = current_node[0].read(graph).visited;
            let mut target = edge_node.read(graph).clone();
            target.message.push_str(&format!(
                "This is Node `{}` Came from Node `{}`.",
                target.index, came_from
            ));
            edge_node.write(graph, target);
        }
        for edge in edges {
            if traverse_graph(graph, edge, start) {
                return true;
            }
        }
        return false;
    }
    traverse_graph(&mut graph, 2, 0);
    let answers = [
        "This is Node `0` Came from Node `1`.",
        "This is Node `1` Came from Node `3`.",
        "This is Node `2` Came from Node `1`.",
        "This is Node `4` Came from Node `2`.",
    ];
    for (index, node) in graph.iter().enumerate() {
        assert_eq!(&node.message, answers[index]);
    }
}
