use workload_configuration::split_workload;

fn numbers(count: u64) -> Vec<u64> {
    (0..count).collect()
}

fn lengths(split: &[Vec<u64>]) -> Vec<usize> {
    split.iter().map(|chunk| chunk.len()).collect()
}

#[test]
fn five_items_over_three_endpoints() {
    let split = split_workload(vec![10u64, 11, 12, 13, 14], 3);
    assert_eq!(split, vec![vec![10u64, 11], vec![12, 13], vec![14]]);
}

#[test]
fn hundred_items_over_two_endpoints() {
    let split = split_workload(numbers(100), 2);
    assert_eq!(lengths(&split), vec![50usize, 50]);
    assert_eq!(split[0], (0..50).collect::<Vec<u64>>());
    assert_eq!(split[1], (50..100).collect::<Vec<u64>>());
}

#[test]
fn empty_list_gives_an_empty_chunk_to_each_endpoint() {
    let split = split_workload(Vec::<u64>::new(), 4);
    assert_eq!(split, vec![Vec::<u64>::new(), Vec::new(), Vec::new(), Vec::new()]);
}

#[test]
fn no_endpoint_gives_no_chunk() {
    let split = split_workload(numbers(7), 0);
    assert!(split.is_empty());
}

#[test]
fn one_endpoint_gets_everything() {
    let split = split_workload(numbers(7), 1);
    assert_eq!(split, vec![numbers(7)]);
}

#[test]
fn more_endpoints_than_items() {
    let split = split_workload(vec![1u64, 2], 5);
    assert_eq!(split, vec![vec![1u64], vec![2], vec![], vec![], vec![]]);
}

#[test]
fn length_that_divides_evenly() {
    let split = split_workload(numbers(12), 4);
    assert_eq!(lengths(&split), vec![3usize, 3, 3, 3]);
}

#[test]
fn longer_chunks_come_first() {
    let split = split_workload(numbers(11), 4);
    assert_eq!(lengths(&split), vec![3usize, 3, 3, 2]);
    let split = split_workload(numbers(9), 4);
    assert_eq!(lengths(&split), vec![3usize, 2, 2, 2]);
}

#[test]
fn chunks_put_together_are_the_list_again() {
    for len in 0u64..40 {
        for num_chunks in 1usize..9 {
            let split = split_workload(numbers(len), num_chunks);
            assert_eq!(split.len(), num_chunks);
            let total: usize = split.iter().map(|chunk| chunk.len()).sum();
            assert_eq!(total, len as usize);
            let joined: Vec<u64> = split.into_iter().flatten().collect();
            assert_eq!(joined, numbers(len));
        }
    }
}

#[test]
fn chunk_lengths_differ_by_one_at_most() {
    for len in 0u64..40 {
        for num_chunks in 1usize..9 {
            let split = split_workload(numbers(len), num_chunks);
            let longest: usize = split.iter().map(|chunk| chunk.len()).max().unwrap();
            let shortest: usize = split.iter().map(|chunk| chunk.len()).min().unwrap();
            assert!(longest - shortest <= 1);
        }
    }
}

#[test]
fn items_that_cannot_be_copied_are_moved() {
    let names: Vec<String> = vec!["a".to_string(), "b".to_string(), "c".to_string()];
    let split = split_workload(names, 2);
    assert_eq!(split, vec![vec!["a".to_string(), "b".to_string()], vec!["c".to_string()]]);
}
