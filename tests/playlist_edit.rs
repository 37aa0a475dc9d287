use qobuz_player::playlist_edit::moved_index;

#[test]
fn test_1() {
    let perm = vec![0, 1, 2, 3, 4, 5];
    let output = moved_index(&perm);

    assert_eq!(output, None);
}

#[test]
fn test_2() {
    let perm = vec![1, 2, 3, 4, 5, 0];
    let output = moved_index(&perm).unwrap();

    assert_eq!(output.moved_index, 0);
    assert_eq!(output.insert_before, 7);
}

#[test]
fn test_3() {
    let perm = vec![2, 0, 1, 3, 4, 5];
    let output = moved_index(&perm).unwrap();

    assert_eq!(output.moved_index, 2);
    assert_eq!(output.insert_before, 1);
}

#[test]
fn test_4() {
    let perm = vec![0, 1, 2, 4, 3, 5];
    let output = moved_index(&perm).unwrap();

    assert_eq!(output.moved_index, 3);
    assert_eq!(output.insert_before, 6);
}

#[test]
fn moved_index_of_swap_at_start() {
    let perm = vec![1, 0, 2];
    let output = moved_index(&perm).unwrap();

    assert_eq!(output.moved_index, 0);
    assert_eq!(output.insert_before, 3);
}

#[test]
fn moved_index_of_empty_list() {
    let perm: Vec<usize> = vec![];
    assert_eq!(moved_index(&perm), None);
}
