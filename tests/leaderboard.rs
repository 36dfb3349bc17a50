use summoner_tracker::leaderboard::{first_solo_queue, top_indices};

#[test]
fn top_five_by_points() {
    let points = vec![10, 50, 30, 50, 70, 5, 30];
    assert_eq!(top_indices(&points, 5), vec![4, 1, 3, 2, 6]);
}

#[test]
fn fewer_entries_than_asked() {
    assert_eq!(top_indices(&vec![3, 9], 5), vec![1, 0]);
    assert!(top_indices(&vec![], 5).is_empty());
    assert!(top_indices(&vec![1, 2, 3], 0).is_empty());
}

#[test]
fn equal_points_keep_input_order() {
    assert_eq!(top_indices(&vec![7, 7, 7, 7], 3), vec![0, 1, 2]);
    assert_eq!(top_indices(&vec![-1, i64::MIN, i64::MAX], 3), vec![2, 0, 1]);
}

#[test]
fn first_solo_queue_entry() {
    assert_eq!(first_solo_queue(&vec![false, true, true]), Some(1));
    assert_eq!(first_solo_queue(&vec![true]), Some(0));
    assert_eq!(first_solo_queue(&vec![false, false]), None);
    assert_eq!(first_solo_queue(&vec![]), None);
}
