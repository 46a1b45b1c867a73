use dfiles::config::merge;

#[test]
fn return_some() {
    let left: Vec<i32> = vec![1, 2, 3, 4];
    let right: Vec<i32> = vec![5, 6, 7];
    let empty: Option<Vec<i32>> = Some(Vec::new());

    assert_eq!(
        merge(&Some(left.clone()), &Some(right.clone()), true),
        Some(vec![5, 6, 7])
    );
    assert_eq!(
        merge(&Some(left.clone()), &Some(right.clone()), false),
        Some(vec![1, 2, 3, 4, 5, 6, 7])
    );

    assert_eq!(
        merge(&Some(left.clone()), &None, false),
        Some(vec![1, 2, 3, 4])
    );
    assert_eq!(
        merge(&Some(left.clone()), &None, true),
        Some(vec![1, 2, 3, 4])
    );

    assert_eq!(
        merge(&None, &Some(right.clone()), false),
        Some(vec![5, 6, 7])
    );
    assert_eq!(
        merge(&None, &Some(right.clone()), true),
        Some(vec![5, 6, 7])
    );

    assert_eq!(
        merge(&Some(left.clone()), &empty, false),
        Some(vec![1, 2, 3, 4])
    );
    assert_eq!(merge(&Some(left), &empty, true), None);

    assert_eq!(
        merge(&empty, &Some(right.clone()), false),
        Some(vec![5, 6, 7])
    );
    assert_eq!(merge(&empty, &Some(right), true), Some(vec![5, 6, 7]));
}

#[test]
fn return_none() {
    let none: Option<Vec<i32>> = None;
    let empty: Option<Vec<i32>> = Some(Vec::new());

    assert_eq!(merge(&none, &none, true), None);
    assert_eq!(merge(&none, &none, false), None);

    assert_eq!(merge(&none, &empty, true), None);
    assert_eq!(merge(&none, &empty, false), None);

    assert_eq!(merge(&empty, &empty, true), None);
    assert_eq!(merge(&empty, &empty, false), None);

    assert_eq!(merge(&empty, &none, true), None);
    assert_eq!(merge(&empty, &none, false), None);
}
