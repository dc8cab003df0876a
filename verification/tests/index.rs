use anathema_widgets::index::{Direction, Index};

#[test]
fn next_index() {
    let mut index = Index::new(Direction::Forward, 1);
    assert_eq!(0, index.next().unwrap());
    assert!(index.next().is_none());
}

#[test]
fn next_zero_index_len() {
    let mut index = Index::new(Direction::Forward, 0);
    assert!(index.next().is_none());
}

#[test]
fn reverse() {
    let mut index = Index::new(Direction::Forward, 2);
    index.next(); // 0
    index.next(); // 1
    index.reverse(); // next is 0
    assert_eq!(0, index.next().unwrap());
}

#[test]
fn reverse_empty() {
    let mut index = Index::new(Direction::Forward, 0);
    index.reverse();
    assert!(index.next().is_none());
}

#[test]
fn reverse_one_len() {
    let mut index = Index::new(Direction::Forward, 1);
    index.reverse();
    assert!(index.next().is_none());
}

#[test]
fn flip() {
    let mut index = Index::new(Direction::Forward, 2);
    index.flip();
    assert_eq!(1, index.next().unwrap());
}

#[test]
fn flip_empty() {
    let mut index = Index::new(Direction::Forward, 0);
    index.flip();
    assert!(index.next().is_none());
}

#[test]
fn flip_single() {
    let mut index = Index::new(Direction::Forward, 1);
    index.flip();
    assert_eq!(0, index.next().unwrap());
}

#[test]
fn backward_walk_visits_every_index_once() {
    let mut index = Index::new(Direction::Backward, 3);
    assert_eq!(Some(2), index.next());
    assert_eq!(Some(1), index.next());
    assert_eq!(Some(0), index.next());
    assert_eq!(None, index.next());
}

#[test]
fn reverse_backward_walk_continues_forward() {
    let mut index = Index::new(Direction::Backward, 4);
    assert_eq!(Some(3), index.next());
    assert_eq!(Some(2), index.next());
    index.reverse();
    assert_eq!(Some(3), index.next());
    assert_eq!(None, index.next());
}

#[test]
fn reverse_twice_restores_walk() {
    let mut index = Index::new(Direction::Forward, 5);
    index.next();
    index.next();
    index.reverse();
    index.reverse();
    assert_eq!(Some(2), index.next());
}


#[test]
fn reverse_walks_back_over_produced_indices() {
    let mut idx = Index::new(Direction::Forward, 5);
    assert_eq!(idx.next(), Some(0));
    assert_eq!(idx.next(), Some(1));
    assert_eq!(idx.next(), Some(2));
    idx.reverse();
    assert_eq!(idx.next(), Some(1));
    assert_eq!(idx.next(), Some(0));
    assert_eq!(idx.next(), None);
}
