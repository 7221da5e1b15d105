use thor::order::shuffled_indices;

#[test]
fn shuffled_indices_of_nothing() {
    assert_eq!(shuffled_indices(0), Vec::<usize>::new());
}

#[test]
fn shuffled_indices_of_one() {
    assert_eq!(shuffled_indices(1), vec![0]);
}

#[test]
fn shuffled_indices_hold_each_position_once() {
    for n in 0..12usize {
        for _ in 0..20 {
            let mut order = shuffled_indices(n);
            assert_eq!(order.len(), n);
            order.sort();
            assert_eq!(order, (0..n).collect::<Vec<usize>>());
        }
    }
}

#[test]
fn shuffled_indices_do_not_always_come_in_rising_order() {
    let rising: Vec<usize> = (0..20).collect();
    let mut moved = false;
    for _ in 0..50 {
        if shuffled_indices(20) != rising {
            moved = true;
        }
    }
    assert!(moved);
}

#[test]
fn shuffled_indices_put_every_position_first_sometimes() {
    let mut seen = [false; 3];
    for _ in 0..400 {
        seen[shuffled_indices(3)[0]] = true;
    }
    assert_eq!(seen, [true, true, true]);
}
