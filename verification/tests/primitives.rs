use malbolge::crazy_op;
use malbolge::is_printable;
use malbolge::tri_rotate;

#[test]
fn rotate_test() {
    let input: usize = 17;
    let rotated = (0..10).fold(input, |prev, _| tri_rotate(prev));
    assert_eq!(input, rotated);
}

#[test]
fn rotate_examples() {
    assert_eq!(tri_rotate(0), 0);
    assert_eq!(tri_rotate(1), 19683);
    assert_eq!(tri_rotate(17), 39371);
    assert_eq!(tri_rotate(59048), 59048);
}

#[test]
fn rotate_ten_cycle_every_value() {
    for x in 0..59049usize {
        let mut v = x;
        for _ in 0..10 {
            v = tri_rotate(v);
        }
        assert_eq!(v, x);
    }
}

#[test]
fn rotate_injective_every_value() {
    // The inverse rotation recovers every input, so no two collide.
    for x in 0..59049usize {
        let r = tri_rotate(x);
        let back = (r % 19683) * 3 + r / 19683;
        assert_eq!(back, x);
    }
}

#[test]
fn crazy_op_examples() {
    assert_eq!(crazy_op(0, 0), 29524);
    assert_eq!(crazy_op(1, 2), 29525);
    assert_eq!(crazy_op(98, 40), 29438);
    assert_eq!(crazy_op(59048, 59048), 29524);
}

#[test]
fn crazy_op_total_and_deterministic() {
    let samples: Vec<usize> = vec![0, 1, 2, 3, 17, 98, 255, 6561, 19683, 29524, 59047, 59048];
    for &x in &samples {
        for &y in &samples {
            let r = crazy_op(x, y);
            assert!(r < 59049);
            assert_eq!(r, crazy_op(x, y));
        }
    }
}

#[test]
fn printable_range_bounds() {
    assert!(!is_printable(32));
    assert!(is_printable(33));
    assert!(is_printable(126));
    assert!(!is_printable(127));
    assert!(!is_printable(0));
    assert!(!is_printable(59048));
}
