use prime_dispatch::kernel::{apply_kernel_at, collatz, init_sequence, kernel_value, run_kernel};

/// Trial-division reference: does any d with 1 < d <= n/2 divide n?
fn is_prime_ref(n: u32) -> bool {
    if n < 2 {
        return false;
    }
    for d in 2..=(n / 2) {
        if n % d == 0 {
            return false;
        }
    }
    true
}

fn expected(n: u32) -> u32 {
    if is_prime_ref(n) {
        n
    } else {
        1
    }
}

#[test]
fn collatz_small_values() {
    assert_eq!(collatz(0), None);
    assert_eq!(collatz(1), None);
    assert_eq!(collatz(2), Some(2));
    assert_eq!(collatz(3), Some(3));
    assert_eq!(collatz(4), None);
    assert_eq!(collatz(5), Some(5));
    assert_eq!(collatz(6), None);
    assert_eq!(collatz(7), Some(7));
    assert_eq!(collatz(9), None);
    assert_eq!(collatz(13), Some(13));
    assert_eq!(collatz(25), None);
    assert_eq!(collatz(97), Some(97));
}

#[test]
fn collatz_matches_reference_up_to_two_thousand() {
    for n in 0..2000u32 {
        let want = if is_prime_ref(n) { Some(n) } else { None };
        assert_eq!(collatz(n), want, "collatz({})", n);
    }
}

#[test]
fn kernel_value_keeps_primes_and_collapses_the_rest() {
    assert_eq!(kernel_value(0), 1);
    assert_eq!(kernel_value(1), 1);
    assert_eq!(kernel_value(2), 2);
    assert_eq!(kernel_value(4), 1);
    assert_eq!(kernel_value(11), 11);
    assert_eq!(kernel_value(12), 1);
}

#[test]
fn init_sequence_counts_up_from_zero() {
    let buf = init_sequence(6);
    assert_eq!(buf, vec![0, 1, 2, 3, 4, 5]);
    assert_eq!(init_sequence(0), Vec::<u32>::new());
}

#[test]
fn apply_kernel_at_touches_one_index() {
    let mut buf = vec![4, 5, 6];
    apply_kernel_at(&mut buf, 1);
    assert_eq!(buf, vec![4, 5, 6]);
    apply_kernel_at(&mut buf, 0);
    assert_eq!(buf, vec![1, 5, 6]);
}

#[test]
fn scenario_small_buffer() {
    let mut buf = init_sequence(8);
    assert_eq!(buf, vec![0, 1, 2, 3, 4, 5, 6, 7]);
    let len = buf.len();
    run_kernel(&mut buf, len);
    assert_eq!(buf, vec![1, 1, 2, 3, 1, 5, 1, 7]);
}

#[test]
fn rerunning_the_kernel_is_a_no_op() {
    let mut buf = init_sequence(300);
    let len = buf.len();
    run_kernel(&mut buf, len);
    let once = buf.clone();
    run_kernel(&mut buf, len);
    assert_eq!(buf, once);
    for n in 0..300u32 {
        assert_eq!(kernel_value(kernel_value(n)), kernel_value(n), "idempotence at {}", n);
    }
}

#[test]
fn run_kernel_leaves_the_tail_alone() {
    let mut buf = init_sequence(10);
    run_kernel(&mut buf, 4);
    assert_eq!(buf, vec![1, 1, 2, 3, 4, 5, 6, 7, 8, 9]);
}

#[test]
fn run_kernel_matches_reference() {
    let mut buf = init_sequence(768);
    let len = buf.len();
    run_kernel(&mut buf, len);
    for (i, v) in buf.iter().enumerate() {
        assert_eq!(*v, expected(i as u32), "element {}", i);
    }
}
