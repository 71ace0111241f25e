use prime_dispatch::dispatch::{invocations_issued, workgroup_count};
use prime_dispatch::kernel::{init_sequence, run_kernel};

/// Trial-division reference, by divisors up to the square root: for n >= 2
/// a divisor in (1, n/2] exists exactly when one in (1, sqrt(n)] does.
fn is_prime_ref(n: u32) -> bool {
    if n < 2 {
        return false;
    }
    let mut d: u32 = 2;
    while (d as u64) * (d as u64) <= n as u64 {
        if n % d == 0 {
            return false;
        }
        d += 1;
    }
    true
}

fn expected(n: u32) -> u32 {
    if is_prime_ref(n) {
        n
    } else {
        1
    }
}

#[test]
fn workgroup_count_is_exact_on_multiples() {
    assert_eq!(workgroup_count(768, 768), 1);
    assert_eq!(workgroup_count(24576, 768), 32);
    assert_eq!(workgroup_count(18874368, 768), 24576);
    assert_eq!(workgroup_count(0, 64), 0);
    for (len, size) in [(128u32, 64u32), (640, 64), (768, 256), (65536, 64)] {
        let groups = workgroup_count(len, size);
        assert_eq!(groups as u64 * size as u64, len as u64, "({}, {})", len, size);
    }
}

#[test]
fn workgroup_count_rounds_up() {
    assert_eq!(workgroup_count(1, 64), 1);
    assert_eq!(workgroup_count(8, 3), 3);
    assert_eq!(workgroup_count(769, 768), 2);
    assert_eq!(workgroup_count(u32::MAX, 2), 0x8000_0000);
}

#[test]
fn invocations_issued_is_the_product() {
    assert_eq!(invocations_issued(1024, 64), 65536);
    assert_eq!(invocations_issued(0, 768), 0);
    assert_eq!(invocations_issued(u32::MAX, u32::MAX), (u32::MAX as u64) * (u32::MAX as u64));
}

#[test]
fn scenario_one_full_workgroup() {
    // A buffer of 768 elements with the kernel's declared workgroup size of
    // 768: one workgroup, every index visited exactly once.
    let groups = workgroup_count(768, 768);
    assert_eq!(groups, 1);
    let invocations = invocations_issued(groups, 768);
    assert_eq!(invocations, 768);
    let mut buf = init_sequence(768);
    run_kernel(&mut buf, invocations as usize);
    for (i, v) in buf.iter().enumerate() {
        assert_eq!(*v, expected(i as u32), "element {}", i);
    }
}

#[test]
fn scenario_fixed_dispatch_leaves_a_tail_unprocessed() {
    // Regression for the coverage bug: a fixed dispatch of 1024 groups of 64
    // invocations on a buffer of 67,108,864 elements only reaches the first
    // 65,536; everything past that keeps its initial value. This asserts the
    // buggy behaviour explicitly — the dispatch count must come from the
    // buffer length, and here it deliberately does not.
    const LEN: u32 = 67_108_864;
    let invocations = invocations_issued(1024, 64);
    assert_eq!(invocations, 65_536);
    assert!((invocations as u64) < LEN as u64);

    let mut buf = init_sequence(LEN);
    run_kernel(&mut buf, invocations as usize);

    for i in 0..invocations as usize {
        assert_eq!(buf[i], expected(i as u32), "processed element {}", i);
    }
    for (i, v) in buf.iter().enumerate().skip(invocations as usize) {
        assert_eq!(*v, i as u32, "unprocessed element {}", i);
    }
}

#[test]
fn dispatch_buffer_derives_the_count_from_the_length() {
    let mut buf = init_sequence(24);
    let groups = prime_dispatch::dispatch::dispatch_buffer(&mut buf, 8);
    assert_eq!(groups, 3);
    assert_eq!(
        buf,
        vec![1, 1, 2, 3, 1, 5, 1, 7, 1, 1, 1, 11, 1, 13, 1, 1, 1, 17, 1, 19, 1, 1, 1, 23]
    );

    let mut big = init_sequence(768);
    let groups = prime_dispatch::dispatch::dispatch_buffer(&mut big, 768);
    assert_eq!(groups, 1);
    for (i, v) in big.iter().enumerate() {
        assert_eq!(*v, expected(i as u32), "element {}", i);
    }
}
