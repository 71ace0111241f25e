//! The per-element compute kernel, modelled on the host.
//!
//! Each device invocation reads one buffer element `n`, scans candidate
//! divisors from `n / 2` downward, and writes back either `n` (no divisor in
//! `(1, n/2]` divides it: `n` is prime) or `1`.

use vstd::prelude::*;

verus! {

/// `d` evenly divides `n`.
pub open spec fn divides(d: nat, n: nat) -> bool {
    n % d == 0
}

/// Some divisor strictly greater than 1 and at most `n / 2` divides `n`.
pub open spec fn has_proper_divisor(n: nat) -> bool {
    exists|d: nat| 1 < d <= n / 2 && #[trigger] divides(d, n)
}

/// The kernel keeps `n` exactly when `n >= 2` and no integer in `(1, n/2]`
/// divides it evenly.
pub open spec fn is_kernel_prime(n: nat) -> bool {
    n >= 2 && !has_proper_divisor(n)
}

/// The value the kernel writes back for the element `n`: `n` itself when it
/// is prime, `1` otherwise.
pub open spec fn kernel_spec(n: u32) -> u32 {
    if is_kernel_prime(n as nat) {
        n
    } else {
        1
    }
}

/// Scans divisors of `n` from `n / 2` downward and reports whether `n` is
/// prime: `Some(n)` when it is, `None` otherwise (including `n` of 0 or 1).
pub fn collatz(n: u32) -> (r: Option<u32>)
    ensures
        r == if is_kernel_prime(n as nat) {
            Some(n)
        } else {
            None::<u32>
        },
{
    if n == 0 || n == 1 {
        return None;
    }
    let mut divisor: u32 = n / 2;
    while n % divisor != 0
        invariant
            2 <= n,
            1 <= divisor <= n / 2,
            forall|k: nat| divisor < k <= n as nat / 2 ==> !divides(k, n as nat),
        decreases divisor,
    {
        divisor -= 1;
    }
    if divisor == 1 {
        Some(n)
    } else {
        proof {
            assert(divides(divisor as nat, n as nat));
        }
        None
    }
}

/// The write-back a device invocation performs: the prime is kept, anything
/// else becomes 1.
pub fn kernel_value(n: u32) -> (r: u32)
    ensures
        r == kernel_spec(n),
{
    match collatz(n) {
        Some(v) => v,
        None => 1,
    }
}

/// The host-side initial buffer contents: the sequence 0, 1, ..., n - 1.
pub fn init_sequence(n: u32) -> (r: Vec<u32>)
    ensures
        r@.len() == n as nat,
        forall|i: int| 0 <= i < n as int ==> r@[i] == i as u32,
{
    let mut buf: Vec<u32> = Vec::new();
    let mut next: u32 = 0;
    while next < n
        invariant
            next <= n,
            buf@.len() == next as nat,
            forall|i: int| 0 <= i < next as int ==> buf@[i] == i as u32,
        decreases n - next,
    {
        buf.push(next);
        next += 1;
    }
    buf
}

/// One device invocation: replaces the element at `index` with the kernel's
/// output for it and touches nothing else.
pub fn apply_kernel_at(buf: &mut Vec<u32>, index: usize)
    requires
        index < old(buf)@.len(),
    ensures
        final(buf)@.len() == old(buf)@.len(),
        final(buf)@[index as int] == kernel_spec(old(buf)@[index as int]),
        forall|i: int|
            0 <= i < old(buf)@.len() && i != index as int ==> final(buf)@[i] == old(buf)@[i],
{
    let v = kernel_value(buf[index]);
    buf[index] = v;
}

/// A dispatch that issues `invocations` invocations: each of the first
/// `invocations` elements is replaced by the kernel's output for it; every
/// element past that bound is never visited and keeps its value.
pub fn run_kernel(buf: &mut Vec<u32>, invocations: usize)
    requires
        invocations <= old(buf)@.len(),
    ensures
        final(buf)@.len() == old(buf)@.len(),
        forall|i: int|
            0 <= i < invocations as int ==> final(buf)@[i] == kernel_spec(old(buf)@[i]),
        forall|i: int|
            invocations as int <= i < old(buf)@.len() ==> final(buf)@[i] == old(buf)@[i],
{
    let mut idx: usize = 0;
    while idx < invocations
        invariant
            idx <= invocations,
            invocations <= old(buf)@.len(),
            buf@.len() == old(buf)@.len(),
            forall|i: int| 0 <= i < idx as int ==> buf@[i] == kernel_spec(old(buf)@[i]),
            forall|i: int| idx as int <= i < old(buf)@.len() ==> buf@[i] == old(buf)@[i],
        decreases invocations - idx,
    {
        apply_kernel_at(buf, idx);
        idx += 1;
    }
}

/// Law: for n >= 2 the kernel keeps n exactly when no integer d with
/// 1 < d <= n/2 divides n evenly, and writes 1 otherwise; for n of 0 or 1
/// it writes 1.
pub proof fn lemma_kernel_characterisation(n: u32)
    ensures
        n >= 2 ==> ((kernel_spec(n) == n) <==> !has_proper_divisor(n as nat)),
        n >= 2 && has_proper_divisor(n as nat) ==> kernel_spec(n) == 1,
        n < 2 ==> kernel_spec(n) == 1,
{
}

/// Law: the kernel is idempotent on its own output. A value it has collapsed
/// to 1 stays 1, and a prime it has kept is kept again.
pub proof fn lemma_kernel_idempotent(n: u32)
    ensures
        kernel_spec(kernel_spec(n)) == kernel_spec(n),
{
    if !is_kernel_prime(n as nat) {
        assert(!is_kernel_prime(1nat));
    }
}

/// Law: rerunning the kernel over a fully processed buffer is a no-op. If
/// `once` is `before` with the kernel applied at every index, and `twice` is
/// `once` with the kernel applied at every index again, the second pass
/// changed nothing.
pub proof fn lemma_rerun_is_noop(before: Seq<u32>, once: Seq<u32>, twice: Seq<u32>)
    requires
        once.len() == before.len(),
        twice.len() == before.len(),
        forall|i: int| 0 <= i < before.len() ==> once[i] == kernel_spec(before[i]),
        forall|i: int| 0 <= i < before.len() ==> twice[i] == kernel_spec(once[i]),
    ensures
        twice =~= once,
{
    assert forall|i: int| 0 <= i < before.len() implies twice[i] == once[i] by {
        lemma_kernel_idempotent(before[i]);
    }
}

} // verus!
