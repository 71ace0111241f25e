//! Workgroup-count arithmetic for the dispatch.
//!
//! The number of workgroups must be derived from the buffer length and the
//! kernel's declared workgroup size: a dispatch issues
//! `group_count * workgroup_size` invocations, and any element past that
//! product is never visited.

use crate::kernel::{kernel_spec, run_kernel};
use vstd::arithmetic::div_mod::lemma_fundamental_div_mod;
use vstd::prelude::*;

verus! {

/// The workgroup count a buffer of `len` elements needs with groups of
/// `size` invocations: `len / size`, rounded up.
pub open spec fn spec_group_count(len: nat, size: nat) -> nat
    recommends
        size > 0,
{
    if len % size == 0 {
        len / size
    } else {
        len / size + 1
    }
}

/// A dispatch of `groups` workgroups of `size` invocations visits every
/// element of a buffer of `len` elements.
pub open spec fn covers(groups: nat, size: nat, len: nat) -> bool {
    groups * size >= len
}

/// Derives the workgroup count from the buffer length, rounding up so that
/// the dispatch covers the whole buffer with no group to spare.
pub fn workgroup_count(len: u32, size: u32) -> (r: u32)
    requires
        size >= 1,
    ensures
        r == spec_group_count(len as nat, size as nat),
        covers(r as nat, size as nat, len as nat),
        len > 0 ==> ((r as nat - 1) * (size as nat) < len as nat),
        len as nat % (size as nat) == 0 ==> ((r as nat) * (size as nat) == len as nat),
{
    let groups: u32 = len / size;
    proof {
        lemma_group_count_bounds(len as nat, size as nat);
    }
    if len % size == 0 {
        groups
    } else {
        groups + 1
    }
}

/// The bounds behind `workgroup_count`: the rounded-up count covers the
/// buffer, and one group fewer would leave a tail unvisited.
proof fn lemma_group_count_bounds(len: nat, size: nat)
    requires
        size >= 1,
    ensures
        spec_group_count(len, size) * size >= len,
        len > 0 ==> (spec_group_count(len, size) - 1) * size < len,
        len % size == 0 ==> spec_group_count(len, size) * size == len,
        len % size != 0 ==> len / size + 1 <= len,
{
    lemma_fundamental_div_mod(len as int, size as int);
    let q = len / size;
    let m = len % size;
    assert(len == size * q + m);
    assert(q * size == size * q) by (nonlinear_arith);
    if m == 0 {
        assert(spec_group_count(len, size) * size == len);
        if len > 0 {
            assert(q >= 1) by (nonlinear_arith)
                requires
                    len == size * q,
                    len > 0,
            ;
            assert((q - 1) * size == size * q - size) by (nonlinear_arith);
        }
    } else {
        assert(spec_group_count(len, size) == q + 1);
        assert((q + 1) * size == size * q + size) by (nonlinear_arith);
        assert(m < size);
        assert((q + 1) * size >= len);
        assert(q * size < len);
        assert(q + 1 <= size * q + m) by (nonlinear_arith)
            requires
                m >= 1,
                size >= 1,
        ;
    }
}

/// Law: when the buffer length is an exact multiple of the workgroup size,
/// the derived dispatch issues exactly `len` invocations — full coverage
/// with nothing left over.
pub proof fn lemma_dispatch_covers_exactly(len: nat, size: nat)
    requires
        size > 0,
        len % size == 0,
    ensures
        spec_group_count(len, size) * size == len,
{
    lemma_group_count_bounds(len, size);
}

/// The number of invocations a dispatch of `groups` workgroups of `size`
/// invocations issues.
pub fn invocations_issued(groups: u32, size: u32) -> (r: u64)
    ensures
        r == groups as nat * size as nat,
        covers(groups as nat, size as nat, r as nat),
{
    proof {
        assert(groups as nat * size as nat <= 0xffff_ffff * 0xffff_ffff) by (nonlinear_arith)
            requires
                groups as nat <= 0xffff_ffff,
                size as nat <= 0xffff_ffff,
        ;
    }
    groups as u64 * size as u64
}

/// The canonical host-side dispatch: derives the workgroup count from the
/// buffer's own length — never from a fixed constant — and issues exactly
/// enough invocations to visit every element once. Returns the derived
/// count. The length must be a multiple of the kernel's declared workgroup
/// size: that is the buffer's shape invariant, and it is what makes the
/// coverage exact.
pub fn dispatch_buffer(buf: &mut Vec<u32>, size: u32) -> (groups: u32)
    requires
        size >= 1,
        old(buf)@.len() % (size as nat) == 0,
        old(buf)@.len() <= u32::MAX,
    ensures
        groups == spec_group_count(old(buf)@.len(), size as nat),
        (groups as nat) * (size as nat) == old(buf)@.len(),
        final(buf)@.len() == old(buf)@.len(),
        forall|i: int| 0 <= i < old(buf)@.len() ==> final(buf)@[i] == kernel_spec(old(buf)@[i]),
{
    let len: u32 = buf.len() as u32;
    let groups: u32 = workgroup_count(len, size);
    let invocations: u64 = invocations_issued(groups, size);
    run_kernel(buf, invocations as usize);
    groups
}

} // verus!
