use vstd::prelude::*;

verus! {

/// The waypoint a moving platform heads for next: when it has arrived
/// (within two units of its target) it moves on to the following waypoint,
/// wrapping around after the last one.
pub open spec fn spec_next_target(current: nat, len: nat, arrived: bool) -> nat {
    if arrived {
        (current + 1) % len
    } else {
        current
    }
}

/// Picks the waypoint a platform with `len` waypoints heads for.
pub fn next_target(current: usize, len: usize, arrived: bool) -> (next: usize)
    requires
        len > 0,
        current < len,
    ensures
        next == spec_next_target(current as nat, len as nat, arrived),
        next < len,
{
    if arrived {
        if current + 1 == len {
            proof {
                vstd::arithmetic::div_mod::lemma_mod_self_0(len as int);
            }
            0
        } else {
            proof {
                vstd::arithmetic::div_mod::lemma_small_mod((current + 1) as nat, len as nat);
            }
            current + 1
        }
    } else {
        current
    }
}

/// A platform keeps its target until it arrives, and then heads for the
/// following waypoint, or for the first after the last.
pub proof fn lemma_platform_waits_until_arrival(current: nat, len: nat)
    requires
        current < len,
    ensures
        spec_next_target(current, len, false) == current,
        current + 1 < len ==> spec_next_target(current, len, true) == current + 1,
        current + 1 == len ==> spec_next_target(current, len, true) == 0,
{
    if current + 1 < len {
        vstd::arithmetic::div_mod::lemma_small_mod((current + 1) as nat, len);
    } else {
        vstd::arithmetic::div_mod::lemma_mod_self_0(len as int);
    }
}

/// The target after `k` arrivals.
pub open spec fn target_after(start: nat, len: nat, k: nat) -> nat
    decreases k,
{
    if k == 0 {
        start
    } else {
        spec_next_target(target_after(start, len, (k - 1) as nat), len, true)
    }
}

/// A platform visits its waypoints in order: after `k` arrivals it heads
/// for waypoint `start + k` (modulo the number of waypoints), so after a
/// full round it is back where it began.
pub proof fn lemma_platform_cycles(start: nat, len: nat, k: nat)
    requires
        len > 0,
        start < len,
    ensures
        target_after(start, len, k) == (start + k) % len,
        target_after(start, len, len) == start,
{
    lemma_target_after_mod(start, len, k);
    lemma_platform_cycles_full(start, len);
}

proof fn lemma_platform_cycles_full(start: nat, len: nat)
    requires
        len > 0,
        start < len,
    ensures
        target_after(start, len, len) == start,
{
    lemma_target_after_mod(start, len, len);
    vstd::arithmetic::div_mod::lemma_mod_add_multiples_vanish(start as int, len as int);
    vstd::arithmetic::div_mod::lemma_small_mod(start, len);
}

proof fn lemma_target_after_mod(start: nat, len: nat, k: nat)
    requires
        len > 0,
        start < len,
    ensures
        target_after(start, len, k) == (start + k) % len,
    decreases k,
{
    if k == 0 {
        vstd::arithmetic::div_mod::lemma_small_mod(start, len);
    } else {
        lemma_target_after_mod(start, len, (k - 1) as nat);
        vstd::arithmetic::div_mod::lemma_add_mod_noop_right(1, start + k - 1, len as int);
    }
}

} // verus!
