//! Sequence allocators: wrapping counters that hand out request identifiers.
//!
//! Every request domain has a counter of its own. An allocation returns the
//! counter's value and moves the counter on by a fixed stride; past the end
//! of the integer's range the counter wraps round.

use rand::Rng;
use vstd::prelude::*;

verus! {

/// Stride of the transport packet counter.
pub const TRANSPORT_STRIDE: u16 = 1;

/// Stride of the request counters.
pub const REQUEST_STRIDE: i32 = 2;

/// Where the transport packet counter starts.
pub const TRANSPORT_SEQ_START: u16 = 0x3635;

/// Where the request identifier counter starts.
pub const REQUEST_ID_START: i32 = 1921334513;

/// The counters of the group, friend, data transfer and upload domains
/// start at a random value below this bound.
pub const RANDOM_START_BOUND: i32 = 20000;

/// `x` brought into the range of `u16` by adding or taking away a multiple
/// of 2^16.
pub open spec fn wrap_u16(x: int) -> u16 {
    (x % 0x1_0000) as u16
}

/// `x` brought into the range of `i32` by adding or taking away a multiple
/// of 2^32.
pub open spec fn wrap_i32(x: int) -> i32 {
    ((x + 0x8000_0000) % 0x1_0000_0000 - 0x8000_0000) as i32
}

/// A 16-bit sequence counter with stride 1.
#[derive(Clone, Copy, Debug, PartialEq, Eq, Structural)]
pub struct SequenceCounter16 {
    pub value: u16,
}

/// A 32-bit sequence counter with stride 2.
#[derive(Clone, Copy, Debug, PartialEq, Eq, Structural)]
pub struct SequenceCounter32 {
    pub value: i32,
}

impl SequenceCounter16 {
    /// The counter after one allocation.
    pub open spec fn advanced(self) -> Self {
        SequenceCounter16 { value: wrap_u16(self.value + TRANSPORT_STRIDE) }
    }

    /// The counter after `n` allocations.
    pub open spec fn after(self, n: nat) -> Self
        decreases n,
    {
        if n == 0 {
            self
        } else {
            self.after((n - 1) as nat).advanced()
        }
    }

    /// The value that allocation number `n` returns, the first being number 0.
    pub open spec fn nth(self, n: nat) -> u16 {
        self.after(n).value
    }

    /// A counter that starts at `start`.
    pub fn new(start: u16) -> (c: Self)
        ensures
            c.value == start,
    {
        SequenceCounter16 { value: start }
    }

    /// Returns the counter's value and moves the counter on by its stride.
    pub fn allocate(&mut self) -> (v: u16)
        ensures
            v == old(self).value,
            *final(self) == old(self).advanced(),
    {
        let v: u16 = self.value;
        self.value = v.wrapping_add(TRANSPORT_STRIDE);
        v
    }
}

impl SequenceCounter32 {
    /// The counter after one allocation.
    pub open spec fn advanced(self) -> Self {
        SequenceCounter32 { value: wrap_i32(self.value + REQUEST_STRIDE) }
    }

    /// The counter after `n` allocations.
    pub open spec fn after(self, n: nat) -> Self
        decreases n,
    {
        if n == 0 {
            self
        } else {
            self.after((n - 1) as nat).advanced()
        }
    }

    /// The value that allocation number `n` returns, the first being number 0.
    pub open spec fn nth(self, n: nat) -> i32 {
        self.after(n).value
    }

    /// A counter that starts at `start`.
    pub fn new(start: i32) -> (c: Self)
        ensures
            c.value == start,
    {
        SequenceCounter32 { value: start }
    }

    /// A counter that starts at a random value from 0 up to, and without,
    /// `RANDOM_START_BOUND`.
    pub fn random() -> (c: Self)
        ensures
            0 <= c.value < RANDOM_START_BOUND,
    {
        SequenceCounter32 { value: random_in_range(0, RANDOM_START_BOUND) }
    }

    /// Returns the counter's value and moves the counter on by its stride.
    pub fn allocate(&mut self) -> (v: i32)
        ensures
            v == old(self).value,
            *final(self) == old(self).advanced(),
    {
        let v: i32 = self.value;
        self.value = v.wrapping_add(REQUEST_STRIDE);
        v
    }
}

/// `rand::thread_rng` and `Rng::gen_range` on a half-open range of `i32`:
/// the value drawn lies in the range, whatever it is. `gen_range` panics on
/// an empty range, which `requires` leaves out; `thread_rng` panics where
/// the operating system gives no seed.
#[verifier::external_body]
fn random_in_range(low: i32, high: i32) -> (r: i32)
    requires
        low < high,
    ensures
        low <= r < high,
{
    rand::thread_rng().gen_range(low..high)
}

/// From a fresh 16-bit counter, allocation number `n` returns the start plus
/// `n` strides, wrapped; so each value differs from the one before it by the
/// stride, modulo 2^16.
pub proof fn lemma_allocations_u16(c: SequenceCounter16, n: nat)
    ensures
        c.nth(n) == wrap_u16(c.value + n * TRANSPORT_STRIDE),
        c.nth(n + 1) == wrap_u16(c.nth(n) + TRANSPORT_STRIDE),
        (c.nth(n + 1) - c.nth(n) - TRANSPORT_STRIDE) % 0x1_0000 == 0,
    decreases n,
{
    if n > 0 {
        lemma_allocations_u16(c, (n - 1) as nat);
    }
}

/// From a fresh 32-bit counter, allocation number `n` returns the start plus
/// `n` strides, wrapped; so each value differs from the one before it by the
/// stride, modulo 2^32.
pub proof fn lemma_allocations_i32(c: SequenceCounter32, n: nat)
    ensures
        c.nth(n) == wrap_i32(c.value + n * REQUEST_STRIDE),
        c.nth(n + 1) == wrap_i32(c.nth(n) + REQUEST_STRIDE),
        (c.nth(n + 1) - c.nth(n) - REQUEST_STRIDE) % 0x1_0000_0000 == 0,
    decreases n,
{
    if n > 0 {
        lemma_allocations_i32(c, (n - 1) as nat);
    }
}

} // verus!
