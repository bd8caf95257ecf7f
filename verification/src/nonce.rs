//! Per-session nonce/key state consumed by the hardware engine.

use vstd::prelude::*;

verus! {

/// Maximum value of the 39-bit packet counter.
pub const MAXIMUM_COUNTER: u64 = 0x7F_FFFF_FFFF;

/// Counter after a successful crypto operation: one more, wrapping to zero
/// past the 39-bit maximum.
pub open spec fn spec_increment(c: u64) -> u64 {
    if c < MAXIMUM_COUNTER {
        (c + 1) as u64
    } else {
        0
    }
}

/// Counter after a rollback: one less, saturating at zero.
pub open spec fn spec_decrement(c: u64) -> u64 {
    if c > 0 {
        (c - 1) as u64
    } else {
        c
    }
}

/// Data used for encryption/decryption.
///
/// It consists of a 128-bit key, a 39-bit counter, a direction bit and an
/// 8-byte initialization vector. The hardware engine derives the per-packet
/// nonce from these fields; [`CcmData::layout_bytes`] produces the exact
/// 33-byte image the engine reads over its DMA path.
#[derive(Debug, PartialEq)]
pub struct CcmData {
    key: [u8; 16],
    packet_counter: u64,
    direction: u8,
    initialization_vector: [u8; 8],
}

impl CcmData {
    pub closed spec fn spec_key(self) -> Seq<u8> {
        self.key@
    }

    pub closed spec fn spec_counter(self) -> u64 {
        self.packet_counter
    }

    pub closed spec fn spec_direction(self) -> u8 {
        self.direction
    }

    pub closed spec fn spec_iv(self) -> Seq<u8> {
        self.initialization_vector@
    }

    /// The counter stays within 39 bits and the direction flag holds one bit.
    pub open spec fn wf(self) -> bool {
        &&& self.spec_counter() <= MAXIMUM_COUNTER
        &&& (self.spec_direction() == 0 || self.spec_direction() == 1)
    }

    /// Creates a new `CcmData` instance.
    ///
    /// The direction bit and the counter value are initialized to zero. Care
    /// must be taken when choosing an initialization vector, it must be
    /// sufficiently random.
    pub fn new(key: [u8; 16], initialization_vector: [u8; 8]) -> (r: CcmData)
        ensures
            r.spec_key() == key@,
            r.spec_counter() == 0,
            r.spec_direction() == 0,
            r.spec_iv() == initialization_vector@,
            r.wf(),
    {
        CcmData { key, packet_counter: 0, direction: 0, initialization_vector }
    }

    /// Updates the key.
    pub fn set_key(&mut self, key: [u8; 16])
        ensures
            final(self).spec_key() == key@,
            final(self).spec_counter() == old(self).spec_counter(),
            final(self).spec_direction() == old(self).spec_direction(),
            final(self).spec_iv() == old(self).spec_iv(),
            old(self).wf() ==> final(self).wf(),
    {
        self.key = key;
    }

    /// Updates the initialization vector.
    pub fn set_iv(&mut self, initialization_vector: [u8; 8])
        ensures
            final(self).spec_key() == old(self).spec_key(),
            final(self).spec_counter() == old(self).spec_counter(),
            final(self).spec_direction() == old(self).spec_direction(),
            final(self).spec_iv() == initialization_vector@,
            old(self).wf() ==> final(self).wf(),
    {
        self.initialization_vector = initialization_vector;
    }

    /// Updates the direction bit.
    pub fn set_direction(&mut self, direction: bool)
        ensures
            final(self).spec_key() == old(self).spec_key(),
            final(self).spec_counter() == old(self).spec_counter(),
            final(self).spec_direction() == (if direction { 1u8 } else { 0u8 }),
            final(self).spec_iv() == old(self).spec_iv(),
            old(self).wf() ==> final(self).wf(),
    {
        self.direction = if direction { 1 } else { 0 };
    }

    /// Increments the counter. It will wrap around to zero at its maximum
    /// value.
    pub fn increment_counter(&mut self)
        ensures
            final(self).spec_counter() == spec_increment(old(self).spec_counter()),
            final(self).spec_key() == old(self).spec_key(),
            final(self).spec_direction() == old(self).spec_direction(),
            final(self).spec_iv() == old(self).spec_iv(),
            old(self).wf() ==> final(self).wf(),
    {
        if self.packet_counter < MAXIMUM_COUNTER {
            self.packet_counter = self.packet_counter + 1;
        } else {
            self.packet_counter = 0;
        }
    }

    /// Decrements the counter if the current value is bigger than zero.
    pub fn decrement_counter(&mut self)
        ensures
            final(self).spec_counter() == spec_decrement(old(self).spec_counter()),
            final(self).spec_key() == old(self).spec_key(),
            final(self).spec_direction() == old(self).spec_direction(),
            final(self).spec_iv() == old(self).spec_iv(),
            old(self).wf() ==> final(self).wf(),
    {
        if self.packet_counter > 0 {
            self.packet_counter = self.packet_counter - 1;
        }
    }

    /// The current counter value.
    pub fn counter_value(&self) -> (r: u64)
        ensures
            r == self.spec_counter(),
    {
        self.packet_counter
    }

    /// The fixed 33-byte image the engine reads over DMA to derive the nonce:
    /// `key[16] ‖ counter_le[8] ‖ direction[1] ‖ iv[8]`, in this order and
    /// with no padding.
    pub fn layout_bytes(&self) -> (r: Vec<u8>)
        ensures
            r@ == self.spec_key() + vstd::bytes::spec_u64_to_le_bytes(self.spec_counter())
                + seq![self.spec_direction()] + self.spec_iv(),
            r@.len() == 33,
    {
        proof {
            vstd::bytes::lemma_auto_spec_u64_to_from_le_bytes();
        }
        let mut r: Vec<u8> = Vec::new();
        let mut i: usize = 0;
        while i < 16
            invariant
                i <= 16,
                r@ =~= self.key@.subrange(0, i as int),
            decreases 16 - i,
        {
            r.push(self.key[i]);
            i = i + 1;
        }
        assert(r@ =~= self.spec_key());
        let mut counter_bytes = vstd::bytes::u64_to_le_bytes(self.packet_counter);
        r.append(&mut counter_bytes);
        r.push(self.direction);
        let ghost before_iv = r@;
        let mut j: usize = 0;
        while j < 8
            invariant
                j <= 8,
                r@ =~= before_iv + self.initialization_vector@.subrange(0, j as int),
            decreases 8 - j,
        {
            r.push(self.initialization_vector[j]);
            j = j + 1;
        }
        assert(r@ =~= self.spec_key()
            + vstd::bytes::spec_u64_to_le_bytes(self.spec_counter())
            + seq![self.spec_direction()] + self.spec_iv());
        r
    }
}

} // verus!
