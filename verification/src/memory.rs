//! Byte-addressable memory with sparse, default-zero semantics.

use crate::Address;
use std::collections::HashMap;
use vstd::prelude::*;

verus! {

broadcast use vstd::std_specs::hash::group_hash_axioms;

/// The address `offset` bytes above `addr`; the address space wraps around
/// past its top.
pub open spec fn address_at(addr: Address, offset: int) -> Address {
    ((addr + offset) % 0x1_0000_0000) as Address
}

/// The byte that the mapping `cells` holds at `addr`: zero where nothing was
/// ever stored.
pub open spec fn byte_at(cells: Map<Address, u8>, addr: Address) -> u8 {
    if cells.contains_key(addr) {
        cells[addr]
    } else {
        0
    }
}

/// The `len` bytes that `cells` holds from `addr` upwards.
pub open spec fn bytes_at(cells: Map<Address, u8>, addr: Address, len: nat) -> Seq<u8> {
    Seq::new(len, |i: int| byte_at(cells, address_at(addr, i)))
}

/// The mapping that results from storing `entries` into `cells` one after
/// another, a later entry replacing an earlier one for the same address.
pub open spec fn store_all(cells: Map<Address, u8>, entries: Seq<(Address, u8)>) -> Map<Address, u8>
    decreases entries.len(),
{
    if entries.len() == 0 {
        cells
    } else {
        store_all(cells, entries.drop_last()).insert(entries.last().0, entries.last().1)
    }
}

/// An address that nothing was stored at reads as zero, alone and as part
/// of a longer read. What a read returns depends on the mapping alone, so
/// reading leaves no trace that a later read could see.
pub proof fn lemma_unmapped_reads_zero(cells: Map<Address, u8>, start: Address, len: nat, i: int)
    requires
        0 <= i < len,
        !cells.contains_key(address_at(start, i)),
    ensures
        byte_at(cells, address_at(start, i)) == 0,
        bytes_at(cells, start, len)[i] == 0,
{
}

/// A sparse byte store: only the addresses that were written are held.
#[derive(Debug, PartialEq, Eq)]
pub struct Memory {
    inner: HashMap<Address, u8>,
}

impl View for Memory {
    type V = Map<Address, u8>;

    closed spec fn view(&self) -> Map<Address, u8> {
        self.inner@
    }
}

impl Default for Memory {
    /// A memory in which nothing is mapped.
    fn default() -> (memory: Self)
        ensures
            memory@ == Map::<Address, u8>::empty(),
    {
        Memory { inner: HashMap::new() }
    }
}

impl Memory {
    /// Reads the byte at `addr`. An unmapped address reads as zero.
    pub fn get(&self, addr: Address) -> (byte: u8)
        ensures
            byte == byte_at(self@, addr),
    {
        match self.inner.get(&addr) {
            Some(value) => *value,
            None => 0,
        }
    }

    /// Reads `len` consecutive bytes starting at `addr`.
    pub fn read(&self, addr: Address, len: usize) -> (data: Vec<u8>)
        ensures
            data@ == bytes_at(self@, addr, len as nat),
    {
        let mut data: Vec<u8> = Vec::new();
        let mut cursor: Address = addr;
        let mut offset: usize = 0;
        while offset < len
            invariant
                offset <= len,
                cursor == address_at(addr, offset as int),
                data@ == bytes_at(self@, addr, offset as nat),
            decreases len - offset,
        {
            data.push(self.get(cursor));
            cursor = cursor.wrapping_add(1);
            offset += 1;
        }
        data
    }

    /// Stores `value` at `addr`, replacing what was there.
    pub fn set(&mut self, addr: Address, value: u8)
        ensures
            final(self)@ == old(self)@.insert(addr, value),
    {
        self.inner.insert(addr, value);
    }
}

impl<const N: usize> From<[(Address, u8); N]> for Memory {
    /// A memory that maps each listed address to its byte.
    fn from(values: [(Address, u8); N]) -> (memory: Self)
        ensures
            memory@ == store_all(Map::empty(), values@),
    {
        let mut memory = Memory::default();
        let mut i: usize = 0;
        while i < N
            invariant
                i <= N,
                values@.len() == N,
                memory@ == store_all(Map::empty(), values@.take(i as int)),
            decreases N - i,
        {
            let entry = values[i];
            memory.set(entry.0, entry.1);
            assert(values@.take(i + 1).drop_last() == values@.take(i as int));
            i += 1;
        }
        assert(values@.take(N as int) == values@);
        memory
    }
}

impl<const N: usize> vstd::std_specs::convert::FromSpecImpl<[(Address, u8); N]> for Memory {
    /// Two memories with the same mapping need not be the same value, so
    /// the conversion is described by the contract of `from` alone.
    open spec fn obeys_from_spec() -> bool {
        false
    }

    open spec fn from_spec(values: [(Address, u8); N]) -> Self {
        arbitrary()
    }
}

} // verus!
