//! Bump allocation in the regions of the memory map.
//!
//! An allocator hands out rising addresses from the start of its region and
//! never takes one back. A request that does not fit is refused: no address
//! beyond the region's end is ever handed out.

use crate::text::{dollar_hex4, dollar_hex4_string};
use vstd::prelude::*;

verus! {

/// A region of the memory map.
#[derive(Debug, Clone, Copy, PartialEq, Eq, Structural)]
pub enum MemoryRegion {
    /// Video memory for tile data, `$8000` to `$97FF`.
    Vram,
    /// Work memory, `$C000` to `$DFFF`.
    Wram,
    /// Object memory, `$FE00` to `$FE9F`.
    Oam,
}

impl MemoryRegion {
    /// The first address of the region.
    pub open spec fn start(self) -> u16 {
        match self {
            MemoryRegion::Vram => 0x8000,
            MemoryRegion::Wram => 0xC000,
            MemoryRegion::Oam => 0xFE00,
        }
    }

    /// The first address after the region.
    pub open spec fn end(self) -> u16 {
        match self {
            MemoryRegion::Vram => 0x9800,
            MemoryRegion::Wram => 0xE000,
            MemoryRegion::Oam => 0xFEA0,
        }
    }

    /// The first address of the region.
    pub fn start_address(&self) -> (r: u16)
        ensures
            r == self.start(),
    {
        match self {
            MemoryRegion::Vram => 0x8000,
            MemoryRegion::Wram => 0xC000,
            MemoryRegion::Oam => 0xFE00,
        }
    }

    /// The first address after the region.
    pub fn end_address(&self) -> (r: u16)
        ensures
            r == self.end(),
    {
        match self {
            MemoryRegion::Vram => 0x9800,
            MemoryRegion::Wram => 0xE000,
            MemoryRegion::Oam => 0xFEA0,
        }
    }
}

/// A bump allocator for one region.
#[derive(Debug)]
pub struct MemoryAllocator {
    region: MemoryRegion,
    next_address: u16,
}

impl MemoryAllocator {
    #[verifier::type_invariant]
    spec fn within_region(self) -> bool {
        self.region.start() <= self.next_address <= self.region.end()
    }

    /// The region that the allocator serves.
    pub closed spec fn region(&self) -> MemoryRegion {
        self.region
    }

    /// The address that the next allocation starts at.
    pub closed spec fn next(&self) -> u16 {
        self.next_address
    }

    /// An allocator that has handed out nothing of its region.
    pub fn new(region: MemoryRegion) -> (r: Self)
        ensures
            r.region() == region,
            r.next() == region.start(),
    {
        Self { region, next_address: region.start_address() }
    }

    /// Hands out `size` bytes. Returns their first address, or `None` when
    /// the region has fewer than `size` bytes left; the allocator is then
    /// unchanged.
    pub fn allocate(&mut self, size: u16) -> (r: Option<u16>)
        ensures
            final(self).region() == old(self).region(),
            old(self).next() + size <= old(self).region().end() ==> r == Some(old(self).next())
                && final(self).next() == old(self).next() + size,
            old(self).next() + size > old(self).region().end() ==> r is None && final(self).next()
                == old(self).next(),
    {
        proof {
            use_type_invariant(&*self);
        }
        let addr: u16 = self.next_address;
        if size > self.region.end_address() - addr {
            return None;
        }
        self.next_address = addr + size;
        Some(addr)
    }

    /// The address that the next allocation starts at.
    pub fn current_address(&self) -> (r: u16)
        ensures
            r == self.next(),
            self.region().start() <= r <= self.region().end(),
    {
        proof {
            use_type_invariant(self);
        }
        self.next_address
    }

    /// The number of bytes handed out so far.
    pub fn bytes_allocated(&self) -> (r: u16)
        ensures
            r == self.next() - self.region().start(),
    {
        proof {
            use_type_invariant(self);
        }
        self.next_address - self.region.start_address()
    }

    /// The number of bytes that are left.
    pub fn bytes_remaining(&self) -> (r: u16)
        ensures
            r == self.region().end() - self.next(),
    {
        proof {
            use_type_invariant(self);
        }
        self.region.end_address() - self.next_address
    }

    /// An address as the assembler reads it: `$` and four hexadecimal
    /// digits.
    pub fn format_address(addr: u16) -> (r: String)
        ensures
            r@ == dollar_hex4(addr as nat),
    {
        dollar_hex4_string(addr)
    }
}

} // verus!
