# system

Building blocks of an x86-64 kernel, verified with Verus: a buddy heap, physical frame
allocators, page tables and the walks that map, unmap and translate pages, descriptor tables,
the legacy interrupt controllers and timer, the local and I/O APICs, PCI configuration
space headers, and the values of control registers and model specific registers.

## Layout

- `src/` is the library. Every function in it has a contract that Verus proves, but for
  four trusted wrappers: the little-endian reads and writes of `byteorder` and the CPUID
  check for x2APIC, whose contracts state what those crates do. Where the
  hardware is involved, the library computes the values and the sequences of writes, and
  takes what was read as plain arguments.
  - `buddy_system_allocator/`: the buddy heap, whose operations keep the bytes added equal
    to those handed out plus those free. `allocate` and `dealloc` state the free lists they
    leave (the block split off the first non-empty class, the block merged with its free
    buddies), and `law_allocate_dealloc_blocks` relates the two. `laws.rs` states what its
    operations promise of each other (a block serves its request, freeing an allocated block
    restores the free bytes and counters, two allocations share no byte, the counters are
    the sums over the live allocations).
  - `ia_32e/paging/`: pages, frames, page tables, the frame allocators and the mappers.
    `mapper/map_pt.rs` walks tables held in physical frames, `mapper/page.rs` walks them
    through a recursive entry of the level 4 table, `mapper/store.rs` holds tables in
    memory, and `mapper/laws.rs` relates mapping, translating and unmapping.
  - `ia_32e/cpu/`, `ia_32e/apic/`, `ia_32e/x2apic/`, `ia_32e/xapic/`: the 8259A pair,
    the 8253 timer, the local APIC and the I/O APIC, as register values and write
    sequences.
  - `ia_32e/descriptor/`: segment selectors, descriptors, the GDT and the IDT.
  - `devices/bus/pic/`: PCI device addresses, classes, base address registers and the
    decoding of configuration space headers.
- `app/` is the unverified side: port and MSR instructions, control registers, loading
  descriptor tables, the locked global allocator, and the glue that carries out the write
  sequences the library computes.
- `tests/` exercises the library on concrete values.
