//! Cache reuse, miss-on-length-change, distinct slots, and the defensive
//! layout check.

use custos::{Buffer, CudaDevice, CPU};

#[test]
fn test_cache_replay_reuses_slots() {
    let mut cpu = CPU::new();
    cpu.set_count(0);

    // First pass: three lookups at three call sites.
    let a1: Buffer<i32> = cpu.cached(4);
    let b1: Buffer<i32> = cpu.cached(2);
    let c1: Buffer<i32> = cpu.cached(4);
    let blocks_after_first = cpu.arena.block_count();

    // Second pass: same call order, same lengths.
    cpu.set_count(0);
    let a2: Buffer<i32> = cpu.cached(4);
    let b2: Buffer<i32> = cpu.cached(2);
    let c2: Buffer<i32> = cpu.cached(4);

    // Every call reuses the first pass's backing block...
    assert_eq!(a1.ptr(), a2.ptr());
    assert_eq!(b1.ptr(), b2.ptr());
    assert_eq!(c1.ptr(), c2.ptr());
    // ...and no new allocation is observed.
    assert_eq!(cpu.arena.block_count(), blocks_after_first);
}

#[test]
fn test_cache_slot_aliases_across_passes() {
    let mut cpu = CPU::new();
    cpu.set_count(0);
    let first: Buffer<i32> = cpu.cached(3);
    cpu.write(&first, &[7, 8, 9]);

    cpu.set_count(0);
    let second: Buffer<i32> = cpu.cached(3);
    // The replayed lookup aliases the same memory, so it sees the write.
    assert_eq!(cpu.read(&second), vec![7, 8, 9]);
}

#[test]
fn test_cache_miss_on_length_change() {
    let mut cpu = CPU::new();
    cpu.set_count(0);
    let four: Buffer<i32> = cpu.cached(4);
    let blocks_after_first = cpu.arena.block_count();

    // Replay the same call-site position with another length: this must
    // allocate new storage, not reinterpret the 4-element slot.
    cpu.set_count(0);
    let eight: Buffer<i32> = cpu.cached(8);
    assert_ne!(four.ptr(), eight.ptr());
    assert_eq!(cpu.arena.block_count(), blocks_after_first + 1);
}

#[test]
fn test_two_call_sites_never_alias() {
    let mut cpu = CPU::new();
    cpu.set_count(0);
    let a: Buffer<i32> = cpu.cached(4);
    let b: Buffer<i32> = cpu.cached(4);
    // Two different call sites produce distinct backing blocks.
    assert_ne!(a.ptr(), b.ptr());

    // After the cache is emptied, the replayed first call site gets a new
    // allocation rather than the released block.
    cpu.dealloc_cache();
    cpu.set_count(0);
    let fresh: Buffer<i32> = cpu.cached(4);
    assert_ne!(fresh.ptr(), a.ptr());
}

#[test]
fn test_get_checked_refuses_layout_mismatch() {
    let mut cpu = CPU::new();
    cpu.set_count(0);
    let _made_for_u64: Buffer<u64> = cpu.cached(4);
    let blocks = cpu.arena.block_count();

    // The same node replayed for a 1-byte element type is an unsound
    // reconstruction: it is refused, and nothing is reinterpreted.
    cpu.set_count(0);
    let refused: Option<Buffer<u8>> = cpu.cache.get_checked(&mut cpu.arena, 4);
    assert!(refused.is_none());
    assert_eq!(cpu.arena.block_count(), blocks);

    // The matching element type is handed the slot.
    cpu.set_count(0);
    let ok: Option<Buffer<u64>> = cpu.cache.get_checked(&mut cpu.arena, 4);
    assert!(ok.is_some());
}

#[test]
fn test_cuda_cache_and_cu_cached() {
    let mut cuda = CudaDevice::new(0).unwrap();
    cuda.set_count(0);
    let a: Buffer<i32> = custos::cu_cached(&mut cuda, 4);
    cuda.set_count(0);
    let b: Buffer<i32> = custos::cu_cached(&mut cuda, 4);
    assert_eq!(a.ptr(), b.ptr());

    cuda.dealloc_cache();
    assert_eq!(cuda.cache.nodes.len(), 0);
}

#[test]
fn test_opencl_cache_replay() {
    let mut cl = custos::CLDevice::new(custos::opencl::CLIntDevice(0)).unwrap();
    cl.set_count(0);
    let a: Buffer<u32> = cl.cached(5);
    cl.set_count(0);
    let b: Buffer<u32> = cl.cached(5);
    assert_eq!(a.ptr(), b.ptr());
}

#[test]
fn test_cached_slot_zero_initialised() {
    let mut cpu = CPU::new();
    cpu.set_count(0);
    let buf: Buffer<i32> = cpu.cached(4);
    assert_eq!(cpu.read(&buf), vec![0, 0, 0, 0]);
}

#[test]
fn test_dropping_cache_slot_buffer_keeps_slot() {
    let mut cpu = CPU::new();
    cpu.set_count(0);
    let buf: Buffer<i32> = cpu.cached(4);
    cpu.write(&buf, &[4, 3, 2, 1]);

    // A buffer with the cache-slot flag never frees on destruction: the
    // slot's lifetime belongs to the cache.
    cpu.drop_buf(buf);
    cpu.set_count(0);
    let again: Buffer<i32> = cpu.cached(4);
    assert_eq!(cpu.read(&again), vec![4, 3, 2, 1]);
}
