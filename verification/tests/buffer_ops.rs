//! Allocation, ownership, write/read round-trips and clearing.

use custos::{AllocFlag, Buffer, CLDevice, CudaDevice, CPU};

fn cl_device() -> CLDevice {
    CLDevice::new(custos::opencl::CLIntDevice(0)).unwrap()
}

#[test]
fn test_alloc_zero_initialised() {
    let mut cpu = CPU::new();
    let buf: Buffer<i32> = Buffer::new(&mut cpu, 5);
    assert_eq!(buf.len(), 5);
    assert_eq!(cpu.read(&buf), vec![0; 5]);

    let mut cuda = CudaDevice::new(0).unwrap();
    let buf: Buffer<u64> = Buffer::new(&mut cuda, 3);
    assert_eq!(cuda.read(&buf), vec![0; 3]);

    let mut cl = cl_device();
    let buf: Buffer<u8> = Buffer::new(&mut cl, 4);
    assert_eq!(cl.read(&buf), vec![0; 4]);
}

#[test]
fn test_with_slice_reads_back_exactly() {
    let mut cpu = CPU::new();
    let buf = cpu.with_slice(&[-7i32, 0, 3, i32::MAX, i32::MIN]);
    assert_eq!(cpu.read(&buf), vec![-7, 0, 3, i32::MAX, i32::MIN]);

    let mut cuda = CudaDevice::new(0).unwrap();
    let buf = cuda.with_data(&[9u8, 255, 0]);
    assert_eq!(cuda.read(&buf), vec![9, 255, 0]);

    let mut cl = cl_device();
    let buf = cl.with_data(&[-1i64, i64::MAX, i64::MIN]);
    assert_eq!(cl.read(&buf), vec![-1, i64::MAX, i64::MIN]);
}

#[test]
fn test_alloc_with_vec_adopts() {
    let mut cpu = CPU::new();
    let buf = cpu.alloc_with_vec(vec![4usize, 5, 6]);
    assert_eq!(buf.len(), 3);
    assert_eq!(cpu.read(&buf), vec![4, 5, 6]);
}

#[test]
fn test_wrapper_never_frees() {
    let mut cpu = CPU::new();
    let owner = cpu.with_slice(&[10i32, 20, 30]);
    let wrapper = owner.shallow();
    assert!(matches!(wrapper.flag(), AllocFlag::Borrowed));

    // Dropping the wrapper must leave the external owner's memory valid and
    // unmodified.
    cpu.drop_buf(wrapper);
    assert!(cpu.arena.live(owner.ptr()));
    assert_eq!(cpu.read(&owner), vec![10, 20, 30]);

    // Dropping the owner frees the backing block, exactly once: the buffer
    // is consumed by the drop, so no second drop can be written.
    let id = owner.ptr();
    cpu.drop_buf(owner);
    assert!(!cpu.arena.live(id));
}

#[test]
fn test_write_read_round_trip() {
    let mut cpu = CPU::new();
    let buf: Buffer<i32> = Buffer::new(&mut cpu, 4);
    cpu.write(&buf, &[-3, 8, 0, 2_000_000_000]);
    assert_eq!(cpu.read(&buf), vec![-3, 8, 0, 2_000_000_000]);

    let mut cuda = CudaDevice::new(0).unwrap();
    let buf: Buffer<u32> = Buffer::new(&mut cuda, 2);
    cuda.write(&buf, &[1, u32::MAX]);
    assert_eq!(cuda.read(&buf), vec![1, u32::MAX]);

    let mut cl = cl_device();
    let buf: Buffer<u64> = Buffer::new(&mut cl, 2);
    cl.write(&buf, &[u64::MAX, 7]);
    assert_eq!(cl.read(&buf), vec![u64::MAX, 7]);
}

#[test]
fn test_clear_idempotent() {
    let mut cpu = CPU::new();
    let buf = cpu.with_slice(&[5i32, -6, 7]);
    cpu.clear(&buf);
    assert_eq!(cpu.read(&buf), vec![0, 0, 0]);
    cpu.clear(&buf);
    assert_eq!(cpu.read(&buf), vec![0, 0, 0]);
}

#[test]
fn test_clone_then_clear_clone() {
    let mut cpu = CPU::new();
    let buf = cpu.with_slice(&[1i32, 2, 3, 4]);
    let cloned = cpu.clone_buf(&buf);
    assert_ne!(buf.ptr(), cloned.ptr());
    cpu.clear(&cloned);
    assert_eq!(cpu.read(&buf), vec![1, 2, 3, 4]);
    assert_eq!(cpu.read(&cloned), vec![0, 0, 0, 0]);
}

#[test]
fn test_dealloc_all_tears_device_down() {
    let mut cpu = CPU::new();
    let a = cpu.with_slice(&[1u8, 2]);
    let _scratch: Buffer<u8> = cpu.cached(2);
    cpu.dealloc_all();
    assert!(!cpu.arena.live(a.ptr()));
    assert_eq!(cpu.cache.nodes.len(), 0);
}

#[test]
fn test_negative_values_survive_cells() {
    let mut cpu = CPU::new();
    let buf = cpu.with_slice(&[-1i32, -2_147_483_648, 2_147_483_647]);
    assert_eq!(cpu.read(&buf), vec![-1, -2_147_483_648, 2_147_483_647]);

    let buf = cpu.with_slice(&[-1i64, i64::MIN, i64::MAX]);
    assert_eq!(cpu.read(&buf), vec![-1, i64::MIN, i64::MAX]);
}
