//! Device construction, cache lookup and cross-device transfer tests.
//!
//! Element storage is by 64-bit cell, so float data travels through its bit
//! pattern: the helpers below convert a float slice to storable cells and
//! back.

use custos::{Buffer, CLDevice, CLDevices, CudaDevice, Matrix, Node, CPU};

fn f32s_to_bits(v: &[f32]) -> Vec<u32> {
    v.iter().map(|x| x.to_bits()).collect()
}

fn bits_to_f32s(v: &[u32]) -> Vec<f32> {
    v.iter().map(|x| f32::from_bits(*x)).collect()
}

fn cl_device() -> CLDevice {
    let mut devices = CLDevices::new();
    devices.sync_current().unwrap();
    let idx = devices.get_current(0).unwrap().device;
    CLDevice::new(idx).unwrap()
}

#[test]
fn test_static_cpu_cache() {
    // for: cargo test -- --test-threads=1
    let mut cpu = CPU::new();
    cpu.set_count(0);

    let a = Buffer::from_slice(&mut cpu, &[1, 2, 3, 4]);
    let _b: Buffer<i32> = Buffer::from_slice(&mut cpu, &[1, 2, 3, 4]);

    let out: Buffer<i32> = cpu.cached(a.len());

    let cached = cpu.cache.find(Node::new(0, out.len())).unwrap();

    assert_eq!(cached.ptr.0, out.id);
}

#[test]
fn test_to_cl() {
    let mut cpu = CPU::new();
    let mut cl = cl_device();

    let buf = Buffer::from_slice(&mut cpu, &f32s_to_bits(&[1f32, 2., 3.]));
    let cl_buf = buf.to_cl(&cpu, &mut cl);

    assert_eq!(bits_to_f32s(&cl.read(&cl_buf)), vec![1., 2., 3.]);

    cl.clear(&cl_buf);

    assert_eq!(bits_to_f32s(&cl.read(&cl_buf)), vec![0.; 3]);
}

#[test]
fn test_to_cuda() {
    let mut cpu = CPU::new();
    let mut cuda = CudaDevice::new(0).unwrap();

    let buf = Buffer::from_slice(&mut cpu, &f32s_to_bits(&[1f32, 2., 3.]));
    let cu_buf = buf.to_cuda(&cpu, &mut cuda);

    assert_eq!(bits_to_f32s(&cuda.read(&cu_buf)), vec![1., 2., 3.]);

    cuda.clear(&cu_buf);

    assert_eq!(bits_to_f32s(&cuda.read(&cu_buf)), vec![0.; 3]);
}

#[test]
fn test_to_cpu() {
    let mut cpu = CPU::new();
    let mut cl = cl_device();

    let buf = Buffer::from_slice(&mut cpu, &f32s_to_bits(&[2f32, 5., 1.])).to_cl(&cpu, &mut cl);
    let buf = buf.to_cpu(&cl, &mut cpu);

    assert_eq!(bits_to_f32s(&cpu.read(&buf)), &[2., 5., 1.]);
}

#[test]
fn test_to_gpu() {
    let mut cpu = CPU::new();
    let mut gpu = cl_device();

    let buf = Buffer::from_slice(&mut cpu, &f32s_to_bits(&[2f32, 5., 1.])).to_gpu(&cpu, &mut gpu);
    assert_eq!(bits_to_f32s(&gpu.read(&buf)), vec![2., 5., 1.]);
}

#[test]
fn test_to_device_cu() {
    let mut cpu = CPU::new();
    let mut cuda = CudaDevice::new(0).unwrap();

    let buf = Buffer::from_slice(&mut cpu, &f32s_to_bits(&[3f32, 1.4, 1., 2.]))
        .to_device(&cpu, &mut cuda);

    assert_eq!(bits_to_f32s(&cuda.read(&buf)), vec![3., 1.4, 1., 2.]);
}

#[test]
fn test_to_device_cl() {
    let mut cpu = CPU::new();
    let mut cl = cl_device();

    let buf = Buffer::from_slice(&mut cpu, &f32s_to_bits(&[3f32, 1.4, 1., 2.]))
        .to_device(&cpu, &mut cl);

    assert_eq!(bits_to_f32s(&cl.read(&buf)), vec![3., 1.4, 1., 2.]);
}

#[test]
fn test_deref_cpu() {
    fn slice_add<T: Copy + std::ops::Add<Output = T>>(a: &[T], b: &[T], c: &mut [T]) {
        for i in 0..c.len() {
            c[i] = a[i] + b[i]
        }
    }

    let mut device = CPU::new();
    let a = Buffer::from_slice(&mut device, &f32s_to_bits(&[1., 2., 3., 4.]));
    let b = Buffer::from_slice(&mut device, &f32s_to_bits(&[2., 3., 4., 5.]));
    let c = Buffer::from_slice(&mut device, &f32s_to_bits(&[0.; 4]));

    let mut out = vec![0f32; 4];
    slice_add(
        &bits_to_f32s(&device.read(&a)),
        &bits_to_f32s(&device.read(&b)),
        &mut out,
    );
    device.write(&c, &f32s_to_bits(&out));

    assert_eq!(bits_to_f32s(&device.read(&c)), &[3., 5., 7., 9.,]);
}

#[test]
fn test_matrix_read() {
    let mut device = CPU::new();

    let matrix = Matrix::from_slice(
        &mut device,
        (2, 3),
        &f32s_to_bits(&[1.51, 6.123, 7., 5.21, 8.62, 4.765]),
    );
    let read = matrix.read(&device);
    assert_eq!(&bits_to_f32s(&read), &[1.51, 6.123, 7., 5.21, 8.62, 4.765]);
}

#[test]
fn test_no_device() {
    {
        let mut device = CPU::new();
        let a = Matrix::from_slice(
            &mut device,
            (2, 3),
            &f32s_to_bits(&[1.51, 6.123, 7., 5.21, 8.62, 4.765]),
        );
        let b = Matrix::from_slice(
            &mut device,
            (2, 3),
            &f32s_to_bits(&[1.51, 6.123, 7., 5.21, 8.62, 4.765]),
        );

        let c = custos::ew_op(&mut device, &a, &b, |x: u32, y: u32| {
            (f32::from_bits(x) + f32::from_bits(y)).to_bits()
        });
        println!("{:?}", bits_to_f32s(&device.read(&c.data())));
    }
}
