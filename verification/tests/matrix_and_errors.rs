//! Matrix operations, device registry behaviour and error reporting.

use custos::{assign_op, each_op, ew_op, CLDevices, DeviceError, Error, Matrix, OclErrorKind, CPU};

#[test]
fn test_end_to_end_clone_clear() {
    let mut cpu = CPU::new();
    let buf = cpu.with_slice(&[1i32, 2, 3, 4]);
    let cloned = cpu.clone_buf(&buf);
    cpu.clear(&cloned);
    assert_eq!(cpu.read(&buf), vec![1, 2, 3, 4]);
    assert_eq!(cpu.read(&cloned), vec![0, 0, 0, 0]);
}

#[test]
fn test_ew_op_adds_elementwise() {
    let mut device = CPU::new();
    let a = Matrix::from_slice(&mut device, (2, 2), &[1i32, 2, 3, 4]);
    let b = Matrix::from_slice(&mut device, (2, 2), &[10i32, 20, 30, 40]);
    let c = ew_op(&mut device, &a, &b, |x: i32, y: i32| x.wrapping_add(y));
    assert_eq!(c.dims(), (2, 2));
    assert_eq!(device.read(&c.data()), vec![11, 22, 33, 44]);
}

#[test]
fn test_each_op_maps_elements() {
    let mut device = CPU::new();
    let a = Matrix::from_slice(&mut device, (1, 3), &[2i32, -5, 9]);
    let y = each_op(&mut device, &a, |x: i32| x.wrapping_mul(2));
    assert_eq!(device.read(&y.data()), vec![4, -10, 18]);
}

#[test]
fn test_assign_op_updates_in_place() {
    let mut device = CPU::new();
    let lhs = Matrix::from_slice(&mut device, (1, 4), &[9i32, 9, 9, 9]);
    let rhs = Matrix::from_slice(&mut device, (1, 4), &[1i32, 2, 3, 4]);
    assign_op(&mut device, &lhs, &rhs, |x: i32, y: i32| x.wrapping_sub(y));
    assert_eq!(device.read(&lhs.data()), vec![8, 7, 6, 5]);
}

#[test]
fn test_matrix_accessors() {
    let mut device = CPU::new();
    let m = Matrix::from_slice(&mut device, (2, 3), &[1u32, 2, 3, 4, 5, 6]);
    assert_eq!(m.dims(), (2, 3));
    assert_eq!(m.size(), 6);
    assert_eq!(m.ptr(), m.data().ptr());
    assert_eq!(device.read(&m.data()), vec![1, 2, 3, 4, 5, 6]);
}

#[test]
fn test_matrix_new_zeroed() {
    let mut device = CPU::new();
    let m: Matrix<i64> = Matrix::new(&mut device, (3, 2));
    assert_eq!(m.read(&device), vec![0; 6]);
}

#[test]
fn test_cl_devices_registry() {
    let mut devices = CLDevices::new();
    devices.sync_current().unwrap();
    // Synchronising again changes nothing.
    devices.sync_current().unwrap();
    assert_eq!(devices.current_devices.len(), 1);

    let first = devices.get_current(0).unwrap();
    assert_eq!(first.device.0, 0);
    assert_eq!(first.get_name().unwrap(), "OpenCL GPU");
    assert_eq!(first.get_version().unwrap(), "OpenCL 1.2");

    // Out-of-range indices are reported, not defaulted.
    let err = match devices.get_current(3) {
        Ok(_) => panic!("an out-of-range device index must be refused"),
        Err(e) => e,
    };
    assert_eq!(err.ocl_error(), Some(OclErrorKind::InvalidDeviceIdx));
    assert_eq!(err.device_error(), None);

    // Exclusive access to a listed device works.
    let dev = devices.get_current_mut(0);
    let buf = dev.with_data(&[1u8, 2, 3]);
    assert_eq!(dev.read(&buf), vec![1, 2, 3]);
}

#[test]
fn test_device_error_messages() {
    assert_eq!(
        DeviceError::CPUtoCUDA.as_str(),
        "Only a CPU Buffer can be converted to a CUDA Buffer"
    );
    assert_eq!(
        DeviceError::ConstructError.as_str(),
        "Only a non-drop buffer can be converted to a CPU+OpenCL buffer."
    );
    assert_eq!(
        DeviceError::GraphOptimization.as_str(),
        "This graph can't be optimized. This indicates a bug in custos."
    );
    assert_eq!(
        DeviceError::MissingAddress.as_str(),
        "An address was not supplied for a Network device."
    );
    assert_eq!(
        DeviceError::WGPUDeviceReturn.as_str(),
        "Cannot create WGPU device instance."
    );
    assert_eq!(
        DeviceError::CPUDeviceNotAvailable.as_str(),
        "The 'cpu' feature is disabled. Hence this CPU can't be created."
    );
}

#[test]
fn test_error_origins() {
    let e = Error::from_device(DeviceError::MissingAddress);
    assert_eq!(e.device_error(), Some(DeviceError::MissingAddress));
    assert_eq!(e.ocl_error(), None);

    let e = Error::from_ocl(OclErrorKind::InvalidDeviceIdx);
    assert_eq!(e.ocl_error(), Some(OclErrorKind::InvalidDeviceIdx));
    assert_eq!(e.device_error(), None);
}

#[test]
fn test_cuda_device_handles() {
    let cuda = custos::CudaDevice::new(2).unwrap();
    assert_eq!(cuda.device().0, 2);
    assert_eq!(cuda.inner.device().0, 2);
    let _ = cuda.ctx();
    let _ = cuda.handle();
    let _ = cuda.stream();
}
