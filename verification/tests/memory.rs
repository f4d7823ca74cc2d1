use telividb::compute::backend::{Backend, Memory};
use telividb::compute::device::DeviceKind;

#[test]
fn used_memory_is_total_less_free() {
    assert_eq!(Memory { free: 300, total: 1000 }.used(), 700);
    assert_eq!(Memory { free: 0, total: 0 }.used(), 0);
}

#[test]
fn used_memory_never_goes_below_zero() {
    assert_eq!(Memory { free: 10, total: 4 }.used(), 0);
}

#[test]
fn a_host_backend_reports_no_device_memory() {
    let backend = Backend::of(DeviceKind::Cpu).unwrap();
    assert_eq!(backend.memory_from(Some((10, 100))), None);
    assert_eq!(backend.memory_from(None), None);
}
