use telividb::compute::error::Error;
use telividb::compute::backend::Backend;
use telividb::compute::device::{Device, DeviceKind};

#[test]
fn the_host_backend_is_always_reachable() {
    // Every fallback depends on it.
    let backend = Backend::of(DeviceKind::Cpu).expect("cpu backend");
    assert_eq!(backend.device().kind(), DeviceKind::Cpu);
}

#[test]
fn the_host_is_always_reachable() {
    assert!(DeviceKind::compiled().contains(&DeviceKind::Cpu));
    assert_eq!(Device::cpu().kind(), DeviceKind::Cpu);
    assert!(!Device::cpu().is_accelerator());
}

#[test]
fn the_best_device_is_one_this_build_actually_has() {
    let device = Device::best();
    assert!(DeviceKind::compiled().contains(&device.kind()));
}

#[test]
fn an_uncompiled_backend_is_refused_rather_than_silently_downgraded() {
    for kind in [
        DeviceKind::Cuda,
        DeviceKind::Hip,
        DeviceKind::Vulkan,
        DeviceKind::Sycl,
    ] {
        if !DeviceKind::compiled().contains(&kind) {
            let refused = Device::of(kind);
            assert!(
                refused.is_err(),
                "{kind:?} should be refused when not built"
            );
        }
    }
}

#[test]
fn every_kind_has_a_distinct_label() {
    let all = [
        DeviceKind::Cpu,
        DeviceKind::Metal,
        DeviceKind::Cuda,
        DeviceKind::Hip,
        DeviceKind::Vulkan,
        DeviceKind::Sycl,
    ];
    let mut seen: Vec<&str> = all.iter().map(|k| k.as_str()).collect();
    seen.sort_unstable();
    let count = seen.len();
    seen.dedup();
    assert_eq!(seen.len(), count, "two device kinds share a label");
}

#[test]
fn every_device_name_round_trips() {
    for kind in DeviceKind::compiled() {
        assert_eq!(DeviceKind::parse(kind.as_str()), Some(*kind));
    }
    assert_eq!(DeviceKind::parse("  CPU  "), Some(DeviceKind::Cpu));
    assert_eq!(DeviceKind::parse("gpu"), None);
}

#[test]
fn every_kind_parses_from_its_own_name() {
    for kind in [
        DeviceKind::Cpu,
        DeviceKind::Metal,
        DeviceKind::Cuda,
        DeviceKind::Hip,
        DeviceKind::Vulkan,
        DeviceKind::Sycl,
    ] {
        assert_eq!(DeviceKind::parse(kind.as_str()), Some(kind));
    }
    assert_eq!(DeviceKind::parse("\tVulKan\n"), Some(DeviceKind::Vulkan));
    assert_eq!(DeviceKind::parse(""), None);
    assert_eq!(DeviceKind::parse("   "), None);
    assert_eq!(DeviceKind::parse("cpu x"), None);
    assert_eq!(DeviceKind::parse("cpus"), None);
}

#[test]
fn an_unbuilt_kind_is_refused_with_its_name() {
    match Device::of(DeviceKind::Cuda) {
        Err(telividb::compute::error::Error::BackendUnavailable { kind }) => {
            assert_eq!(kind, "cuda")
        }
        other => panic!("expected BackendUnavailable, got {other:?}"),
    }
    let message = Device::of(DeviceKind::Metal).unwrap_err().to_string();
    assert_eq!(message, "no metal backend is available in this build");
}

#[test]
fn only_the_host_is_not_an_accelerator() {
    assert!(!DeviceKind::Cpu.is_accelerator());
    assert!(DeviceKind::Metal.is_accelerator());
    assert!(DeviceKind::Sycl.is_accelerator());
    assert_eq!(DeviceKind::compiled(), &[DeviceKind::Cpu]);
    assert_eq!(Device::best(), Device::cpu());
}

#[test]
fn the_best_backend_is_the_host_in_this_build() {
    let backend = Backend::best().expect("the host backend is always available");
    assert_eq!(backend.device().kind(), DeviceKind::Cpu);
    assert!(Backend::of(DeviceKind::Hip).is_err());
}

#[test]
fn the_default_device_is_the_best_one() {
    assert_eq!(Device::default(), Device::best());
    assert!(DeviceKind::compiled().contains(&Device::default().kind()));
}

#[test]
fn a_backend_the_runtime_would_not_initialise_is_refused() {
    assert_eq!(Backend::open(DeviceKind::Cpu, true).unwrap().device().kind(), DeviceKind::Cpu);
    assert!(matches!(
        Backend::open(DeviceKind::Cpu, false),
        Err(Error::BackendUnavailable { kind: "cpu" })
    ));
    if !DeviceKind::compiled().contains(&DeviceKind::Cuda) {
        assert!(matches!(
            Backend::open(DeviceKind::Cuda, true),
            Err(Error::BackendUnavailable { kind: "cuda" })
        ));
    }
}

#[test]
fn the_best_backend_is_the_first_compiled_kind_that_initialises() {
    let backend = Backend::best_of(None, &[DeviceKind::Cpu]).unwrap();
    assert_eq!(backend.device().kind(), DeviceKind::Cpu);
    assert!(matches!(
        Backend::best_of(None, &[]),
        Err(Error::BackendUnavailable { kind: "cpu" })
    ));
    if !DeviceKind::compiled().contains(&DeviceKind::Vulkan) {
        assert!(Backend::best_of(None, &[DeviceKind::Vulkan]).is_err());
    }
}

#[test]
fn an_override_names_the_device_when_this_build_has_it() {
    assert_eq!(Device::best_with(None), Device::best());
    assert_eq!(Device::best_with(Some("  CPU ")).kind(), DeviceKind::Cpu);
    assert_eq!(Device::best_with(Some("gpu")), Device::best(), "an unknown name changes nothing");
    if !DeviceKind::compiled().contains(&DeviceKind::Cuda) {
        assert_eq!(
            Device::best_with(Some("cuda")),
            Device::best(),
            "a backend this build lacks is never named"
        );
    }
}

#[test]
fn the_backend_follows_the_override() {
    let backend = Backend::best_of(Some("cpu"), &[DeviceKind::Cpu]).unwrap();
    assert_eq!(backend.device().kind(), DeviceKind::Cpu);
    assert!(Backend::best_of(Some("cpu"), &[]).is_err());
}
