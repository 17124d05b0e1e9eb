//! Session lifecycle, device enumeration and capability formatting.

use ascend_rt::{finalize, init, version, DevProps, Device, Driver, MemSize};

fn one_device() -> Vec<DevProps> {
    vec![DevProps {
        ai_core: 2,
        vector_core: 4,
        l2_cache: 1 << 20,
        soc_name: String::from("TestSoC"),
    }]
}

#[test]
fn test_bindings() {
    let mut rt = Driver::new(Vec::new(), (8, 0, 0));
    init(&mut rt);
    println!("version: {:?}", version(&rt));
    assert_eq!(version(&rt), (8, 0, 0));
    finalize(&mut rt)
}

#[test]
fn test() {
    let mut rt = Driver::new(one_device(), (8, 0, 0));
    init(&mut rt);
    for i in 0..Device::count(&rt) {
        println!("{}", Device::new(i as u32).info(&rt).text());
    }
    finalize(&mut rt)
}

#[test]
fn device_info_text_exact() {
    let mut rt = Driver::new(one_device(), (8, 0, 0));
    init(&mut rt);
    let dev = Device::new(0);
    assert_eq!(dev.ai_core(&rt), 2);
    assert_eq!(dev.vector_core(&rt), 4);
    assert_eq!(dev.l2_cache(&rt), MemSize(1 << 20));
    assert_eq!(dev.name(&rt), "TestSoC");
    assert_eq!(
        dev.info(&rt).text(),
        "Dev0: TestSoC\n  AI Core: 2\n  Vector Core: 4\n  L2 Cache: 1MiB\n"
    );
}

#[test]
fn fetch_none_when_no_accelerator() {
    let mut rt = Driver::new(Vec::new(), (8, 0, 0));
    init(&mut rt);
    assert_eq!(Device::count(&rt), 0);
    assert!(Device::fetch(&rt).is_none());
    finalize(&mut rt)
}

#[test]
fn fetch_first_device() {
    let mut rt = Driver::new(one_device(), (8, 0, 0));
    init(&mut rt);
    let dev = Device::fetch(&rt).unwrap();
    assert_eq!(dev.as_raw(), 0);
}

#[test]
fn mem_size_units() {
    assert_eq!(MemSize(0).to_text(), "0");
    assert_eq!(MemSize(999).to_text(), "999B");
    assert_eq!(MemSize(1024).to_text(), "1KiB");
    assert_eq!(MemSize(1536).to_text(), "1536B");
    assert_eq!(MemSize(3 << 20).to_text(), "3MiB");
    assert_eq!(MemSize(7 << 30).to_text(), "7GiB");
    assert_eq!(MemSize(1 << 40).to_text(), "1TiB");
    assert_eq!(MemSize::from(2048usize), MemSize(2048));
}
