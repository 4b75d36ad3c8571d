use amp_sim::devices::{device_listing, AudioDeviceManager, DeviceError, NamedDevice};

fn dev(name: &str, id: u32) -> NamedDevice<u32> {
    NamedDevice { name: name.to_string(), handle: id }
}

fn manager() -> AudioDeviceManager<u32> {
    AudioDeviceManager::new(Some(dev("Mic", 1)), Some(dev("Speakers", 2))).ok().unwrap()
}

#[test]
fn new_needs_both_defaults() {
    assert!(matches!(AudioDeviceManager::new(None, Some(dev("Speakers", 2))), Err(DeviceError::NoDefaultInput)));
    assert!(matches!(AudioDeviceManager::new(Some(dev("Mic", 1)), None), Err(DeviceError::NoDefaultOutput)));
    assert!(matches!(AudioDeviceManager::<u32>::new(None, None), Err(DeviceError::NoDefaultInput)));
    let m = manager();
    assert_eq!(m.input_device().name, "Mic");
    assert_eq!(m.output_device().handle, 2);
}

#[test]
fn select_input_by_exact_name() {
    let mut m = manager();
    let available = Ok(vec![dev("USB Interface", 10), dev("Line In", 11), dev("Line In", 12)]);
    assert_eq!(m.set_input_device(available, "Line In"), Ok(()));
    assert_eq!(m.input_device().handle, 11);
    assert_eq!(m.output_device().handle, 2);
}

#[test]
fn select_output_changes_only_output() {
    let mut m = manager();
    let available = Ok(vec![dev("Headphones", 20)]);
    assert_eq!(m.set_output_device(available, "Headphones"), Ok(()));
    assert_eq!(m.output_device().handle, 20);
    assert_eq!(m.input_device().handle, 1);
}

#[test]
fn unknown_device_keeps_selection() {
    let mut m = manager();
    let available = Ok(vec![dev("line in", 11)]);
    assert_eq!(m.set_input_device(available, "Line In"), Err(DeviceError::NotFound));
    assert_eq!(m.input_device().handle, 1);
    assert_eq!(m.set_output_device(Ok(vec![]), "Speakers"), Err(DeviceError::NotFound));
    assert_eq!(m.output_device().handle, 2);
}

#[test]
fn enumeration_failure_keeps_selection() {
    let mut m = manager();
    let r = m.set_input_device(Err("backend gone".to_string()), "Mic");
    assert_eq!(r, Err(DeviceError::Enumeration("backend gone".to_string())));
    assert_eq!(m.input_device().handle, 1);
}

#[test]
fn listing_skips_unreadable_names() {
    let (names, err) = device_listing(Ok(vec![Some("A".to_string()), None, Some("B".to_string())]));
    assert_eq!(names, vec!["A".to_string(), "B".to_string()]);
    assert_eq!(err, None);
}

#[test]
fn listing_failure_gives_empty_list_and_error() {
    let (names, err) = device_listing(Err("no host".to_string()));
    assert!(names.is_empty());
    assert_eq!(err, Some(DeviceError::Enumeration("no host".to_string())));
}
