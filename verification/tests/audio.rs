use voxforge::audio::find_device;

#[test]
fn device_found_by_name() {
    let names = vec![
        Some("Built-in Microphone".to_string()),
        None,
        Some("USB Mic".to_string()),
        Some("USB Mic".to_string()),
    ];
    assert_eq!(find_device(&names, "USB Mic"), Some(2));
    assert_eq!(find_device(&names, "Built-in Microphone"), Some(0));
    assert_eq!(find_device(&names, "usb mic"), None);
    assert_eq!(find_device(&names, ""), None);
    assert_eq!(find_device(&[], "USB Mic"), None);
}
