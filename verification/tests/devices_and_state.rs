use sentinel::state::ConnectedDevices;

#[test]
fn connected_devices_returns_current_list() {
    let mut devices = ConnectedDevices::new();
    devices.connect("sensor-01".to_string());
    devices.connect("sensor-02".to_string());

    let list = devices.list();
    assert_eq!(list.len(), 2);
    assert!(list.contains(&"sensor-01".to_string()));
}

#[test]
fn reconnecting_device_is_listed_once() {
    let mut devices = ConnectedDevices::new();
    devices.connect("sensor-01".to_string());
    devices.connect("sensor-02".to_string());
    devices.connect("sensor-01".to_string());
    assert_eq!(devices.list(), vec!["sensor-01".to_string(), "sensor-02".to_string()]);
    assert_eq!(devices.len(), 2);
}

#[test]
fn disconnect_removes_only_that_device() {
    let mut devices = ConnectedDevices::new();
    devices.connect("a".to_string());
    devices.connect("b".to_string());
    devices.connect("c".to_string());
    devices.disconnect("b");
    assert_eq!(devices.list(), vec!["a".to_string(), "c".to_string()]);
    assert!(!devices.contains("b"));
    assert!(devices.contains("c"));
    devices.disconnect("zzz");
    assert_eq!(devices.len(), 2);
}
