use whatcable::manager::{DeviceManager, Sysfs};
use whatcable::render::tree_lines;
use whatcable::topology::build_topology;
use whatcable::usb::UsbDevice;

fn dev(bp: &str, root: bool, product: &str) -> UsbDevice {
    UsbDevice {
        bus_port: bp.into(),
        is_root_hub: root,
        product: product.into(),
        ..Default::default()
    }
}

#[test]
fn deep_topology_preserves_parent_chain() {
    let mut devs = vec![
        dev("1-1", false, "Hub"),
        dev("1-1.2", false, "Keyboard"),
        dev("usb1", true, ""),
        dev("1-1.2.3", false, "Deep"),
    ];
    build_topology(&mut devs);
    assert_eq!(devs.len(), 4);
    let root = &devs[2];
    assert_eq!(root.children.len(), 1);
    assert_eq!(root.children[0].bus_port, "1-1");
    // The hub copied under the root already carries its own subtree.
    assert_eq!(root.children[0].children.len(), 1);
    assert_eq!(root.children[0].children[0].bus_port, "1-1.2");
    assert_eq!(root.children[0].children[0].children[0].bus_port, "1-1.2.3");
    assert_eq!(devs[1].children.len(), 1);
    assert!(devs[3].children.is_empty());
}

#[test]
fn orphans_and_root_hubs_stay_unlinked() {
    let mut devs = vec![dev("usb2", true, ""), dev("9-9", false, "Orphan")];
    build_topology(&mut devs);
    assert!(devs[0].children.is_empty());
    assert!(devs[1].children.is_empty());
}

#[test]
fn tree_view_draws_roots_children_and_legend() {
    let mut devs = vec![
        dev("usb1", true, ""),
        dev("1-1", false, "Keyboard"),
        dev("1-2", false, "Mouse"),
        dev("usb2", true, ""),
    ];
    devs[0].speed = 480;
    build_topology(&mut devs);
    let mut mgr = DeviceManager::with_sysfs(Sysfs::with_root("/no/such"));
    mgr.refresh(devs, vec![], vec![], vec![]);
    let out = tree_lines(&mgr).join("\n");
    assert!(out.contains("● usb1"));
    assert!(out.contains("USB 2.0 root"));
    assert!(out.contains("├─ Keyboard"));
    assert!(out.contains("└─ Mouse"));
    // An empty root hub is not drawn.
    assert!(!out.contains("usb2"));
    assert!(out.contains("Link:"));
    assert!(!out.contains("No USB devices found."));
}
