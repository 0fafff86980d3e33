use hook_diagram::label::{family_str, hook_str};
use hook_diagram::{Hook, HookFamily, ProtoFamily};

#[test]
fn labels_of_every_catalog_point() {
    let expected = [
        "HOOK: inet   | input ",
        "HOOK: inet   | output ",
        "HOOK: inet   | prerouting ",
        "HOOK: inet   | forward ",
        "HOOK: inet   | postrouting ",
        "HOOK: bridge | input ",
        "HOOK: bridge | output ",
        "HOOK: bridge | prerouting ",
        "HOOK: bridge | forward ",
        "HOOK: bridge | postrouting ",
        "HOOK: arp    | input ",
        "HOOK: arp    | output ",
    ];
    let catalog = HookFamily::catalog();
    for (p, e) in catalog.iter().zip(expected.iter()) {
        assert_eq!(p.format_label(), *e);
    }
}

#[test]
fn label_of_initial_selection() {
    assert_eq!(HookFamily::new().format_label(), "HOOK: inet   | input ");
}

#[test]
fn family_names() {
    assert_eq!(family_str(ProtoFamily::Arp), "arp");
    assert_eq!(family_str(ProtoFamily::Bridge), "bridge");
    assert_eq!(family_str(ProtoFamily::Inet), "inet");
    assert_eq!(family_str(ProtoFamily::Ipv4), "ipv4");
    assert_eq!(family_str(ProtoFamily::Ipv6), "ipv6");
    assert_eq!(family_str(ProtoFamily::NetDev), "netdev");
}

#[test]
fn hook_names() {
    assert_eq!(hook_str(Hook::In), "input");
    assert_eq!(hook_str(Hook::Out), "output");
    assert_eq!(hook_str(Hook::Forward), "forward");
    assert_eq!(hook_str(Hook::PreRouting), "prerouting");
    assert_eq!(hook_str(Hook::PostRouting), "postrouting");
}
