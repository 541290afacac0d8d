use aperfetch::host::Platform;
use aperfetch::metrics::{
    base_name_of, find_v4, get_disk_info, is_watched, local_ip, shell_name, user_name, Address,
    Interface, LocalIp, Mount,
};
use aperfetch::text::split;

const GIB: u64 = 1 << 30;

fn chars(s: &str) -> Vec<char> {
    s.chars().collect()
}

fn mount(on: &str, total: u64, avail: u64) -> Mount {
    Mount { mounted_on: on.to_string(), total, avail }
}

fn net(name: &str, addrs: Vec<Address>) -> Interface {
    Interface { name: name.to_string(), addrs }
}

// ---------------------------------------------------------------- disk

#[test]
fn disk_with_forty_of_a_hundred_available() {
    let mounts = vec![mount("/", 100 * GIB, 40 * GIB)];
    assert_eq!(get_disk_info(Platform::Linux, Some(&mounts)), "60.00 GiB / 100.00 GiB");
}

#[test]
fn disk_takes_the_first_mount_on_the_root() {
    let mounts = vec![
        mount("/boot", GIB, GIB / 2),
        mount("/data", 64 * GIB, 16 * GIB),
        mount("/", 200 * GIB, 50 * GIB),
        mount("/", 1, 1),
    ];
    assert_eq!(get_disk_info(Platform::Linux, Some(&mounts)), "150.00 GiB / 200.00 GiB");
    assert_eq!(get_disk_info(Platform::MacOs, Some(&mounts)), "150.00 GiB / 200.00 GiB");
    assert_eq!(get_disk_info(Platform::Other, Some(&mounts)), "150.00 GiB / 200.00 GiB");
    assert_eq!(get_disk_info(Platform::Android, Some(&mounts)), "48.00 GiB / 64.00 GiB");
}

#[test]
fn disk_used_space_stops_at_zero() {
    let mounts = vec![mount("/", 10 * GIB, 11 * GIB)];
    assert_eq!(get_disk_info(Platform::Linux, Some(&mounts)), "0.00 GiB / 10.00 GiB");
}

#[test]
fn disk_unknown_without_the_mount() {
    let mounts = vec![mount("/home", 10 * GIB, 5 * GIB), mount("/ ", 10 * GIB, 5 * GIB)];
    assert_eq!(get_disk_info(Platform::Linux, Some(&mounts)), "Unknown");
    assert_eq!(get_disk_info(Platform::Android, Some(&mounts)), "Unknown");
    assert_eq!(get_disk_info(Platform::Linux, Some(&Vec::new())), "Unknown");
    assert_eq!(get_disk_info(Platform::Linux, None), "Unknown");
}

#[test]
fn disk_is_not_covered_on_windows() {
    let mounts = vec![mount("/", 100 * GIB, 40 * GIB)];
    assert_eq!(get_disk_info(Platform::Windows, Some(&mounts)), "Unknown");
}

// ---------------------------------------------------------------- local address

#[test]
fn watched_interfaces_by_name() {
    for name in ["wlan0", "eth0", "en0", "enp3s0", "wlp2s0", "wl", "usb0", "en"] {
        assert!(is_watched(name), "{}", name);
    }
    for name in ["lo", "eth1", "wlan1x", "docker0", "", "e", "us", "tun0", "Ethernet", " eth0"] {
        assert_eq!(is_watched(name), name.starts_with("wl"), "{}", name);
    }
}

#[test]
fn first_v4_among_addresses() {
    assert_eq!(find_v4(&vec![]), None);
    assert_eq!(find_v4(&vec![Address::Other, Address::Other]), None);
    assert_eq!(
        find_v4(&vec![Address::Other, Address::V4(10, 0, 0, 2), Address::V4(10, 0, 0, 3)]),
        Some(Address::V4(10, 0, 0, 2))
    );
}

#[test]
fn local_ip_is_the_first_v4_of_the_first_watched_interface() {
    let nets = vec![
        net("docker0", vec![Address::V4(172, 17, 0, 1)]),
        net("enp3s0", vec![Address::Other]),
        net("lo", vec![Address::V4(127, 0, 0, 1)]),
        net("wlan0", vec![Address::Other, Address::V4(192, 168, 1, 20), Address::V4(192, 168, 1, 21)]),
        net("eth0", vec![Address::V4(10, 0, 0, 5)]),
    ];
    assert_eq!(
        local_ip(Some(&nets)),
        Some(LocalIp { interface: "wlan0".to_string(), address: "192.168.1.20".to_string() })
    );
}

#[test]
fn local_ip_is_none_without_such_an_address() {
    let nets = vec![net("lo", vec![Address::V4(127, 0, 0, 1)]), net("eth0", vec![Address::Other])];
    assert_eq!(local_ip(Some(&nets)), None);
    assert_eq!(local_ip(Some(&Vec::new())), None);
    assert_eq!(local_ip(None), None);
}

// ---------------------------------------------------------------- shell and user

#[test]
fn split_gives_the_pieces_between_the_separators() {
    for s in ["", "/", "a", "/bin/bash", "a//b/", "//", "usr/local/"] {
        let ours: Vec<String> = split(&chars(s), '/').iter().map(|p| p.iter().collect()).collect();
        let theirs: Vec<String> = s.split('/').map(|p| p.to_string()).collect();
        assert_eq!(ours, theirs, "{:?}", s);
    }
}

#[test]
fn base_name_is_the_file_name_of_the_path() {
    for s in [
        "/bin/bash",
        "/usr/bin/zsh",
        "fish",
        "/bin/bash/",
        "/bin//sh//",
        "/usr/.",
        "foo.txt/.",
        "foo.txt/.//",
        "./sh",
        "a/./",
        "/",
        "",
        ".",
        "./",
        "..",
        "a/..",
        "/bin/..",
        "...",
        "/opt/my shell",
        "/bin/.hidden",
        "a/..b",
    ] {
        let ours: Option<String> = base_name_of(&chars(s)).map(|n| n.iter().collect());
        let theirs = std::path::Path::new(s)
            .file_name()
            .and_then(|n| n.to_str())
            .map(|n| n.to_string());
        assert_eq!(ours, theirs, "{:?}", s);
    }
}

#[test]
fn shell_is_the_base_name_or_sh() {
    assert_eq!(shell_name(Some("/bin/bash")), "bash");
    assert_eq!(shell_name(Some("/usr/local/bin/fish")), "fish");
    assert_eq!(shell_name(Some("zsh")), "zsh");
    assert_eq!(shell_name(Some("/bin/ ksh ")), "ksh");
    assert_eq!(shell_name(Some("/")), "sh");
    assert_eq!(shell_name(Some("")), "sh");
    assert_eq!(shell_name(Some("/bin/..")), "sh");
    assert_eq!(shell_name(Some("/bin/ ")), "sh");
    assert_eq!(shell_name(None), "sh");
}

#[test]
fn environment_variables_by_name() {
    assert_eq!(aperfetch::host::ANDROID_ROOT, "ANDROID_ROOT");
    assert_eq!(aperfetch::metrics::SHELL, "SHELL");
    assert_eq!(aperfetch::metrics::USER, "USER");
    assert_eq!(aperfetch::metrics::USERNAME, "USERNAME");
}

#[test]
fn user_is_the_first_name_the_environment_holds() {
    assert_eq!(user_name(Some("ada"), Some("grace")), "ada");
    assert_eq!(user_name(Some(""), Some("grace")), "");
    assert_eq!(user_name(None, Some("grace")), "grace");
    assert_eq!(user_name(None, None), "aperfetch");
}
