use aperfetch::metrics::LocalIp;
use aperfetch::render::{
    collect_facts, info_lines, logo_lines, logo_width, push_padded, render, screen_lines, Fact,
    Readings, BLUE, BOLD, CYAN, GREEN, LOGO, RESET, RULE, YELLOW,
};

fn strings(lines: &[&str]) -> Vec<String> {
    lines.iter().map(|l| l.to_string()).collect()
}

fn fact(label: &str, value: &str) -> Fact {
    Fact { label: label.to_string(), value: value.to_string() }
}

fn readings() -> Readings {
    Readings {
        os: "Debian GNU/Linux 12".to_string(),
        kernel: "6.1.0".to_string(),
        uptime: "0 days, 1 hours, 2 mins".to_string(),
        shell: "bash".to_string(),
        cpu: "AMD Ryzen 7".to_string(),
        gpu: "Unknown".to_string(),
        memory: "1.00 GiB / 2.00 GiB".to_string(),
        disk: "Unknown".to_string(),
        local_ip: Some(LocalIp { interface: "eth0".to_string(), address: "10.0.0.5".to_string() }),
        resolution: "1920x1080".to_string(),
        packages: "12 (dpkg)".to_string(),
        manufacturer: "ASUS".to_string(),
        model: "Rev 1".to_string(),
        battery: "76% [Charging]".to_string(),
    }
}

#[test]
fn colours_are_the_ansi_codes() {
    assert_eq!(RESET, "\u{1b}[0m");
    assert_eq!(BOLD, "\u{1b}[1m");
    assert_eq!(GREEN, "\u{1b}[32m");
    assert_eq!(YELLOW, "\u{1b}[33m");
    assert_eq!(BLUE, "\u{1b}[34m");
    assert_eq!(CYAN, "\u{1b}[36m");
}

#[test]
fn facts_with_every_value_known_come_in_order() {
    let facts = collect_facts(&readings());
    let expected = vec![
        fact("OS", "Debian GNU/Linux 12"),
        fact("Kernel", "6.1.0"),
        fact("Uptime", "0 days, 1 hours, 2 mins"),
        fact("Shell", "bash"),
        fact("CPU", "AMD Ryzen 7"),
        fact("GPU", "Unknown"),
        fact("Memory", "1.00 GiB / 2.00 GiB"),
        fact("Disk", "Unknown"),
        fact("Local IP (eth0)", "10.0.0.5"),
        fact("Resolution", "1920x1080"),
        fact("Packages", "12 (dpkg)"),
        fact("Manufacturer", "ASUS"),
        fact("Model", "Rev 1"),
        fact("Battery", "76% [Charging]"),
    ];
    assert_eq!(facts, expected);
}

#[test]
fn optional_facts_without_a_value_are_left_out() {
    let mut r = readings();
    r.local_ip = None;
    r.resolution = "Unknown".to_string();
    r.manufacturer = "Unknown".to_string();
    r.battery = "Unknown".to_string();
    let labels: Vec<String> = collect_facts(&r).into_iter().map(|f| f.label).collect();
    assert_eq!(
        labels,
        strings(&["OS", "Kernel", "Uptime", "Shell", "CPU", "GPU", "Memory", "Disk", "Packages", "Model"])
    );
}

#[test]
fn mandatory_facts_stay_with_the_sentinel() {
    let r = Readings {
        os: "Unknown".to_string(),
        kernel: "Unknown".to_string(),
        uptime: "Unknown".to_string(),
        shell: "Unknown".to_string(),
        cpu: "Unknown".to_string(),
        gpu: "Unknown".to_string(),
        memory: "Unknown".to_string(),
        disk: "Unknown".to_string(),
        local_ip: None,
        resolution: "Unknown".to_string(),
        packages: "Unknown".to_string(),
        manufacturer: "Unknown".to_string(),
        model: "Unknown".to_string(),
        battery: "Unknown".to_string(),
    };
    let facts = collect_facts(&r);
    assert_eq!(facts.len(), 8);
    for f in facts {
        assert_eq!(f.value, "Unknown");
    }
}

#[test]
fn info_lines_are_title_rule_and_facts() {
    let lines = info_lines("ada", "tux", &vec![fact("OS", "Debian"), fact("Local IP (eth0)", "10.0.0.5")]);
    assert_eq!(
        lines,
        vec![
            format!("{}{}ada@tux{}{}", BOLD, GREEN, RESET, BOLD),
            format!("{}{}{}{}", CYAN, "-----------------", RESET, BOLD),
            format!("{}OS: Debian{}", BOLD, RESET),
            format!("{}Local IP (eth0): 10.0.0.5{}", BOLD, RESET),
        ]
    );
    assert_eq!(RULE.len(), 17);
    assert_eq!(info_lines("", "", &Vec::new()).len(), 2);
}

#[test]
fn logo_lines_are_those_of_the_trimmed_art() {
    let ours = logo_lines(LOGO);
    let theirs: Vec<String> = LOGO.trim().lines().map(|l| l.to_string()).collect();
    assert_eq!(ours, theirs);
    assert_eq!(ours.len(), 8);
    assert_eq!(ours[0], "___                  ");
    assert_eq!(ours[7], "      |_|");
    assert_eq!(logo_width(&ours), 23);
}

#[test]
fn logo_width_counts_characters() {
    assert_eq!(logo_width(&Vec::new()), 0);
    assert_eq!(logo_width(&strings(&["ab", "abcd", "abc"])), 4);
    assert_eq!(logo_width(&strings(&["\u{2588}\u{2588}\u{2588}", "ab"])), 3);
}

#[test]
fn padding_fills_up_to_the_width() {
    let mut out: Vec<char> = vec!['>'];
    push_padded(&mut out, &vec!['a', 'b'], 5);
    assert_eq!(out.iter().collect::<String>(), ">ab   ");
    let mut out: Vec<char> = Vec::new();
    push_padded(&mut out, &vec!['a', 'b', 'c'], 2);
    assert_eq!(out.iter().collect::<String>(), "abc");
    let mut out: Vec<char> = Vec::new();
    push_padded(&mut out, &Vec::new(), 5);
    assert_eq!(out.iter().collect::<String>(), "     ");
}

#[test]
fn render_three_logo_lines_beside_five_facts() {
    let logo = strings(&["/\\", "/##\\", "/####"]);
    let info = strings(&["one", "two", "three", "four", "five"]);
    assert_eq!(logo_width(&logo), 5);
    let out = render(&logo, &info);
    assert_eq!(out.len(), 7);
    assert_eq!(out[0], "");
    assert_eq!(out[6], "");
    assert_eq!(out[1], format!("  {}/\\   {}   one", CYAN, RESET));
    assert_eq!(out[2], format!("  {}/##\\ {}   two", CYAN, RESET));
    assert_eq!(out[3], format!("  {}/####{}   three", CYAN, RESET));
    assert_eq!(out[4], format!("  {}     {}   four", CYAN, RESET));
    assert_eq!(out[5], format!("  {}     {}   five", CYAN, RESET));
}

#[test]
fn render_is_the_formatted_line_of_each_row() {
    let logo = logo_lines(LOGO);
    let info = info_lines("ada", "tux", &collect_facts(&readings()));
    let width = logo_width(&logo);
    let out = render(&logo, &info);
    let rows = std::cmp::max(logo.len(), info.len());
    assert_eq!(out.len(), rows + 2);
    for i in 0..rows {
        let left = logo.get(i).cloned().unwrap_or_default();
        let right = info.get(i).cloned().unwrap_or_default();
        assert_eq!(out[i + 1], format!("  {}{:<width$}{}   {}", CYAN, left, RESET, right, width = width));
    }
}

#[test]
fn render_pads_the_facts_column_with_empty_lines() {
    let logo = strings(&["ab", "abc", "a"]);
    let info = strings(&["only"]);
    let out = render(&logo, &info);
    assert_eq!(
        out,
        vec![
            String::new(),
            format!("  {}ab {}   only", CYAN, RESET),
            format!("  {}abc{}   ", CYAN, RESET),
            format!("  {}a  {}   ", CYAN, RESET),
            String::new(),
        ]
    );
}

#[test]
fn render_of_nothing_is_two_empty_lines() {
    assert_eq!(render(&Vec::new(), &Vec::new()), vec![String::new(), String::new()]);
}

#[test]
fn screen_is_the_logo_beside_title_rule_and_facts() {
    let r = readings();
    let out = screen_lines("ada", "tux", &r);
    assert_eq!(out, render(&logo_lines(LOGO), &info_lines("ada", "tux", &collect_facts(&r))));
    assert_eq!(out.len(), 2 + 2 + 14);
    assert_eq!(out[1], format!("  {}{:<23}{}   {}{}ada@tux{}{}", CYAN, "___", RESET, BOLD, GREEN, RESET, BOLD));
    assert_eq!(out[3], format!("  {}{:<23}{}   {}OS: Debian GNU/Linux 12{}", CYAN, "/ /_\\ \\_ __   ___ _ __", RESET, BOLD, RESET));
    assert_eq!(out[16], format!("  {}{:<23}{}   {}Battery: 76% [Charging]{}", CYAN, "", RESET, BOLD, RESET));
}
