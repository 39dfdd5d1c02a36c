use actlog::lsof::{
    parse_address_port, parse_lsof_line, parse_lsof_lines, parse_unsigned, separates,
    split_columns,
};
use actlog::ports::{
    comes_not_after, filter_ports, limit_ports, passes_filters, select_ports, sort_ports,
    PortInfo, PortListOptions, SortOption,
};

fn port(protocol: &str, number: u16, pid: Option<u32>, process: Option<&str>) -> PortInfo {
    PortInfo {
        protocol: protocol.to_string(),
        local_address: "*".to_string(),
        local_port: number,
        remote_address: None,
        remote_port: None,
        state: if protocol == "TCP" { Some("LISTEN".to_string()) } else { None },
        pid,
        process_name: process.map(str::to_string),
    }
}

fn numbers(ports: &[PortInfo]) -> Vec<u16> {
    ports.iter().map(|p| p.local_port).collect()
}

#[test]
fn default_options_filter_nothing() {
    let options = PortListOptions::default();
    assert_eq!(
        options,
        PortListOptions {
            show_all: false,
            filter_protocol: None,
            filter_port: None,
            filter_pid: None,
            sort_by: SortOption::Port,
            limit: None,
        }
    );
    assert!(passes_filters(&port("TCP", 1, None, None), &options));
}

#[test]
fn filters_agree_with_each_port_they_keep() {
    let ports = vec![
        port("TCP", 80, Some(1), Some("nginx")),
        port("UDP", 53, Some(2), Some("named")),
        port("tcp", 443, Some(1), Some("nginx")),
        port("TCP", 80, None, None),
    ];
    let mut options = PortListOptions::default();
    options.filter_protocol = Some("tcp".to_string());
    assert_eq!(numbers(&filter_ports(ports.clone(), &options)), vec![80, 443, 80]);
    options.filter_port = Some(80);
    assert_eq!(filter_ports(ports.clone(), &options), vec![ports[0].clone(), ports[3].clone()]);
    options.filter_pid = Some(1);
    assert_eq!(filter_ports(ports.clone(), &options), vec![ports[0].clone()]);
    options.filter_protocol = Some("TCPX".to_string());
    assert!(filter_ports(ports.clone(), &options).is_empty());
    let mut by_pid = PortListOptions::default();
    by_pid.filter_pid = Some(2);
    assert_eq!(numbers(&filter_ports(ports, &by_pid)), vec![53]);
}

#[test]
fn protocol_filter_ignores_ascii_case_only() {
    let mut options = PortListOptions::default();
    options.filter_protocol = Some("TcP".to_string());
    assert!(passes_filters(&port("tCp", 1, None, None), &options));
    assert!(!passes_filters(&port("tc", 1, None, None), &options));
    assert!(!passes_filters(&port("tcq", 1, None, None), &options));
    options.filter_protocol = Some("É".to_string());
    assert!(passes_filters(&port("É", 1, None, None), &options));
    assert!(!passes_filters(&port("é", 1, None, None), &options));
    options.filter_protocol = Some("@".to_string());
    assert!(!passes_filters(&port("`", 1, None, None), &options));
    options.filter_protocol = Some("[".to_string());
    assert!(!passes_filters(&port("{", 1, None, None), &options));
}

#[test]
fn sorting_by_port_is_stable() {
    let ports = vec![
        port("TCP", 443, Some(3), Some("c")),
        port("UDP", 53, Some(1), Some("a")),
        port("TCP", 53, Some(2), Some("b")),
        port("TCP", 22, Some(4), Some("d")),
        port("UDP", 443, Some(5), Some("e")),
    ];
    let sorted = sort_ports(ports.clone(), &SortOption::Port);
    assert_eq!(numbers(&sorted), vec![22, 53, 53, 443, 443]);
    let pids: Vec<Option<u32>> = sorted.iter().map(|p| p.pid).collect();
    assert_eq!(pids, vec![Some(4), Some(1), Some(2), Some(3), Some(5)]);
    let mut expected = ports.clone();
    expected.sort_by_key(|p| p.local_port);
    assert_eq!(sorted, expected);
}

#[test]
fn sorting_by_text_follows_the_order_of_strings() {
    let ports = vec![
        port("UDP", 1, None, Some("zsh")),
        port("TCP", 2, None, None),
        port("udp", 3, None, Some("Zsh")),
        port("TCP", 4, None, Some("")),
        port("TCPX", 5, None, Some("zs")),
        port("", 6, None, Some("é")),
        port("TCP", 7, None, Some("zsh")),
    ];
    let by_protocol = sort_ports(ports.clone(), &SortOption::Protocol);
    let mut expected = ports.clone();
    expected.sort_by(|a, b| a.protocol.cmp(&b.protocol));
    assert_eq!(by_protocol, expected);
    assert_eq!(numbers(&by_protocol), vec![6, 2, 4, 7, 5, 1, 3]);

    let by_process = sort_ports(ports.clone(), &SortOption::Process);
    let mut expected = ports.clone();
    expected.sort_by(|a, b| {
        a.process_name.as_deref().unwrap_or("").cmp(b.process_name.as_deref().unwrap_or(""))
    });
    assert_eq!(by_process, expected);
    assert_eq!(numbers(&by_process), vec![2, 4, 3, 5, 1, 7, 6]);

    let by_state = sort_ports(ports.clone(), &SortOption::State);
    let mut expected = ports.clone();
    expected.sort_by(|a, b| a.state.as_deref().unwrap_or("").cmp(b.state.as_deref().unwrap_or("")));
    assert_eq!(by_state, expected);
    assert_eq!(numbers(&by_state), vec![1, 3, 5, 6, 2, 4, 7]);
}

#[test]
fn order_of_two_ports() {
    let a = port("TCP", 80, None, Some("a"));
    let b = port("UDP", 79, None, Some("ab"));
    assert!(!comes_not_after(&a, &b, SortOption::Port));
    assert!(comes_not_after(&b, &a, SortOption::Port));
    assert!(comes_not_after(&a, &b, SortOption::Protocol));
    assert!(comes_not_after(&a, &b, SortOption::Process));
    assert!(!comes_not_after(&b, &a, SortOption::Process));
    assert!(!comes_not_after(&a, &b, SortOption::State));
    assert!(comes_not_after(&a, &a, SortOption::State));
}

#[test]
fn limit_cuts_the_listing_short() {
    let ports = vec![port("TCP", 1, None, None), port("TCP", 2, None, None)];
    assert_eq!(numbers(&limit_ports(ports.clone(), Some(1))), vec![1]);
    assert_eq!(numbers(&limit_ports(ports.clone(), Some(0))), Vec::<u16>::new());
    assert_eq!(numbers(&limit_ports(ports.clone(), Some(2))), vec![1, 2]);
    assert_eq!(numbers(&limit_ports(ports.clone(), Some(usize::MAX))), vec![1, 2]);
    assert_eq!(numbers(&limit_ports(ports, None)), vec![1, 2]);
}

#[test]
fn selection_filters_then_sorts_then_limits() {
    let ports = vec![
        port("TCP", 443, None, None),
        port("UDP", 53, None, None),
        port("TCP", 22, None, None),
        port("TCP", 80, None, None),
    ];
    let options = PortListOptions {
        show_all: false,
        filter_protocol: Some("tcp".to_string()),
        filter_port: None,
        filter_pid: None,
        sort_by: SortOption::Port,
        limit: Some(2),
    };
    assert_eq!(numbers(&select_ports(ports.clone(), &options)), vec![22, 80]);
    assert_eq!(numbers(&select_ports(ports, &PortListOptions::default())), vec![22, 53, 80, 443]);
}

#[test]
fn duplicate_copies_every_field() {
    let mut source = port("TCP", 8080, Some(7), Some("java"));
    source.remote_address = Some("10.0.0.1".to_string());
    source.remote_port = Some(9);
    assert_eq!(source.duplicate(), source);
}

#[test]
fn white_space_is_what_std_calls_white_space() {
    for code in 0..=0x10FFFFu32 {
        if let Some(c) = char::from_u32(code) {
            assert_eq!(separates(c), c.is_whitespace(), "U+{code:04X}");
        }
    }
}

#[test]
fn columns_are_the_runs_between_white_space() {
    for line in [
        "",
        " ",
        "a",
        " a",
        "a ",
        "  a  b\tc\n",
        "nginx 123 root 6u IPv4 0x1 0t0 TCP *:80 (LISTEN)",
        "a\u{a0}b\u{3000}c",
        "é  ü",
    ] {
        let expected: Vec<String> = line.split_whitespace().map(str::to_string).collect();
        assert_eq!(split_columns(line), expected, "{line:?}");
    }
}

#[test]
fn numerals_are_read_as_std_reads_them() {
    for text in [
        "", "+", "0", "7", "007", "+7", "65535", "65536", "+65535", "99999999999999999999",
        "00000000000000000000000042", "-1", "-0", "1a", "a1", " 1", "1 ", "++1", "1+", "٣", "1_0",
        "4294967295", "4294967296",
    ] {
        assert_eq!(parse_unsigned(text, 65535), text.parse::<u16>().ok().map(u32::from), "{text:?}");
        assert_eq!(parse_unsigned(text, u32::MAX), text.parse::<u32>().ok(), "{text:?}");
    }
    assert_eq!(parse_unsigned("10", 9), None);
    assert_eq!(parse_unsigned("9", 9), Some(9));
    assert_eq!(parse_unsigned("0", 0), Some(0));
}

#[test]
fn address_columns() {
    assert_eq!(parse_address_port("*"), Some(("*".to_string(), 0)));
    assert_eq!(parse_address_port("*:80"), Some(("*".to_string(), 80)));
    assert_eq!(parse_address_port("127.0.0.1:8080"), Some(("127.0.0.1".to_string(), 8080)));
    assert_eq!(parse_address_port("localhost:+53"), Some(("localhost".to_string(), 53)));
    assert_eq!(parse_address_port(":1"), Some((String::new(), 1)));
    assert_eq!(parse_address_port("host:65535"), Some(("host".to_string(), 65535)));
    for bad in ["", "host", "host:", "host:65536", "host:http", "[::1]:80", "a:1:2", "::", "**"] {
        assert_eq!(parse_address_port(bad), None, "{bad:?}");
    }
}

#[test]
fn lsof_lines_describe_ports() {
    let line = "nginx     123 root    6u  IPv4 0x1234      0t0  TCP *:80 (LISTEN)";
    assert_eq!(
        parse_lsof_line(line, "TCP"),
        Some(PortInfo {
            protocol: "TCP".to_string(),
            local_address: "*".to_string(),
            local_port: 80,
            remote_address: None,
            remote_port: None,
            state: Some("LISTEN".to_string()),
            pid: Some(123),
            process_name: Some("nginx".to_string()),
        })
    );
    let udp = parse_lsof_line("named 9 root 5u IPv4 0x1 0t0 UDP 127.0.0.1:53", "UDP").expect("one");
    assert_eq!(udp.state, None);
    assert_eq!(udp.protocol, "UDP");
    assert_eq!((udp.local_address.as_str(), udp.local_port), ("127.0.0.1", 53));
    assert_eq!(parse_lsof_line("named 9 root 5u IPv4 0x1 0t0 UDP", "UDP"), None);
    assert_eq!(parse_lsof_line("named x root 5u IPv4 0x1 0t0 UDP *:53", "UDP"), None);
    assert_eq!(parse_lsof_line("named 9 root 5u IPv4 0x1 0t0 UDP *:dns", "UDP"), None);
    assert_eq!(parse_lsof_line("named 9 root 5u IPv6 0x1 0t0 UDP [::1]:53", "UDP"), None);
    assert_eq!(parse_lsof_line("", "TCP"), None);
    let lower = parse_lsof_line("a 1 b c d e f g h:2 rest", "tcp").expect("one");
    assert_eq!(lower.state, None);
}

#[test]
fn lsof_listing_skips_the_heading_and_what_is_no_port() {
    let lines: Vec<String> = [
        "COMMAND PID USER FD TYPE DEVICE SIZE/OFF NODE NAME",
        "nginx 123 root 6u IPv4 0x1 0t0 TCP *:80 (LISTEN)",
        "broken line",
        "sshd 5 root 3u IPv4 0x2 0t0 TCP *:22 (LISTEN)",
    ]
    .iter()
    .map(|l| l.to_string())
    .collect();
    let ports = parse_lsof_lines(&lines, "TCP");
    assert_eq!(numbers(&ports), vec![80, 22]);
    let heading_like: Vec<String> = vec!["a 1 b c d e f g *:7".to_string()];
    assert!(parse_lsof_lines(&heading_like, "TCP").is_empty());
    assert!(parse_lsof_lines(&[], "TCP").is_empty());
}
