use kernel_core::bringup::{init, BringupAssets};
use kernel_core::session::{chars_eq, SchemeItem, Session};
use kernel_core::text::{contains_str, dr, parse_directory_listing, push_dec, push_str};
use kernel_core::time::Duration;

#[test]
fn boot_to_idle_reaches_the_expected_state() {
    let schemes: Vec<char> = "net/\nreadme\n".chars().collect();
    let apps: Vec<char> = "term/\nedit/\n".chars().collect();
    let assets = BringupAssets {
        ram_pages: 8192,
        rtc_time: Duration { secs: 1_700_000_000, nanos: 5 },
        pci_items: vec![SchemeItem { name: "e1000".chars().collect() }],
        cursor_present: true,
        schemes_listing: Some(schemes),
        apps_listing: Some(apps),
        background_present: true,
    };
    let (k, setup) = init(0xB8000, assets);

    assert_eq!(setup.len(), 8);
    assert!(contains_str(&k.log, "Redox"));
    assert!(contains_str(&k.log, "Reenabling interrupts"));
    assert!(contains_str(&k.log, "Loading cursor"));
    assert!(contains_str(&k.log, "Loading schemes"));
    assert!(contains_str(&k.log, "Loading apps"));
    assert!(contains_str(&k.log, "Loading background"));
    assert!(contains_str(&k.log, "Enabling context switching"));

    assert!(!k.debug_draw);
    assert!(k.contexts.enabled);
    assert!(k.intr_enabled);
    // root + polling + event + redraw + ARP reply + ICMP reply
    assert_eq!(k.contexts.contexts.len(), 6);
    assert_eq!(k.contexts.current, 0);

    assert_eq!(k.clock_realtime, Duration { secs: 1_700_000_000, nanos: 5 });
    assert_eq!(k.clock_monotonic, Duration { secs: 0, nanos: 0 });
    assert_eq!(k.font_addr, 0xB8000);
    assert_eq!(k.paging.ram_pages, 8192);

    assert!(k.session.cursor_set);
    assert!(k.session.background_set);
    assert!(k.session.redraw);

    // registration order decides URL resolution: built-in devices, PCI,
    // pseudo-schemes and protocols, then the loaded scheme
    let expect = [
        "ps2", "serial", "e1000", "context", "debug", "memory", "random", "time", "ethernet",
        "arp", "ip", "icmp", "tcp", "window", "net",
    ];
    assert_eq!(k.session.items.len(), expect.len());
    for (item, want) in k.session.items.iter().zip(expect.iter()) {
        let want_chars: Vec<char> = want.chars().collect();
        assert!(chars_eq(&item.name, &want_chars));
    }

    assert_eq!(k.session.packages.len(), 2);
    let term: Vec<char> = "file:///apps/term/".chars().collect();
    let edit: Vec<char> = "file:///apps/edit/".chars().collect();
    assert!(chars_eq(&k.session.packages[0].url, &term));
    assert!(chars_eq(&k.session.packages[1].url, &edit));
}

#[test]
fn missing_assets_are_skipped_silently() {
    let assets = BringupAssets {
        ram_pages: 256,
        rtc_time: Duration { secs: 0, nanos: 0 },
        pci_items: Vec::new(),
        cursor_present: false,
        schemes_listing: None,
        apps_listing: None,
        background_present: false,
    };
    let (k, _setup) = init(0, assets);
    assert!(!k.session.cursor_set);
    assert!(!k.session.background_set);
    assert!(!k.session.redraw);
    assert!(k.session.packages.is_empty());
    assert_eq!(k.session.items.len(), 13);
    assert!(k.contexts.enabled);
    assert!(contains_str(&k.log, "Loading apps"));
}

#[test]
fn directory_listing_keeps_only_directories() {
    let listing: Vec<char> = "ab/\nfile.txt\ncd/\n\nx".chars().collect();
    let dirs = parse_directory_listing(&listing);
    assert_eq!(dirs.len(), 2);
    assert_eq!(dirs[0], vec!['a', 'b']);
    assert_eq!(dirs[1], vec!['c', 'd']);
}

#[test]
fn directory_listing_takes_an_unterminated_last_line() {
    let listing: Vec<char> = "one/\ntwo/".chars().collect();
    let dirs = parse_directory_listing(&listing);
    assert_eq!(dirs.len(), 2);
    assert_eq!(dirs[1], vec!['t', 'w', 'o']);
}

#[test]
fn register_dump_line_is_name_colon_hex() {
    let line = dr("AX", 0xBEEF);
    let want: Vec<char> = "AX: BEEF\n".chars().collect();
    assert_eq!(line, want);
    let zero = dr("CR2", 0);
    let want_zero: Vec<char> = "CR2: 0\n".chars().collect();
    assert_eq!(zero, want_zero);
}

#[test]
fn decimal_formatting() {
    let mut out: Vec<char> = Vec::new();
    push_dec(&mut out, 64);
    assert_eq!(out, vec!['6', '4']);
    let mut out2: Vec<char> = Vec::new();
    push_dec(&mut out2, 1048576);
    let want: Vec<char> = "1048576".chars().collect();
    assert_eq!(out2, want);
}

#[test]
fn contains_str_finds_only_real_runs() {
    let mut log: Vec<char> = Vec::new();
    push_str(&mut log, "Loading cursor\nLoading apps\n");
    assert!(contains_str(&log, "Loading apps"));
    assert!(contains_str(&log, "cursor\nLoading"));
    assert!(!contains_str(&log, "Loading schemes"));
    assert!(contains_str(&log, ""));
}

#[test]
fn url_resolution_goes_by_scheme_prefix() {
    let mut s = Session::new();
    s.push_item(SchemeItem { name: "file".chars().collect() });
    s.push_item(SchemeItem { name: "tcp".chars().collect() });
    let url: Vec<char> = "file:///ui/cursor.bmp".chars().collect();
    assert_eq!(s.resolve_url(&url), Some(0));
    let tcp_url: Vec<char> = "tcp:10.0.0.1:80".chars().collect();
    assert_eq!(s.resolve_url(&tcp_url), Some(1));
    // a bare scheme with no colon still names the item
    let bare: Vec<char> = "tcp".chars().collect();
    assert_eq!(s.resolve_url(&bare), Some(1));
    let other: Vec<char> = "udp:53".chars().collect();
    assert_eq!(s.resolve_url(&other), None);
}

#[test]
fn registry_lookup_takes_the_first_match() {
    let mut s = Session::new();
    s.push_item(SchemeItem { name: "debug".chars().collect() });
    s.push_item(SchemeItem { name: "tcp".chars().collect() });
    s.push_item(SchemeItem { name: "tcp".chars().collect() });
    let tcp: Vec<char> = "tcp".chars().collect();
    assert_eq!(s.find_item(&tcp), Some(1));
    let none: Vec<char> = "udp".chars().collect();
    assert_eq!(s.find_item(&none), None);
}
