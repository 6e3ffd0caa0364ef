use krun_boot::dhcp::{
    check_outcome, classify_exit, first_step, next_step, probe, ChildOutcome, DhcpClient,
    DhcpError, DhcpStep, ProbeKind, PROBE_COUNT,
};
use krun_boot::host_net::{interface_name, static_plan, ConfigError, NetRequest, NetworkVar};
use krun_boot::hostname::hostname_from_file;
use krun_boot::ipv4::{prefix_len, Ipv4Address};

fn addr(a: u8, b: u8, c: u8, d: u8) -> Ipv4Address {
    Ipv4Address { a, b, c, d }
}

#[test]
fn hostname_stops_at_first_newline() {
    assert_eq!(hostname_from_file("foo\nbar\n"), "foo");
    assert_eq!(hostname_from_file("foo"), "foo");
    assert_eq!(hostname_from_file(""), "");
    assert_eq!(hostname_from_file("\nfoo"), "");
}

#[test]
fn hostname_is_idempotent() {
    let once = hostname_from_file("guest-1\nignored\n");
    let twice = hostname_from_file(&once);
    assert_eq!(once, "guest-1");
    assert_eq!(twice, once);
}

#[test]
fn parse_accepts_dotted_decimal() {
    assert_eq!(Ipv4Address::parse("10.0.2.15"), Some(addr(10, 0, 2, 15)));
    assert_eq!(Ipv4Address::parse("255.255.255.0"), Some(addr(255, 255, 255, 0)));
    assert_eq!(Ipv4Address::parse("0.0.0.0"), Some(addr(0, 0, 0, 0)));
}

#[test]
fn parse_rejects_malformed_text() {
    for s in [
        "", "1.2.3", "1.2.3.4.5", "256.0.0.1", "01.2.3.4", "a.b.c.d", "1..2.3", "1.2.3.4 ",
        " 1.2.3.4", "1.2.3.-4", "1000.1.1.1", "1.2.3.4.",
    ] {
        assert_eq!(Ipv4Address::parse(s), None, "{s}");
    }
}

#[test]
fn address_text_and_bits() {
    let x = addr(10, 0, 2, 15);
    assert_eq!(x.to_text(), "10.0.2.15");
    assert_eq!(addr(192, 168, 100, 255).to_text(), "192.168.100.255");
    assert_eq!(x.to_bits(), 0x0a00_020f);
}

#[test]
fn prefix_from_mask() {
    assert_eq!(prefix_len(addr(255, 255, 255, 0)), 24);
    assert_eq!(prefix_len(addr(255, 255, 0, 0)), 16);
    assert_eq!(prefix_len(addr(0, 0, 0, 0)), 0);
    assert_eq!(prefix_len(addr(255, 255, 255, 255)), 32);
    assert_eq!(prefix_len(addr(255, 255, 255, 252)), 30);
    // A mask with a hole counts only the ones before its first zero.
    assert_eq!(prefix_len(addr(255, 0, 255, 0)), 8);
}

#[test]
fn plan_errors_name_the_variable() {
    let good = Some("10.0.2.15");
    let mask = Some("255.255.255.0");
    let router = Some("10.0.2.2");
    assert_eq!(
        static_plan(None, mask, router),
        Err(ConfigError::Missing(NetworkVar::Address))
    );
    assert_eq!(
        static_plan(Some("10.0.2"), mask, router),
        Err(ConfigError::Invalid(NetworkVar::Address))
    );
    assert_eq!(
        static_plan(good, None, router),
        Err(ConfigError::Missing(NetworkVar::Mask))
    );
    assert_eq!(
        static_plan(good, Some("255.255.255.256"), router),
        Err(ConfigError::Invalid(NetworkVar::Mask))
    );
    assert_eq!(
        static_plan(good, mask, None),
        Err(ConfigError::Missing(NetworkVar::Router))
    );
    assert_eq!(
        static_plan(good, mask, Some("router")),
        Err(ConfigError::Invalid(NetworkVar::Router))
    );
    // The first bad variable is the one reported.
    assert_eq!(
        static_plan(Some("x"), None, None),
        Err(ConfigError::Invalid(NetworkVar::Address))
    );
    assert_eq!(NetworkVar::Address.name(), "KRUN_NETWORK_ADDRESS");
    assert_eq!(NetworkVar::Mask.name(), "KRUN_NETWORK_MASK");
    assert_eq!(NetworkVar::Router.name(), "KRUN_NETWORK_ROUTER");
}

#[test]
fn plan_with_link_present() {
    let plan = static_plan(Some("10.0.2.15"), Some("255.255.255.0"), Some("10.0.2.2")).unwrap();
    assert_eq!(plan.address, addr(10, 0, 2, 15));
    assert_eq!(plan.prefix, 24);
    assert_eq!(plan.router, addr(10, 0, 2, 2));
    assert_eq!(interface_name(), "eth0");
    assert_eq!(
        plan.requests(Some(3)),
        vec![
            NetRequest::AddAddress { link: 3, address: addr(10, 0, 2, 15), prefix: 24 },
            NetRequest::LinkUp { link: 3 },
            NetRequest::AddDefaultRoute { gateway: addr(10, 0, 2, 2) },
        ]
    );
    assert_eq!(plan.resolv_conf(), "nameserver 10.0.2.2");
}

#[test]
fn plan_with_link_absent() {
    let plan = static_plan(Some("10.0.2.15"), Some("255.255.255.0"), Some("10.0.2.2")).unwrap();
    assert_eq!(
        plan.requests(None),
        vec![NetRequest::AddDefaultRoute { gateway: addr(10, 0, 2, 2) }]
    );
    assert_eq!(plan.resolv_conf(), "nameserver 10.0.2.2");
}

fn run_search(found: [bool; 4]) -> (DhcpStep, Vec<&'static str>) {
    let mut probed = Vec::new();
    let mut step = first_step();
    while let DhcpStep::Probe(i) = step {
        probed.push(probe(i).target());
        step = next_step(i, found[i]);
    }
    (step, probed)
}

#[test]
fn search_takes_the_only_fallback() {
    let (step, probed) = run_search([false, false, false, true]);
    assert_eq!(step, DhcpStep::Run(DhcpClient::Dhclient));
    assert_eq!(probed, vec!["dhcpcd", "/sbin/dhcpcd", "dhclient", "/sbin/dhclient"]);
}

#[test]
fn search_stops_at_first_found() {
    let (step, probed) = run_search([true, true, true, true]);
    assert_eq!(step, DhcpStep::Run(DhcpClient::Dhcpcd));
    assert_eq!(probed, vec!["dhcpcd"]);
    let (step, probed) = run_search([false, true, true, true]);
    assert_eq!(step, DhcpStep::Run(DhcpClient::Dhcpcd));
    assert_eq!(probed, vec!["dhcpcd", "/sbin/dhcpcd"]);
    let (step, probed) = run_search([false, false, true, false]);
    assert_eq!(step, DhcpStep::Run(DhcpClient::Dhclient));
    assert_eq!(probed.len(), 3);
}

#[test]
fn search_without_any_client() {
    let (step, probed) = run_search([false; 4]);
    assert_eq!(step, DhcpStep::NotFound);
    assert_eq!(probed.len(), PROBE_COUNT);
    assert_eq!(
        DhcpError::NotFound.message(),
        "could not find required `dhcpcd` or `dhclient`"
    );
    assert_eq!(probe(1).kind, ProbeKind::FixedPath);
}

#[test]
fn client_arguments() {
    assert_eq!(
        DhcpClient::Dhcpcd.args(),
        vec!["-M", "eth0", "-e", "resolvconf=does-not-exist"]
    );
    assert!(DhcpClient::Dhclient.args().is_empty());
    assert_eq!(DhcpClient::Dhclient.name(), "dhclient");
}

#[test]
fn exit_outcomes_are_classified() {
    assert_eq!(classify_exit(true, Some(0), None), ChildOutcome::Success);
    assert_eq!(classify_exit(false, Some(1), None), ChildOutcome::ExitCode(1));
    assert_eq!(classify_exit(false, None, Some(9)), ChildOutcome::Signal(9));
    assert_eq!(classify_exit(false, None, None), ChildOutcome::Unknown);
    let c = DhcpClient::Dhcpcd;
    assert_eq!(check_outcome(c, ChildOutcome::Success), Ok(()));
    assert_eq!(
        check_outcome(c, ChildOutcome::ExitCode(1)),
        Err(DhcpError::ExitCode { client: c, code: 1 })
    );
    assert_eq!(
        check_outcome(c, ChildOutcome::Signal(9)),
        Err(DhcpError::Signal { client: c, signal: 9 })
    );
    assert_eq!(
        check_outcome(c, ChildOutcome::Unknown),
        Err(DhcpError::NoStatus { client: c })
    );
}

#[test]
fn code_and_signal_messages_differ() {
    let code = DhcpError::ExitCode { client: DhcpClient::Dhcpcd, code: 1 }.message();
    let signal = DhcpError::Signal { client: DhcpClient::Dhcpcd, signal: 9 }.message();
    assert_eq!(code, "`dhcpcd` process exited with status code: 1");
    assert_eq!(signal, "`dhcpcd` process terminated by signal: 9");
    assert_ne!(code, signal);
    assert_eq!(
        DhcpError::ExitCode { client: DhcpClient::Dhclient, code: -12 }.message(),
        "`dhclient` process exited with status code: -12"
    );
    assert_eq!(
        DhcpError::ExitCode { client: DhcpClient::Dhclient, code: i32::MIN }.message(),
        "`dhclient` process exited with status code: -2147483648"
    );
}
