use color_eyre::eyre::Report;
use rlirsh::execute::parse_addr;
use rlirsh::net::{create_socket, SocketAddr, SocketAddrs, SocketKind};
use rlirsh::parse::local_port_forward_specifier;

const LOCAL: SocketAddr = SocketAddr::V4 { ip: [127, 0, 0, 1], port: 22 };
const LOCAL6: SocketAddr = SocketAddr::V6 { ip6: [0; 16], port: 22, flowinfo: 0, scope_id: 0 };

fn chain(report: &Report) -> Vec<String> {
    report.chain().map(|cause| cause.to_string()).collect()
}

#[test]
fn an_address_needs_its_kind_of_socket() {
    assert_eq!(create_socket(&LOCAL), SocketKind::V4);
    assert_eq!(create_socket(&LOCAL6), SocketKind::V6);
}

#[test]
fn addresses_are_tried_in_order() {
    let addrs = SocketAddrs::new("localhost:22".into(), Ok(vec![LOCAL6, LOCAL])).unwrap();
    assert_eq!(addrs.text(), "localhost:22");
    assert_eq!(addrs.connect(0).unwrap(), LOCAL6);
    assert_eq!(addrs.connect(1).unwrap(), LOCAL);
    assert_eq!(
        chain(&addrs.connect(2).unwrap_err()),
        vec!["failed to connect to the address `localhost:22`"]
    );
    assert_eq!(addrs.listen(1).unwrap(), LOCAL);
    assert_eq!(
        chain(&addrs.listen(2).unwrap_err()),
        vec!["failed to listen on the address `localhost:22`"]
    );
}

#[test]
fn an_address_that_stands_for_nothing_is_an_error() {
    assert_eq!(
        chain(&SocketAddrs::new("x:1".into(), Ok(vec![])).unwrap_err()),
        vec!["failed to lookup address information for `x:1`"]
    );
    assert_eq!(
        chain(&SocketAddrs::new("x:1".into(), Err(Report::msg("no such host"))).unwrap_err()),
        vec!["failed to lookup address information for `x:1`", "no such host"]
    );
}

#[test]
fn the_host_is_the_first_address() {
    assert_eq!(parse_addr(Ok(vec![LOCAL, LOCAL6])), Ok(LOCAL));
    assert_eq!(parse_addr(Ok(vec![])), Err("failed to lookup address information".into()));
    assert_eq!(parse_addr(Err("no such host".into())), Err("no such host".into()));
}

#[test]
fn forwarding_with_a_bind_address() {
    let (local, remote) = local_port_forward_specifier("127.0.0.1:8080:example.com:80").unwrap();
    assert_eq!((local.as_str(), remote.as_str()), ("127.0.0.1:8080", "example.com:80"));
}

#[test]
fn forwarding_without_a_bind_address() {
    let (local, remote) = local_port_forward_specifier("8080:example.com:80").unwrap();
    assert_eq!((local.as_str(), remote.as_str()), ("0.0.0.0:8080", "example.com:80"));
}

#[test]
fn forwarding_of_another_form_is_refused() {
    assert_eq!(
        chain(&local_port_forward_specifier("8080:80").unwrap_err()),
        vec!["invalid port forwarding specifier: [\"8080\", \"80\"]"]
    );
    assert_eq!(
        chain(&local_port_forward_specifier("").unwrap_err()),
        vec!["invalid port forwarding specifier: [\"\"]"]
    );
    assert!(local_port_forward_specifier("a:b:c:d:e").is_err());
}
