use hostroute::action::{Action, Uri};
use hostroute::resolver::{resolve, MAX_REDIRECTS};
use hostroute::routes::{RouteEntry, RouteTable};

fn mk_uri(host: &str) -> Uri {
    Uri { host: Some(host.to_string()), text: format!("https://{}", host) }
}

/// A table whose hosts `h0 .. h{k-1}` each redirect to the next, and whose
/// host `h{k}` serves static content: a chain of `k` redirect hops.
fn chain_table(k: usize) -> RouteTable {
    let mut entries = Vec::new();
    for i in 0..k {
        entries.push(RouteEntry {
            host: format!("h{}", i),
            action: Action::Redirect(mk_uri(&format!("h{}", i + 1))),
        });
    }
    entries.push(RouteEntry {
        host: format!("h{}", k),
        action: Action::Html("end".to_string()),
    });
    RouteTable { entries }
}

#[test]
fn resolves_localhost_to_static_content() {
    let r = resolve(&mk_uri("localhost"));
    assert_eq!(r, Ok(Action::Html("Local Development Server".to_string())));
}

#[test]
fn resolves_canonical_host_to_placeholder() {
    let r = resolve(&mk_uri("lambda.is-my-middle.name"));
    assert_eq!(
        r,
        Ok(Action::Html(
            "<strong>TODO</strong>: Placeholder for the actual homepage.".to_string()
        ))
    );
}

#[test]
fn resolves_check_host_to_redirect() {
    let r = resolve(&mk_uri("check-known.is-my-middle.name"));
    assert_eq!(
        r,
        Ok(Action::Redirect(Uri {
            host: Some("lambda.is-my-middle.name".to_string()),
            text: "https://lambda.is-my-middle.name?utm-campaign=unit-test".to_string(),
        }))
    );
}

#[test]
fn resolves_unknown_host_to_unrecognized() {
    let r = resolve(&mk_uri("unknown.example.com"));
    assert_eq!(
        r,
        Ok(Action::Unknown(Some("Unknown URL or Hostname".to_string())))
    );
}

#[test]
fn missing_hostname_is_malformed() {
    let uri = Uri { host: None, text: "/just/a/path".to_string() };
    let r = resolve(&uri);
    assert_eq!(
        r,
        Ok(Action::Error(500, "No hostname was specified".to_string()))
    );
}

#[test]
fn self_redirect_is_rejected_by_classifier() {
    let table = RouteTable {
        entries: vec![RouteEntry {
            host: "a.example".to_string(),
            action: Action::Redirect(mk_uri("a.example")),
        }],
    };
    let a = table.choose_action(&mk_uri("a.example"));
    assert_eq!(
        a,
        Action::Error(
            500,
            "Redirects to self. Aborting early to avoid recursion.".to_string()
        )
    );
}

#[test]
fn self_redirect_is_rejected_by_resolver_immediately() {
    let table = RouteTable {
        entries: vec![RouteEntry {
            host: "a.example".to_string(),
            action: Action::Redirect(mk_uri("a.example")),
        }],
    };
    let r = table.consume_cycles(&mk_uri("a.example"));
    assert_eq!(
        r,
        Ok(Action::Error(
            500,
            "Redirects to self. Aborting early to avoid recursion.".to_string()
        ))
    );
}

#[test]
fn two_host_cycle_exhausts_the_hop_bound() {
    let table = RouteTable {
        entries: vec![
            RouteEntry {
                host: "a.example".to_string(),
                action: Action::Redirect(mk_uri("b.example")),
            },
            RouteEntry {
                host: "b.example".to_string(),
                action: Action::Redirect(mk_uri("a.example")),
            },
        ],
    };
    let r = table.consume_cycles(&mk_uri("a.example"));
    assert_eq!(
        r,
        Err("Too many internal redirects. Aborting early to avoid recursion.".to_string())
    );
}

#[test]
fn zero_hop_chain_yields_the_terminal_action() {
    let r = chain_table(0).consume_cycles(&mk_uri("h0"));
    assert_eq!(r, Ok(Action::Html("end".to_string())));
}

#[test]
fn one_hop_chain_yields_the_last_redirect() {
    let r = chain_table(1).consume_cycles(&mk_uri("h0"));
    assert_eq!(r, Ok(Action::Redirect(mk_uri("h1"))));
}

#[test]
fn longest_terminating_chain_yields_the_last_redirect() {
    // The loop body runs MAX_REDIRECTS + 1 times, so a chain of
    // MAX_REDIRECTS + 1 hops still terminates, in its last redirect.
    let k = MAX_REDIRECTS + 1;
    let r = chain_table(k).consume_cycles(&mk_uri("h0"));
    assert_eq!(r, Ok(Action::Redirect(mk_uri(&format!("h{}", k)))));
}

#[test]
fn chain_past_the_hop_bound_is_a_redirect_loop() {
    let k = MAX_REDIRECTS + 2;
    let r = chain_table(k).consume_cycles(&mk_uri("h0"));
    assert_eq!(
        r,
        Err("Too many internal redirects. Aborting early to avoid recursion.".to_string())
    );
}

#[test]
fn resolving_twice_yields_identical_output() {
    for host in ["localhost", "check-known.is-my-middle.name", "unknown.example.com"] {
        let first = resolve(&mk_uri(host));
        let second = resolve(&mk_uri(host));
        assert_eq!(first, second);
    }
    let no_host = Uri { host: None, text: "/".to_string() };
    assert_eq!(resolve(&no_host), resolve(&no_host));
}
