//! The route table and the action classifier: an immutable mapping from
//! hostname to action, looked up by exact string equality, with a guard
//! against a rule that redirects a host to itself.

use vstd::prelude::*;
use crate::action::{Action, ActionView, Uri, UriView};

verus! {

/// The mathematical value of a [`RouteEntry`].
#[verifier::ext_equal]
pub struct EntryView {
    pub host: Seq<char>,
    pub action: ActionView,
}

/// One rule of the route table: requests for `host` resolve to `action`.
pub struct RouteEntry {
    pub host: String,
    pub action: Action,
}

impl View for RouteEntry {
    type V = EntryView;

    open spec fn view(&self) -> EntryView {
        EntryView { host: self.host@, action: self.action@ }
    }
}

/// An immutable mapping from hostname to the action it resolves to, built
/// once and never mutated while requests are handled. A hostname matches an
/// entry by exact string equality; the first matching entry wins.
pub struct RouteTable {
    pub entries: Vec<RouteEntry>,
}

impl View for RouteTable {
    type V = Seq<EntryView>;

    open spec fn view(&self) -> Seq<EntryView> {
        self.entries@.map_values(|e: RouteEntry| e@)
    }
}

/// The action of the first entry whose host equals `host`, or `Unknown`
/// with its fixed message when no entry matches.
pub open spec fn lookup(t: Seq<EntryView>, host: Seq<char>) -> ActionView
    decreases t.len(),
{
    if t.len() == 0 {
        ActionView::Unknown(Some("Unknown URL or Hostname"@))
    } else if t[0].host == host {
        t[0].action
    } else {
        lookup(t.skip(1), host)
    }
}

/// Whether `a` is a redirect whose target names the very host it was
/// produced for.
pub open spec fn is_self_redirect(a: ActionView, host: Seq<char>) -> bool {
    match a {
        ActionView::Redirect(target) => target.host == Some(host),
        _ => false,
    }
}

/// What classifying `uri` against table `t` yields: an error when no
/// hostname is present, otherwise the table's action for the hostname,
/// overridden with an error when that action redirects the host to itself.
pub open spec fn classify(t: Seq<EntryView>, uri: UriView) -> ActionView {
    match uri.host {
        None => ActionView::Error(500, "No hostname was specified"@),
        Some(host) => {
            let a = lookup(t, host);
            if is_self_redirect(a, host) {
                ActionView::Error(500, "Redirects to self. Aborting early to avoid recursion."@)
            } else {
                a
            }
        },
    }
}

/// The routes this service ships with: a local-development marker host and
/// the canonical host serve static content; a legacy check host redirects to
/// the canonical host with its query parameters appended.
pub open spec fn production_routes() -> Seq<EntryView> {
    seq![
        EntryView {
            host: "localhost"@,
            action: ActionView::Html("Local Development Server"@),
        },
        EntryView {
            host: "lambda.is-my-middle.name"@,
            action: ActionView::Html(
                "<strong>TODO</strong>: Placeholder for the actual homepage."@,
            ),
        },
        EntryView {
            host: "check-known.is-my-middle.name"@,
            action: ActionView::Redirect(
                UriView {
                    host: Some("lambda.is-my-middle.name"@),
                    text: "https://lambda.is-my-middle.name?utm-campaign=unit-test"@,
                },
            ),
        },
    ]
}

impl RouteTable {
    /// The table of [`production_routes`], built as a value so that callers
    /// and tests may as well supply a synthetic table of their own.
    pub fn production() -> (r: RouteTable)
        ensures
            r@ == production_routes(),
    {
        let mut entries: Vec<RouteEntry> = Vec::new();
        entries.push(
            RouteEntry {
                host: String::from_str("localhost"),
                action: Action::Html(String::from_str("Local Development Server")),
            },
        );
        entries.push(
            RouteEntry {
                host: String::from_str("lambda.is-my-middle.name"),
                action: Action::Html(
                    String::from_str("<strong>TODO</strong>: Placeholder for the actual homepage."),
                ),
            },
        );
        entries.push(
            RouteEntry {
                host: String::from_str("check-known.is-my-middle.name"),
                action: Action::Redirect(
                    Uri {
                        host: Some(String::from_str("lambda.is-my-middle.name")),
                        text: String::from_str(
                            "https://lambda.is-my-middle.name?utm-campaign=unit-test",
                        ),
                    },
                ),
            },
        );
        let table = RouteTable { entries };
        proof {
            assert(table@ =~~= production_routes());
        }
        table
    }

    /// The table's action for `hostname`, by linear scan.
    fn find_rule(&self, hostname: &String) -> (r: Action)
        ensures
            r@ == lookup(self@, hostname@),
    {
        let n = self.entries.len();
        let mut i: usize = 0;
        proof {
            assert(self@.skip(0) =~= self@);
        }
        while i < n
            invariant
                n == self.entries.len(),
                i <= n,
                lookup(self@, hostname@) == lookup(self@.skip(i as int), hostname@),
            decreases n - i,
        {
            if self.entries[i].host.eq(hostname) {
                proof {
                    assert(self@.skip(i as int)[0] == self@[i as int]);
                }
                return self.entries[i].action.dup();
            }
            proof {
                assert(self@.skip(i as int).skip(1) =~= self@.skip(i as int + 1));
            }
            i = i + 1;
        }
        proof {
            assert(self@.skip(n as int).len() == 0);
        }
        Action::Unknown(Some(String::from_str("Unknown URL or Hostname")))
    }

    /// Choose a redirect, static content, or `Unknown` for one URI. A URI
    /// with no hostname is malformed; a rule that redirects a host to
    /// itself is rejected here, before any chain is followed.
    pub fn choose_action(&self, uri: &Uri) -> (r: Action)
        ensures
            r@ == classify(self@, uri@),
    {
        let hostname = match &uri.host {
            Some(h) => h,
            None => {
                return Action::Error(500, String::from_str("No hostname was specified"));
            },
        };

        let action = self.find_rule(hostname);

        // Detect immediate recursion.
        if let Action::Redirect(redirect_uri) = &action {
            if let Some(redirect_host) = &redirect_uri.host {
                if redirect_host.eq(hostname) {
                    return Action::Error(
                        500,
                        String::from_str("Redirects to self. Aborting early to avoid recursion."),
                    );
                }
            }
        }

        action
    }
}

} // verus!
