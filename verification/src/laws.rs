//! The guarantees of the resolver, stated and proved once and for all: an
//! unknown host is reported as unrecognized, static content is served
//! untouched, a self-redirect is rejected at once, and a redirect chain
//! terminates within the hop bound or is reported as a loop.

use vstd::prelude::*;
use crate::action::{ActionView, UriView};
use crate::resolver::{follow, resolve_spec, MAX_REDIRECTS};
use crate::routes::{classify, is_self_redirect, lookup, production_routes, EntryView};

verus! {

/// A hostname that no entry of the table names looks up to `Unknown` with
/// its fixed message.
pub proof fn lemma_lookup_unknown(t: Seq<EntryView>, host: Seq<char>)
    requires
        forall|i: int| 0 <= i < t.len() ==> t[i].host != host,
    ensures
        lookup(t, host) == ActionView::Unknown(Some("Unknown URL or Hostname"@)),
    decreases t.len(),
{
    if t.len() > 0 {
        assert(forall|i: int| 0 <= i < t.skip(1).len() ==> t.skip(1)[i] == t[i + 1]);
        lemma_lookup_unknown(t.skip(1), host);
    }
}

/// Law: every hostname that the table does not know resolves to
/// `Unknown`, whatever the rest of the table holds.
pub proof fn lemma_unknown_host_unrecognized(t: Seq<EntryView>, uri: UriView)
    requires
        uri.host matches Some(host) && (forall|i: int| 0 <= i < t.len() ==> t[i].host != host),
    ensures
        resolve_spec(t, uri) == Ok::<ActionView, ()>(
            ActionView::Unknown(Some("Unknown URL or Hostname"@)),
        ),
{
    let host = uri.host->Some_0;
    lemma_lookup_unknown(t, host);
}

/// Law: every hostname outside the shipped routes resolves to `Unknown`
/// against them.
pub proof fn lemma_production_unknown_host(uri: UriView)
    requires
        uri.host matches Some(host) && host != "localhost"@
            && host != "lambda.is-my-middle.name"@
            && host != "check-known.is-my-middle.name"@,
    ensures
        resolve_spec(production_routes(), uri) == Ok::<ActionView, ()>(
            ActionView::Unknown(Some("Unknown URL or Hostname"@)),
        ),
{
    let t = production_routes();
    assert(t[0].host == "localhost"@);
    assert(t[1].host == "lambda.is-my-middle.name"@);
    assert(t[2].host == "check-known.is-my-middle.name"@);
    lemma_unknown_host_unrecognized(t, uri);
}

/// Law: a URI that classifies to static content resolves to exactly that
/// content, and does so with no hop consumed: following it succeeds even
/// with no fuel at all.
pub proof fn lemma_static_content(t: Seq<EntryView>, uri: UriView, body: Seq<char>)
    requires
        classify(t, uri) == ActionView::Html(body),
    ensures
        resolve_spec(t, uri) == Ok::<ActionView, ()>(ActionView::Html(body)),
        forall|fuel: nat| follow(t, classify(t, uri), fuel) == Ok::<ActionView, ()>(
            ActionView::Html(body),
        ),
{
}

/// Law: a host whose own rule redirects back to it classifies to the
/// malformed-input error at once, and resolution returns that error
/// whatever the hop bound: following it needs no fuel at all.
pub proof fn lemma_self_redirect_malformed(t: Seq<EntryView>, uri: UriView)
    requires
        uri.host matches Some(host) && is_self_redirect(lookup(t, host), host),
    ensures
        classify(t, uri) == ActionView::Error(
            500,
            "Redirects to self. Aborting early to avoid recursion."@,
        ),
        forall|fuel: nat| follow(t, classify(t, uri), fuel) == Ok::<ActionView, ()>(
            ActionView::Error(500, "Redirects to self. Aborting early to avoid recursion."@),
        ),
        resolve_spec(t, uri) == Ok::<ActionView, ()>(
            ActionView::Error(500, "Redirects to self. Aborting early to avoid recursion."@),
        ),
{
}

/// Whether `us` is a complete redirect chain of table `t`: every URI but
/// the last classifies to a redirect whose target is the next URI, and the
/// last classifies to a terminal action. A chain of length 1 is a URI that
/// classifies to a terminal action outright; a chain of length `k + 1`
/// walks `k` redirect hops.
pub open spec fn is_redirect_chain(t: Seq<EntryView>, us: Seq<UriView>) -> bool {
    &&& us.len() >= 1
    &&& forall|i: int|
        0 <= i < us.len() - 1 ==> classify(t, us[i]) == ActionView::Redirect(us[i + 1])
    &&& !(classify(t, us[us.len() - 1]) is Redirect)
}

/// Following the pending redirect to `us[j]` finishes in the chain's last
/// redirect exactly when the remaining hops fit in the fuel, and runs out
/// of fuel otherwise.
proof fn lemma_follow_chain(t: Seq<EntryView>, us: Seq<UriView>, j: int, fuel: nat)
    requires
        is_redirect_chain(t, us),
        1 <= j <= us.len() - 1,
    ensures
        follow(t, ActionView::Redirect(us[j]), fuel) == if fuel >= us.len() - j {
            Ok::<ActionView, ()>(ActionView::Redirect(us[us.len() - 1]))
        } else {
            Err::<ActionView, ()>(())
        },
    decreases us.len() - j,
{
    if fuel > 0 && j < us.len() - 1 {
        assert(classify(t, us[j]) == ActionView::Redirect(us[j + 1]));
        lemma_follow_chain(t, us, j + 1, (fuel - 1) as nat);
    }
}

/// Law: a redirect chain whose hop count stays within the loop's iteration
/// bound resolves to the chain's last redirect — the terminal action it
/// reaches is left for the redirected client's next request — or, with no
/// hop at all, to the terminal action itself; a chain with more hops than
/// the loop may take resolves to the loop error.
pub proof fn lemma_redirect_chain(t: Seq<EntryView>, us: Seq<UriView>)
    requires
        is_redirect_chain(t, us),
    ensures
        us.len() == 1 ==> resolve_spec(t, us[0]) == Ok::<ActionView, ()>(classify(t, us[0])),
        2 <= us.len() <= MAX_REDIRECTS + 2 ==> resolve_spec(t, us[0]) == Ok::<ActionView, ()>(
            ActionView::Redirect(us[us.len() - 1]),
        ),
        us.len() > MAX_REDIRECTS + 2 ==> resolve_spec(t, us[0]) == Err::<ActionView, ()>(()),
{
    if us.len() >= 2 {
        assert(classify(t, us[0]) == ActionView::Redirect(us[1]));
        lemma_follow_chain(t, us, 1, (MAX_REDIRECTS + 1) as nat);
    }
}

} // verus!
