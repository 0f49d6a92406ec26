//! The cycle-safe resolver: drives the classifier along a chain of
//! redirects, bounded by a fixed hop count, so that resolution terminates
//! even when the route table's redirects form a cycle.

use vstd::prelude::*;
use crate::action::{Action, ActionView, Uri, UriView};
use crate::routes::{classify, production_routes, EntryView, RouteTable};

verus! {

/// How many internal redirect hops one resolution may consume beyond the
/// first classification.
pub const MAX_REDIRECTS: usize = 5;

/// What following redirects from action `a` with `fuel` loop iterations
/// left yields. A non-redirect action is terminal and is returned as it
/// stands. A redirect whose target classifies to another redirect consumes
/// one unit of fuel and continues from there; one whose target classifies
/// to a terminal action returns the redirect itself — the response then
/// redirects to the last hop of the chain rather than flattening it away.
/// Exhausted fuel on a still-pending redirect is the loop error.
pub open spec fn follow(t: Seq<EntryView>, a: ActionView, fuel: nat) -> Result<ActionView, ()>
    decreases fuel,
{
    match a {
        ActionView::Redirect(target) => {
            if fuel == 0 {
                Err(())
            } else {
                let next = classify(t, target);
                match next {
                    ActionView::Redirect(_) => follow(t, next, (fuel - 1) as nat),
                    _ => Ok(a),
                }
            }
        },
        _ => Ok(a),
    }
}

/// What resolving `uri` against table `t` yields: classify once, then
/// follow redirects through at most `MAX_REDIRECTS + 1` loop iterations.
pub open spec fn resolve_spec(t: Seq<EntryView>, uri: UriView) -> Result<ActionView, ()> {
    follow(t, classify(t, uri), (MAX_REDIRECTS + 1) as nat)
}

impl RouteTable {
    /// Ensure that there are no redirect loops for the chosen input: small
    /// chains up to the hop bound resolve to their final redirect, and
    /// anything longer is reported as an error rather than followed
    /// forever.
    pub fn consume_cycles(&self, uri: &Uri) -> (r: Result<Action, String>)
        ensures
            match r {
                Ok(a) => resolve_spec(self@, uri@) == Ok::<ActionView, ()>(a@),
                Err(e) => resolve_spec(self@, uri@) == Err::<ActionView, ()>(())
                    && e@ == "Too many internal redirects. Aborting early to avoid recursion."@,
            },
    {
        let mut action = self.choose_action(uri);
        let mut i: usize = 0;
        while i <= MAX_REDIRECTS
            invariant
                i <= MAX_REDIRECTS + 1,
                follow(self@, action@, (MAX_REDIRECTS + 1 - i) as nat) == resolve_spec(
                    self@,
                    uri@,
                ),
                i > 0 ==> action@ is Redirect,
            decreases MAX_REDIRECTS + 1 - i,
        {
            match &action {
                Action::Redirect(next_uri) => {
                    let next_action = self.choose_action(next_uri);
                    let next_is_redirect = match &next_action {
                        Action::Redirect(_) => true,
                        _ => false,
                    };
                    if next_is_redirect {
                        action = next_action;
                    } else {
                        return Ok(action);
                    }
                },
                _ => {
                    return Ok(action);
                },
            }
            i = i + 1;
        }
        Err(String::from_str("Too many internal redirects. Aborting early to avoid recursion."))
    }
}

/// Resolve `uri` against the routes this service ships with.
pub fn resolve(uri: &Uri) -> (r: Result<Action, String>)
    ensures
        match r {
            Ok(a) => resolve_spec(production_routes(), uri@) == Ok::<ActionView, ()>(a@),
            Err(e) => resolve_spec(production_routes(), uri@) == Err::<ActionView, ()>(())
                && e@ == "Too many internal redirects. Aborting early to avoid recursion."@,
        },
{
    RouteTable::production().consume_cycles(uri)
}

} // verus!
