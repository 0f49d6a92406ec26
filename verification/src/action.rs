//! The data model: a request URI reduced to what resolution reads, and the
//! action that classifying a URI produces.

use vstd::prelude::*;

verus! {

/// The mathematical value of a [`Uri`]: its optional hostname and its full
/// textual rendering, both as character sequences.
#[verifier::ext_equal]
pub struct UriView {
    pub host: Option<Seq<char>>,
    pub text: Seq<char>,
}

/// A request target, reduced to the two things resolution reads: the
/// hostname, when one is present, and the full textual rendering (used as a
/// redirect's destination). An adapter that receives a structured URI from
/// its runtime converts it to this form before calling into the library.
#[derive(Debug, PartialEq, Eq)]
pub struct Uri {
    pub host: Option<String>,
    pub text: String,
}

impl View for Uri {
    type V = UriView;

    open spec fn view(&self) -> UriView {
        UriView {
            host: match self.host {
                Some(h) => Some(h@),
                None => None,
            },
            text: self.text@,
        }
    }
}

impl Uri {
    /// An explicit deep copy; its contract, unlike a derived `Clone`'s,
    /// carries the value across.
    pub fn dup(&self) -> (r: Uri)
        ensures
            r@ == self@,
    {
        Uri {
            host: match &self.host {
                Some(h) => Some(h.clone()),
                None => None,
            },
            text: self.text.clone(),
        }
    }
}

/// The mathematical value of an [`Action`].
#[verifier::ext_equal]
pub enum ActionView {
    Redirect(UriView),
    Html(Seq<char>),
    Unknown(Option<Seq<char>>),
    Error(u16, Seq<char>),
}

/// The outcome of classifying one URI. `Redirect` is the only non-terminal
/// variant: its target must be classified again. The others end resolution:
/// `Html` carries static content, `Unknown` signals that no route matched,
/// and `Error` carries a status code with a message describing malformed
/// input.
#[derive(Debug, PartialEq, Eq)]
pub enum Action {
    Redirect(Uri),
    Html(String),
    Unknown(Option<String>),
    Error(u16, String),
}

impl View for Action {
    type V = ActionView;

    open spec fn view(&self) -> ActionView {
        match self {
            Action::Redirect(u) => ActionView::Redirect(u@),
            Action::Html(s) => ActionView::Html(s@),
            Action::Unknown(m) => ActionView::Unknown(
                match m {
                    Some(s) => Some(s@),
                    None => None,
                },
            ),
            Action::Error(c, s) => ActionView::Error(*c, s@),
        }
    }
}

impl Action {
    /// An explicit deep copy; its contract, unlike a derived `Clone`'s,
    /// carries the value across.
    pub fn dup(&self) -> (r: Action)
        ensures
            r@ == self@,
    {
        match self {
            Action::Redirect(u) => Action::Redirect(u.dup()),
            Action::Html(s) => Action::Html(s.clone()),
            Action::Unknown(m) => Action::Unknown(
                match m {
                    Some(s) => Some(s.clone()),
                    None => None,
                },
            ),
            Action::Error(c, s) => Action::Error(*c, s.clone()),
        }
    }
}

} // verus!
