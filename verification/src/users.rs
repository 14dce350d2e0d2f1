//! User identifiers, as the organization and project domains refer to the
//! users of the authentication module.

use vstd::prelude::*;

verus! {

/// User ID - wrapper around a UUID string.
#[derive(Debug, Clone, PartialEq, Eq, Hash)]
pub struct UserId(String);

impl View for UserId {
    type V = Seq<char>;

    closed spec fn view(&self) -> Seq<char> {
        self.0@
    }
}

impl UserId {
    pub fn new(id: String) -> (r: Self)
        ensures
            r@ == id@,
    {
        UserId(id)
    }

    pub fn as_str(&self) -> (r: &str)
        ensures
            r@ == self@,
    {
        self.0.as_str()
    }
}

/// What the organization use cases read of a user: the e-mail address,
/// the optional display name, and whether the user accepts invitations.
#[derive(Debug, Clone)]
pub struct UserSummary {
    pub id: String,
    pub email: String,
    pub display_name: Option<String>,
    pub allow_invites: bool,
}

/// How a user is shown in listings: the display name when there is one,
/// the e-mail address otherwise.
pub open spec fn user_label(u: UserSummary) -> Seq<char> {
    match u.display_name {
        Some(d) => d@,
        None => u.email@,
    }
}

impl UserSummary {
    /// The label under which the user is shown.
    pub fn label(&self) -> (r: String)
        ensures
            r@ == user_label(*self),
            self.display_name matches Some(d) ==> r@ == d@,
            self.display_name is None ==> r@ == self.email@,
    {
        match &self.display_name {
            Some(d) => d.clone(),
            None => self.email.clone(),
        }
    }
}

} // verus!
