//! Values that several calls share.

use vstd::prelude::*;

verus! {

/// On whose behalf a call is made: a contact and the address it calls from.
#[derive(Debug, Hash, PartialEq, Eq)]
pub struct UserContext<'a> {
    contact_id: &'a str,
    ip_address: &'a str,
}

/// A [`UserContext`], its strings taken as sequences of characters.
pub struct UserContextView {
    pub contact_id: Seq<char>,
    pub ip_address: Seq<char>,
}

impl<'a> View for UserContext<'a> {
    type V = UserContextView;

    closed spec fn view(&self) -> UserContextView {
        UserContextView { contact_id: self.contact_id@, ip_address: self.ip_address@ }
    }
}

impl<'a> Clone for UserContext<'a> {
    fn clone(&self) -> (copy: UserContext<'a>)
        ensures
            copy == *self,
    {
        UserContext { contact_id: self.contact_id, ip_address: self.ip_address }
    }
}

impl<'a> UserContext<'a> {
    /// The context of the contact `contact_id` calling from `ip_address`.
    pub fn new(contact_id: &'a str, ip_address: &'a str) -> (context: UserContext<'a>)
        ensures
            context@ == (UserContextView { contact_id: contact_id@, ip_address: ip_address@ }),
    {
        UserContext { contact_id, ip_address }
    }

    /// The contact on whose behalf the call is made.
    pub fn contact_id(&self) -> (contact_id: &'a str)
        ensures
            contact_id@ == self@.contact_id,
    {
        self.contact_id
    }

    /// The address that the contact calls from.
    pub fn ip_address(&self) -> (ip_address: &'a str)
        ensures
            ip_address@ == self@.ip_address,
    {
        self.ip_address
    }
}

} // verus!
