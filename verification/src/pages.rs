//! Small text pages: greetings built from the application name or from query
//! strings, and the fixed user list of the static scope.
use vstd::prelude::*;
use crate::text::{join_seq, join_strings, views};

verus! {

/// The welcome page of the application called `app_name`.
pub fn welcome_page(app_name: &str) -> (page: String)
    ensures
        page@ == "Welcome to "@ + app_name@,
{
    let mut page = String::from_str("Welcome to ");
    page.append(app_name);
    page
}

/// The manual welcome page of the application called `app_name`.
pub fn manual_page(app_name: &str) -> (page: String)
    ensures
        page@ == "Welcome to the "@ + app_name@ + " !"@,
{
    let mut page = String::from_str("Welcome to the ");
    page.append(app_name);
    page.append(" !");
    page
}

/// A first and last name read from the query string `?name=..&lastname=..`.
pub struct Info {
    pub name: String,
    pub lastname: String,
}

impl Info {
    /// The greeting for this person.
    pub fn greeting(&self) -> (page: String)
        ensures
            page@ == "Welcome "@ + self.name@ + " "@ + self.lastname@ + "!"@,
    {
        let mut page = String::from_str("Welcome ");
        page.append(self.name.as_str());
        page.append(" ");
        page.append(self.lastname.as_str());
        page.append("!");
        page
    }
}

/// A first and last name read from the query string
/// `?advanced.name=..&advanced.lastname=..`.
pub struct AdvancedInfo {
    pub name: String,
    pub lastname: String,
}

impl AdvancedInfo {
    /// The greeting for this customer.
    pub fn greeting(&self) -> (page: String)
        ensures
            page@ == "Customer info "@ + self.name@ + " "@ + self.lastname@ + "!"@,
    {
        let mut page = String::from_str("Customer info ");
        page.append(self.name.as_str());
        page.append(" ");
        page.append(self.lastname.as_str());
        page.append("!");
        page
    }
}

/// The users shared by the routes of the static scope.
pub struct UserBase {
    users: Vec<String>,
}

impl UserBase {
    /// The users, in order.
    pub closed spec fn user_list(&self) -> Seq<Seq<char>> {
        views(self.users@)
    }

    /// The three users that the static scope starts with.
    pub fn with_default_users() -> (base: UserBase)
        ensures
            base.user_list() == seq!["Nikan"@, "Parsa"@, "Shahab"@],
    {
        let mut users: Vec<String> = Vec::new();
        users.push(String::from_str("Nikan"));
        users.push(String::from_str("Parsa"));
        users.push(String::from_str("Shahab"));
        let base = UserBase { users };
        assert(views(base.users@) == seq!["Nikan"@, "Parsa"@, "Shahab"@]);
        base
    }

    /// The user names separated by single spaces.
    pub fn users_page(&self) -> (page: String)
        ensures
            page@ == join_seq(self.user_list(), " "@),
    {
        join_strings(&self.users, " ")
    }
}

} // verus!
