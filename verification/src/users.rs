//! The shared user lists and request logs of the extractor examples: users
//! are posted as plain text, a page lists them and counts its own loads, and
//! JSON requests are echoed and kept for a report.
use vstd::prelude::*;
use crate::decimal::{i32_to_string, int_text};
use crate::text::{concat_seq, join_seq, join_strings, lemma_join_push, views};

verus! {

/// The page that lists the users of a `UserData`, after `count` loads.
pub open spec fn user_data_page(users: Seq<Seq<char>>, count: int) -> Seq<char> {
    "current users : "@ + join_seq(users, " "@) + "\nthis page loaded "@ + int_text(count)
        + " time !"@
}

/// The page that lists the users of a `UsersDataBase`, after `count` loads.
pub open spec fn users_database_page(users: Seq<Seq<char>>, count: int) -> Seq<char> {
    "["@ + join_seq(users, " , "@) + "]\nthis page loaded "@ + int_text(count) + " time!"@
}

/// Users posted as plain text, and how many times their page was loaded.
pub struct UserData {
    users: Vec<String>,
    counter: i32,
}

impl UserData {
    /// The posted users, oldest first.
    pub closed spec fn user_list(&self) -> Seq<Seq<char>> {
        views(self.users@)
    }

    /// How many times the users page was loaded.
    pub closed spec fn loads(&self) -> int {
        self.counter as int
    }

    /// How many times the users page was loaded.
    pub fn counter(&self) -> (c: i32)
        ensures
            c == self.loads(),
    {
        self.counter
    }

    /// Stores a posted user and answers with the posted text.
    pub fn post_user(&mut self, body: String) -> (echo: String)
        ensures
            final(self).user_list() == old(self).user_list().push(body@),
            final(self).loads() == old(self).loads(),
            echo@ == body@,
    {
        let echo = body.clone();
        self.users.push(body);
        assert(views(self.users@) == views(old(self).users@).push(body@));
        echo
    }

    /// Counts one more load of the users page and renders it.
    pub fn users_page(&mut self) -> (page: String)
        requires
            old(self).loads() < i32::MAX,
        ensures
            final(self).user_list() == old(self).user_list(),
            final(self).loads() == old(self).loads() + 1,
            page@ == user_data_page(final(self).user_list(), final(self).loads()),
    {
        self.counter = self.counter + 1;
        let names = join_strings(&self.users, " ");
        let count = i32_to_string(self.counter);
        let mut page = String::from_str("current users : ");
        page.append(names.as_str());
        page.append("\nthis page loaded ");
        page.append(count.as_str());
        page.append(" time !");
        page
    }
}

/// An empty `UserData`: no users, no loads.
pub fn load_users() -> (data: UserData)
    ensures
        data.user_list() == Seq::<Seq<char>>::empty(),
        data.loads() == 0,
{
    let data = UserData { users: Vec::new(), counter: 0 };
    assert(views(data.users@) == Seq::<Seq<char>>::empty());
    data
}

/// Users posted as plain text, and how many times their page was loaded.
pub struct UsersDataBase {
    users: Vec<String>,
    counter: i32,
}

impl UsersDataBase {
    /// An empty database: no users, no loads.
    pub fn new() -> (db: UsersDataBase)
        ensures
            db.user_list() == Seq::<Seq<char>>::empty(),
            db.loads() == 0,
    {
        let db = UsersDataBase { users: Vec::new(), counter: 0 };
        assert(views(db.users@) == Seq::<Seq<char>>::empty());
        db
    }

    /// The posted users, oldest first.
    pub closed spec fn user_list(&self) -> Seq<Seq<char>> {
        views(self.users@)
    }

    /// How many times the users page was loaded.
    pub closed spec fn loads(&self) -> int {
        self.counter as int
    }

    /// How many times the users page was loaded.
    pub fn counter(&self) -> (c: i32)
        ensures
            c == self.loads(),
    {
        self.counter
    }

    /// Stores a posted user.
    pub fn post_user(&mut self, name: String) -> (reply: String)
        ensures
            final(self).user_list() == old(self).user_list().push(name@),
            final(self).loads() == old(self).loads(),
            reply@ == "User added"@,
    {
        self.users.push(name);
        assert(views(self.users@) == views(old(self).users@).push(name@));
        String::from_str("User added")
    }

    /// Counts one more load of the users page and renders it.
    pub fn users_page(&mut self) -> (page: String)
        requires
            old(self).loads() < i32::MAX,
        ensures
            final(self).user_list() == old(self).user_list(),
            final(self).loads() == old(self).loads() + 1,
            page@ == users_database_page(final(self).user_list(), final(self).loads()),
    {
        self.counter = self.counter + 1;
        let names = join_strings(&self.users, " , ");
        let count = i32_to_string(self.counter);
        let mut page = String::from_str("[");
        page.append(names.as_str());
        page.append("]\nthis page loaded ");
        page.append(count.as_str());
        page.append(" time!");
        page
    }
}

/// Law: a posted user is listed after the users posted before it, separated
/// from them by the list separator.
pub proof fn lemma_posted_user_listed_last(
    users: Seq<Seq<char>>,
    user: Seq<char>,
    sep: Seq<char>,
)
    requires
        users.len() > 0,
    ensures
        join_seq(users.push(user), sep) == join_seq(users, sep) + sep + user,
{
    lemma_join_push(users, sep, user);
}

/// The JSON body of a request to the JSON echo page.
pub struct BasicDataJson {
    pub name: String,
    pub req: String,
}

/// A request to the JSON echo page as it is kept: the two path segments and
/// the two JSON fields.
pub struct SavedRequest {
    pub user: String,
    pub request: String,
    pub name: String,
    pub req: String,
}

/// The line that reports one kept request.
pub open spec fn saved_line(r: SavedRequest) -> Seq<char> {
    "user "@ + r.user@ + " , request : "@ + r.request@ + " , name : "@ + r.name@
        + " , req : "@ + r.req@ + "\n"@
}

/// The answer to a JSON echo request.
pub open spec fn echo_reply(user: Seq<char>, request: Seq<char>, name: Seq<char>, req: Seq<char>) -> Seq<
    char,
> {
    "user : "@ + user + " with request [ "@ + request + " ]\njson info : "@ + name + " , "@ + req
}

/// The report of all kept requests.
pub open spec fn saved_report(saved: Seq<SavedRequest>) -> Seq<char> {
    "Whole requsts that we got : "@ + concat_seq(saved.map_values(|r: SavedRequest| saved_line(r)))
}

/// The kept JSON echo requests.
pub struct AppState {
    saved: Vec<SavedRequest>,
}

impl AppState {
    /// No request kept yet.
    pub fn new() -> (state: AppState)
        ensures
            state.requests() == Seq::<SavedRequest>::empty(),
    {
        AppState { saved: Vec::new() }
    }

    /// The kept requests, oldest first.
    pub closed spec fn requests(&self) -> Seq<SavedRequest> {
        self.saved@
    }

    /// Keeps a JSON echo request and answers it.
    pub fn echo_json(&mut self, user: String, request: String, json: BasicDataJson) -> (reply:
        String)
        ensures
            final(self).requests() == old(self).requests().push(
                SavedRequest { user, request, name: json.name, req: json.req },
            ),
            reply@ == echo_reply(user@, request@, json.name@, json.req@),
    {
        let mut reply = String::from_str("user : ");
        reply.append(user.as_str());
        reply.append(" with request [ ");
        reply.append(request.as_str());
        reply.append(" ]\njson info : ");
        reply.append(json.name.as_str());
        reply.append(" , ");
        reply.append(json.req.as_str());
        self.saved.push(SavedRequest { user, request, name: json.name, req: json.req });
        reply
    }

    /// Reports every kept request, one line each, oldest first.
    pub fn report(&self) -> (page: String)
        ensures
            page@ == saved_report(self.requests()),
    {
        let ghost lines = self.saved@.map_values(|r: SavedRequest| saved_line(r));
        let mut body = String::new();
        for i in 0..self.saved.len()
            invariant
                lines == self.saved@.map_values(|r: SavedRequest| saved_line(r)),
                body@ == concat_seq(lines.take(i as int)),
        {
            let r = &self.saved[i];
            body.append("user ");
            body.append(r.user.as_str());
            body.append(" , request : ");
            body.append(r.request.as_str());
            body.append(" , name : ");
            body.append(r.name.as_str());
            body.append(" , req : ");
            body.append(r.req.as_str());
            body.append("\n");
            assert(lines.take(i + 1).drop_last() == lines.take(i as int));
            assert(lines.take(i + 1).last() == saved_line(self.saved@[i as int]));
        }
        assert(lines.take(self.saved.len() as int) == lines);
        let mut page = String::from_str("Whole requsts that we got : ");
        page.append(body.as_str());
        page
    }
}

} // verus!
