//! The `/simple` examples: users stored from JSON bodies and from query
//! strings, the pages that list them, the bounded in-memory payload buffer,
//! and the page that reads small numbers out of the URL.
use vstd::prelude::*;
use crate::decimal::{nat_text, parse_u8_spec, parse_u8_text, usize_to_string};
use crate::text::{concat_seq, join_seq};

verus! {

/// The largest payload, in bytes, that is gathered in memory.
pub const MAX_SIZE: usize = 262_144;

/// A key and a value sent as a JSON body.
pub struct JsonData {
    pub key: String,
    pub value: String,
}

impl JsonData {
    /// The text that describes the key and the value.
    pub fn describe(&self) -> (s: String)
        ensures
            s@ == "Requset with key value of : "@ + self.key@ + " : "@ + self.value@,
    {
        let mut s = String::from_str("Requset with key value of : ");
        s.append(self.key.as_str());
        s.append(" : ");
        s.append(self.value.as_str());
        s
    }
}

/// A key and a value stored together with the user and password from the
/// request path.
pub struct JsonUserData {
    pub user: String,
    pub password: String,
    pub key: String,
    pub value: String,
}

impl JsonUserData {
    /// The text that describes the stored entry.
    pub fn describe(&self) -> (s: String)
        ensures
            s@ == "Requset with key value of : "@ + self.key@ + " : "@ + self.value@ + " from user "@
                + self.user@ + " : "@ + self.password@,
    {
        let mut s = String::from_str("Requset with key value of : ");
        s.append(self.key.as_str());
        s.append(" : ");
        s.append(self.value.as_str());
        s.append(" from user ");
        s.append(self.user.as_str());
        s.append(" : ");
        s.append(self.password.as_str());
        s
    }
}

/// The entries stored from JSON bodies.
pub struct UserAppState {
    users: Vec<JsonUserData>,
}

impl UserAppState {
    /// No entry stored yet.
    pub fn new() -> (state: UserAppState)
        ensures
            state.entries() == Seq::<JsonUserData>::empty(),
    {
        UserAppState { users: Vec::new() }
    }

    /// A state that holds exactly `users`, in order.
    pub fn from_entries(users: Vec<JsonUserData>) -> (state: UserAppState)
        ensures
            state.entries() == users@,
    {
        UserAppState { users }
    }

    /// The stored entries, oldest first.
    pub closed spec fn entries(&self) -> Seq<JsonUserData> {
        self.users@
    }

    /// The stored entries, oldest first.
    pub fn users(&self) -> (users: &Vec<JsonUserData>)
        ensures
            users@ == self.entries(),
    {
        &self.users
    }

    /// Stores the JSON body sent for `user` and `password`.
    pub fn set_user_json(&mut self, user: String, password: String, json: JsonData) -> (reply:
        String)
        ensures
            final(self).entries() == old(self).entries().push(
                JsonUserData { user, password, key: json.key, value: json.value },
            ),
            reply@ == "User added !"@,
    {
        self.users.push(JsonUserData { user, password, key: json.key, value: json.value });
        String::from_str("User added !")
    }
}

/// A user name and password sent in a query string.
pub struct UserInfo {
    pub name: String,
    pub password: String,
}

/// The line of the listing for one user.
pub open spec fn listing_item(u: UserInfo) -> Seq<char> {
    u.name@ + " : "@ + u.password@
}

/// The line of the greeting page for one user.
pub open spec fn greeting_line(u: UserInfo) -> Seq<char> {
    "User : "@ + u.name@ + " with password : "@ + u.password@ + "\n"@
}

/// The listing of all users: one `name : password` item per user, joined by
/// new lines.
pub open spec fn listing_spec(users: Seq<UserInfo>) -> Seq<char> {
    join_seq(users.map_values(|u: UserInfo| listing_item(u)), "\n"@)
}

/// The greeting page for `first` `last`, followed by one line per user.
pub open spec fn greeting_spec(users: Seq<UserInfo>, first: Seq<char>, last: Seq<char>) -> Seq<
    char,
> {
    "hey "@ + first + " "@ + last + "\n"@ + concat_seq(
        users.map_values(|u: UserInfo| greeting_line(u)),
    )
}

/// The users stored from query strings.
pub struct UserDataBase {
    users: Vec<UserInfo>,
}

impl UserDataBase {
    /// No user stored yet.
    pub fn new() -> (db: UserDataBase)
        ensures
            db.entries() == Seq::<UserInfo>::empty(),
    {
        UserDataBase { users: Vec::new() }
    }

    /// The stored users, oldest first.
    pub closed spec fn entries(&self) -> Seq<UserInfo> {
        self.users@
    }

    /// Stores a user sent in a query string.
    pub fn set_user(&mut self, info: UserInfo) -> (reply: String)
        ensures
            final(self).entries() == old(self).entries().push(info),
            reply@ == "User added to the database !"@,
    {
        self.users.push(info);
        String::from_str("User added to the database !")
    }

    /// Lists every user as `name : password`, one per line.
    pub fn listing(&self) -> (body: String)
        ensures
            body@ == listing_spec(self.entries()),
    {
        let ghost items = self.users@.map_values(|u: UserInfo| listing_item(u));
        let mut body = String::new();
        for i in 0..self.users.len()
            invariant
                items == self.users@.map_values(|u: UserInfo| listing_item(u)),
                body@ == join_seq(items.take(i as int), "\n"@),
        {
            let u = &self.users[i];
            assert(items.take(i + 1).drop_last() == items.take(i as int));
            assert(items.take(i + 1).last() == listing_item(self.users@[i as int]));
            if i != 0 {
                body.append("\n");
            } else {
                assert(join_seq(items.take(0), "\n"@) == Seq::<char>::empty());
            }
            body.append(u.name.as_str());
            body.append(" : ");
            body.append(u.password.as_str());
        }
        assert(items.take(self.users.len() as int) == items);
        body
    }

    /// Greets `first` `last` and lists every user with its password.
    pub fn greeting_page(&self, first: &str, last: &str) -> (page: String)
        ensures
            page@ == greeting_spec(self.entries(), first@, last@),
    {
        let ghost lines = self.users@.map_values(|u: UserInfo| greeting_line(u));
        let mut body = String::new();
        for i in 0..self.users.len()
            invariant
                lines == self.users@.map_values(|u: UserInfo| greeting_line(u)),
                body@ == concat_seq(lines.take(i as int)),
        {
            let u = &self.users[i];
            body.append("User : ");
            body.append(u.name.as_str());
            body.append(" with password : ");
            body.append(u.password.as_str());
            body.append("\n");
            assert(lines.take(i + 1).drop_last() == lines.take(i as int));
            assert(lines.take(i + 1).last() == greeting_line(self.users@[i as int]));
        }
        assert(lines.take(self.users.len() as int) == lines);
        let mut page = String::from_str("hey ");
        page.append(first);
        page.append(" ");
        page.append(last);
        page.append("\n");
        page.append(body.as_str());
        page
    }
}

/// Why a chunk of payload was refused.
pub enum PayloadError {
    /// The payload would grow past `MAX_SIZE` bytes.
    Overflow,
}

/// A request payload gathered chunk by chunk, never more than `MAX_SIZE`
/// bytes.
pub struct PayloadBuffer {
    body: Vec<u8>,
}

impl PayloadBuffer {
    /// The bytes gathered so far.
    pub closed spec fn bytes(&self) -> Seq<u8> {
        self.body@
    }

    /// The buffer never holds more than `MAX_SIZE` bytes.
    pub closed spec fn wf(&self) -> bool {
        self.body@.len() <= MAX_SIZE
    }

    /// An empty buffer.
    pub fn new() -> (b: PayloadBuffer)
        ensures
            b.wf(),
            b.bytes() == Seq::<u8>::empty(),
    {
        PayloadBuffer { body: Vec::new() }
    }

    /// Adds one chunk, or refuses it when the payload would pass
    /// `MAX_SIZE` bytes; a refused chunk leaves the buffer as it was.
    pub fn push_chunk(&mut self, chunk: &[u8]) -> (r: Result<(), PayloadError>)
        requires
            old(self).wf(),
        ensures
            final(self).wf(),
            old(self).bytes().len() + chunk@.len() > MAX_SIZE ==> r is Err && final(self).bytes()
                == old(self).bytes(),
            old(self).bytes().len() + chunk@.len() <= MAX_SIZE ==> r is Ok && final(self).bytes()
                == old(self).bytes() + chunk@,
    {
        if chunk.len() > MAX_SIZE - self.body.len() {
            return Err(PayloadError::Overflow);
        }
        let mut i: usize = 0;
        let ghost start = self.body@;
        while i < chunk.len()
            invariant
                i <= chunk@.len(),
                start.len() + chunk@.len() <= MAX_SIZE,
                self.body@ == start + chunk@.take(i as int),
            decreases chunk.len() - i,
        {
            self.body.push(chunk[i]);
            assert(chunk@.take(i + 1) == chunk@.take(i as int).push(chunk@[i as int]));
            i = i + 1;
        }
        assert(chunk@.take(chunk@.len() as int) == chunk@);
        Ok(())
    }

    /// The gathered bytes.
    pub fn contents(&self) -> (b: &Vec<u8>)
        ensures
            b@ == self.bytes(),
    {
        &self.body
    }
}

/// The four small numbers that the `/a/{v1}/{v2}/` page reads from its path,
/// each as `str::parse::<u8>` reads it.
pub open spec fn values_parse(v1: Seq<char>, v2: Seq<char>, v3: Seq<char>, v4: Seq<char>) -> bool {
    parse_u8_spec(v1) is Some && parse_u8_spec(v2) is Some && parse_u8_spec(v3) is Some
        && parse_u8_spec(v4) is Some
}

/// The page that shows the four numbers read from the path.
pub open spec fn values_page_spec(a: u8, b: u8, c: u8, d: u8) -> Seq<char> {
    "Values "@ + nat_text(a as nat) + " "@ + nat_text(b as nat) + " "@ + nat_text(c as nat) + " "@
        + nat_text(d as nat)
}

/// Reads four numbers from path segments and shows them; each segment must
/// read as a `u8`.
pub fn values_page(v1: &str, v2: &str, v3: &str, v4: &str) -> (page: String)
    requires
        values_parse(v1@, v2@, v3@, v4@),
    ensures
        page@ == values_page_spec(
            parse_u8_spec(v1@)->0,
            parse_u8_spec(v2@)->0,
            parse_u8_spec(v3@)->0,
            parse_u8_spec(v4@)->0,
        ),
{
    let a: u8 = parse_u8_text(v1).unwrap();
    let b: u8 = parse_u8_text(v2).unwrap();
    let c: u8 = parse_u8_text(v3).unwrap();
    let d: u8 = parse_u8_text(v4).unwrap();
    let mut page = String::from_str("Values ");
    page.append(usize_to_string(a as usize).as_str());
    page.append(" ");
    page.append(usize_to_string(b as usize).as_str());
    page.append(" ");
    page.append(usize_to_string(c as usize).as_str());
    page.append(" ");
    page.append(usize_to_string(d as usize).as_str());
    page
}

} // verus!
