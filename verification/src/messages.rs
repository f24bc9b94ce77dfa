//! The message board: signed messages are kept in order, rendered on the
//! home page, and a signature is answered with a redirect whose query string
//! carries the URL-encoded name and message.
use vstd::prelude::*;
use vstd::utf8::{encode_utf8, is_ascii_chars, is_ascii_chars_encode_utf8};

verus! {

/// A byte that URL encoding keeps as it is: an ASCII letter or digit, or
/// one of `-`, `.`, `_`, `~`.
pub open spec fn url_safe_byte(b: u8) -> bool {
    url_safe_code(b as int)
}

/// The code of a character that URL encoding keeps as it is.
pub open spec fn url_safe_code(u: int) -> bool {
    ||| (48 <= u && u <= 57)
    ||| (65 <= u && u <= 90)
    ||| (97 <= u && u <= 122)
    ||| u == 45
    ||| u == 46
    ||| u == 95
    ||| u == 126
}

/// The upper-case hexadecimal digit for `d` (for `d < 16`).
pub open spec fn hex_digit(d: int) -> char {
    if d < 10 {
        (48 + d) as char
    } else {
        (55 + d) as char
    }
}

/// Percent-encoding of `bytes`: a safe byte stays as its character, any
/// other byte becomes `%` and two upper-case hex digits.
pub open spec fn percent_encode(bytes: Seq<u8>) -> Seq<char>
    decreases bytes.len(),
{
    if bytes.len() == 0 {
        Seq::empty()
    } else {
        let b: u8 = bytes[0];
        let head = if url_safe_byte(b) {
            seq![b as char]
        } else {
            seq!['%', hex_digit((b / 16) as int), hex_digit((b % 16) as int)]
        };
        head + percent_encode(bytes.drop_first())
    }
}

/// The URL encoding of the text `s`: its UTF-8 bytes, percent-encoded.
pub open spec fn url_encoded(s: Seq<char>) -> Seq<char> {
    percent_encode(encode_utf8(s))
}

/// `urlencoding::encode`: percent-encodes every UTF-8 byte of `s` except
/// ASCII letters and digits and `-`, `.`, `_`, `~`, each as `%` followed by
/// two upper-case hexadecimal digits, byte by byte.
#[verifier::external_body]
fn url_encode(s: &str) -> (r: String)
    ensures
        r@ == url_encoded(s@),
{
    urlencoding::encode(s).into_owned()
}

/// A signed message: who signed it and what they wrote.
pub struct UserMessage {
    username: String,
    message: String,
}

impl View for UserMessage {
    type V = (Seq<char>, Seq<char>);

    /// The name and the message.
    closed spec fn view(&self) -> (Seq<char>, Seq<char>) {
        (self.username@, self.message@)
    }
}

/// The text of a message as the board shows it.
pub open spec fn message_line(m: (Seq<char>, Seq<char>)) -> Seq<char> {
    m.0 + " : "@ + m.1
}

/// The views of a list of messages.
pub open spec fn message_views(list: Seq<UserMessage>) -> Seq<(Seq<char>, Seq<char>)> {
    list.map_values(|m: UserMessage| m@)
}

impl UserMessage {
    /// A message signed by `u`.
    pub fn new(u: String, u_message: String) -> (m: UserMessage)
        ensures
            m@ == (u@, u_message@),
    {
        UserMessage { username: u, message: u_message }
    }

    /// Who signed the message.
    pub fn username(&self) -> (s: &str)
        ensures
            s@ == self@.0,
    {
        self.username.as_str()
    }

    /// What was written.
    pub fn message(&self) -> (s: &str)
        ensures
            s@ == self@.1,
    {
        self.message.as_str()
    }

    /// The message as the board shows it: `name : message`.
    pub fn describe(&self) -> (s: String)
        ensures
            s@ == message_line(self@),
    {
        let mut s = String::from_str(self.username.as_str());
        s.append(" : ");
        s.append(self.message.as_str());
        s
    }

    /// A copy of the message.
    pub fn duplicate(&self) -> (m: UserMessage)
        ensures
            m@ == self@,
    {
        UserMessage { username: self.username.clone(), message: self.message.clone() }
    }
}

/// The signed messages, oldest first.
pub struct UserState {
    datas: Vec<UserMessage>,
}

impl UserState {
    /// No message yet.
    pub fn new() -> (state: UserState)
        ensures
            state.messages() == Seq::<(Seq<char>, Seq<char>)>::empty(),
    {
        let state = UserState { datas: Vec::new() };
        assert(message_views(state.datas@) == Seq::<(Seq<char>, Seq<char>)>::empty());
        state
    }

    /// The messages, oldest first.
    pub closed spec fn messages(&self) -> Seq<(Seq<char>, Seq<char>)> {
        message_views(self.datas@)
    }

    /// Adds a message after the others.
    pub fn push(&mut self, data: UserMessage)
        ensures
            final(self).messages() == old(self).messages().push(data@),
    {
        let ghost v = data@;
        self.datas.push(data);
        assert(message_views(self.datas@) == message_views(old(self).datas@).push(v));
    }
}

/// The messages shown on the home page.
pub struct UserTemplate {
    messages: Vec<UserMessage>,
}

impl UserTemplate {
    /// The home page content for the board's current messages.
    pub fn new(data: &UserState) -> (t: UserTemplate)
        ensures
            t.shown() == data.messages(),
    {
        let mut messages: Vec<UserMessage> = Vec::new();
        for i in 0..data.datas.len()
            invariant
                message_views(messages@) == message_views(data.datas@).take(i as int),
        {
            let m = data.datas[i].duplicate();
            messages.push(m);
            assert(message_views(messages@) == message_views(messages@.drop_last()).push(
                messages@.last()@,
            ));
            assert(message_views(data.datas@).take(i + 1) == message_views(data.datas@).take(
                i as int,
            ).push(data.datas@[i as int]@));
        }
        assert(message_views(data.datas@).take(data.datas.len() as int) == message_views(
            data.datas@,
        ));
        UserTemplate { messages }
    }

    /// The messages shown, oldest first.
    pub closed spec fn shown(&self) -> Seq<(Seq<char>, Seq<char>)> {
        message_views(self.messages@)
    }

    /// The messages shown, oldest first.
    pub fn messages(&self) -> (m: &Vec<UserMessage>)
        ensures
            message_views(m@) == self.shown(),
    {
        &self.messages
    }
}

/// Where a signature is redirected: the success page, with the name and
/// the message URL-encoded in its query string.
pub open spec fn sign_redirect_spec(name: Seq<char>, message: Seq<char>) -> Seq<char> {
    "/success?name="@ + url_encoded(name) + "&message="@ + url_encoded(message)
}

/// The redirect target for a signature by `name` with `message`.
pub fn sign_redirect(name: &str, message: &str) -> (url: String)
    ensures
        url@ == sign_redirect_spec(name@, message@),
{
    let mut url = String::from_str("/success?name=");
    url.append(url_encode(name).as_str());
    url.append("&message=");
    url.append(url_encode(message).as_str());
    url
}

/// Keeps a signed message on the board and gives the redirect target.
pub fn sign_message(state: &mut UserState, name: String, message: String) -> (url: String)
    ensures
        final(state).messages() == old(state).messages().push((name@, message@)),
        url@ == sign_redirect_spec(name@, message@),
{
    let url = sign_redirect(name.as_str(), message.as_str());
    state.push(UserMessage::new(name, message));
    url
}

/// Percent-encoding keeps a run of safe bytes as their characters.
pub proof fn lemma_percent_encode_safe(b: Seq<u8>)
    requires
        forall|i: int| 0 <= i < b.len() ==> #[trigger] url_safe_byte(b[i]),
    ensures
        percent_encode(b) == Seq::new(b.len(), |i: int| b[i] as char),
    decreases b.len(),
{
    if b.len() > 0 {
        let r = b.drop_first();
        assert forall|i: int| 0 <= i < r.len() implies #[trigger] url_safe_byte(r[i]) by {
            assert(r[i] == b[i + 1]);
        }
        lemma_percent_encode_safe(r);
        assert(percent_encode(b) =~= Seq::new(b.len(), |i: int| b[i] as char));
    }
}

/// Law: a name or message made only of ASCII letters, digits and `-`, `.`,
/// `_`, `~` appears in the redirect target exactly as it was written.
pub proof fn lemma_plain_text_unchanged(s: Seq<char>)
    requires
        forall|i: int| 0 <= i < s.len() ==> url_safe_code(#[trigger] s[i] as int),
    ensures
        url_encoded(s) == s,
{
    assert(is_ascii_chars(s)) by {
        assert forall|i: int| 0 <= i < s.len() implies '\0' <= #[trigger] s[i] <= '\u{7f}' by {
            assert(url_safe_code(s[i] as int));
        }
    }
    is_ascii_chars_encode_utf8(s);
    let b = encode_utf8(s);
    assert forall|i: int| 0 <= i < b.len() implies #[trigger] url_safe_byte(b[i]) by {
        assert(b[i] == s[i] as u8);
        assert(url_safe_code(s[i] as int));
    }
    lemma_percent_encode_safe(b);
    assert forall|i: int| 0 <= i < s.len() implies (b[i] as char) == s[i] by {
        assert(b[i] == s[i] as u8);
    }
    assert(Seq::new(b.len(), |i: int| b[i] as char) =~= s);
}

} // verus!
