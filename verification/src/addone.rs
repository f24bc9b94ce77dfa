//! The number pages and the "add one" response rewriting that the middleware
//! examples apply to them: the number after the last `:` of a page body is
//! read, and every occurrence of it in the body is replaced by its successor.
use vstd::prelude::*;
use crate::decimal::{
    i32_to_chars, i32_to_string, int_text, is_digit, lemma_nat_text_digits, lemma_parse_int_text,
    parse_i32, parse_i32_spec,
};
use crate::text::{
    after_last, after_last_chars, ascii_space, chars_of, concat2, is_white_space,
    lemma_trim_ascii_space, replace_all, replace_chars,
    string_of, trim, trim_chars, trim_end, trim_start,
};

verus! {

/// The number that a page body ends with: the text after its last `:`,
/// trimmed and read as an `i32`.
pub open spec fn last_number_spec(body: Seq<char>) -> Option<i32> {
    parse_i32_spec(trim(after_last(body, ':')))
}

/// The body after the "add one" rewriting: when the body ends with a number
/// `n`, every occurrence of the text of `n` becomes the text of `n + 1`;
/// otherwise the body is kept as it is.
pub open spec fn add_one_spec(body: Seq<char>) -> Seq<char> {
    match last_number_spec(body) {
        Some(n) => replace_all(body, int_text(n as int), int_text(n + 1)),
        None => body,
    }
}

/// The body of the number page that shows `n`.
pub open spec fn number_page_spec(n: int) -> Seq<char> {
    "random number of today : "@ + int_text(n)
}

/// The lowest number that the number pages draw.
pub const LOWEST_NUMBER: i32 = 1;

/// The highest number that the number pages draw.
pub const HIGHEST_NUMBER: i32 = 100;

/// `rand::random_range` over `low..=high`: a number drawn from the
/// thread-local generator. rand documents that the result lies in the range
/// and that an empty range panics; which number comes out is left open.
#[verifier::external_body]
fn random_in_range(low: i32, high: i32) -> (r: i32)
    requires
        low <= high,
    ensures
        low <= r <= high,
{
    rand::random_range(low..=high)
}

/// Reads the number that the page body ends with.
pub fn last_number(body: &str) -> (r: Option<i32>)
    ensures
        r == last_number_spec(body@),
{
    let v = chars_of(body);
    let seg = after_last_chars(&v, ':');
    let t = trim_chars(&seg);
    parse_i32(&t)
}

/// Rewrites a page body as the "add one" middleware does. A body whose
/// number is `i32::MAX` has no successor and is left out.
pub fn add_one_to_body(body: &str) -> (r: String)
    requires
        last_number_spec(body@) != Some(i32::MAX),
    ensures
        r@ == add_one_spec(body@),
{
    let v = chars_of(body);
    let seg = after_last_chars(&v, ':');
    let t = trim_chars(&seg);
    match parse_i32(&t) {
        Some(n) => {
            let pat = i32_to_chars(n);
            let rep = i32_to_chars(n + 1);
            proof {
                lemma_int_text_shape(n as int);
            }
            let out = replace_chars(&v, &pat, &rep);
            string_of(&out)
        },
        None => String::from_str(body),
    }
}

/// The number page that shows `n` ("random number of today : n").
pub fn number_page(n: i32) -> (r: String)
    ensures
        r@ == number_page_spec(n as int),
{
    let t = i32_to_string(n);
    concat2("random number of today : ", t.as_str())
}

/// The number page with today's number, drawn between `LOWEST_NUMBER` and
/// `HIGHEST_NUMBER`.
pub fn todays_number_page() -> (r: String)
    ensures
        exists|n: int| LOWEST_NUMBER <= n <= HIGHEST_NUMBER && r@ == number_page_spec(n),
{
    let n: i32 = random_in_range(LOWEST_NUMBER, HIGHEST_NUMBER);
    number_page(n)
}

/// The text of an integer is not empty, starts with a digit or `-`, holds no
/// white space and no `:`.
pub proof fn lemma_int_text_shape(n: int)
    ensures
        int_text(n).len() > 0,
        is_digit(int_text(n)[0]) || int_text(n)[0] == '-',
        forall|i: int|
            0 <= i < int_text(n).len() ==> (is_digit(#[trigger] int_text(n)[i]) || (i == 0
                && int_text(n)[i] == '-')),
{
    if n < 0 {
        lemma_nat_text_digits((-n) as nat);
        let t = int_text(n);
        let d = crate::decimal::nat_text((-n) as nat);
        assert forall|i: int| 0 <= i < t.len() implies (is_digit(#[trigger] t[i]) || (i == 0
            && t[i] == '-')) by {
            if i > 0 {
                assert(t[i] == d[i - 1]);
            }
        }
    } else {
        lemma_nat_text_digits(n as nat);
    }
}

/// When no character of `p` can start a match of `pat`, replacing in
/// `p + t` leaves `p` alone.
pub proof fn lemma_replace_after_free_prefix(
    p: Seq<char>,
    t: Seq<char>,
    pat: Seq<char>,
    rep: Seq<char>,
)
    requires
        pat.len() > 0,
        forall|i: int| 0 <= i < p.len() ==> #[trigger] p[i] != pat[0],
    ensures
        replace_all(p + t, pat, rep) == p + replace_all(t, pat, rep),
    decreases p.len(),
{
    if p.len() > 0 {
        let s = p + t;
        assert(s[0] == p[0]);
        assert(!pat.is_prefix_of(s)) by {
            if pat.is_prefix_of(s) {
                assert(pat[0] == s.subrange(0, pat.len() as int)[0]);
            }
        }
        let q = p.skip(1);
        assert forall|i: int| 0 <= i < q.len() implies #[trigger] q[i] != pat[0] by {
            assert(q[i] == p[i + 1]);
        }
        lemma_replace_after_free_prefix(q, t, pat, rep);
        assert(s.skip(1) == q + t);
        assert(seq![p[0]] + q == p);
    } else {
        assert(p + t == t);
    }
}

/// Text that holds no `sep` can be split off the end of `after_last`.
pub proof fn lemma_after_last_append(a: Seq<char>, b: Seq<char>, sep: char)
    requires
        forall|i: int| 0 <= i < b.len() ==> #[trigger] b[i] != sep,
    ensures
        after_last(a + b, sep) == after_last(a, sep) + b,
    decreases b.len(),
{
    if b.len() == 0 {
        assert(a + b == a);
    } else {
        let c = b.drop_last();
        assert forall|i: int| 0 <= i < c.len() implies #[trigger] c[i] != sep by {
            assert(c[i] == b[i]);
        }
        lemma_after_last_append(a, c, sep);
        assert((a + b).drop_last() == a + c);
        assert((a + b).last() == b.last());
        assert(b == c.push(b.last()));
    }
}

/// Law: the "add one" rewriting turns the number page of `n` into the number
/// page of `n + 1`.
pub proof fn lemma_add_one_number_page(n: i32)
    requires
        n < i32::MAX,
    ensures
        add_one_spec(number_page_spec(n as int)) == number_page_spec(n + 1),
{
    reveal_strlit("random number of today : ");
    let p = "random number of today : "@;
    let t = int_text(n as int);
    let body = p + t;
    lemma_int_text_shape(n as int);
    lemma_parse_int_text(n);
    // the number after the last ':' is `t`, preceded by one space
    assert forall|i: int| 0 <= i < t.len() implies #[trigger] t[i] != ':' by {
        assert(is_digit(t[i]) || t[i] == '-');
    }
    lemma_after_last_append(p, t, ':');
    assert(p.len() == 25);
    assert(p.last() == ' ');
    assert(p.drop_last().last() == ':');
    assert(after_last(p.drop_last(), ':') == Seq::<char>::empty());
    assert(after_last(p, ':') == seq![' ']);
    let seg = seq![' '] + t;
    assert(after_last(body, ':') == seg);
    assert(seg.drop_first() == t);
    assert(trim_start(seg) == trim_start(t));
    assert(!is_white_space(t[0]));
    assert(trim_start(t) == t);
    assert(!is_white_space(t.last())) by {
        assert(is_digit(t[t.len() - 1]) || t[t.len() - 1] == '-');
    }
    assert(trim_end(t) == t);
    assert(last_number_spec(body) == Some(n));
    // no character of the page prefix can start the number
    assert forall|i: int| 0 <= i < p.len() implies #[trigger] p[i] != t[0] by {
        assert(is_digit(t[0]) || t[0] == '-');
    }
    lemma_replace_after_free_prefix(p, t, t, int_text(n + 1));
    assert(t.is_prefix_of(t)) by {
        assert(t == t.subrange(0, t.len() as int));
    }
    assert(t.skip(t.len() as int) == Seq::<char>::empty());
    assert(replace_all(t, t, int_text(n + 1)) == int_text(n + 1) + replace_all(
        Seq::<char>::empty(),
        t,
        int_text(n + 1),
    ));
    assert(int_text(n + 1) + Seq::<char>::empty() == int_text(n + 1));
}

/// Law: a body that ends with a line end or space ends with the same number
/// as the body without it (the text after the last `:` is trimmed), so the
/// "add one" rewriting finds the same number in both.
pub proof fn lemma_last_number_ignores_trailing_space(body: Seq<char>, c: char)
    requires
        ascii_space(c),
    ensures
        last_number_spec(body.push(c)) == last_number_spec(body),
{
    assert(body.push(c).last() == c);
    assert(body.push(c).drop_last() == body);
    assert(after_last(body.push(c), ':') == after_last(body, ':').push(c));
    lemma_trim_ascii_space(after_last(body, ':'), c);
}

} // verus!
