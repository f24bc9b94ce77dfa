//! CORS configuration. The library builds `actix_cors::Cors` values through
//! the builder calls of actix-cors. What each call does to the builder's
//! state is stated over names for that state (`cors_policy`,
//! `cors_editable`): an accepted call changes the policy as its name says, a
//! refused one records an error, and a builder with an error ignores further
//! calls. The policy that a settings file describes, and that of each fixed
//! configuration, is stated over those names and proved here.
use vstd::prelude::*;
use actix_cors::Cors;
use crate::text::{chars_of, same_text, views};

verus! {

/// The CORS middleware builder of actix-cors.
#[verifier::external_type_specification]
#[verifier::external_body]
pub struct ExCors(Cors);

/// An origin predicate held by a `Cors` value.
pub enum OriginRule {
    /// Accepts the origins whose bytes end with `.myapp.test`
    /// (`is_myapp_subdomain`).
    MyappSubdomains,
}

impl OriginRule {
    /// Whether the predicate accepts the origin with bytes `origin`.
    pub open spec fn accepts(self, origin: Seq<u8>) -> bool {
        match self {
            OriginRule::MyappSubdomains => myapp_suffix().is_suffix_of(origin),
        }
    }
}

/// The policy part of a `Cors` builder's state (its `Inner`): which origins,
/// methods and headers are allowed, which headers are exposed, and its flags.
/// A set whose `any_*` flag is on stands for "all" and is kept empty.
pub struct CorsPolicy {
    pub any_origin: bool,
    pub origins: Set<Seq<char>>,
    pub origin_rules: Seq<OriginRule>,
    pub methods: Set<Seq<char>>,
    pub any_header: bool,
    pub headers: Set<Seq<char>>,
    pub expose_any_header: bool,
    pub exposed_headers: Set<Seq<char>>,
    pub max_age: Option<nat>,
    pub preflight: bool,
    pub send_wildcard: bool,
    pub supports_credentials: bool,
    pub vary_header: bool,
    pub block_on_origin_mismatch: bool,
}

/// The policy held by the builder `c`.
pub uninterp spec fn cors_policy(c: Cors) -> CorsPolicy;

/// The builder `c` takes further calls: it has recorded no error and its
/// state is not shared (actix-cors's `cors()` helper gives access to it).
/// A builder that recorded an error is refused when the middleware starts.
pub uninterp spec fn cors_editable(c: Cors) -> bool;

/// The text `s` parses as a `Uri` (`TryInto::<Uri>::try_into` succeeds).
pub uninterp spec fn uri_accepts(s: Seq<char>) -> bool;

/// A character that may stand in the name of an HTTP method: an ASCII letter
/// or digit, or one of `! * + - . ^ _ ` | ~`.
pub open spec fn method_char(c: char) -> bool {
    ||| ('a' <= c && c <= 'z')
    ||| ('A' <= c && c <= 'Z')
    ||| ('0' <= c && c <= '9')
    ||| c == '!' || c == '*' || c == '+' || c == '-' || c == '.'
    ||| c == '^' || c == '_' || c == '`' || c == '|' || c == '~'
}

/// The text `s` is a valid HTTP method (`Method::try_from` succeeds, and the
/// method's text is then `s`): it is not empty and each of its characters
/// is a method character.
pub open spec fn method_accepts(s: Seq<char>) -> bool {
    s.len() > 0 && forall|i: int| 0 <= i < s.len() ==> #[trigger] method_char(s[i])
}

/// A character that a header value may hold: a tab, or any character from
/// the space on except DEL.
pub open spec fn header_value_char(c: char) -> bool {
    c == '\t' || (32 <= (c as u32) && (c as u32) != 127)
}

/// Every character of `s` may stand in a header value.
pub open spec fn header_value_text(s: Seq<char>) -> bool {
    forall|i: int| 0 <= i < s.len() ==> #[trigger] header_value_char(s[i])
}

/// `allowed_origin` returns on the origin `s`: when `s` parses as a URI and
/// is not `*`, it is made a header value, so it must be a valid one.
pub open spec fn origin_header_safe(s: Seq<char>) -> bool {
    uri_accepts(s) && s != "*"@ ==> header_value_text(s)
}

/// A character that may stand in a header name: an ASCII letter or digit,
/// or one of ``! " # $ % & ' * + - . ^ _ ` | ~``.
pub open spec fn header_name_char(c: char) -> bool {
    ||| ('a' <= c && c <= 'z')
    ||| ('A' <= c && c <= 'Z')
    ||| ('0' <= c && c <= '9')
    ||| c == '!' || c == '"' || c == '#' || c == '$' || c == '%' || c == '&'
    ||| c == '\'' || c == '*' || c == '+' || c == '-' || c == '.'
    ||| c == '^' || c == '_' || c == '`' || c == '|' || c == '~'
}

/// `c` with an ASCII capital letter made small.
pub open spec fn ascii_lower(c: char) -> char {
    if 'A' <= c && c <= 'Z' {
        ((c as u32) + 32) as char
    } else {
        c
    }
}

/// `s` with its ASCII capital letters made small.
pub open spec fn lower_text(s: Seq<char>) -> Seq<char> {
    s.map_values(|c: char| ascii_lower(c))
}

/// The header name that `HeaderName::try_from` makes of `s`, by its text: `s`
/// in small letters when it has from 1 to 65535 characters, each a header
/// name character; `None` otherwise.
pub open spec fn header_name_of(s: Seq<char>) -> Option<Seq<char>> {
    if 0 < s.len() <= 65535 && forall|i: int| 0 <= i < s.len() ==> #[trigger] header_name_char(s[i]) {
        Some(lower_text(s))
    } else {
        None
    }
}

/// The nine standard methods that `allow_any_method` allows.
pub open spec fn all_methods() -> Set<Seq<char>> {
    set![
        "GET"@,
        "POST"@,
        "PUT"@,
        "DELETE"@,
        "HEAD"@,
        "OPTIONS"@,
        "CONNECT"@,
        "PATCH"@,
        "TRACE"@,
    ]
}

/// The policy of `Cors::default()`.
pub open spec fn default_policy() -> CorsPolicy {
    CorsPolicy {
        any_origin: false,
        origins: Set::empty(),
        origin_rules: Seq::empty(),
        methods: Set::empty(),
        any_header: false,
        headers: Set::empty(),
        expose_any_header: false,
        exposed_headers: Set::empty(),
        max_age: None,
        preflight: true,
        send_wildcard: false,
        supports_credentials: false,
        vary_header: true,
        block_on_origin_mismatch: false,
    }
}

impl CorsPolicy {
    /// Any origin allowed.
    pub open spec fn with_any_origin(self) -> CorsPolicy {
        CorsPolicy { any_origin: true, origins: Set::empty(), ..self }
    }

    /// One more allowed origin; "any origin" ends.
    pub open spec fn with_origin(self, o: Seq<char>) -> CorsPolicy {
        CorsPolicy {
            any_origin: false,
            origins: (if self.any_origin {
                Set::empty()
            } else {
                self.origins
            }).insert(o),
            ..self
        }
    }

    /// One more origin predicate.
    pub open spec fn with_origin_rule(self, r: OriginRule) -> CorsPolicy {
        CorsPolicy { origin_rules: self.origin_rules.push(r), ..self }
    }

    /// The nine standard methods allowed, and only they.
    pub open spec fn with_any_method(self) -> CorsPolicy {
        CorsPolicy { methods: all_methods(), ..self }
    }

    /// The methods `ms` allowed as well.
    pub open spec fn with_methods(self, ms: Seq<Seq<char>>) -> CorsPolicy {
        CorsPolicy { methods: self.methods + ms.to_set(), ..self }
    }

    /// Any request header allowed.
    pub open spec fn with_any_header(self) -> CorsPolicy {
        CorsPolicy { any_header: true, headers: Set::empty(), ..self }
    }

    /// One more allowed request header; "any header" ends.
    pub open spec fn with_header(self, h: Seq<char>) -> CorsPolicy {
        CorsPolicy {
            any_header: false,
            headers: (if self.any_header {
                Set::empty()
            } else {
                self.headers
            }).insert(h),
            ..self
        }
    }

    /// Any response header exposed.
    pub open spec fn with_expose_any(self) -> CorsPolicy {
        CorsPolicy { expose_any_header: true, exposed_headers: Set::empty(), ..self }
    }

    /// One more exposed header; "any header" ends.
    pub open spec fn with_exposed(self, h: Seq<char>) -> CorsPolicy {
        CorsPolicy {
            expose_any_header: false,
            exposed_headers: (if self.expose_any_header {
                Set::empty()
            } else {
                self.exposed_headers
            }).insert(h),
            ..self
        }
    }

    /// The allowed methods replaced by `m`.
    pub open spec fn set_methods(self, m: Set<Seq<char>>) -> CorsPolicy {
        CorsPolicy { methods: m, ..self }
    }

    /// The request header part replaced by `any` and `h`.
    pub open spec fn set_headers(self, any: bool, h: Set<Seq<char>>) -> CorsPolicy {
        CorsPolicy { any_header: any, headers: h, ..self }
    }

    /// The exposed header part replaced by `any` and `h`.
    pub open spec fn set_exposed(self, any: bool, h: Set<Seq<char>>) -> CorsPolicy {
        CorsPolicy { expose_any_header: any, exposed_headers: h, ..self }
    }

    /// Preflight answers cached for `n` seconds.
    pub open spec fn with_max_age(self, n: nat) -> CorsPolicy {
        CorsPolicy { max_age: Some(n), ..self }
    }

    /// Answered with `*` instead of the request origin.
    pub open spec fn with_wildcard(self) -> CorsPolicy {
        CorsPolicy { send_wildcard: true, ..self }
    }

    /// Credentials allowed.
    pub open spec fn with_credentials(self) -> CorsPolicy {
        CorsPolicy { supports_credentials: true, ..self }
    }

    /// Whether requests from refused origins are blocked.
    pub open spec fn with_block(self, b: bool) -> CorsPolicy {
        CorsPolicy { block_on_origin_mismatch: b, ..self }
    }
}

/// `p` with the origins `os` allowed one after the other.
pub open spec fn with_origins(p: CorsPolicy, os: Seq<Seq<char>>) -> CorsPolicy
    decreases os.len(),
{
    if os.len() == 0 {
        p
    } else {
        with_origins(p, os.drop_last()).with_origin(os.last())
    }
}

/// `p` with the request headers `hs` allowed one after the other.
pub open spec fn with_headers(p: CorsPolicy, hs: Seq<Seq<char>>) -> CorsPolicy
    decreases hs.len(),
{
    if hs.len() == 0 {
        p
    } else {
        with_headers(p, hs.drop_last()).with_header(hs.last())
    }
}

/// `p` with the headers `hs` exposed one after the other.
pub open spec fn with_exposed_list(p: CorsPolicy, hs: Seq<Seq<char>>) -> CorsPolicy
    decreases hs.len(),
{
    if hs.len() == 0 {
        p
    } else {
        with_exposed_list(p, hs.drop_last()).with_exposed(hs.last())
    }
}

/// Every text of `hs` is a valid header name.
pub open spec fn all_header_names(hs: Seq<Seq<char>>) -> bool {
    forall|i: int| 0 <= i < hs.len() ==> #[trigger] header_name_of(hs[i]) is Some
}

/// The header names made of the texts `hs`.
pub open spec fn header_names(hs: Seq<Seq<char>>) -> Seq<Seq<char>> {
    hs.map_values(|h: Seq<char>| header_name_of(h)->0)
}

/// Every text of `ms` is a valid method.
pub open spec fn all_methods_accepted(ms: Seq<Seq<char>>) -> bool {
    forall|i: int| 0 <= i < ms.len() ==> #[trigger] method_accepts(ms[i])
}

/// Every text of `os` is an origin that `allowed_origin` takes: a URI other
/// than `*`.
pub open spec fn all_origins_accepted(os: Seq<Seq<char>>) -> bool {
    forall|i: int| 0 <= i < os.len() ==> #[trigger] uri_accepts(os[i]) && os[i] != "*"@
}

/// What one builder call does, as actix-cors's `cors()` helper makes it:
/// on an editable builder it applies `next` when its arguments are
/// `accepted`, and records an error otherwise; on a builder that is not
/// editable it changes nothing.
pub open spec fn builder_step(c: Cors, r: Cors, accepted: bool, next: CorsPolicy) -> bool {
    &&& (cors_editable(r) <==> cors_editable(c) && accepted)
    &&& (cors_editable(r) ==> cors_policy(r) == next)
    &&& (!cors_editable(c) ==> cors_policy(r) == cors_policy(c))
}

/// From `c` to `r` the builder stays editable exactly when `accepted`, and
/// then holds `next`.
pub open spec fn step_to(c: Cors, r: Cors, accepted: bool, next: CorsPolicy) -> bool {
    &&& (cors_editable(r) <==> cors_editable(c) && accepted)
    &&& (cors_editable(r) ==> cors_policy(r) == next)
}

/// `Cors::default()`: an editable builder with no origin, method or header
/// allowed, preflight and `Vary` on, nothing else set.
#[verifier::external_body]
fn cors_default() -> (r: Cors)
    ensures
        cors_editable(r),
        cors_policy(r) == default_policy(),
{
    Cors::default()
}

/// `Cors::allow_any_origin`: any origin allowed.
#[verifier::external_body]
fn cors_allow_any_origin(c: Cors) -> (r: Cors)
    ensures
        builder_step(c, r, true, cors_policy(c).with_any_origin()),
{
    c.allow_any_origin()
}

/// `Cors::allowed_origin`: the origin is added when it parses as a URI and
/// is not `*`; otherwise an error is recorded. An origin that parses as a
/// URI is then made a header value, which panics on a control character
/// (the URI parser does not look past `#`), so such origins are left out.
#[verifier::external_body]
fn cors_allowed_origin(c: Cors, origin: &str) -> (r: Cors)
    requires
        origin_header_safe(origin@),
    ensures
        builder_step(
            c,
            r,
            uri_accepts(origin@) && origin@ != "*"@,
            cors_policy(c).with_origin(origin@),
        ),
{
    c.allowed_origin(origin)
}

/// `Cors::allowed_origin_fn` with a predicate that accepts the origins whose
/// bytes end with `.myapp.test`.
#[verifier::external_body]
fn cors_allowed_origin_fn_myapp(c: Cors) -> (r: Cors)
    ensures
        builder_step(c, r, true, cors_policy(c).with_origin_rule(OriginRule::MyappSubdomains)),
{
    c.allowed_origin_fn(|origin, _req_head| is_myapp_subdomain(origin.as_bytes()))
}

/// `Cors::allow_any_method`: the nine standard methods allowed.
#[verifier::external_body]
fn cors_allow_any_method(c: Cors) -> (r: Cors)
    ensures
        builder_step(c, r, true, cors_policy(c).with_any_method()),
{
    c.allow_any_method()
}

/// `Cors::allowed_methods`: the methods are added when all are valid;
/// otherwise an error is recorded.
#[verifier::external_body]
fn cors_allowed_methods(c: Cors, methods: &Vec<String>) -> (r: Cors)
    ensures
        builder_step(
            c,
            r,
            forall|i: int|
                0 <= i < views(methods@).len() ==> #[trigger] method_accepts(views(methods@)[i]),
            cors_policy(c).with_methods(views(methods@)),
        ),
{
    c.allowed_methods(methods.iter().map(|m| m.as_str()))
}

/// `Cors::allow_any_header`: any request header allowed.
#[verifier::external_body]
fn cors_allow_any_header(c: Cors) -> (r: Cors)
    ensures
        builder_step(c, r, true, cors_policy(c).with_any_header()),
{
    c.allow_any_header()
}

/// `Cors::allowed_header`: the header name is added when it is valid;
/// otherwise an error is recorded.
#[verifier::external_body]
fn cors_allowed_header(c: Cors, header: &str) -> (r: Cors)
    ensures
        builder_step(
            c,
            r,
            header_name_of(header@) is Some,
            cors_policy(c).with_header(header_name_of(header@)->0),
        ),
{
    c.allowed_header(header)
}

/// `Cors::allowed_headers`: the header names are added one by one when all
/// are valid; otherwise an error is recorded.
#[verifier::external_body]
fn cors_allowed_headers(c: Cors, headers: &Vec<String>) -> (r: Cors)
    ensures
        builder_step(
            c,
            r,
            all_header_names(views(headers@)),
            with_headers(cors_policy(c), header_names(views(headers@))),
        ),
{
    c.allowed_headers(headers.iter().map(|h| h.as_str()))
}

/// `Cors::expose_any_header`: any response header exposed.
#[verifier::external_body]
fn cors_expose_any_header(c: Cors) -> (r: Cors)
    ensures
        builder_step(c, r, true, cors_policy(c).with_expose_any()),
{
    c.expose_any_header()
}

/// `Cors::expose_headers`: the header names are exposed one by one when all
/// are valid; otherwise an error is recorded.
#[verifier::external_body]
fn cors_expose_headers(c: Cors, headers: &Vec<String>) -> (r: Cors)
    ensures
        builder_step(
            c,
            r,
            all_header_names(views(headers@)),
            with_exposed_list(cors_policy(c), header_names(views(headers@))),
        ),
{
    c.expose_headers(headers.iter().map(|h| h.as_str()))
}

/// `Cors::max_age`: preflight answers cached for `seconds`.
#[verifier::external_body]
fn cors_max_age(c: Cors, seconds: usize) -> (r: Cors)
    ensures
        builder_step(c, r, true, cors_policy(c).with_max_age(seconds as nat)),
{
    c.max_age(seconds)
}

/// `Cors::send_wildcard`: answers carry `*` instead of the request origin.
#[verifier::external_body]
fn cors_send_wildcard(c: Cors) -> (r: Cors)
    ensures
        builder_step(c, r, true, cors_policy(c).with_wildcard()),
{
    c.send_wildcard()
}

/// `Cors::supports_credentials`: credentials allowed.
#[verifier::external_body]
fn cors_supports_credentials(c: Cors) -> (r: Cors)
    ensures
        builder_step(c, r, true, cors_policy(c).with_credentials()),
{
    c.supports_credentials()
}

/// `Cors::block_on_origin_mismatch`: whether refused origins are blocked.
#[verifier::external_body]
fn cors_block_on_origin_mismatch(c: Cors, block: bool) -> (r: Cors)
    ensures
        builder_step(c, r, true, cors_policy(c).with_block(block)),
{
    c.block_on_origin_mismatch(block)
}

/// The bytes of `.myapp.test`.
pub open spec fn myapp_suffix() -> Seq<u8> {
    seq![46u8, 109u8, 121u8, 97u8, 112u8, 112u8, 46u8, 116u8, 101u8, 115u8, 116u8]
}

/// Tests whether an origin is a subdomain of `myapp.test`: its bytes end
/// with `.myapp.test`.
pub fn is_myapp_subdomain(origin: &[u8]) -> (b: bool)
    ensures
        b == myapp_suffix().is_suffix_of(origin@),
{
    let suffix: [u8; 11] = [46, 109, 121, 97, 112, 112, 46, 116, 101, 115, 116];
    assert(suffix@ == myapp_suffix());
    if origin.len() < 11 {
        return false;
    }
    let start: usize = origin.len() - 11;
    let mut i: usize = 0;
    while i < 11
        invariant
            i <= 11,
            start + 11 == origin@.len(),
            start + 11 == origin.len(),
            suffix@ == myapp_suffix(),
            forall|k: int| 0 <= k < i ==> origin@[start + k] == myapp_suffix()[k],
        decreases 11 - i,
    {
        if origin[start + i] != suffix[i] {
            assert(origin@.subrange(start as int, origin@.len() as int)[i as int] == origin@[start
                + i]);
            return false;
        }
        i = i + 1;
    }
    assert(myapp_suffix() =~= origin@.subrange(start as int, origin@.len() as int));
    true
}

/// The names `items`, as owned strings.
fn names(items: &[&str]) -> (v: Vec<String>)
    ensures
        v@.len() == items@.len(),
        forall|i: int| 0 <= i < items@.len() ==> #[trigger] v@[i]@ == items@[i]@,
{
    let mut v: Vec<String> = Vec::new();
    for i in 0..items.len()
        invariant
            v@.len() == i,
            forall|k: int| 0 <= k < i ==> #[trigger] v@[k]@ == items@[k]@,
    {
        v.push(String::from_str(items[i]));
    }
    v
}

/// One value or a list of values of a CORS setting.
pub enum OneOrMany {
    One(String),
    Many(Vec<String>),
}

/// A CORS configuration as a settings file states it.
pub struct CorsSettings {
    pub origins: Option<OneOrMany>,
    pub methods: Option<OneOrMany>,
    pub headers: Option<OneOrMany>,
    pub expose_headers: Option<OneOrMany>,
    pub credentials: bool,
    pub send_wildcard: bool,
    pub max_age: Option<usize>,
    pub block_on_origin_mismatch: bool,
}


/// `allowed_origin` returns on every origin of the origins setting that it
/// is given (`*` alone is not given to it).
pub open spec fn origins_header_safe(o: Option<OneOrMany>) -> bool {
    match o {
        None => true,
        Some(OneOrMany::One(s)) => s@ == "*"@ || origin_header_safe(s@),
        Some(OneOrMany::Many(v)) => forall|i: int|
            0 <= i < v@.len() ==> #[trigger] origin_header_safe(v@[i]@),
    }
}

/// `Uri::try_from`: whether the text parses as a URI.
#[verifier::external_body]
fn uri_parses(s: &str) -> (b: bool)
    ensures
        b == uri_accepts(s@),
{
    TryInto::<actix_web::http::Uri>::try_into(s).is_ok()
}

/// Tests whether `allowed_origin` returns on the origin `s`.
pub fn is_origin_header_safe(s: &str) -> (b: bool)
    ensures
        b == origin_header_safe(s@),
{
    if same_text(s, "*") {
        return true;
    }
    if !uri_parses(s) {
        return true;
    }
    is_header_value_text(s)
}

/// Tests whether every character of `s` may stand in a header value.
pub fn is_header_value_text(s: &str) -> (b: bool)
    ensures
        b == header_value_text(s@),
{
    let v = chars_of(s);
    let mut i: usize = 0;
    while i < v.len()
        invariant
            v@ == s@,
            i <= v.len(),
            forall|k: int| 0 <= k < i ==> #[trigger] header_value_char(v@[k]),
        decreases v.len() - i,
    {
        let c = v[i];
        let code: u32 = c as u32;
        if !(c == '\t' || (32 <= code && code != 127)) {
            assert(!header_value_char(v@[i as int]));
            return false;
        }
        i = i + 1;
    }
    true
}

/// Tests whether `allowed_origin` returns on every origin of the origins
/// setting, which `cors_from_settings` asks of its settings.
pub fn origins_are_header_safe(o: &Option<OneOrMany>) -> (b: bool)
    ensures
        b == origins_header_safe(*o),
{
    match o {
        None => true,
        Some(OneOrMany::One(s)) => same_text(s.as_str(), "*") || is_origin_header_safe(s.as_str()),
        Some(OneOrMany::Many(v)) => {
            let mut i: usize = 0;
            while i < v.len()
                invariant
                    *o == Some(OneOrMany::Many(*v)),
                    i <= v@.len(),
                    forall|k: int| 0 <= k < i ==> #[trigger] origin_header_safe(v@[k]@),
                decreases v.len() - i,
            {
                if !is_origin_header_safe(v[i].as_str()) {
                    let ghost w = (*o)->0->Many_0;
                    assert(!origin_header_safe(w@[i as int]@));
                    return false;
                }
                i = i + 1;
            }
            true
        },
    }
}

/// Whether the origins setting is taken: `*`, or origins that parse as URIs
/// other than `*`.
pub open spec fn origins_accepted(o: Option<OneOrMany>) -> bool {
    match o {
        None => true,
        Some(OneOrMany::One(s)) => s@ == "*"@ || uri_accepts(s@),
        Some(OneOrMany::Many(v)) => all_origins_accepted(views(v@)),
    }
}

/// Whether the methods setting is taken: `*`, or valid methods.
pub open spec fn methods_accepted(o: Option<OneOrMany>) -> bool {
    match o {
        None => true,
        Some(OneOrMany::One(s)) => s@ == "*"@ || method_accepts(s@),
        Some(OneOrMany::Many(v)) => all_methods_accepted(views(v@)),
    }
}

/// Whether a header setting is taken: `*`, or valid header names.
pub open spec fn headers_accepted(o: Option<OneOrMany>) -> bool {
    match o {
        None => true,
        Some(OneOrMany::One(s)) => s@ == "*"@ || header_name_of(s@) is Some,
        Some(OneOrMany::Many(v)) => all_header_names(views(v@)),
    }
}

/// The origins setting applied to `p`: `*` allows any origin (never the
/// origin `*`); otherwise each origin is allowed.
pub open spec fn origins_policy(p: CorsPolicy, o: Option<OneOrMany>) -> CorsPolicy {
    match o {
        None => p,
        Some(OneOrMany::One(s)) => if s@ == "*"@ {
            p.with_any_origin()
        } else {
            p.with_origin(s@)
        },
        Some(OneOrMany::Many(v)) => with_origins(p, views(v@)),
    }
}

/// The methods setting applied to `p`: `*` allows any method; otherwise the
/// listed methods.
pub open spec fn methods_policy(p: CorsPolicy, o: Option<OneOrMany>) -> CorsPolicy {
    match o {
        None => p,
        Some(OneOrMany::One(s)) => if s@ == "*"@ {
            p.with_any_method()
        } else {
            p.with_methods(seq![s@])
        },
        Some(OneOrMany::Many(v)) => p.with_methods(views(v@)),
    }
}

/// The headers setting applied to `p`: `*` allows any header; otherwise the
/// listed header names.
pub open spec fn headers_policy(p: CorsPolicy, o: Option<OneOrMany>) -> CorsPolicy {
    match o {
        None => p,
        Some(OneOrMany::One(s)) => if s@ == "*"@ {
            p.with_any_header()
        } else {
            p.with_header(header_name_of(s@)->0)
        },
        Some(OneOrMany::Many(v)) => with_headers(p, header_names(views(v@))),
    }
}

/// The exposed headers setting applied to `p`: `*` exposes any header;
/// otherwise the listed header names.
pub open spec fn expose_policy(p: CorsPolicy, o: Option<OneOrMany>) -> CorsPolicy {
    match o {
        None => p,
        Some(OneOrMany::One(s)) => if s@ == "*"@ {
            p.with_expose_any()
        } else {
            with_exposed_list(p, header_names(seq![s@]))
        },
        Some(OneOrMany::Many(v)) => with_exposed_list(p, header_names(views(v@))),
    }
}

/// Whether every value of the settings is taken by actix-cors.
pub open spec fn settings_accepted(s: CorsSettings) -> bool {
    origins_accepted(s.origins) && methods_accepted(s.methods) && headers_accepted(s.headers)
        && headers_accepted(s.expose_headers)
}

/// The policy that a settings file describes: each field applied in turn to
/// the default policy; an absent field leaves its part as the default has
/// it, and the mismatch flag is always set.
pub open spec fn settings_policy(s: CorsSettings) -> CorsPolicy {
    let p1 = origins_policy(default_policy(), s.origins);
    let p2 = methods_policy(p1, s.methods);
    let p3 = headers_policy(p2, s.headers);
    let p4 = expose_policy(p3, s.expose_headers);
    let p5 = if s.credentials {
        p4.with_credentials()
    } else {
        p4
    };
    let p6 = if s.send_wildcard {
        p5.with_wildcard()
    } else {
        p5
    };
    let p7 = match s.max_age {
        Some(m) => p6.with_max_age(m as nat),
        None => p6,
    };
    p7.with_block(s.block_on_origin_mismatch)
}

/// A list holding `s` alone.
fn single(s: &String) -> (v: Vec<String>)
    ensures
        views(v@) == seq![s@],
{
    let mut v: Vec<String> = Vec::new();
    v.push(s.clone());
    assert(views(v@) == seq![s@]);
    v
}

/// One more origin keeps the list accepted exactly when that origin is.
proof fn lemma_origins_accepted_push(os: Seq<Seq<char>>, o: Seq<char>)
    ensures
        all_origins_accepted(os.push(o)) <==> all_origins_accepted(os) && uri_accepts(o) && o
            != "*"@,
{
    let t = os.push(o);
    if all_origins_accepted(os) && uri_accepts(o) && o != "*"@ {
        assert forall|k: int| 0 <= k < t.len() implies #[trigger] uri_accepts(t[k]) && t[k]
            != "*"@ by {
            if k < os.len() {
                assert(t[k] == os[k]);
                assert(uri_accepts(os[k]));
            } else {
                assert(t[k] == o);
            }
        }
    }
    if all_origins_accepted(t) {
        assert forall|k: int| 0 <= k < os.len() implies #[trigger] uri_accepts(os[k]) && os[k]
            != "*"@ by {
            assert(t[k] == os[k]);
            assert(uri_accepts(t[k]));
        }
        assert(t[os.len() as int] == o);
        assert(uri_accepts(t[os.len() as int]));
    }
}

/// Applies the origins setting.
fn apply_origins(c: Cors, o: &Option<OneOrMany>) -> (r: Cors)
    requires
        origins_header_safe(*o),
    ensures
        step_to(c, r, origins_accepted(*o), origins_policy(cors_policy(c), *o)),
{
    match o {
        None => c,
        Some(OneOrMany::One(origin)) => {
            if same_text(origin.as_str(), "*") {
                cors_allow_any_origin(c)
            } else {
                cors_allowed_origin(c, origin.as_str())
            }
        },
        Some(OneOrMany::Many(origins)) => {
            let ghost all = views(origins@);
            let ghost p = cors_policy(c);
            let ghost start = c;
            let mut cur = c;
            assert(all.take(0) == Seq::<Seq<char>>::empty());
            for i in 0..origins.len()
                invariant
                    all == views(origins@),
                    step_to(start, cur, all_origins_accepted(all.take(i as int)), with_origins(p, all.take(i as int))),
                    p == cors_policy(start),
                    forall|k: int| 0 <= k < origins@.len() ==> #[trigger] origin_header_safe(origins@[k]@),
            {
                cur = cors_allowed_origin(cur, origins[i].as_str());
                proof {
                    let t = all.take(i + 1);
                    assert(t.drop_last() == all.take(i as int));
                    assert(t.last() == origins@[i as int]@);
                    assert(t == all.take(i as int).push(origins@[i as int]@));
                    lemma_origins_accepted_push(all.take(i as int), origins@[i as int]@);
                }
            }
            assert(all.take(origins.len() as int) == all);
            cur
        },
    }
}

/// Applies the methods setting.
fn apply_methods(c: Cors, o: &Option<OneOrMany>) -> (r: Cors)
    ensures
        step_to(c, r, methods_accepted(*o), methods_policy(cors_policy(c), *o)),
{
    match o {
        None => c,
        Some(OneOrMany::One(method)) => {
            if same_text(method.as_str(), "*") {
                cors_allow_any_method(c)
            } else {
                let one = single(method);
                let r = cors_allowed_methods(c, &one);
                assert(all_methods_accepted(seq![method@]) <==> method_accepts(method@)) by {
                    if method_accepts(method@) {
                        assert forall|k: int| 0 <= k < 1 implies #[trigger] method_accepts(
                            seq![method@][k],
                        ) by {}
                    }
                    if all_methods_accepted(seq![method@]) {
                        assert(method_accepts(seq![method@][0]));
                    }
                }
                r
            }
        },
        Some(OneOrMany::Many(methods)) => cors_allowed_methods(c, methods),
    }
}

/// Applies the headers setting.
fn apply_headers(c: Cors, o: &Option<OneOrMany>) -> (r: Cors)
    ensures
        step_to(c, r, headers_accepted(*o), headers_policy(cors_policy(c), *o)),
{
    match o {
        None => c,
        Some(OneOrMany::One(header)) => {
            if same_text(header.as_str(), "*") {
                cors_allow_any_header(c)
            } else {
                cors_allowed_header(c, header.as_str())
            }
        },
        Some(OneOrMany::Many(headers)) => cors_allowed_headers(c, headers),
    }
}

/// Applies the exposed headers setting.
fn apply_expose(c: Cors, o: &Option<OneOrMany>) -> (r: Cors)
    ensures
        step_to(c, r, headers_accepted(*o), expose_policy(cors_policy(c), *o)),
{
    match o {
        None => c,
        Some(OneOrMany::One(header)) => {
            if same_text(header.as_str(), "*") {
                cors_expose_any_header(c)
            } else {
                let one = single(header);
                let r = cors_expose_headers(c, &one);
                assert(all_header_names(seq![header@]) <==> header_name_of(header@) is Some) by {
                    if header_name_of(header@) is Some {
                        assert forall|k: int| 0 <= k < 1 implies #[trigger] header_name_of(
                            seq![header@][k],
                        ) is Some by {}
                    }
                    if all_header_names(seq![header@]) {
                        assert(header_name_of(seq![header@][0]) is Some);
                    }
                }
                r
            }
        },
        Some(OneOrMany::Many(headers)) => cors_expose_headers(c, headers),
    }
}

/// Builds the CORS middleware that a settings file describes. It holds no
/// builder error exactly when actix-cors takes every value of the settings,
/// and it then holds the policy that the settings describe. (A policy with
/// any origin, credentials and the `*` answer together holds no builder
/// error, yet the middleware still refuses it when it starts.) Every origin
/// that parses as a URI, `*` aside, must be a valid header value: actix-cors
/// panics on any other.
pub fn cors_from_settings(settings: &CorsSettings) -> (c: Cors)
    requires
        origins_header_safe(settings.origins),
    ensures
        cors_editable(c) <==> settings_accepted(*settings),
        cors_editable(c) ==> cors_policy(c) == settings_policy(*settings),
{
    let c0 = cors_default();
    let c1 = apply_origins(c0, &settings.origins);
    let c2 = apply_methods(c1, &settings.methods);
    let c3 = apply_headers(c2, &settings.headers);
    let c4 = apply_expose(c3, &settings.expose_headers);
    let c5 = if settings.credentials {
        cors_supports_credentials(c4)
    } else {
        c4
    };
    let c6 = if settings.send_wildcard {
        cors_send_wildcard(c5)
    } else {
        c5
    };
    let c7 = match settings.max_age {
        Some(m) => cors_max_age(c6, m),
        None => c6,
    };
    cors_block_on_origin_mismatch(c7, settings.block_on_origin_mismatch)
}

/// The origin that the single-origin configurations allow.
pub open spec fn app_origin() -> Seq<char> {
    "https://www.myapp.test"@
}

/// The request headers of the single-origin configurations.
pub open spec fn auth_headers() -> Seq<Seq<char>> {
    seq!["authorization"@, "content-type"@]
}

/// The origins named by the fixed configurations are not `*`, and are valid
/// header values.
proof fn lemma_literal_origins_not_wildcard()
    ensures
        app_origin() != "*"@,
        "https://admin.example.com"@ != "*"@,
        header_value_text(app_origin()),
        header_value_text("https://admin.example.com"@),
{
    reveal_strlit("*");
    reveal_strlit("https://www.myapp.test");
    reveal_strlit("https://admin.example.com");
    assert(app_origin().len() != "*"@.len());
    assert("https://admin.example.com"@.len() != "*"@.len());
    assert(header_value_text(app_origin()));
    assert(header_value_text("https://admin.example.com"@));
}

/// Allows one frontend origin, `GET` and `POST`, the `Authorization` and
/// `Content-Type` headers, and caches preflight answers for an hour.
pub fn cors_conf_single() -> (c: Cors)
    ensures
        cors_editable(c) <==> uri_accepts(app_origin()) && all_methods_accepted(
            seq!["GET"@, "POST"@],
        ) && all_header_names(auth_headers()),
        cors_editable(c) ==> cors_policy(c) == with_headers(
            default_policy().with_origin(app_origin()).with_methods(seq!["GET"@, "POST"@]),
            header_names(auth_headers()),
        ).with_max_age(3600),
{
    let methods = names(&["GET", "POST"]);
    let headers = names(&["authorization", "content-type"]);
    assert(views(methods@) == seq!["GET"@, "POST"@]);
    assert(views(headers@) == auth_headers());
    proof {
        reveal_strlit("https://www.myapp.test");
        lemma_literal_origins_not_wildcard();
    }
    let c = cors_default();
    let c = cors_allowed_origin(c, "https://www.myapp.test");
    let c = cors_allowed_methods(c, &methods);
    let c = cors_allowed_headers(c, &headers);
    cors_max_age(c, 3600)
}

/// Allows two frontend origins, and `GET`, `POST` and `DELETE`.
pub fn cors_conf_serval() -> (c: Cors)
    ensures
        cors_editable(c) <==> uri_accepts(app_origin()) && uri_accepts(
            "https://admin.example.com"@,
        ) && all_methods_accepted(seq!["GET"@, "POST"@, "DELETE"@]),
        cors_editable(c) ==> cors_policy(c) == default_policy().with_origin(app_origin()).with_origin(
            "https://admin.example.com"@,
        ).with_methods(seq!["GET"@, "POST"@, "DELETE"@]),
{
    let methods = names(&["GET", "POST", "DELETE"]);
    assert(views(methods@) == seq!["GET"@, "POST"@, "DELETE"@]);
    proof {
        reveal_strlit("https://www.myapp.test");
        lemma_literal_origins_not_wildcard();
    }
    let c = cors_default();
    let c = cors_allowed_origin(c, "https://www.myapp.test");
    let c = cors_allowed_origin(c, "https://admin.example.com");
    cors_allowed_methods(c, &methods)
}

/// A public API: any origin, answered with `*`, any method and any header.
pub fn cors_conf_any() -> (c: Cors)
    ensures
        cors_editable(c),
        cors_policy(c) == default_policy().with_any_origin().with_wildcard().with_any_method().with_any_header(),
{
    let c = cors_default();
    let c = cors_allow_any_origin(c);
    let c = cors_send_wildcard(c);
    let c = cors_allow_any_method(c);
    cors_allow_any_header(c)
}

/// One origin with credentials, `GET` and `POST`, and the `Authorization`
/// and `Content-Type` headers.
pub fn cors_conf_cred() -> (c: Cors)
    ensures
        cors_editable(c) <==> uri_accepts(app_origin()) && all_methods_accepted(
            seq!["GET"@, "POST"@],
        ) && all_header_names(auth_headers()),
        cors_editable(c) ==> cors_policy(c) == with_headers(
            default_policy().with_origin(app_origin()).with_credentials().with_methods(
                seq!["GET"@, "POST"@],
            ),
            header_names(auth_headers()),
        ),
{
    let methods = names(&["GET", "POST"]);
    let headers = names(&["authorization", "content-type"]);
    assert(views(methods@) == seq!["GET"@, "POST"@]);
    assert(views(headers@) == auth_headers());
    proof {
        reveal_strlit("https://www.myapp.test");
        lemma_literal_origins_not_wildcard();
    }
    let c = cors_default();
    let c = cors_allowed_origin(c, "https://www.myapp.test");
    let c = cors_supports_credentials(c);
    let c = cors_allowed_methods(c, &methods);
    cors_allowed_headers(c, &headers)
}

/// One origin with `GET` and `POST`, for a single scope.
pub fn cors_conf_scope() -> (c: Cors)
    ensures
        cors_editable(c) <==> uri_accepts(app_origin()) && all_methods_accepted(
            seq!["GET"@, "POST"@],
        ),
        cors_editable(c) ==> cors_policy(c) == default_policy().with_origin(app_origin()).with_methods(
            seq!["GET"@, "POST"@],
        ),
{
    let methods = names(&["GET", "POST"]);
    assert(views(methods@) == seq!["GET"@, "POST"@]);
    proof {
        reveal_strlit("https://www.myapp.test");
        lemma_literal_origins_not_wildcard();
    }
    let c = cors_default();
    let c = cors_allowed_origin(c, "https://www.myapp.test");
    cors_allowed_methods(c, &methods)
}

/// Any origin with credentials and a `*` answer: a combination that
/// actix-cors refuses when the middleware starts.
pub fn cors_conf_fail() -> (c: Cors)
    ensures
        cors_editable(c),
        cors_policy(c) == default_policy().with_any_origin().with_credentials().with_wildcard(),
        cors_policy(c).any_origin && cors_policy(c).supports_credentials && cors_policy(
            c,
        ).send_wildcard,
{
    let c = cors_default();
    let c = cors_allow_any_origin(c);
    let c = cors_supports_credentials(c);
    cors_send_wildcard(c)
}

/// Allows the subdomains of `myapp.test`, decided per request.
pub fn cors_conf_dynamic() -> (c: Cors)
    ensures
        cors_editable(c),
        cors_policy(c) == default_policy().with_origin_rule(OriginRule::MyappSubdomains),
        forall|o: Seq<u8>|
            #[trigger] cors_policy(c).origin_rules[0].accepts(o) <==> myapp_suffix().is_suffix_of(o),
{
    let c = cors_default();
    cors_allowed_origin_fn_myapp(c)
}

/// The message board's CORS: its own origin, `GET` and `POST`, and
/// preflight answers cached for an hour.
pub fn cors_setting() -> (c: Cors)
    ensures
        cors_editable(c) <==> uri_accepts(app_origin()) && all_methods_accepted(
            seq!["GET"@, "POST"@],
        ),
        cors_editable(c) ==> cors_policy(c) == default_policy().with_origin(app_origin()).with_methods(
            seq!["GET"@, "POST"@],
        ).with_max_age(3600),
{
    let methods = names(&["GET", "POST"]);
    assert(views(methods@) == seq!["GET"@, "POST"@]);
    proof {
        reveal_strlit("https://www.myapp.test");
        lemma_literal_origins_not_wildcard();
    }
    let c = cors_default();
    let c = cors_allowed_origin(c, "https://www.myapp.test");
    let c = cors_allowed_methods(c, &methods);
    cors_max_age(c, 3600)
}

/// Allowing headers leaves the origin part of a policy alone.
pub proof fn lemma_headers_keep_origins(p: CorsPolicy, hs: Seq<Seq<char>>)
    ensures
        with_headers(p, hs).any_origin == p.any_origin,
        with_headers(p, hs).origins == p.origins,
        with_exposed_list(p, hs).any_origin == p.any_origin,
        with_exposed_list(p, hs).origins == p.origins,
    decreases hs.len(),
{
    if hs.len() > 0 {
        lemma_headers_keep_origins(p, hs.drop_last());
    }
}

/// Allowing the origins `os` one by one, starting from no "any origin",
/// allows exactly those origins besides the earlier ones.
pub proof fn lemma_with_origins_set(p: CorsPolicy, os: Seq<Seq<char>>)
    requires
        !p.any_origin,
    ensures
        !with_origins(p, os).any_origin,
        with_origins(p, os).origins == p.origins + os.to_set(),
    decreases os.len(),
{
    if os.len() > 0 {
        lemma_with_origins_set(p, os.drop_last());
        assert(os == os.drop_last().push(os.last()));
        assert(os.to_set() == os.drop_last().to_set().insert(os.last())) by {
            broadcast use vstd::seq_lib::group_seq_properties;

        }
        assert(p.origins + os.to_set() == (p.origins + os.drop_last().to_set()).insert(os.last()));
    } else {
        assert(os.to_set() == Set::<Seq<char>>::empty()) by {
            broadcast use vstd::seq_lib::group_seq_properties;

        }
        assert(p.origins + Set::<Seq<char>>::empty() == p.origins);
    }
}

/// The origin part of the policy that settings describe is fixed by the
/// origins setting alone.
pub proof fn lemma_origin_part(s: CorsSettings)
    ensures
        settings_policy(s).any_origin == origins_policy(default_policy(), s.origins).any_origin,
        settings_policy(s).origins == origins_policy(default_policy(), s.origins).origins,
{
    let p1 = origins_policy(default_policy(), s.origins);
    let p2 = methods_policy(p1, s.methods);
    lemma_headers_keep_origins(p2, header_names(seq![]));
    match s.headers {
        Some(OneOrMany::Many(v)) => lemma_headers_keep_origins(p2, header_names(views(v@))),
        _ => {},
    }
    let p3 = headers_policy(p2, s.headers);
    match s.expose_headers {
        Some(OneOrMany::Many(v)) => lemma_headers_keep_origins(p3, header_names(views(v@))),
        Some(OneOrMany::One(h)) => lemma_headers_keep_origins(p3, header_names(seq![h@])),
        None => {},
    }
}

/// Law: an origins setting of `*` allows any origin and never the origin
/// `*` itself: the allowed-origin list stays empty.
pub proof fn lemma_wildcard_origin(s: CorsSettings)
    requires
        s.origins matches Some(OneOrMany::One(o)) && o@ == "*"@,
    ensures
        settings_policy(s).any_origin,
        settings_policy(s).origins == Set::<Seq<char>>::empty(),
        origins_accepted(s.origins),
{
    lemma_origin_part(s);
}

/// Law: a list of origins allows exactly the listed origins, and not any
/// origin; an empty list allows none, as the default does.
pub proof fn lemma_listed_origins(s: CorsSettings, v: Vec<String>)
    requires
        s.origins == Some(OneOrMany::Many(v)),
    ensures
        !settings_policy(s).any_origin,
        settings_policy(s).origins == views(v@).to_set(),
{
    lemma_origin_part(s);
    lemma_with_origins_set(default_policy(), views(v@));
    assert(Set::<Seq<char>>::empty() + views(v@).to_set() == views(v@).to_set());
}

/// Allowing headers leaves the allowed methods alone, whatever they are.
pub proof fn lemma_headers_keep_methods(p: CorsPolicy, m: Set<Seq<char>>, hs: Seq<Seq<char>>)
    ensures
        with_headers(p.set_methods(m), hs) == with_headers(p, hs).set_methods(m),
        with_exposed_list(p.set_methods(m), hs) == with_exposed_list(p, hs).set_methods(m),
    decreases hs.len(),
{
    if hs.len() > 0 {
        lemma_headers_keep_methods(p, m, hs.drop_last());
    }
}

/// Exposing headers leaves the allowed request headers alone.
pub proof fn lemma_exposed_keep_headers(
    p: CorsPolicy,
    any: bool,
    h: Set<Seq<char>>,
    hs: Seq<Seq<char>>,
)
    ensures
        with_exposed_list(p.set_headers(any, h), hs) == with_exposed_list(p, hs).set_headers(any, h),
    decreases hs.len(),
{
    if hs.len() > 0 {
        lemma_exposed_keep_headers(p, any, h, hs.drop_last());
    }
}

/// The settings `s` and `t` agree on every field but the methods.
pub open spec fn same_but_methods(s: CorsSettings, t: CorsSettings) -> bool {
    &&& s.origins == t.origins
    &&& s.headers == t.headers
    &&& s.expose_headers == t.expose_headers
    &&& s.credentials == t.credentials
    &&& s.send_wildcard == t.send_wildcard
    &&& s.max_age == t.max_age
    &&& s.block_on_origin_mismatch == t.block_on_origin_mismatch
}

/// The settings `s` and `t` agree on every field but the request headers.
pub open spec fn same_but_headers(s: CorsSettings, t: CorsSettings) -> bool {
    &&& s.origins == t.origins
    &&& s.methods == t.methods
    &&& s.expose_headers == t.expose_headers
    &&& s.credentials == t.credentials
    &&& s.send_wildcard == t.send_wildcard
    &&& s.max_age == t.max_age
    &&& s.block_on_origin_mismatch == t.block_on_origin_mismatch
}

/// Law: a methods setting of `*` allows the nine standard methods and
/// changes nothing else: the policy is that of the same settings without a
/// methods setting, with every method allowed.
pub proof fn lemma_wildcard_methods(s: CorsSettings, t: CorsSettings)
    requires
        s.methods matches Some(OneOrMany::One(m)) && m@ == "*"@,
        t.methods is None,
        same_but_methods(s, t),
    ensures
        settings_accepted(s) == settings_accepted(t),
        settings_policy(s) == settings_policy(t).set_methods(all_methods()),
{
    let m = all_methods();
    let p1 = origins_policy(default_policy(), s.origins);
    assert(methods_policy(p1, s.methods) == p1.set_methods(m));
    lemma_header_settings_keep_methods(p1, m, s.headers);
    let p3 = headers_policy(p1, s.headers);
    lemma_header_settings_keep_methods(p3, m, s.expose_headers);
    let p4 = expose_policy(p3, s.expose_headers);
    assert(expose_policy(headers_policy(p1.set_methods(m), s.headers), s.expose_headers)
        == p4.set_methods(m));
}

/// The header settings leave the allowed methods alone.
proof fn lemma_header_settings_keep_methods(p: CorsPolicy, m: Set<Seq<char>>, o: Option<OneOrMany>)
    ensures
        headers_policy(p.set_methods(m), o) == headers_policy(p, o).set_methods(m),
        expose_policy(p.set_methods(m), o) == expose_policy(p, o).set_methods(m),
{
    match o {
        Some(OneOrMany::Many(v)) => lemma_headers_keep_methods(p, m, header_names(views(v@))),
        Some(OneOrMany::One(h)) => lemma_headers_keep_methods(p, m, header_names(seq![h@])),
        None => {},
    }
}

/// Law: a request headers setting of `*` allows any request header and
/// changes nothing else: the policy is that of the same settings without a
/// headers setting, with any header allowed.
pub proof fn lemma_wildcard_headers(s: CorsSettings, t: CorsSettings)
    requires
        s.headers matches Some(OneOrMany::One(h)) && h@ == "*"@,
        t.headers is None,
        same_but_headers(s, t),
    ensures
        settings_accepted(s) == settings_accepted(t),
        settings_policy(s) == settings_policy(t).set_headers(true, Set::empty()),
{
    let p2 = methods_policy(origins_policy(default_policy(), s.origins), s.methods);
    match s.expose_headers {
        Some(OneOrMany::Many(v)) => lemma_exposed_keep_headers(
            p2,
            true,
            Set::empty(),
            header_names(views(v@)),
        ),
        Some(OneOrMany::One(e)) => lemma_exposed_keep_headers(
            p2,
            true,
            Set::empty(),
            header_names(seq![e@]),
        ),
        None => {},
    }
}

/// Law: settings that give no origins, methods or headers, no credentials,
/// no wildcard and no max age describe the default policy with only the
/// mismatch flag set as they say.
pub proof fn lemma_empty_settings(s: CorsSettings)
    requires
        s.origins is None,
        s.methods is None,
        s.headers is None,
        s.expose_headers is None,
        !s.credentials,
        !s.send_wildcard,
        s.max_age is None,
    ensures
        settings_accepted(s),
        settings_policy(s) == default_policy().with_block(s.block_on_origin_mismatch),
{
}


/// Allowing request headers changes only the request header part.
pub proof fn lemma_headers_only_headers(p: CorsPolicy, hs: Seq<Seq<char>>)
    ensures
        with_headers(p, hs) == p.set_headers(
            with_headers(p, hs).any_header,
            with_headers(p, hs).headers,
        ),
    decreases hs.len(),
{
    if hs.len() > 0 {
        lemma_headers_only_headers(p, hs.drop_last());
    }
}

/// Exposing headers changes only the exposed header part.
pub proof fn lemma_exposed_only_exposed(p: CorsPolicy, hs: Seq<Seq<char>>)
    ensures
        with_exposed_list(p, hs) == p.set_exposed(
            with_exposed_list(p, hs).expose_any_header,
            with_exposed_list(p, hs).exposed_headers,
        ),
    decreases hs.len(),
{
    if hs.len() > 0 {
        lemma_exposed_only_exposed(p, hs.drop_last());
    }
}

/// Allowing the request headers `hs` one by one, starting from no "any
/// header", allows exactly those headers besides the earlier ones.
pub proof fn lemma_with_headers_set(p: CorsPolicy, hs: Seq<Seq<char>>)
    requires
        !p.any_header,
    ensures
        !with_headers(p, hs).any_header,
        with_headers(p, hs).headers == p.headers + hs.to_set(),
    decreases hs.len(),
{
    broadcast use vstd::seq_lib::group_seq_properties;
    if hs.len() > 0 {
        lemma_with_headers_set(p, hs.drop_last());
        assert(hs == hs.drop_last().push(hs.last()));
        assert(hs.to_set() == hs.drop_last().to_set().insert(hs.last()));
        assert(p.headers + hs.to_set() == (p.headers + hs.drop_last().to_set()).insert(hs.last()));
    } else {
        assert(hs.to_set() == Set::<Seq<char>>::empty());
        assert(p.headers + Set::<Seq<char>>::empty() == p.headers);
    }
}

/// Exposing the headers `hs` one by one, starting from no "any header",
/// exposes exactly those headers besides the earlier ones.
pub proof fn lemma_with_exposed_set(p: CorsPolicy, hs: Seq<Seq<char>>)
    requires
        !p.expose_any_header,
    ensures
        !with_exposed_list(p, hs).expose_any_header,
        with_exposed_list(p, hs).exposed_headers == p.exposed_headers + hs.to_set(),
    decreases hs.len(),
{
    broadcast use vstd::seq_lib::group_seq_properties;
    if hs.len() > 0 {
        lemma_with_exposed_set(p, hs.drop_last());
        assert(hs == hs.drop_last().push(hs.last()));
        assert(hs.to_set() == hs.drop_last().to_set().insert(hs.last()));
        assert(p.exposed_headers + hs.to_set() == (p.exposed_headers
            + hs.drop_last().to_set()).insert(hs.last()));
    } else {
        assert(hs.to_set() == Set::<Seq<char>>::empty());
        assert(p.exposed_headers + Set::<Seq<char>>::empty() == p.exposed_headers);
    }
}

/// The names made of valid header texts are those texts in small letters.
pub proof fn lemma_header_names_lower(hs: Seq<Seq<char>>)
    requires
        all_header_names(hs),
    ensures
        header_names(hs) == hs.map_values(|h: Seq<char>| lower_text(h)),
{
    assert forall|i: int| 0 <= i < hs.len() implies header_names(hs)[i] == lower_text(hs[i]) by {
        assert(header_name_of(hs[i]) is Some);
    }
    assert(header_names(hs) =~= hs.map_values(|h: Seq<char>| lower_text(h)));
}

/// The origins and methods settings leave the header parts as the default
/// has them: no header allowed or exposed.
proof fn lemma_early_settings_no_headers(s: CorsSettings)
    ensures
        !methods_policy(origins_policy(default_policy(), s.origins), s.methods).any_header,
        methods_policy(origins_policy(default_policy(), s.origins), s.methods).headers
            == Set::<Seq<char>>::empty(),
        !methods_policy(origins_policy(default_policy(), s.origins), s.methods).expose_any_header,
        methods_policy(origins_policy(default_policy(), s.origins), s.methods).exposed_headers
            == Set::<Seq<char>>::empty(),
{
    match s.origins {
        Some(OneOrMany::Many(v)) => lemma_with_origins_keep_headers(default_policy(), views(v@)),
        _ => {},
    }
}

/// Allowing origins leaves the header parts alone.
pub proof fn lemma_with_origins_keep_headers(p: CorsPolicy, os: Seq<Seq<char>>)
    ensures
        with_origins(p, os).any_header == p.any_header,
        with_origins(p, os).headers == p.headers,
        with_origins(p, os).expose_any_header == p.expose_any_header,
        with_origins(p, os).exposed_headers == p.exposed_headers,
    decreases os.len(),
{
    if os.len() > 0 {
        lemma_with_origins_keep_headers(p, os.drop_last());
    }
}

/// The settings `s` and `t` agree on every field but the exposed headers.
pub open spec fn same_but_exposed(s: CorsSettings, t: CorsSettings) -> bool {
    &&& s.origins == t.origins
    &&& s.methods == t.methods
    &&& s.headers == t.headers
    &&& s.credentials == t.credentials
    &&& s.send_wildcard == t.send_wildcard
    &&& s.max_age == t.max_age
    &&& s.block_on_origin_mismatch == t.block_on_origin_mismatch
}

/// The flag settings applied to `p`: credentials, the `*` answer, the max
/// age and the mismatch flag.
pub open spec fn flags_policy(p: CorsPolicy, s: CorsSettings) -> CorsPolicy {
    let p5 = if s.credentials {
        p.with_credentials()
    } else {
        p
    };
    let p6 = if s.send_wildcard {
        p5.with_wildcard()
    } else {
        p5
    };
    let p7 = match s.max_age {
        Some(m) => p6.with_max_age(m as nat),
        None => p6,
    };
    p7.with_block(s.block_on_origin_mismatch)
}

/// The policy that settings describe, taken apart: the origins and methods
/// settings, then the two header settings, then the flags.
proof fn lemma_settings_parts(s: CorsSettings)
    ensures
        settings_policy(s) == flags_policy(
            expose_policy(
                headers_policy(
                    methods_policy(origins_policy(default_policy(), s.origins), s.methods),
                    s.headers,
                ),
                s.expose_headers,
            ),
            s,
        ),
{
}

/// The flags leave the header parts alone.
proof fn lemma_flags_keep_headers(p: CorsPolicy, s: CorsSettings, a: bool, h: Set<Seq<char>>)
    ensures
        flags_policy(p.set_headers(a, h), s) == flags_policy(p, s).set_headers(a, h),
        flags_policy(p.set_exposed(a, h), s) == flags_policy(p, s).set_exposed(a, h),
        flags_policy(p, s).any_header == p.any_header,
        flags_policy(p, s).headers == p.headers,
        flags_policy(p, s).expose_any_header == p.expose_any_header,
        flags_policy(p, s).exposed_headers == p.exposed_headers,
{
}

/// The exposed headers setting leaves the request header part alone.
proof fn lemma_expose_setting_keeps_headers(
    p: CorsPolicy,
    o: Option<OneOrMany>,
    a: bool,
    h: Set<Seq<char>>,
)
    ensures
        expose_policy(p.set_headers(a, h), o) == expose_policy(p, o).set_headers(a, h),
        expose_policy(p, o) == p.set_exposed(
            expose_policy(p, o).expose_any_header,
            expose_policy(p, o).exposed_headers,
        ),
{
    match o {
        Some(OneOrMany::Many(v)) => {
            lemma_exposed_keep_headers(p, a, h, header_names(views(v@)));
            lemma_exposed_only_exposed(p, header_names(views(v@)));
        },
        Some(OneOrMany::One(e)) => {
            lemma_exposed_keep_headers(p, a, h, header_names(seq![e@]));
            lemma_exposed_only_exposed(p, header_names(seq![e@]));
        },
        None => {},
    }
}

/// The request headers setting changes only the request header part.
proof fn lemma_headers_setting_only_headers(p: CorsPolicy, o: Option<OneOrMany>)
    ensures
        headers_policy(p, o) == p.set_headers(
            headers_policy(p, o).any_header,
            headers_policy(p, o).headers,
        ),
{
    match o {
        Some(OneOrMany::Many(v)) => lemma_headers_only_headers(p, header_names(views(v@))),
        _ => {},
    }
}

/// Law: a request headers setting changes only the allowed request headers:
/// the policy is that of the same settings without it, but for the request
/// header part. One valid header name allows that header alone, in small
/// letters; a list of valid names allows exactly those names, in small
/// letters; neither allows any header.
pub proof fn lemma_headers_setting(s: CorsSettings, t: CorsSettings)
    requires
        t.headers is None,
        same_but_headers(s, t),
    ensures
        settings_policy(s) == settings_policy(t).set_headers(
            settings_policy(s).any_header,
            settings_policy(s).headers,
        ),
        (match s.headers {
            Some(OneOrMany::One(h)) => h@ != "*"@ && header_name_of(h@) is Some ==> (
            !settings_policy(s).any_header && settings_policy(s).headers == set![lower_text(h@)]),
            Some(OneOrMany::Many(v)) => all_header_names(views(v@)) ==> (
            !settings_policy(s).any_header && settings_policy(s).headers == views(v@).map_values(
                |h: Seq<char>| lower_text(h),
            ).to_set()),
            None => true,
        }),
{
    let p2 = methods_policy(origins_policy(default_policy(), s.origins), s.methods);
    lemma_early_settings_no_headers(s);
    lemma_settings_parts(s);
    lemma_settings_parts(t);
    let p3 = headers_policy(p2, s.headers);
    lemma_headers_setting_only_headers(p2, s.headers);
    lemma_expose_setting_keeps_headers(p2, s.expose_headers, p3.any_header, p3.headers);
    let p4 = expose_policy(p2, s.expose_headers);
    lemma_flags_keep_headers(p4, s, p3.any_header, p3.headers);
    lemma_flags_keep_headers(expose_policy(p3, s.expose_headers), s, p3.any_header, p3.headers);
    lemma_expose_setting_keeps_headers(p3, s.expose_headers, p3.any_header, p3.headers);
    assert(settings_policy(t) == flags_policy(p4, s));
    assert(settings_policy(s) == flags_policy(p4, s).set_headers(p3.any_header, p3.headers));
    match s.headers {
        Some(OneOrMany::Many(v)) => {
            lemma_with_headers_set(p2, header_names(views(v@)));
            if all_header_names(views(v@)) {
                lemma_header_names_lower(views(v@));
            }
            assert(Set::<Seq<char>>::empty() + header_names(views(v@)).to_set() == header_names(
                views(v@),
            ).to_set());
        },
        Some(OneOrMany::One(h)) => {
            if h@ != "*"@ {
                assert(p2.headers.insert(header_name_of(h@)->0) == set![header_name_of(h@)->0]);
            }
        },
        None => {},
    }
}

/// Law: an exposed headers setting changes only the exposed headers: the
/// policy is that of the same settings without it, but for the exposed
/// header part. One valid header name exposes that header alone, in small
/// letters; a list of valid names exposes exactly those names, in small
/// letters; neither exposes any header.
pub proof fn lemma_exposed_setting(s: CorsSettings, t: CorsSettings)
    requires
        t.expose_headers is None,
        same_but_exposed(s, t),
    ensures
        settings_policy(s) == settings_policy(t).set_exposed(
            settings_policy(s).expose_any_header,
            settings_policy(s).exposed_headers,
        ),
        (match s.expose_headers {
            Some(OneOrMany::One(h)) => h@ != "*"@ && header_name_of(h@) is Some ==> (
            !settings_policy(s).expose_any_header && settings_policy(s).exposed_headers
                == set![lower_text(h@)]),
            Some(OneOrMany::Many(v)) => all_header_names(views(v@)) ==> (
            !settings_policy(s).expose_any_header && settings_policy(s).exposed_headers
                == views(v@).map_values(|h: Seq<char>| lower_text(h)).to_set()),
            None => true,
        }),
{
    let p2 = methods_policy(origins_policy(default_policy(), s.origins), s.methods);
    lemma_early_settings_no_headers(s);
    lemma_settings_parts(s);
    lemma_settings_parts(t);
    let p3 = headers_policy(p2, s.headers);
    lemma_headers_setting_only_headers(p2, s.headers);
    assert(!p3.expose_any_header && p3.exposed_headers == Set::<Seq<char>>::empty());
    let p4 = expose_policy(p3, s.expose_headers);
    lemma_expose_setting_keeps_headers(p3, s.expose_headers, true, Set::empty());
    lemma_flags_keep_headers(p3, s, p4.expose_any_header, p4.exposed_headers);
    lemma_flags_keep_headers(p4, s, p4.expose_any_header, p4.exposed_headers);
    assert(settings_policy(t) == flags_policy(p3, s));
    assert(settings_policy(s) == flags_policy(p3, s).set_exposed(
        p4.expose_any_header,
        p4.exposed_headers,
    ));
    match s.expose_headers {
        Some(OneOrMany::Many(v)) => {
            lemma_with_exposed_set(p3, header_names(views(v@)));
            if all_header_names(views(v@)) {
                lemma_header_names_lower(views(v@));
            }
            assert(Set::<Seq<char>>::empty() + header_names(views(v@)).to_set() == header_names(
                views(v@),
            ).to_set());
        },
        Some(OneOrMany::One(e)) => {
            let hs = header_names(seq![e@]);
            if e@ != "*"@ {
                lemma_with_exposed_set(p3, hs);
                if header_name_of(e@) is Some {
                    assert(hs == seq![lower_text(e@)]);
                    assert(hs.to_set() == set![lower_text(e@)]) by {
                        broadcast use vstd::seq_lib::group_seq_properties;
                    }
                    assert(Set::<Seq<char>>::empty() + set![lower_text(e@)] == set![lower_text(e@)]);
                }
            }
        },
        None => {},
    }
}

/// Law: a methods setting changes only the allowed methods: the policy is
/// that of the same settings without it, but for the methods. One valid
/// method other than `*` allows that method alone; a list of valid methods
/// allows exactly those methods.
pub proof fn lemma_methods_setting(s: CorsSettings, t: CorsSettings)
    requires
        t.methods is None,
        same_but_methods(s, t),
    ensures
        settings_policy(s) == settings_policy(t).set_methods(settings_policy(s).methods),
        (match s.methods {
            Some(OneOrMany::One(m)) => m@ != "*"@ ==> settings_policy(s).methods == set![m@],
            Some(OneOrMany::Many(v)) => settings_policy(s).methods == views(v@).to_set(),
            None => true,
        }),
{
    let p1 = origins_policy(default_policy(), s.origins);
    match s.origins {
        Some(OneOrMany::Many(v)) => lemma_with_origins_keep_methods(default_policy(), views(v@)),
        _ => {},
    }
    assert(p1.methods == Set::<Seq<char>>::empty());
    let p2 = methods_policy(p1, s.methods);
    let m = p2.methods;
    assert(p2 == p1.set_methods(m));
    lemma_settings_parts(s);
    lemma_settings_parts(t);
    lemma_header_settings_keep_methods(p1, m, s.headers);
    let p3 = headers_policy(p1, s.headers);
    lemma_header_settings_keep_methods(p3, m, s.expose_headers);
    let p4 = expose_policy(p3, s.expose_headers);
    assert(expose_policy(headers_policy(p2, s.headers), s.expose_headers) == p4.set_methods(m));
    lemma_flags_keep_methods(p4, s, m);
    assert(settings_policy(t) == flags_policy(p4, s));
    assert(settings_policy(s) == flags_policy(p4, s).set_methods(m));
    match s.methods {
        Some(OneOrMany::One(x)) => {
            assert(seq![x@].to_set() == set![x@]) by {
                broadcast use vstd::seq_lib::group_seq_properties;
            }
            assert(Set::<Seq<char>>::empty() + set![x@] == set![x@]);
        },
        Some(OneOrMany::Many(v)) => {
            assert(Set::<Seq<char>>::empty() + views(v@).to_set() == views(v@).to_set());
        },
        None => {},
    }
}

/// The flags leave the methods alone.
proof fn lemma_flags_keep_methods(p: CorsPolicy, s: CorsSettings, m: Set<Seq<char>>)
    ensures
        flags_policy(p.set_methods(m), s) == flags_policy(p, s).set_methods(m),
        flags_policy(p, s).methods == p.methods,
{
}

/// Allowing origins leaves the methods alone.
pub proof fn lemma_with_origins_keep_methods(p: CorsPolicy, os: Seq<Seq<char>>)
    ensures
        with_origins(p, os).methods == p.methods,
    decreases os.len(),
{
    if os.len() > 0 {
        lemma_with_origins_keep_methods(p, os.drop_last());
    }
}

/// Law: one origin other than `*` allows that origin alone, and not any
/// origin.
pub proof fn lemma_single_origin(s: CorsSettings)
    requires
        s.origins matches Some(OneOrMany::One(o)) && o@ != "*"@,
    ensures
        !settings_policy(s).any_origin,
        settings_policy(s).origins == set![s.origins->0->One_0@],
{
    lemma_origin_part(s);
    assert(Set::<Seq<char>>::empty().insert(s.origins->0->One_0@) == set![s.origins->0->One_0@]);
}

} // verus!
