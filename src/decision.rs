use vstd::prelude::*;
use vstd::string::*;
use crate::configuration::{Config, ConfigView};
use crate::text::{lower_of, to_lower, is_valid_email, email_syntax_ok, domain_of, domain_part, has_at};

verus! {

/// The outcome of deciding on an address.
#[derive(Debug, Clone, Copy, PartialEq, Eq, Structural)]
pub enum Verdict {
    /// The address is not a well-formed e-mail address.
    Malformed,
    /// The address is on the allow-list exactly as given.
    ExplicitlyAllowed,
    /// The address's domain, lowercased, is an allowed domain.
    DomainAllowed,
    /// Neither the address nor its domain is allowed.
    NotAllowed,
}

/// The verdict on address `e` under document `doc`: the first rule that matches
/// wins. Allowed addresses are compared with the address as given; the domain
/// (after the last `@`) is lowercased first and never matches when empty.
pub open spec fn verdict_of(doc: ConfigView, e: Seq<char>) -> Verdict {
    if !email_syntax_ok(e) {
        Verdict::Malformed
    } else if doc.mails.contains(e) {
        Verdict::ExplicitlyAllowed
    } else if lower_of(domain_of(e)).len() > 0 && doc.domains.contains(lower_of(domain_of(e))) {
        Verdict::DomainAllowed
    } else {
        Verdict::NotAllowed
    }
}

/// Whether `s` is one of the entries of `list`, compared character for character.
pub fn list_contains(list: &Vec<String>, s: &String) -> (r: bool)
    ensures
        r == list.deep_view().contains(s@),
{
    let mut i: usize = 0;
    while i < list.len()
        invariant
            0 <= i <= list@.len(),
            forall|j: int| 0 <= j < i ==> list.deep_view()[j] != s@,
        decreases list@.len() - i,
    {
        if list[i] == *s {
            assert(list.deep_view()[i as int] == s@);
            return true;
        }
        i = i + 1;
    }
    false
}

/// Decides whether `email` is allowed by `config`.
pub fn decide(config: &Config, email: &str) -> (r: Verdict)
    ensures
        r == verdict_of(config@, email@),
        !email_syntax_ok(email@) ==> r == Verdict::Malformed,
        email_syntax_ok(email@) && config@.mails.contains(email@) ==> r
            == Verdict::ExplicitlyAllowed,
{
    if !is_valid_email(email) {
        return Verdict::Malformed;
    }
    let given = String::from_str(email);
    if list_contains(&config.allowed_mails, &given) {
        return Verdict::ExplicitlyAllowed;
    }
    let domain = to_lower(domain_part(email));
    if domain.as_str().is_empty() {
        return Verdict::NotAllowed;
    }
    if list_contains(&config.allowed_domains, &domain) {
        Verdict::DomainAllowed
    } else {
        Verdict::NotAllowed
    }
}

/// An address that fails e-mail syntax validation, in particular one without
/// any `@`, is judged malformed whatever the document holds.
pub proof fn lemma_invalid_is_malformed(doc: ConfigView, e: Seq<char>)
    requires
        !has_at(e) || !email_syntax_ok(e),
    ensures
        verdict_of(doc, e) == Verdict::Malformed,
{
}

/// A well-formed address that is on the allow-list exactly as given is
/// explicitly allowed, whatever the allowed domains are.
pub proof fn lemma_listed_is_explicitly_allowed(doc: ConfigView, e: Seq<char>)
    requires
        email_syntax_ok(e),
        doc.mails.contains(e),
    ensures
        verdict_of(doc, e) == Verdict::ExplicitlyAllowed,
        forall|domains: Seq<Seq<char>>|
            verdict_of(ConfigView { domains, ..doc }, e) == Verdict::ExplicitlyAllowed,
{
}

/// A well-formed address that is not listed, whose lowercased domain is a
/// non-empty allowed domain, is allowed by its domain.
pub proof fn lemma_domain_match_is_domain_allowed(doc: ConfigView, e: Seq<char>)
    requires
        email_syntax_ok(e),
        !doc.mails.contains(e),
        lower_of(domain_of(e)).len() > 0,
        doc.domains.contains(lower_of(domain_of(e))),
    ensures
        verdict_of(doc, e) == Verdict::DomainAllowed,
{
}

/// A well-formed address that is neither listed nor in an allowed domain is not
/// allowed.
pub proof fn lemma_otherwise_not_allowed(doc: ConfigView, e: Seq<char>)
    requires
        email_syntax_ok(e),
        !doc.mails.contains(e),
        !doc.domains.contains(lower_of(domain_of(e))),
    ensures
        verdict_of(doc, e) == Verdict::NotAllowed,
{
}

impl Verdict {
    /// The HTTP status that answers this verdict.
    pub fn status(&self) -> (r: u16)
        ensures
            r == verdict_status(*self),
    {
        match self {
            Verdict::Malformed => 400,
            Verdict::ExplicitlyAllowed => 200,
            Verdict::DomainAllowed => 200,
            Verdict::NotAllowed => 403,
        }
    }

    /// The short text that answers this verdict.
    pub fn message(&self) -> (r: &'static str)
        ensures
            r@ == verdict_message(*self),
    {
        match self {
            Verdict::Malformed => "Invalid email format",
            Verdict::ExplicitlyAllowed => "email_allowed",
            Verdict::DomainAllowed => "domain_allowed",
            Verdict::NotAllowed => "not_allowed",
        }
    }
}

pub open spec fn verdict_status(v: Verdict) -> u16 {
    match v {
        Verdict::Malformed => 400,
        Verdict::ExplicitlyAllowed => 200,
        Verdict::DomainAllowed => 200,
        Verdict::NotAllowed => 403,
    }
}

pub open spec fn verdict_message(v: Verdict) -> Seq<char> {
    match v {
        Verdict::Malformed => "Invalid email format"@,
        Verdict::ExplicitlyAllowed => "email_allowed"@,
        Verdict::DomainAllowed => "domain_allowed"@,
        Verdict::NotAllowed => "not_allowed"@,
    }
}

/// The answer to an authorization request.
#[derive(Debug, Clone, Copy, PartialEq, Eq, Structural)]
pub enum Reply {
    /// The request carries no `authorization` header.
    NoToken,
    /// The `authorization` header is not `Bearer ` followed by the token.
    InvalidToken,
    /// The caller is authorized; the address was decided on.
    Decided(Verdict),
}

/// The `authorization` header value that the shared secret `token` admits.
pub open spec fn bearer(token: Seq<char>) -> Seq<char> {
    "Bearer "@ + token
}

/// The answer to a request with header `authorization` (if any) and address `e`.
pub open spec fn reply_of(doc: ConfigView, authorization: Option<Seq<char>>, e: Seq<char>) -> Reply {
    match authorization {
        None => Reply::NoToken,
        Some(h) => if h != bearer(doc.token) {
            Reply::InvalidToken
        } else {
            Reply::Decided(verdict_of(doc, e))
        },
    }
}

pub open spec fn header_view(h: Option<&str>) -> Option<Seq<char>> {
    match h {
        None => None,
        Some(s) => Some(s@),
    }
}

/// Whether the header value is exactly `Bearer ` followed by the token, byte
/// for byte.
pub fn token_matches(config: &Config, header: &str) -> (r: bool)
    ensures
        r == (header@ == bearer(config@.token)),
{
    let expected = String::from_str("Bearer ").concat(config.token.as_str());
    let given = String::from_str(header);
    given == expected
}

impl Reply {
    /// The HTTP status that carries this answer.
    pub fn status(&self) -> (r: u16)
        ensures
            r == match *self {
                Reply::NoToken | Reply::InvalidToken => 401u16,
                Reply::Decided(v) => verdict_status(v),
            },
    {
        match self {
            Reply::NoToken | Reply::InvalidToken => 401,
            Reply::Decided(v) => v.status(),
        }
    }

    /// The short text that carries this answer.
    pub fn message(&self) -> (r: &'static str)
        ensures
            r@ == match *self {
                Reply::NoToken => "no_token"@,
                Reply::InvalidToken => "invalid_token"@,
                Reply::Decided(v) => verdict_message(v),
            },
    {
        match self {
            Reply::NoToken => "no_token",
            Reply::InvalidToken => "invalid_token",
            Reply::Decided(v) => v.message(),
        }
    }
}

/// Answers a request: the caller must present the shared secret as a bearer
/// token before the address is decided on.
pub fn check_allowed_by_mail(config: &Config, authorization: Option<&str>, email: &str) -> (r: Reply)
    ensures
        r == reply_of(config@, header_view(authorization), email@),
        authorization is None ==> r == Reply::NoToken,
{
    match authorization {
        None => Reply::NoToken,
        Some(header) => {
            if !token_matches(config, header) {
                Reply::InvalidToken
            } else {
                Reply::Decided(decide(config, email))
            }
        },
    }
}

} // verus!
