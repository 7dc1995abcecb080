use vstd::prelude::*;
use vstd::string::*;
use crate::text::{lower_of, to_lower, is_valid_email, email_syntax_ok};

verus! {

/// The active allow-list data and shared secret.
///
/// A document produced by [`Config::load`] holds lowercase list entries and a
/// non-empty token; it is never changed in place afterwards.
#[derive(Debug, Clone)]
pub struct Config {
    pub allowed_domains: Vec<String>,
    pub allowed_mails: Vec<String>,
    pub token: String,
}

/// The mathematical content of a [`Config`].
pub ghost struct ConfigView {
    pub domains: Seq<Seq<char>>,
    pub mails: Seq<Seq<char>>,
    pub token: Seq<char>,
}

impl View for Config {
    type V = ConfigView;

    open spec fn view(&self) -> ConfigView {
        ConfigView {
            domains: self.allowed_domains.deep_view(),
            mails: self.allowed_mails.deep_view(),
            token: self.token@,
        }
    }
}

/// Each entry lowercased, in the same order.
pub open spec fn lower_all(s: Seq<Seq<char>>) -> Seq<Seq<char>> {
    s.map_values(|x: Seq<char>| lower_of(x))
}

/// The fields of a configuration file as they were read, before any checks:
/// `None` where the key is absent.
#[derive(Debug, Clone)]
pub struct RawConfig {
    pub allowed_domains: Option<Vec<String>>,
    pub allowed_mails: Option<Vec<String>>,
    pub token: Option<String>,
}

/// Why a configuration could not be loaded.
#[derive(Debug, Clone, PartialEq, Eq)]
pub enum ConfigError {
    /// The file could not be read.
    Io(String),
    /// The file is not a well-formed document, or lacks `token`.
    Parse(String),
    /// The document is well formed but its content is not acceptable.
    Validation(String),
}

/// A list key that is absent stands for the empty list.
pub open spec fn list_or_empty(v: Option<Vec<String>>) -> Seq<Seq<char>> {
    match v {
        Some(l) => l.deep_view(),
        None => Seq::empty(),
    }
}

/// What loading makes of a raw document: `None` where it is rejected.
pub open spec fn loaded(raw: RawConfig) -> Option<ConfigView> {
    match raw.token {
        None => None,
        Some(t) => if t@.len() == 0 {
            None
        } else {
            Some(ConfigView {
                domains: lower_all(list_or_empty(raw.allowed_domains)),
                mails: lower_all(list_or_empty(raw.allowed_mails)),
                token: t@,
            })
        },
    }
}

/// The empty list that an absent list key stands for.
pub fn empty_string_vector() -> (r: Vec<String>)
    ensures
        r@.len() == 0,
{
    let empty_vec: Vec<String> = Vec::new();
    empty_vec
}

/// A new list with each entry lowercased.
pub fn lowercase_all(v: &Vec<String>) -> (r: Vec<String>)
    ensures
        r.deep_view() == lower_all(v.deep_view()),
{
    let mut r: Vec<String> = Vec::new();
    let mut i: usize = 0;
    while i < v.len()
        invariant
            0 <= i <= v@.len(),
            r.deep_view() == lower_all(v.deep_view()).take(i as int),
        decreases v@.len() - i,
    {
        let low = to_lower(v[i].as_str());
        let ghost before = r.deep_view();
        r.push(low);
        assert(r.deep_view() =~= before.push(lower_of(v.deep_view()[i as int])));
        i = i + 1;
        assert(r.deep_view() =~= lower_all(v.deep_view()).take(i as int));
    }
    assert(r.deep_view() =~= lower_all(v.deep_view()));
    r
}

impl Config {
    /// Lowercases every allowed domain and every allowed address; the token is
    /// left as it is.
    pub fn normalize(&mut self)
        ensures
            final(self)@ == (ConfigView {
                domains: lower_all(old(self)@.domains),
                mails: lower_all(old(self)@.mails),
                token: old(self)@.token,
            }),
    {
        self.allowed_domains = lowercase_all(&self.allowed_domains);
        self.allowed_mails = lowercase_all(&self.allowed_mails);
    }

    /// Checks and normalizes a document read from a configuration file.
    ///
    /// A missing `token` is a parse error and an empty one a validation error;
    /// absent lists are empty. On success every list entry is the lowercase form
    /// of the entry at the same place in the file, and the token is kept byte for
    /// byte.
    pub fn load(raw: RawConfig) -> (r: Result<Config, ConfigError>)
        ensures
            r is Ok <==> loaded(raw) is Some,
            r is Ok ==> r->Ok_0@ == loaded(raw)->Some_0,
            r is Ok ==> r->Ok_0@.domains.len() == list_or_empty(raw.allowed_domains).len()
                && forall|i: int|
                0 <= i < r->Ok_0@.domains.len() ==> r->Ok_0@.domains[i] == lower_of(
                    #[trigger] list_or_empty(raw.allowed_domains)[i],
                ),
            r is Ok ==> r->Ok_0@.mails.len() == list_or_empty(raw.allowed_mails).len()
                && forall|i: int|
                0 <= i < r->Ok_0@.mails.len() ==> r->Ok_0@.mails[i] == lower_of(
                    #[trigger] list_or_empty(raw.allowed_mails)[i],
                ),
            raw.token is None <==> (r is Err && r->Err_0 is Parse),
            (raw.token is Some && raw.token->Some_0@.len() == 0) <==> (r is Err
                && r->Err_0 is Validation),
    {
        let token = match raw.token {
            None => {
                return Err(ConfigError::Parse(String::from_str("missing field `token`")));
            },
            Some(t) => t,
        };
        if token.as_str().is_empty() {
            return Err(ConfigError::Validation(String::from_str("`token` must not be empty")));
        }
        let allowed_domains = match raw.allowed_domains {
            Some(l) => l,
            None => empty_string_vector(),
        };
        let allowed_mails = match raw.allowed_mails {
            Some(l) => l,
            None => empty_string_vector(),
        };
        let mut config = Config { allowed_domains, allowed_mails, token };
        proof {
            assert(config.allowed_domains.deep_view() =~= list_or_empty(raw.allowed_domains));
            assert(config.allowed_mails.deep_view() =~= list_or_empty(raw.allowed_mails));
        }
        config.normalize();
        Ok(config)
    }
}

/// The address carried by an authorization request.
#[derive(Debug, Clone)]
pub struct EmailRequest {
    pub email: String,
}

/// The address of a request is not a well-formed e-mail address.
#[derive(Debug, Clone, Copy, PartialEq, Eq)]
pub struct InvalidEmail;

impl EmailRequest {
    /// Accepts the request exactly when its address passes e-mail syntax
    /// validation (which needs at least one `@`).
    pub fn validate(&self) -> (r: Result<(), InvalidEmail>)
        ensures
            r is Ok <==> email_syntax_ok(self.email@),
    {
        if is_valid_email(self.email.as_str()) {
            Ok(())
        } else {
            Err(InvalidEmail)
        }
    }
}

} // verus!
