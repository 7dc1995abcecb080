//! Allow-list authorization for email addresses: a reloadable configuration
//! document, the store that holds the active one, and the decision engine that
//! answers whether an address is permitted.

mod text;
mod configuration;
mod decision;
mod store;

pub use text::{
    domain_part, has_at, domain_of, last_at, last_at_before, email_syntax_ok, lower_of, email_pattern,
};
pub use configuration::{
    Config, ConfigView, RawConfig, ConfigError, EmailRequest, InvalidEmail, empty_string_vector,
    lowercase_all, lower_all, list_or_empty, loaded,
};
pub use decision::{
    Verdict, Reply, verdict_of, reply_of, bearer, header_view, verdict_status, verdict_message,
    list_contains, decide, token_matches, check_allowed_by_mail, lemma_invalid_is_malformed,
    lemma_listed_is_explicitly_allowed, lemma_domain_match_is_domain_allowed,
    lemma_otherwise_not_allowed,
};
pub use store::{ConfigStore, after_apply, lemma_apply_idempotent, lemma_apply_error_keeps_document};
