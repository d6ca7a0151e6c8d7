//! Alias generation: a random local part under a chosen domain.

use crate::config::AppConfig;
use crate::text::same_text;
use vstd::prelude::*;
use vstd::string::StrSliceExecFns;
use vstd::string::StringExecFns;

verus! {

/// What an [`Alias`] stands for: the two parts it was made from. The address
/// is not a part of its own; it is always the two joined by `@`.
pub struct AliasView {
    pub username: Seq<char>,
    pub domain: Seq<char>,
}

impl AliasView {
    /// The full address, `username@domain`.
    pub open spec fn address(self) -> Seq<char> {
        self.username + "@"@ + self.domain
    }
}

/// A forwarding address: a local part, a domain, and the two joined.
#[derive(Debug)]
pub struct Alias {
    username: String,
    domain: String,
    address: String,
}

impl View for Alias {
    type V = AliasView;

    closed spec fn view(&self) -> AliasView {
        AliasView { username: self.username@, domain: self.domain@ }
    }
}

impl Alias {
    #[verifier::type_invariant]
    spec fn address_is_composed(&self) -> bool {
        self.address@ == self.username@ + "@"@ + self.domain@
    }

    /// Joins a local part and a domain into an alias.
    pub fn new(username: String, domain: String) -> (alias: Alias)
        ensures
            alias@.username == username@,
            alias@.domain == domain@,
    {
        let mut address = username.clone();
        address.append("@");
        address.append(domain.as_str());
        Alias { username, domain, address }
    }

    /// The local part.
    pub fn username(&self) -> (username: &String)
        ensures
            username@ == self@.username,
    {
        &self.username
    }

    /// The domain.
    pub fn domain(&self) -> (domain: &String)
        ensures
            domain@ == self@.domain,
    {
        &self.domain
    }

    /// The full address, `username@domain`.
    pub fn address(&self) -> (address: &String)
        ensures
            address@ == self@.address(),
    {
        proof {
            use_type_invariant(self);
        }
        &self.address
    }

    /// Takes the alias apart: local part, domain and address, in this order.
    pub fn into_parts(self) -> (parts: (String, String, String))
        ensures
            parts.0@ == self@.username,
            parts.1@ == self@.domain,
            parts.2@ == self@.address(),
    {
        proof {
            use_type_invariant(&self);
        }
        (self.username, self.domain, self.address)
    }
}

/// What a caller may ask for when an alias is made.
#[derive(Debug)]
pub struct AliasRequest {
    /// The domain of the alias. Absent, or the word `random`, asks for the
    /// configured default.
    pub domain: Option<String>,
}

/// One of the sixteen lowercase hexadecimal digits.
pub open spec fn is_lower_hex(c: char) -> bool {
    ('0' <= c && c <= '9') || ('a' <= c && c <= 'f')
}

/// Where the hyphens stand in the textual form of an identifier.
pub open spec fn is_hyphen_position(i: int) -> bool {
    i == 8 || i == 13 || i == 18 || i == 23
}

/// The textual form of a random identifier: 36 characters in five groups
/// of lowercase hexadecimal digits, `8-4-4-4-12`, with the version digit
/// `4` and a variant digit of `8`, `9`, `a` or `b`.
pub open spec fn is_random_uuid_text(s: Seq<char>) -> bool {
    &&& s.len() == 36
    &&& forall|i: int|
        #![trigger s[i]]
        0 <= i < 36 ==> if is_hyphen_position(i) {
            s[i] == '-'
        } else {
            is_lower_hex(s[i])
        }
    &&& s[14] == '4'
    &&& (s[19] == '8' || s[19] == '9' || s[19] == 'a' || s[19] == 'b')
}

/// `segment` is what stands in `whole` before its first hyphen, or all of
/// `whole` where it has none.
pub open spec fn is_first_segment(whole: Seq<char>, segment: Seq<char>) -> bool {
    &&& segment.len() <= whole.len()
    &&& segment == whole.subrange(0, segment.len() as int)
    &&& forall|i: int| 0 <= i < segment.len() ==> #[trigger] segment[i] != '-'
    &&& segment.len() < whole.len() ==> whole[segment.len() as int] == '-'
}

/// A local part as this service makes them: eight lowercase hexadecimal digits.
pub open spec fn is_short_token(s: Seq<char>) -> bool {
    &&& s.len() == 8
    &&& forall|i: int| 0 <= i < 8 ==> is_lower_hex(#[trigger] s[i])
}

/// The domain an alias gets: the requested one, taken as it is, unless none
/// was requested or the request is the word `random`.
pub open spec fn selected_domain(
    requested: Option<Seq<char>>,
    default_domain: Seq<char>,
) -> Seq<char> {
    match requested {
        Some(domain) => if domain == "random"@ {
            default_domain
        } else {
            domain
        },
        None => default_domain,
    }
}

/// Without a requested domain, and with the word `random` in its place, the
/// alias gets the default domain.
pub proof fn lemma_absent_or_random_selects_default(
    requested: Option<Seq<char>>,
    default_domain: Seq<char>,
)
    requires
        requested is None || requested == Some("random"@),
    ensures
        selected_domain(requested, default_domain) == default_domain,
{
}

/// Any other requested domain is kept as it is, whatever it holds.
pub proof fn lemma_requested_domain_is_kept(domain: Seq<char>, default_domain: Seq<char>)
    requires
        domain != "random"@,
    ensures
        selected_domain(Some(domain), default_domain) == domain,
{
}

/// Draws a fresh random identifier and renders it as text.
///
/// Calls `uuid::Uuid::new_v4` and renders the value with its `Display`
/// impl. The contract claims that the text has the hyphenated lowercase
/// form of a version 4 identifier; which digits it holds is left open, as
/// they are random. The call panics if the operating system cannot supply
/// random bytes.
#[verifier::external_body]
fn random_uuid_text() -> (text: String)
    ensures
        is_random_uuid_text(text@),
{
    uuid::Uuid::new_v4().to_string()
}

/// Cuts the first hyphen-separated group out of an identifier's text.
pub fn short_token(uuid_text: &str) -> (token: String)
    ensures
        is_first_segment(uuid_text@, token@),
{
    let n = uuid_text.unicode_len();
    let mut end: usize = 0;
    while end < n && uuid_text.get_char(end) != '-'
        invariant
            end <= n,
            n == uuid_text@.len(),
            forall|i: int| 0 <= i < end ==> uuid_text@[i] != '-',
        decreases n - end,
    {
        end += 1;
    }
    String::from_str(uuid_text.substring_char(0, end))
}

/// Chooses the domain of a new alias.
pub fn select_domain(requested: Option<String>, config: &AppConfig) -> (domain: String)
    ensures
        domain@ == selected_domain(requested.deep_view(), config.alias_domain@),
{
    match requested {
        Some(domain) => {
            if same_text(domain.as_str(), "random") {
                config.alias_domain.clone()
            } else {
                domain
            }
        },
        None => config.alias_domain.clone(),
    }
}

/// Makes the alias that belongs to an identifier's text and a request: the
/// text's first group as local part, under the selected domain.
pub fn alias_from_uuid_text(
    uuid_text: &str,
    domain: Option<String>,
    config: &AppConfig,
) -> (alias: Alias)
    ensures
        is_first_segment(uuid_text@, alias@.username),
        alias@.domain == selected_domain(domain.deep_view(), config.alias_domain@),
{
    let username = short_token(uuid_text);
    let selected = select_domain(domain, config);
    Alias::new(username, selected)
}

/// The first group of a random identifier's text is a short token.
pub proof fn lemma_first_segment_of_uuid_text(text: Seq<char>, segment: Seq<char>)
    requires
        is_random_uuid_text(text),
        is_first_segment(text, segment),
    ensures
        is_short_token(segment),
        segment == text.subrange(0, 8),
{
    if segment.len() > 8 {
        assert(segment[8] == text[8]);
    }
    if segment.len() < 8 {
        assert(is_lower_hex(text[segment.len() as int]));
    }
    assert forall|i: int| 0 <= i < 8 implies is_lower_hex(#[trigger] segment[i]) by {
        assert(segment[i] == text[i]);
    }
}

/// Generates an alias: a fresh random local part of eight lowercase
/// hexadecimal digits, under the requested domain or the configured default.
pub fn generate_alias(domain: Option<String>, config: &AppConfig) -> (alias: Alias)
    ensures
        is_short_token(alias@.username),
        alias@.domain == selected_domain(domain.deep_view(), config.alias_domain@),
{
    let id = random_uuid_text();
    let alias = alias_from_uuid_text(id.as_str(), domain, config);
    proof {
        lemma_first_segment_of_uuid_text(id@, alias@.username);
    }
    alias
}

} // verus!
