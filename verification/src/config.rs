//! Process-wide settings, built once at startup and shared read-only.

use vstd::prelude::*;
use vstd::string::StrSliceExecFns;

verus! {

/// The port served when none is configured.
pub const DEFAULT_PORT: u16 = 3000;

/// Settings of the relay. The value is made once and only read afterwards.
#[derive(Debug)]
pub struct AppConfig {
    /// TCP port the service listens on.
    pub port: u16,
    /// Shared secret that a caller presents as bearer token.
    pub api_token: String,
    /// Domain of an alias when the caller asks for none.
    pub alias_domain: String,
    /// Name of the upstream account that receives the aliases.
    pub forward_to: String,
    /// Base URL of the upstream mail-identity service.
    pub stalwart_url: String,
    /// User of the upstream Basic credentials.
    pub stalwart_username: String,
    /// Password of the upstream Basic credentials.
    pub stalwart_password: String,
}

/// A setting that the relay reads at startup.
#[derive(Clone, Copy, Debug, PartialEq, Eq, Structural)]
pub enum Setting {
    Port,
    ApiToken,
    AliasDomain,
    ForwardTo,
    StalwartUrl,
    StalwartUsername,
    StalwartPassword,
}

impl Setting {
    /// The name of the environment variable that holds the setting.
    pub open spec fn variable(self) -> Seq<char> {
        match self {
            Setting::Port => "PORT"@,
            Setting::ApiToken => "API_TOKEN"@,
            Setting::AliasDomain => "ALIAS_DOMAIN"@,
            Setting::ForwardTo => "FORWARD_TO"@,
            Setting::StalwartUrl => "STALWART_URL"@,
            Setting::StalwartUsername => "STALWART_USERNAME"@,
            Setting::StalwartPassword => "STALWART_PASSWORD"@,
        }
    }

    /// The name of the environment variable that holds the setting.
    pub fn name(self) -> (name: &'static str)
        ensures
            name@ == self.variable(),
    {
        match self {
            Setting::Port => "PORT",
            Setting::ApiToken => "API_TOKEN",
            Setting::AliasDomain => "ALIAS_DOMAIN",
            Setting::ForwardTo => "FORWARD_TO",
            Setting::StalwartUrl => "STALWART_URL",
            Setting::StalwartUsername => "STALWART_USERNAME",
            Setting::StalwartPassword => "STALWART_PASSWORD",
        }
    }
}

/// The settings as they were found, each present or not.
#[derive(Debug)]
pub struct RawSettings {
    pub port: Option<String>,
    pub api_token: Option<String>,
    pub alias_domain: Option<String>,
    pub forward_to: Option<String>,
    pub stalwart_url: Option<String>,
    pub stalwart_username: Option<String>,
    pub stalwart_password: Option<String>,
}

impl RawSettings {
    /// The first required setting that is absent, in the order in which they
    /// are read. The port is not required.
    pub open spec fn first_missing(&self) -> Option<Setting> {
        if self.api_token is None {
            Some(Setting::ApiToken)
        } else if self.alias_domain is None {
            Some(Setting::AliasDomain)
        } else if self.forward_to is None {
            Some(Setting::ForwardTo)
        } else if self.stalwart_url is None {
            Some(Setting::StalwartUrl)
        } else if self.stalwart_username is None {
            Some(Setting::StalwartUsername)
        } else if self.stalwart_password is None {
            Some(Setting::StalwartPassword)
        } else {
            None
        }
    }
}

/// The byte of the plus sign.
const ASCII_PLUS: u8 = 43;

/// The byte of the digit zero.
const ASCII_ZERO: u8 = 48;

/// The byte of the digit nine.
const ASCII_NINE: u8 = 57;

/// A decimal digit.
pub open spec fn is_digit(c: char) -> bool {
    '0' <= c && c <= '9'
}

/// The number that a decimal digit stands for.
pub open spec fn digit_value(c: char) -> nat {
    (c as u32 - '0' as u32) as nat
}

/// The number that a sequence of decimal digits stands for.
pub open spec fn decimal_value(digits: Seq<char>) -> nat
    decreases digits.len(),
{
    if digits.len() == 0 {
        0
    } else {
        decimal_value(digits.drop_last()) * 10 + digit_value(digits.last())
    }
}

/// The text without one leading plus sign.
pub open spec fn unsigned_part(text: Seq<char>) -> Seq<char> {
    if text.len() > 0 && text[0] == '+' {
        text.drop_first()
    } else {
        text
    }
}

/// The port that a text denotes: an optional plus sign, then one or more
/// decimal digits and nothing else, whose number is at most 65535.
pub open spec fn parsed_port(text: Seq<char>) -> Option<u16> {
    let digits = unsigned_part(text);
    if digits.len() > 0 && (forall|i: int| 0 <= i < digits.len() ==> is_digit(#[trigger] digits[i]))
        && decimal_value(digits) <= u16::MAX {
        Some(decimal_value(digits) as u16)
    } else {
        None
    }
}

/// The port to serve: the configured one where it is present and denotes a
/// port, the default otherwise.
pub open spec fn port_of(raw: Option<Seq<char>>) -> u16 {
    match raw {
        Some(text) => match parsed_port(text) {
            Some(port) => port,
            None => DEFAULT_PORT,
        },
        None => DEFAULT_PORT,
    }
}

/// Digits that are added at the end never make the number smaller.
proof fn lemma_decimal_value_grows(digits: Seq<char>, k: int)
    requires
        0 <= k <= digits.len(),
    ensures
        decimal_value(digits.subrange(0, k)) <= decimal_value(digits),
    decreases digits.len() - k,
{
    if k == digits.len() {
        assert(digits.subrange(0, k) =~= digits);
    } else {
        lemma_decimal_value_grows(digits.drop_last(), k);
        assert(digits.drop_last().subrange(0, k) =~= digits.subrange(0, k));
    }
}

/// Reads a port number from text.
pub fn parse_port(text: &str) -> (port: Option<u16>)
    ensures
        port == parsed_port(text@),
{
    let ghost digits = unsigned_part(text@);
    if !text.is_ascii() {
        proof {
            let i = choose|i: int|
                0 <= i < text@.len() && !('\0' <= #[trigger] text@[i] <= '\u{7f}');
            if digits.len() == text@.len() {
                assert(!is_digit(digits[i]));
            } else {
                assert(!is_digit(digits[i - 1]));
            }
        }
        return None;
    }
    let n = text.unicode_len();
    let start: usize = if n > 0 && text.get_ascii(0) == ASCII_PLUS {
        1
    } else {
        0
    };
    assert(digits =~= text@.subrange(start as int, n as int)) by {
        if n > 0 {
            assert('\0' <= text@[0] <= '\u{7f}');
        }
    }
    if start == n {
        return None;
    }
    let mut value: u32 = 0;
    let mut i: usize = start;
    while i < n
        invariant
            text.is_ascii(),
            n == text@.len(),
            start <= i <= n,
            digits == unsigned_part(text@),
            digits =~= text@.subrange(start as int, n as int),
            forall|j: int| 0 <= j < i - start ==> is_digit(#[trigger] digits[j]),
            value == decimal_value(digits.subrange(0, i - start)),
            value <= u16::MAX,
        decreases n - i,
    {
        let b = text.get_ascii(i);
        let ghost c = text@[i as int];
        assert(c == digits[i - start] && c as u8 == b && '\0' <= c <= '\u{7f}');
        if b < ASCII_ZERO || b > ASCII_NINE {
            assert(!is_digit(digits[i - start]));
            return None;
        }
        proof {
            let longer = digits.subrange(0, i - start + 1);
            assert(longer.drop_last() =~= digits.subrange(0, i - start));
            assert(longer.last() == c);
            assert(digit_value(c) == b - ASCII_ZERO);
            assert(decimal_value(longer) == value * 10 + (b - ASCII_ZERO));
            lemma_decimal_value_grows(digits, i - start + 1);
        }
        value = value * 10 + (b - ASCII_ZERO) as u32;
        if value > u16::MAX as u32 {
            return None;
        }
        i += 1;
    }
    assert(digits.subrange(0, n - start) =~= digits);
    Some(value as u16)
}

impl AppConfig {
    /// Builds the settings from what was found. Every setting but the port
    /// is required: the first one that is absent is reported. A port that is
    /// absent or does not denote a port gives the default.
    pub fn from_raw(raw: RawSettings) -> (config: Result<AppConfig, Setting>)
        ensures
            match config {
                Ok(config) => {
                    &&& raw.first_missing() is None
                    &&& config.port == port_of(raw.port.deep_view())
                    &&& Some(config.api_token@) == raw.api_token.deep_view()
                    &&& Some(config.alias_domain@) == raw.alias_domain.deep_view()
                    &&& Some(config.forward_to@) == raw.forward_to.deep_view()
                    &&& Some(config.stalwart_url@) == raw.stalwart_url.deep_view()
                    &&& Some(config.stalwart_username@) == raw.stalwart_username.deep_view()
                    &&& Some(config.stalwart_password@) == raw.stalwart_password.deep_view()
                },
                Err(missing) => raw.first_missing() == Some(missing),
            },
    {
        let port = match &raw.port {
            Some(text) => match parse_port(text.as_str()) {
                Some(port) => port,
                None => DEFAULT_PORT,
            },
            None => DEFAULT_PORT,
        };
        let api_token = match raw.api_token {
            Some(value) => value,
            None => { return Err(Setting::ApiToken); },
        };
        let alias_domain = match raw.alias_domain {
            Some(value) => value,
            None => { return Err(Setting::AliasDomain); },
        };
        let forward_to = match raw.forward_to {
            Some(value) => value,
            None => { return Err(Setting::ForwardTo); },
        };
        let stalwart_url = match raw.stalwart_url {
            Some(value) => value,
            None => { return Err(Setting::StalwartUrl); },
        };
        let stalwart_username = match raw.stalwart_username {
            Some(value) => value,
            None => { return Err(Setting::StalwartUsername); },
        };
        let stalwart_password = match raw.stalwart_password {
            Some(value) => value,
            None => { return Err(Setting::StalwartPassword); },
        };
        Ok(
            AppConfig {
                port,
                api_token,
                alias_domain,
                forward_to,
                stalwart_url,
                stalwart_username,
                stalwart_password,
            },
        )
    }
}

} // verus!
