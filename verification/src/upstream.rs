//! The upstream mutation: what is sent to the mail-identity service to
//! register an alias, and what its answer means for the caller.

use crate::alias::Alias;
use crate::config::AppConfig;
use vstd::prelude::*;
use vstd::string::StringExecFns;

verus! {

/// One entry of a partial update: an action on a field of the principal.
#[derive(Debug)]
pub struct Mutation {
    pub action: String,
    pub field: String,
    pub value: String,
}

impl Mutation {
    /// This entry appends `address` to the principal's email list.
    pub open spec fn adds_email(&self, address: Seq<char>) -> bool {
        &&& self.action@ == "addItem"@
        &&& self.field@ == "emails"@
        &&& self.value@ == address
    }

    /// The entry that appends `address` to the principal's email list.
    pub fn add_email(address: &str) -> (mutation: Mutation)
        ensures
            mutation.adds_email(address@),
    {
        Mutation {
            action: String::from_str("addItem"),
            field: String::from_str("emails"),
            value: String::from_str(address),
        }
    }
}

/// A partial update of one principal, authenticated with Basic credentials.
/// It is sent with the method `PATCH`, the entries as a JSON array.
#[derive(Debug)]
pub struct PrincipalPatch {
    /// The resource that is updated.
    pub url: String,
    /// User of the Basic credentials.
    pub username: String,
    /// Password of the Basic credentials.
    pub password: String,
    /// The entries of the update, in order.
    pub mutations: Vec<Mutation>,
}

/// The resource of the account `account` below the service at `base`.
pub open spec fn principal_url(base: Seq<char>, account: Seq<char>) -> Seq<char> {
    base + "/principal/"@ + account
}

impl PrincipalPatch {
    /// This update registers `address` on the configured account with the
    /// configured credentials, and does nothing else.
    pub open spec fn registers(&self, address: Seq<char>, config: &AppConfig) -> bool {
        &&& self.url@ == principal_url(config.stalwart_url@, config.forward_to@)
        &&& self.username@ == config.stalwart_username@
        &&& self.password@ == config.stalwart_password@
        &&& self.mutations@.len() == 1
        &&& self.mutations@[0].adds_email(address)
    }
}

/// Builds the update that registers the alias on the configured account.
pub fn add_alias_request(alias: &Alias, config: &AppConfig) -> (patch: PrincipalPatch)
    ensures
        patch.registers(alias@.address(), config),
{
    let mut url = config.stalwart_url.clone();
    url.append("/principal/");
    url.append(config.forward_to.as_str());
    let mut mutations: Vec<Mutation> = Vec::new();
    mutations.push(Mutation::add_email(alias.address().as_str()));
    PrincipalPatch {
        url,
        username: config.stalwart_username.clone(),
        password: config.stalwart_password.clone(),
        mutations,
    }
}

/// How the attempt to reach the upstream service ended.
#[derive(Clone, Copy, Debug, PartialEq, Eq, Structural)]
pub enum UpstreamOutcome {
    /// No response was received: connection refused, name not resolved,
    /// timed out.
    Unreachable,
    /// A response arrived, with this status code.
    Responded { status: u16 },
}

/// What the upstream service did with a mutation that reached it.
#[derive(Clone, Copy, Debug, PartialEq, Eq, Structural)]
pub enum Registration {
    /// The service answered with a success status.
    Accepted,
    /// The service answered with another status. The caller of the relay is
    /// not told: the rejection is only worth a log line.
    Rejected { status: u16 },
}

/// The upstream service could not be reached at all.
#[derive(Clone, Copy, Debug, PartialEq, Eq, Structural)]
pub struct TransportFailure;

/// A status code in the success class, 200 to 299.
pub open spec fn success_status(status: u16) -> bool {
    200 <= status < 300
}

/// Tells whether a status code is in the success class.
pub fn is_success(status: u16) -> (success: bool)
    ensures
        success == success_status(status),
{
    200 <= status && status < 300
}

/// What an outcome means: only a transport failure is an error; a response
/// with a status outside the success class is a rejection, which is no error.
pub open spec fn registration_of(
    outcome: UpstreamOutcome,
) -> Result<Registration, TransportFailure> {
    match outcome {
        UpstreamOutcome::Unreachable => Err(TransportFailure),
        UpstreamOutcome::Responded { status } => if success_status(status) {
            Ok(Registration::Accepted)
        } else {
            Ok(Registration::Rejected { status })
        },
    }
}

/// Judges how the upstream call ended. A transport failure is the only hard
/// error. A rejected mutation still counts as done.
pub fn add_alias_result(
    outcome: UpstreamOutcome,
) -> (result: Result<Registration, TransportFailure>)
    ensures
        result == registration_of(outcome),
{
    match outcome {
        UpstreamOutcome::Unreachable => Err(TransportFailure),
        UpstreamOutcome::Responded { status } => {
            if is_success(status) {
                Ok(Registration::Accepted)
            } else {
                Ok(Registration::Rejected { status })
            }
        },
    }
}

} // verus!
