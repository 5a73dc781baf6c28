//! Why a host call is turned down.
use vstd::prelude::*;

verus! {

/// The reasons for which the host does not serve a call of a plugin.
#[derive(Clone, Copy, PartialEq, Eq, Structural, Debug)]
pub enum Refusal {
    /// The environment variable was not granted to the plugin.
    EnvironmentDenied,
    /// The URI of an outbound request is not an absolute URI.
    UriInvalid,
    /// The URI of an outbound request has no domain.
    UriWithoutDomain,
    /// The domain of an outbound request was not granted to the plugin.
    HttpDenied,
    /// The method of an outbound request is not one that the host sends.
    UnsupportedMethod,
    /// No outbound request with this ID is being assembled.
    UnknownRequest,
    /// No prefix of the remote state key was granted to the plugin.
    StateDenied,
    /// The host has no remote state.
    RemoteStateUnavailable,
    /// The time-to-live is not a number of seconds that the remote state accepts.
    InvalidTtl,
    /// The value was not recorded yet in this phase of the request.
    NotRecorded,
}

impl Refusal {
    /// The words with which the call is turned down.
    pub open spec fn text(self) -> Seq<char> {
        match self {
            Refusal::EnvironmentDenied => "access to environment variable denied"@,
            Refusal::UriInvalid => "invalid uri"@,
            Refusal::UriWithoutDomain => "uri without domain"@,
            Refusal::HttpDenied => "access to http resource denied"@,
            Refusal::UnsupportedMethod => "unsupported http method"@,
            Refusal::UnknownRequest => "unknown request id"@,
            Refusal::StateDenied => "access to state value by prefix denied"@,
            Refusal::RemoteStateUnavailable => "remote state unavailable"@,
            Refusal::InvalidTtl => "invalid time-to-live"@,
            Refusal::NotRecorded => "value not recorded"@,
        }
    }

    /// Says with which words the call is turned down.
    pub fn message(self) -> (text: String)
        ensures
            text@ == self.text(),
    {
        match self {
            Refusal::EnvironmentDenied => "access to environment variable denied".to_owned(),
            Refusal::UriInvalid => "invalid uri".to_owned(),
            Refusal::UriWithoutDomain => "uri without domain".to_owned(),
            Refusal::HttpDenied => "access to http resource denied".to_owned(),
            Refusal::UnsupportedMethod => "unsupported http method".to_owned(),
            Refusal::UnknownRequest => "unknown request id".to_owned(),
            Refusal::StateDenied => "access to state value by prefix denied".to_owned(),
            Refusal::RemoteStateUnavailable => "remote state unavailable".to_owned(),
            Refusal::InvalidTtl => "invalid time-to-live".to_owned(),
            Refusal::NotRecorded => "value not recorded".to_owned(),
        }
    }
}

} // verus!
