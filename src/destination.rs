//! Where a producer run sends its messages.
use vstd::prelude::*;

verus! {

/// The one place a producer run delivers to.
pub enum Destination {
    /// A broker topic.
    Topic { topic: String },
    /// An HTTP endpoint taking a POST per message, with an optional bearer
    /// token.
    Http { endpoint: String, auth_token: Option<String> },
}

/// Why the command-line options name no usable destination.
#[derive(Debug, PartialEq, Eq, Structural)]
pub enum ConfigError {
    /// Neither a topic nor an HTTP endpoint was given.
    NoDestination,
    /// Both a topic and an HTTP endpoint were given.
    BothDestinations,
}

/// Picks the destination from the options: exactly one of `topic` and
/// `http_endpoint` must be given. The token goes with an HTTP endpoint and is
/// ignored for a topic.
pub fn select_destination(
    topic: Option<String>,
    http_endpoint: Option<String>,
    auth_token: Option<String>,
) -> (r: Result<Destination, ConfigError>)
    ensures
        (topic is None && http_endpoint is None) <==> r == Err::<Destination, ConfigError>(
            ConfigError::NoDestination,
        ),
        (topic is Some && http_endpoint is Some) <==> r == Err::<Destination, ConfigError>(
            ConfigError::BothDestinations,
        ),
        topic matches Some(t) ==> http_endpoint is None ==> (r matches Ok(
            Destination::Topic { topic: d },
        ) && d@ == t@),
        http_endpoint matches Some(e) ==> topic is None ==> (r matches Ok(
            Destination::Http { endpoint: d, auth_token: a },
        ) && d@ == e@ && a == auth_token),
{
    match (topic, http_endpoint) {
        (None, None) => Err(ConfigError::NoDestination),
        (Some(_), Some(_)) => Err(ConfigError::BothDestinations),
        (Some(t), None) => Ok(Destination::Topic { topic: t }),
        (None, Some(e)) => Ok(Destination::Http { endpoint: e, auth_token }),
    }
}

impl Destination {
    /// Whether messages go over HTTP.
    pub fn is_http(&self) -> (r: bool)
        ensures
            r == (self is Http),
    {
        match self {
            Destination::Topic { .. } => false,
            Destination::Http { .. } => true,
        }
    }
}

} // verus!
