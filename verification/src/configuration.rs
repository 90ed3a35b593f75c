//! The slice of process configuration the library computes with.  Loading
//! configuration from files or the environment happens outside the library;
//! the values arrive here as plain strings.

use vstd::prelude::*;
use vstd::string::StringExecFns;

verus! {

/// Connection settings for the durable key-value store.
#[derive(Debug, PartialEq)]
pub struct RedisSettings {
    pub host_name: String,
    pub password: String,
    pub port: String,
}

impl Clone for RedisSettings {
    fn clone(&self) -> (r: RedisSettings)
        ensures
            r == *self,
    {
        RedisSettings {
            host_name: self.host_name.clone(),
            password: self.password.clone(),
            port: self.port.clone(),
        }
    }
}

/// The connection URL for the key-value backend: unauthenticated over
/// `redis://` when no password is configured, else authenticated over
/// `rediss://`.
pub fn redis_connection_url(settings: &RedisSettings) -> (r: String)
    ensures
        settings.password@.len() == 0 ==> r@ == "redis://"@ + settings.host_name@ + ":"@
            + settings.port@ + "/"@,
        settings.password@.len() > 0 ==> r@ == "rediss://default:"@ + settings.password@ + "@"@
            + settings.host_name@ + ":"@ + settings.port@,
{
    if settings.password.as_str().is_empty() {
        let mut url = "redis://".to_owned();
        url.append(settings.host_name.as_str());
        url.append(":");
        url.append(settings.port.as_str());
        url.append("/");
        url
    } else {
        let mut url = "rediss://default:".to_owned();
        url.append(settings.password.as_str());
        url.append("@");
        url.append(settings.host_name.as_str());
        url.append(":");
        url.append(settings.port.as_str());
        url
    }
}

} // verus!
