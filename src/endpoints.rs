//! Addresses of a local actor, derived from the instance's settings.
use vstd::prelude::*;

verus! {

/// Where the instance is reachable.
pub struct Settings {
    /// Host name, with a port where one is needed.
    pub hostname: String,
    /// Whether the instance is served over TLS (`https`) or not (`http`).
    pub tls_enabled: bool,
}

/// The URI scheme the instance is served under.
pub open spec fn protocol_of(tls_enabled: bool) -> Seq<char> {
    if tls_enabled {
        "https"@
    } else {
        "http"@
    }
}

/// `scheme://host`, the base of every local address.
pub open spec fn protocol_and_hostname_of(hostname: Seq<char>, tls_enabled: bool) -> Seq<char> {
    protocol_of(tls_enabled) + "://"@ + hostname
}

/// The address of the person actor called `name` on the given base.
pub open spec fn person_endpoint_of(name: Seq<char>, base: Seq<char>) -> Seq<char> {
    base + "/u/"@ + name
}

/// An actor's own inbox.
pub open spec fn inbox_of(actor_id: Seq<char>) -> Seq<char> {
    actor_id + "/inbox"@
}

/// The inbox shared by all actors of the instance.
pub open spec fn shared_inbox_of(base: Seq<char>) -> Seq<char> {
    base + "/inbox"@
}

impl Settings {
    /// `scheme://host` for this instance.
    pub fn get_protocol_and_hostname(&self) -> (r: String)
        ensures
            r@ == protocol_and_hostname_of(self.hostname@, self.tls_enabled),
    {
        let mut r = if self.tls_enabled {
            String::from_str("https")
        } else {
            String::from_str("http")
        };
        r.append("://");
        r.append(self.hostname.as_str());
        r
    }
}

/// The address of the person actor called `name`, under `base` (`scheme://host`).
pub fn generate_local_person_endpoint(name: &str, base: &str) -> (r: String)
    ensures
        r@ == person_endpoint_of(name@, base@),
{
    let mut r = String::from_str(base);
    r.append("/u/");
    r.append(name);
    r
}

/// The inbox of the actor at `actor_id`.
pub fn generate_inbox_url(actor_id: &str) -> (r: String)
    ensures
        r@ == inbox_of(actor_id@),
{
    let mut r = String::from_str(actor_id);
    r.append("/inbox");
    r
}

/// The shared inbox of the instance at `base` (`scheme://host`).
pub fn generate_shared_inbox_url(base: &str) -> (r: String)
    ensures
        r@ == shared_inbox_of(base@),
{
    let mut r = String::from_str(base);
    r.append("/inbox");
    r
}

} // verus!
