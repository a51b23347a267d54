//! The configuration contract handed to the core.
//!
//! A configuration is constructed once at startup by the surrounding
//! command-line layer, cloned into each component, and never mutated. The
//! core treats every field as already validated; this module only states
//! what the configuration layer owes the core: the defaults for missing
//! settings, and the clamping of the buffer size to its minimum.

use vstd::prelude::*;

verus! {

/// The default bind address, as `ip:port`.
pub open spec fn spec_default_addr() -> Seq<char> {
    "127.0.0.1:48656"@
}

/// The default upstream endpoint payloads are forwarded to.
pub open spec fn spec_default_receiver_url() -> Seq<char> {
    "http://localhost:55555/v1/tracking/events"@
}

/// The default — and at the same time minimal — datagram buffer size in
/// bytes.
pub const DEFAULT_MTU: i32 = 1500;

/// The default number of delivery workers.
pub const DEFAULT_CLIENT_THREADS: u16 = 4;

/// Ghost image of a configuration: the same fields over mathematical
/// values.
pub struct ConfigView {
    pub addr: Seq<char>,
    pub mtu: int,
    pub receiver_url: Seq<char>,
    pub num_client_threads: int,
}

/// The immutable process configuration: where to listen, how large a
/// datagram may be, where to forward, and how many workers deliver.
#[derive(Clone)]
pub struct Config {
    /// The `ip:port` the UDP socket binds to.
    pub addr: String,
    /// The maximum accepted datagram size, which is also the size of the
    /// receive buffer.
    pub mtu: i32,
    /// The upstream URL every payload is POSTed to.
    pub receiver_url: String,
    /// How many delivery workers run in parallel.
    pub num_client_threads: u16,
}

impl View for Config {
    type V = ConfigView;

    open spec fn view(&self) -> ConfigView {
        ConfigView {
            addr: self.addr@,
            mtu: self.mtu as int,
            receiver_url: self.receiver_url@,
            num_client_threads: self.num_client_threads as int,
        }
    }
}

/// A copy of a string with the same characters.
pub(crate) fn clone_string(s: &String) -> (r: String)
    ensures
        r@ == s@,
{
    proof {
        broadcast use vstd::string::to_string_from_display_ensures_for_str;
    }
    s.as_str().to_string()
}

impl Config {
    /// An identical copy, for handing one component its own configuration.
    pub fn duplicate(&self) -> (c: Config)
        ensures
            c@ == self@,
    {
        Config {
            addr: clone_string(&self.addr),
            mtu: self.mtu,
            receiver_url: clone_string(&self.receiver_url),
            num_client_threads: self.num_client_threads,
        }
    }
}

/// The bind address used when none is configured.
pub fn default_addr() -> (s: String)
    ensures
        s@ == spec_default_addr(),
{
    proof {
        broadcast use vstd::string::to_string_from_display_ensures_for_str;
    }
    "127.0.0.1:48656".to_string()
}

/// The upstream URL used when none is configured.
pub fn default_receiver_url() -> (s: String)
    ensures
        s@ == spec_default_receiver_url(),
{
    proof {
        broadcast use vstd::string::to_string_from_display_ensures_for_str;
    }
    "http://localhost:55555/v1/tracking/events".to_string()
}

/// The buffer size the core runs with: the requested size, but never below
/// the default minimum; the default when nothing was requested.
pub open spec fn spec_effective_mtu(requested: Option<i32>) -> i32 {
    match requested {
        Some(v) => if v >= DEFAULT_MTU {
            v
        } else {
            DEFAULT_MTU
        },
        None => DEFAULT_MTU,
    }
}

/// Clamps a requested buffer size to the minimum, or falls back to the
/// default.
pub fn effective_mtu(requested: Option<i32>) -> (m: i32)
    ensures
        m == spec_effective_mtu(requested),
{
    match requested {
        Some(v) => if v >= DEFAULT_MTU {
            v
        } else {
            DEFAULT_MTU
        },
        None => DEFAULT_MTU,
    }
}

/// The worker count the core runs with: the requested one, or the default.
pub open spec fn spec_effective_client_threads(requested: Option<u16>) -> u16 {
    match requested {
        Some(v) => v,
        None => DEFAULT_CLIENT_THREADS,
    }
}

/// Takes the requested worker count, or falls back to the default.
pub fn effective_client_threads(requested: Option<u16>) -> (n: u16)
    ensures
        n == spec_effective_client_threads(requested),
{
    match requested {
        Some(v) => v,
        None => DEFAULT_CLIENT_THREADS,
    }
}

/// Builds the configuration the core runs with: explicit settings are taken
/// as given, missing ones fall back to the defaults, and the buffer size is
/// clamped to its minimum.
pub fn build_config(
    addr: Option<String>,
    mtu: Option<i32>,
    receiver_url: Option<String>,
    num_client_threads: Option<u16>,
) -> (c: Config)
    ensures
        c@.addr == match addr {
            Some(a) => a@,
            None => spec_default_addr(),
        },
        c@.mtu == spec_effective_mtu(mtu),
        c@.receiver_url == match receiver_url {
            Some(u) => u@,
            None => spec_default_receiver_url(),
        },
        c@.num_client_threads == spec_effective_client_threads(num_client_threads),
{
    Config {
        addr: match addr {
            Some(a) => a,
            None => default_addr(),
        },
        mtu: effective_mtu(mtu),
        receiver_url: match receiver_url {
            Some(u) => u,
            None => default_receiver_url(),
        },
        num_client_threads: effective_client_threads(num_client_threads),
    }
}

} // verus!
