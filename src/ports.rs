//! The listener for port registrations anywhere in the audio graph: it names
//! the client that owns each new port and tells this program's own ports apart.

use vstd::prelude::*;
use vstd::string::StrSliceExecFns;

verus! {

/// Name under which this program registers with the audio engine.
pub const ANAL_JACK_CLIENT_NAME: &'static str = "anal";

/// `c` is the client part of the qualified port name `s`: the text before
/// its first `:`, or all of it where it holds none.
pub open spec fn is_client_part(s: Seq<char>, c: Seq<char>) -> bool {
    &&& c.len() <= s.len()
    &&& c == s.subrange(0, c.len() as int)
    &&& forall|i: int| 0 <= i < c.len() ==> c[i] != ':'
    &&& (c.len() == s.len() || s[c.len() as int] == ':')
}

/// A qualified port name has one client part.
pub proof fn client_part_unique(s: Seq<char>, a: Seq<char>, b: Seq<char>)
    requires
        is_client_part(s, a),
        is_client_part(s, b),
    ensures
        a == b,
{
    if a.len() < b.len() {
        assert(b[a.len() as int] == s[a.len() as int]);
    } else if b.len() < a.len() {
        assert(a[b.len() as int] == s[b.len() as int]);
    }
}

/// The client part of a qualified port name (`client:port`).
pub fn client_name(port_name: &str) -> (c: &str)
    ensures
        is_client_part(port_name@, c@),
{
    let n = port_name.unicode_len();
    let mut i: usize = 0;
    while i < n && port_name.get_char(i) != ':'
        invariant
            n == port_name@.len(),
            i <= n,
            forall|j: int| 0 <= j < i ==> port_name@[j] != ':',
        decreases n - i,
    {
        i = i + 1;
    }
    port_name.substring_char(0, i)
}

/// Whether two texts hold the same characters.
fn same_text(a: &str, b: &str) -> (r: bool)
    ensures
        r == (a@ == b@),
{
    let n = a.unicode_len();
    if n != b.unicode_len() {
        return false;
    }
    let mut i: usize = 0;
    while i < n
        invariant
            n == a@.len(),
            n == b@.len(),
            i <= n,
            forall|j: int| 0 <= j < i ==> a@[j] == b@[j],
        decreases n - i,
    {
        if a.get_char(i) != b.get_char(i) {
            return false;
        }
        i = i + 1;
    }
    assert(a@ =~= b@);
    true
}

/// Whether the port named `port_name` belongs to this program's client.
pub fn is_own_port(port_name: &str) -> (r: bool)
    ensures
        r == is_client_part(port_name@, ANAL_JACK_CLIENT_NAME@),
{
    let c = client_name(port_name);
    let r = same_text(c, ANAL_JACK_CLIENT_NAME);
    proof {
        if is_client_part(port_name@, ANAL_JACK_CLIENT_NAME@) {
            client_part_unique(port_name@, c@, ANAL_JACK_CLIENT_NAME@);
        }
    }
    r
}

/// What the audio engine could tell of a port that was registered.
pub enum PortLookup {
    /// No port has the identifier any more.
    Missing,
    /// The port exists but its name could not be read; the reason given.
    NameUnavailable(String),
    /// The port's qualified name.
    Named(String),
}

/// What the listener makes of one registration notification.
pub enum PortEvent {
    /// A port went away: nothing to do.
    Deregistered,
    /// A port was registered but could not be found.
    Missing,
    /// A port was registered but its name could not be read.
    NameUnavailable(String),
    /// A port was registered under `name`; `own` when this program's client owns it.
    NewPort { name: String, own: bool },
}

/// Listener for the engine's port registration notifications.
pub struct AnalNotifHandler;

impl AnalNotifHandler {
    /// Decide what a registration (`is_registered`) or deregistration of a
    /// port, looked up as `lookup`, amounts to. Never fails: a port that is
    /// missing or has no readable name is reported as such and skipped.
    pub fn port_registration(&self, is_registered: bool, lookup: PortLookup) -> (e: PortEvent)
        ensures
            !is_registered ==> e is Deregistered,
            is_registered ==> match lookup {
                PortLookup::Missing => e is Missing,
                PortLookup::NameUnavailable(why) => e == PortEvent::NameUnavailable(why),
                PortLookup::Named(name) => e == (PortEvent::NewPort {
                    name,
                    own: is_client_part(name@, ANAL_JACK_CLIENT_NAME@),
                }),
            },
    {
        if !is_registered {
            return PortEvent::Deregistered;
        }
        match lookup {
            PortLookup::Missing => PortEvent::Missing,
            PortLookup::NameUnavailable(why) => PortEvent::NameUnavailable(why),
            PortLookup::Named(name) => {
                let own = is_own_port(name.as_str());
                PortEvent::NewPort { name, own }
            },
        }
    }
}

} // verus!
