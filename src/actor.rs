use vstd::prelude::*;
use vstd::string::StrSliceExecFns;

use crate::error::BridgeError;

verus! {

/// Whether `text` is the canonical textual form of a principal, as
/// `ic_types::Principal::from_text` decides it (base32 with checksum, in
/// dash-separated groups of five).
pub uninterp spec fn principal_text_valid(text: Seq<char>) -> bool;

/// Relies on `ic_types::Principal::from_text`: it accepts or rejects a text
/// from the text alone.
#[verifier::external_body]
fn parse_principal_text(text: &str) -> (r: bool)
    ensures
        r == principal_text_valid(text@),
{
    ic_types::Principal::from_text(text).is_ok()
}

/// The host-name suffix under which actors are served: the actor's textual
/// identifier is the part of the host that precedes it.
pub const HOST_SUFFIX: &'static str = ".ic.nomeata.de";

/// The identity of a target actor, held in its canonical textual form.
pub struct ActorId {
    text: String,
}

impl View for ActorId {
    type V = Seq<char>;

    closed spec fn view(&self) -> Seq<char> {
        self.text@
    }
}

impl ActorId {
    #[verifier::type_invariant]
    spec fn inv(&self) -> bool {
        principal_text_valid(self.text@)
    }

    /// Parses `text` as an actor identifier.
    pub fn parse(text: &str) -> (r: Option<ActorId>)
        ensures
            r is Some <==> principal_text_valid(text@),
            r matches Some(a) ==> a@ == text@,
    {
        if parse_principal_text(text) {
            Some(ActorId { text: text.to_owned() })
        } else {
            None
        }
    }

    /// The identifier's canonical text, which is always valid principal text.
    pub fn as_text(&self) -> (r: &str)
        ensures
            r@ == self@,
            principal_text_valid(r@),
    {
        proof {
            use_type_invariant(self);
        }
        self.text.as_str()
    }
}

/// The part of `host` before [`HOST_SUFFIX`], if `host` ends with it.
pub open spec fn strip_suffix_spec(host: Seq<char>) -> Option<Seq<char>> {
    let sfx = HOST_SUFFIX@;
    if host.len() >= sfx.len() && host.subrange(host.len() - sfx.len(), host.len() as int) == sfx {
        Some(host.subrange(0, host.len() - sfx.len()))
    } else {
        None
    }
}

/// The actor identifier text that a request designates: the forced one when
/// it is not empty, else the host's prefix before [`HOST_SUFFIX`].
pub open spec fn designated_text(forced: Seq<char>, host: Option<Seq<char>>) -> Option<Seq<char>> {
    if forced.len() > 0 {
        Some(forced)
    } else {
        match host {
            Some(h) => strip_suffix_spec(h),
            None => None,
        }
    }
}

/// The characters of an optional string slice.
pub open spec fn opt_view(s: Option<&str>) -> Option<Seq<char>> {
    match s {
        Some(t) => Some(t@),
        None => None,
    }
}

/// Strips [`HOST_SUFFIX`] from the end of `host`.
pub fn strip_host_suffix(host: &str) -> (r: Option<&str>)
    ensures
        r is Some <==> strip_suffix_spec(host@) is Some,
        r matches Some(p) ==> p@ == strip_suffix_spec(host@)->0,
{
    let n = host.unicode_len();
    let m = HOST_SUFFIX.unicode_len();
    if n < m {
        return None;
    }
    let start = n - m;
    let mut i: usize = 0;
    while i < m
        invariant
            n == host@.len(),
            m == HOST_SUFFIX@.len(),
            start == n - m,
            i <= m,
            forall|j: int| 0 <= j < i ==> host@[start + j] == HOST_SUFFIX@[j],
        decreases m - i,
    {
        if host.get_char(start + i) != HOST_SUFFIX.get_char(i) {
            assert(host@.subrange(start as int, n as int)[i as int] != HOST_SUFFIX@[i as int]);
            return None;
        }
        i = i + 1;
    }
    assert(host@.subrange(start as int, n as int) =~= HOST_SUFFIX@);
    Some(host.substring_char(0, start))
}

/// Resolves the actor a request targets. A non-empty `forced` text wins and
/// must be valid (else `Config`); otherwise the prefix of `host` before
/// [`HOST_SUFFIX`] must be valid (else `Resolution`, carrying `uri`).
pub fn resolve_actor(forced: &str, host: Option<&str>, uri: &str) -> (r: Result<ActorId, BridgeError>)
    ensures
        forced@.len() > 0 ==> match r {
            Ok(a) => principal_text_valid(forced@) && a@ == forced@,
            Err(BridgeError::Config(t)) => !principal_text_valid(forced@) && t@ == forced@,
            Err(_) => false,
        },
        forced@.len() == 0 ==> match r {
            Ok(a) => {
                &&& designated_text(forced@, opt_view(host)) matches Some(t)
                &&& principal_text_valid(t)
                &&& a@ == t
            },
            Err(BridgeError::Resolution(u)) => {
                &&& u@ == uri@
                &&& !(designated_text(forced@, opt_view(host)) matches Some(t)
                    && principal_text_valid(t))
            },
            Err(_) => false,
        },
{
    if !forced.is_empty() {
        match ActorId::parse(forced) {
            Some(a) => Ok(a),
            None => Err(BridgeError::Config(forced.to_owned())),
        }
    } else {
        let prefix = match host {
            Some(h) => strip_host_suffix(h),
            None => None,
        };
        match prefix {
            Some(p) => match ActorId::parse(p) {
                Some(a) => Ok(a),
                None => Err(BridgeError::Resolution(uri.to_owned())),
            },
            None => Err(BridgeError::Resolution(uri.to_owned())),
        }
    }
}

} // verus!
