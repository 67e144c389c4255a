//! Bus object paths: decoding the device paths that incoming requests
//! carry, and building the fresh paths under which monitors are
//! published.
//!
//! A device path names an adapter and a device address, for example
//! `/org/bluez/hci0/dev_AA_BB_CC_DD_EE_FF`.

use vstd::prelude::*;

use crate::address::{addr_text_octets, addr_text_well_formed, parse_addr_text, Address};
use crate::req::ReqError;

verus! {

/// The namespace under which the daemon exposes devices.
pub open spec fn device_prefix() -> Seq<char> {
    "/org/bluez/"@
}

/// The marker that separates the adapter segment from the device leaf.
pub open spec fn dev_marker() -> Seq<char> {
    "/dev_"@
}

/// Well-formedness of a device path: the device namespace, one
/// non-empty adapter segment without separators, the device marker,
/// and a textual address leaf.
pub open spec fn well_formed_device_path(s: Seq<char>) -> bool {
    &&& s.len() >= 34
    &&& s.subrange(0, 11) =~= device_prefix()
    &&& forall|i: int| 11 <= i < s.len() - 22 ==> s[i] != '/'
    &&& s.subrange(s.len() - 22, s.len() - 17) =~= dev_marker()
    &&& addr_text_well_formed(s.subrange(s.len() - 17, s.len() as int))
}

/// The adapter segment of a well-formed device path.
pub open spec fn device_path_adapter(s: Seq<char>) -> Seq<char> {
    s.subrange(11, s.len() - 22)
}

/// The address octets that the leaf of a well-formed device path
/// denotes.
pub open spec fn device_path_addr(s: Seq<char>) -> Seq<u8> {
    addr_text_octets(s.subrange(s.len() - 17, s.len() as int))
}

/// True when `s` carries `pat` starting at position `at`.
fn text_matches_at(s: &str, at: usize, pat: &str) -> (r: bool)
    requires
        at + pat@.len() <= s@.len(),
    ensures
        r <==> s@.subrange(at as int, at + pat@.len()) =~= pat@,
{
    let slen = s.unicode_len();
    let plen = pat.unicode_len();
    let mut j: usize = 0;
    while j < plen
        invariant
            0 <= j <= plen,
            plen == pat@.len(),
            slen == s@.len(),
            at + plen <= slen,
            forall|t: int| 0 <= t < j ==> s@[at + t] == pat@[t],
        decreases plen - j,
    {
        if s.get_char(at + j) != pat.get_char(j) {
            assert(s@.subrange(at as int, at + pat@.len())[j as int] != pat@[j as int]);
            return false;
        }
        j = j + 1;
    }
    assert(s@.subrange(at as int, at + pat@.len()) =~= pat@);
    true
}

/// Decodes a device path into the adapter name and the device address.
///
/// Succeeds exactly on well-formed paths; a malformed path is answered
/// with [`ReqError::Rejected`] and nothing else.
pub fn parse_device_path(path: &str) -> (r: Result<(String, Address), ReqError>)
    ensures
        r is Ok <==> well_formed_device_path(path@),
        r matches Ok(p) ==> p.0@ =~= device_path_adapter(path@) && p.1@ =~= device_path_addr(
            path@,
        ),
        r is Err ==> r->Err_0 == ReqError::Rejected,
{
    proof {
        reveal_strlit("/org/bluez/");
        reveal_strlit("/dev_");
    }
    let n = path.unicode_len();
    if n < 34 {
        return Err(ReqError::Rejected);
    }
    if !text_matches_at(path, 0, "/org/bluez/") {
        return Err(ReqError::Rejected);
    }
    let mut i: usize = 11;
    while i < n - 22
        invariant
            11 <= i <= n - 22,
            n == path@.len(),
            n >= 34,
            forall|t: int| 11 <= t < i ==> path@[t] != '/',
        decreases n - 22 - i,
    {
        if path.get_char(i) == '/' {
            return Err(ReqError::Rejected);
        }
        i = i + 1;
    }
    if !text_matches_at(path, n - 22, "/dev_") {
        return Err(ReqError::Rejected);
    }
    let leaf = path.substring_char(n - 17, n);
    let addr = match parse_addr_text(leaf) {
        Some(a) => a,
        None => {
            return Err(ReqError::Rejected);
        },
    };
    let adapter = path.substring_char(11, n - 22).to_owned();
    Ok((adapter, addr))
}

/// Builds the device path for the given adapter and address — the
/// form that [`parse_device_path`] decodes back to exactly this pair.
pub fn device_path_for(adapter: &str, addr: &Address) -> (r: String)
    requires
        adapter@.len() > 0,
        forall|i: int| 0 <= i < adapter@.len() ==> adapter@[i] != '/',
    ensures
        well_formed_device_path(r@),
        device_path_adapter(r@) =~= adapter@,
        device_path_addr(r@) =~= addr@,
{
    proof {
        reveal_strlit("/org/bluez/");
        reveal_strlit("/dev_");
    }
    let mut r = "/org/bluez/".to_owned();
    r.append(adapter);
    r.append("/dev_");
    let leaf = crate::address::addr_to_text(addr);
    r.append(leaf.as_str());
    proof {
        let p = "/org/bluez/"@;
        let m = "/dev_"@;
        let whole = p + adapter@ + m + leaf@;
        assert(r@ =~= whole);
        let n = whole.len() as int;
        assert(n == 11 + adapter@.len() + 5 + 17);
        assert(whole.subrange(0, 11) =~= p);
        assert(whole.subrange(11, n - 22) =~= adapter@);
        assert(whole.subrange(n - 22, n - 17) =~= m);
        assert(whole.subrange(n - 17, n) =~= leaf@);
        assert(forall|i: int| 11 <= i < n - 22 ==> whole[i] != '/');
    }
    r
}

/// The fixed namespace under which this library publishes monitor
/// objects; a fresh token is appended to it for every registration.
pub open spec fn monitor_prefix() -> Seq<char> {
    "/io/crates/bluez_monitor/hci0/"@
}

/// Builds the object path for a monitor published under the given
/// token.
pub fn monitor_path_for(token: &str) -> (r: String)
    ensures
        r@ == monitor_prefix() + token@,
{
    let mut p = "/io/crates/bluez_monitor/hci0/".to_owned();
    p.append(token);
    p
}

/// True for the characters a fresh token is made of.
pub open spec fn is_lower_hex(c: char) -> bool {
    ('0' <= c && c <= '9') || ('a' <= c && c <= 'f')
}

/// Relies on `uuid::Uuid::new_v4` and the simple form of the result:
/// whatever random value was drawn, the text is exactly 32 lowercase
/// hexadecimal characters.
#[verifier::external_body]
fn fresh_token() -> (r: String)
    ensures
        r@.len() == 32,
        forall|i: int| 0 <= i < 32 ==> is_lower_hex(#[trigger] r@[i]),
{
    format!("{}", uuid::Uuid::new_v4().as_simple())
}

/// Builds the object path for a freshly generated monitor: the fixed
/// namespace followed by a 32-character random token. Distinct tokens
/// give distinct paths ([`lemma_monitor_path_injective`]); the token
/// is drawn from a space large enough that collisions are treated as
/// negligible.
pub fn fresh_monitor_path() -> (r: String)
    ensures
        r@.len() == monitor_prefix().len() + 32,
        r@.subrange(0, monitor_prefix().len() as int) == monitor_prefix(),
        forall|i: int|
            monitor_prefix().len() <= i < r@.len() ==> is_lower_hex(#[trigger] r@[i]),
{
    let token = fresh_token();
    let r = monitor_path_for(token.as_str());
    proof {
        assert(r@.subrange(0, monitor_prefix().len() as int) =~= monitor_prefix());
        assert forall|i: int|
            monitor_prefix().len() <= i < r@.len() implies is_lower_hex(#[trigger] r@[i]) by {
            assert(r@[i] == token@[i - monitor_prefix().len()]);
        }
    }
    r
}

/// Law: monitor paths built from distinct tokens are distinct, so
/// concurrently registered monitors never collide as long as their
/// tokens differ.
pub proof fn lemma_monitor_path_injective(t1: Seq<char>, t2: Seq<char>)
    requires
        monitor_prefix() + t1 == monitor_prefix() + t2,
    ensures
        t1 == t2,
{
    let p = monitor_prefix();
    assert(t1.len() == t2.len()) by {
        assert((p + t1).len() == (p + t2).len());
    }
    assert(t1 =~= (p + t1).subrange(p.len() as int, (p + t1).len() as int));
    assert(t2 =~= (p + t2).subrange(p.len() as int, (p + t2).len() as int));
}

} // verus!
