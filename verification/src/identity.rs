//! The name this device advertises on the bus.
//!
//! The name is the host's own name. When the host cannot tell its name the
//! device advertises a fixed fallback instead; a host name that is not valid
//! Unicode is the one answer for which no name can be advertised.

use vstd::prelude::*;
use vstd::string::StringExecFns;

verus! {

/// What asking the host for its name came back with.
#[derive(Debug, PartialEq, Eq)]
pub enum HostLookup {
    /// The host reported this name.
    Name(String),
    /// The host could not report a name.
    Unavailable,
    /// The host reported a name that is not valid Unicode.
    NotUnicode,
}

/// A lookup with the reported name as a sequence of characters.
pub enum HostLookupView {
    Name(Seq<char>),
    Unavailable,
    NotUnicode,
}

impl View for HostLookup {
    type V = HostLookupView;

    open spec fn view(&self) -> HostLookupView {
        match self {
            HostLookup::Name(name) => HostLookupView::Name(name@),
            HostLookup::Unavailable => HostLookupView::Unavailable,
            HostLookup::NotUnicode => HostLookupView::NotUnicode,
        }
    }
}

impl Clone for HostLookup {
    fn clone(&self) -> (copy: HostLookup)
        ensures
            copy@ == self@,
    {
        match self {
            HostLookup::Name(name) => HostLookup::Name(name.clone()),
            HostLookup::Unavailable => HostLookup::Unavailable,
            HostLookup::NotUnicode => HostLookup::NotUnicode,
        }
    }
}

/// The name advertised when the host cannot report its own.
pub open spec fn fallback_name() -> Seq<char> {
    seq!['d', 'u', 'm', 'm', 'y']
}

/// The name to advertise for a lookup: the reported name as it is, however
/// long; the fallback when none was reported; none when the reported name
/// cannot be represented.
pub open spec fn advertised_name(lookup: HostLookupView) -> Option<Seq<char>> {
    match lookup {
        HostLookupView::Name(name) => Some(name),
        HostLookupView::Unavailable => Some(fallback_name()),
        HostLookupView::NotUnicode => None,
    }
}

/// The characters of an optional string.
pub open spec fn name_view(name: Option<String>) -> Option<Seq<char>> {
    match name {
        Some(text) => Some(text@),
        None => None,
    }
}

/// Chooses the advertised name for what the lookup came back with.
pub fn osd_name(lookup: HostLookup) -> (name: Option<String>)
    ensures
        name_view(name) == advertised_name(lookup@),
{
    match lookup {
        HostLookup::Name(reported) => Some(reported),
        HostLookup::Unavailable => {
            proof {
                reveal_strlit("dummy");
                assert("dummy"@ =~= fallback_name());
            }
            Some(String::from_str("dummy"))
        },
        HostLookup::NotUnicode => None,
    }
}

/// Asks the host for its name through `hostname::get` and turns the answer
/// into a `HostLookup`: a name that converts to a `String`, one that does not,
/// or the failure to get any. Nothing is claimed about which of them comes
/// back, nor about the name.
#[verifier::external_body]
fn lookup_host_name() -> (lookup: HostLookup) {
    match hostname::get() {
        Ok(reported) => match reported.into_string() {
            Ok(name) => HostLookup::Name(name),
            Err(_) => HostLookup::NotUnicode,
        },
        Err(_) => HostLookup::Unavailable,
    }
}

/// Resolves the name to advertise on the bus from the host's own name.
///
/// The result is what `osd_name` chooses for the host's answer, so it is
/// `None` only when the host's name is not valid Unicode.
pub fn get_osd_hostname() -> (name: Option<String>) {
    osd_name(lookup_host_name())
}

/// Failing to learn the host's name never leaves the device without a name:
/// the fallback is advertised. A reported name is advertised unchanged.
pub proof fn law_lookup_failure_falls_back(reported: Seq<char>)
    ensures
        advertised_name(HostLookupView::Unavailable) == Some(fallback_name()),
        advertised_name(HostLookupView::Name(reported)) == Some(reported),
{
}

} // verus!
