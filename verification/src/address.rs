//! A parsed absolute URL as plain values, and the call into the `url` crate
//! that produces it.

use vstd::prelude::*;
use url::{Host, Url};

verus! {

/// The form of host that an address carries.
#[derive(Debug, Clone)]
pub enum HostKind {
    /// A domain name, as the URL serialises it.
    Domain(String),
    /// An IPv4 literal.
    Ipv4,
    /// An IPv6 literal.
    Ipv6,
    /// The URL has no host.
    Absent,
}

/// A parsed absolute URL: its serialised text, its host, and its path split
/// at each `/` (`None` for a URL that cannot be a base).
#[derive(Debug, Clone)]
pub struct Address {
    pub text: String,
    pub host: HostKind,
    pub segments: Option<Vec<String>>,
}

/// Mathematical model of a [`HostKind`].
pub enum HostModel {
    Domain(Seq<char>),
    Ipv4,
    Ipv6,
    Absent,
}

/// Mathematical model of an [`Address`].
pub struct AddressModel {
    pub text: Seq<char>,
    pub host: HostModel,
    pub segments: Option<Seq<Seq<char>>>,
}

impl View for HostKind {
    type V = HostModel;

    open spec fn view(&self) -> HostModel {
        match *self {
            HostKind::Domain(d) => HostModel::Domain(d@),
            HostKind::Ipv4 => HostModel::Ipv4,
            HostKind::Ipv6 => HostModel::Ipv6,
            HostKind::Absent => HostModel::Absent,
        }
    }
}

/// The texts of a list of strings.
pub open spec fn texts(v: Seq<String>) -> Seq<Seq<char>> {
    Seq::new(v.len(), |i: int| v[i]@)
}

/// The model of an address's path segments.
pub open spec fn segments_model(segments: Option<Vec<String>>) -> Option<Seq<Seq<char>>> {
    match segments {
        Some(v) => Some(texts(v@)),
        None => None,
    }
}

impl View for Address {
    type V = AddressModel;

    open spec fn view(&self) -> AddressModel {
        AddressModel {
            text: self.text@,
            host: self.host@,
            segments: segments_model(self.segments),
        }
    }
}

/// What `url::Url::parse` makes of a text: the parsed URL, or the message of
/// the parse error. The URL parsing algorithm is not restated here.
pub uninterp spec fn url_parse(input: Seq<char>) -> Result<AddressModel, Seq<char>>;

/// The model of a parse outcome.
pub open spec fn outcome_model(r: Result<Address, String>) -> Result<AddressModel, Seq<char>> {
    match r {
        Ok(a) => Ok(a@),
        Err(e) => Err(e@),
    }
}

/// Calls `url::Url::parse` and reads the parsed URL out into plain values:
/// `Url::as_str` for the text, `Url::host` for the host and
/// `Url::path_segments` for the path. A parse error is handed back as its
/// `Display` message. The contract only gives the outcome its name,
/// `url_parse`; nothing about the URL syntax is claimed.
#[verifier::external_body]
pub(crate) fn parse_url(input: &str) -> (r: Result<Address, String>)
    ensures
        outcome_model(r) == url_parse(input@),
{
    match Url::parse(input) {
        Ok(u) => Ok(Address {
            text: u.as_str().to_string(),
            host: match u.host() {
                Some(Host::Domain(d)) => HostKind::Domain(d.to_string()),
                Some(Host::Ipv4(_)) => HostKind::Ipv4,
                Some(Host::Ipv6(_)) => HostKind::Ipv6,
                None => HostKind::Absent,
            },
            segments: u.path_segments().map(|p| p.map(String::from).collect()),
        }),
        Err(e) => Err(e.to_string()),
    }
}

} // verus!
