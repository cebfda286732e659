//! From an address to the place of a repository: its host, its optional
//! parent and its name.

use vstd::prelude::*;
use crate::address::{segments_model, Address, AddressModel, HostKind, HostModel};

verus! {

/// The part of an address that could not be used.
#[derive(Debug, Clone, Copy, PartialEq, Eq, Structural)]
pub enum LocationPart {
    /// The path holds no segment to take a repository's name from.
    Parent,
    /// The host is absent or is no domain name.
    InvalidHost,
}

/// Why an address gives no location.
#[derive(Debug, Clone, Copy, PartialEq, Eq, Structural)]
pub struct LocationParsingError(pub LocationPart);

/// The message of each error.
pub open spec fn message_of(part: LocationPart) -> Seq<char> {
    match part {
        LocationPart::Parent => "unable to parse parent portion of url"@,
        LocationPart::InvalidHost => "invalid hostname"@,
    }
}

impl LocationParsingError {
    /// The error of an address without a usable path.
    pub fn parent() -> (e: Self)
        ensures
            e.0 == LocationPart::Parent,
    {
        LocationParsingError(LocationPart::Parent)
    }

    /// The error of an address without a domain name as host.
    pub fn host() -> (e: Self)
        ensures
            e.0 == LocationPart::InvalidHost,
    {
        LocationParsingError(LocationPart::InvalidHost)
    }

    /// The message to show for this error.
    pub fn message(&self) -> (m: String)
        ensures
            m@ == message_of(self.0),
    {
        match self.0 {
            LocationPart::Parent => "unable to parse parent portion of url".to_owned(),
            LocationPart::InvalidHost => "invalid hostname".to_owned(),
        }
    }
}

/// What the first two segments of a path hold.
#[derive(Debug, Clone)]
pub enum PathShape {
    /// A repository directly under the host.
    OneSegment(String),
    /// A parent and, under it, a repository.
    TwoSegments(String, String),
}

/// Mathematical model of a [`PathShape`].
pub enum PathShapeModel {
    OneSegment(Seq<char>),
    TwoSegments(Seq<char>, Seq<char>),
}

impl PathShapeModel {
    /// The parent, where the path has one.
    pub open spec fn parent(self) -> Option<Seq<char>> {
        match self {
            PathShapeModel::OneSegment(_) => None,
            PathShapeModel::TwoSegments(parent, _) => Some(parent),
        }
    }

    /// The repository's name.
    pub open spec fn repo(self) -> Seq<char> {
        match self {
            PathShapeModel::OneSegment(repo) => repo,
            PathShapeModel::TwoSegments(_, repo) => repo,
        }
    }
}

impl View for PathShape {
    type V = PathShapeModel;

    open spec fn view(&self) -> PathShapeModel {
        match *self {
            PathShape::OneSegment(repo) => PathShapeModel::OneSegment(repo@),
            PathShape::TwoSegments(parent, repo) => PathShapeModel::TwoSegments(parent@, repo@),
        }
    }
}

/// The shape of a path. Only its first two segments count, and an empty
/// segment counts as none: without a first segment there is no shape, without
/// a second the first is the repository.
pub open spec fn shape_of(segments: Option<Seq<Seq<char>>>) -> Option<PathShapeModel> {
    match segments {
        None => None,
        Some(s) => if s.len() == 0 || s[0].len() == 0 {
            None
        } else if s.len() >= 2 && s[1].len() > 0 {
            Some(PathShapeModel::TwoSegments(s[0], s[1]))
        } else {
            Some(PathShapeModel::OneSegment(s[0]))
        },
    }
}

/// Reads the shape of a path off its segments.
pub fn path_shape(segments: &Option<Vec<String>>) -> (r: Option<PathShape>)
    ensures
        match r {
            Some(shape) => shape_of(segments_model(*segments)) == Some(shape@),
            None => shape_of(segments_model(*segments)) is None,
        },
{
    match segments {
        None => None,
        Some(segs) => {
            if segs.len() == 0 || segs[0].as_str().is_empty() {
                None
            } else if segs.len() >= 2 && !segs[1].as_str().is_empty() {
                Some(PathShape::TwoSegments(segs[0].clone(), segs[1].clone()))
            } else {
                Some(PathShape::OneSegment(segs[0].clone()))
            }
        },
    }
}

/// The prefix that is taken off a host.
pub open spec fn www() -> Seq<char> {
    seq!['w', 'w', 'w', '.']
}

/// The host without one leading `www.`.
pub open spec fn strip_www(host: Seq<char>) -> Seq<char> {
    if www().is_prefix_of(host) {
        host.skip(4)
    } else {
        host
    }
}

/// Takes one leading `www.` off a host name; any other host stays as it is.
pub fn without_www(host: &str) -> (r: String)
    ensures
        r@ == strip_www(host@),
{
    let n = host.unicode_len();
    if n >= 4 && host.get_char(0) == 'w' && host.get_char(1) == 'w' && host.get_char(2) == 'w'
        && host.get_char(3) == '.' {
        proof {
            assert(www() =~= host@.subrange(0, 4));
            assert(host@.subrange(4, n as int) =~= host@.skip(4));
        }
        host.substring_char(4, n).to_owned()
    } else {
        proof {
            if www().is_prefix_of(host@) {
                assert(host@.subrange(0, 4) == www());
                assert(host@.subrange(0, 4)[0] == 'w');
                assert(host@.subrange(0, 4)[1] == 'w');
                assert(host@.subrange(0, 4)[2] == 'w');
                assert(host@.subrange(0, 4)[3] == '.');
            }
        }
        host.to_owned()
    }
}

/// Where a repository lives: the address it came from, the host without a
/// leading `www.`, the parent if the path names one, and the repository.
#[derive(Debug, Clone)]
pub struct RepoLocation {
    pub url: Address,
    pub parent: Option<String>,
    pub repo: String,
    pub host: String,
}

/// Mathematical model of a [`RepoLocation`].
pub struct LocationModel {
    pub url: AddressModel,
    pub parent: Option<Seq<char>>,
    pub repo: Seq<char>,
    pub host: Seq<char>,
}

impl View for RepoLocation {
    type V = LocationModel;

    open spec fn view(&self) -> LocationModel {
        LocationModel {
            url: self.url@,
            parent: match self.parent {
                Some(p) => Some(p@),
                None => None,
            },
            repo: self.repo@,
            host: self.host@,
        }
    }
}

impl LocationModel {
    /// The repository has a name, and so has the parent where there is one.
    pub open spec fn well_formed(self) -> bool {
        &&& self.repo.len() > 0
        &&& match self.parent {
            Some(p) => p.len() > 0,
            None => true,
        }
    }
}

/// The location of an address. The path is looked at first: without a shape
/// the address fails on its path whatever its host is. Then the host must be
/// a domain name.
pub open spec fn resolve(a: AddressModel) -> Result<LocationModel, LocationPart> {
    match shape_of(a.segments) {
        None => Err(LocationPart::Parent),
        Some(shape) => match a.host {
            HostModel::Domain(d) => Ok(
                LocationModel { url: a, parent: shape.parent(), repo: shape.repo(), host: strip_www(d) },
            ),
            _ => Err(LocationPart::InvalidHost),
        },
    }
}

/// Every location that an address resolves to is well formed, and it has a
/// parent exactly when the path's second segment is there and not empty.
pub proof fn resolved_location_is_well_formed(a: AddressModel)
    requires
        resolve(a) is Ok,
    ensures
        resolve(a)->Ok_0.well_formed(),
        resolve(a)->Ok_0.url == a,
        resolve(a)->Ok_0.parent is Some <==> a.segments->Some_0.len() >= 2
            && a.segments->Some_0[1].len() > 0,
{
}

impl RepoLocation {
    /// Resolves an address to the location of its repository.
    pub fn from_url(url: Address) -> (r: Result<RepoLocation, LocationParsingError>)
        ensures
            match r {
                Ok(location) => resolve(url@) == Ok::<LocationModel, LocationPart>(location@),
                Err(e) => resolve(url@) == Err::<LocationModel, LocationPart>(e.0),
            },
            r is Ok ==> r->Ok_0@.well_formed(),
    {
        let shape = match path_shape(&url.segments) {
            Some(shape) => shape,
            None => {
                return Err(LocationParsingError::parent());
            },
        };
        let host = match &url.host {
            HostKind::Domain(d) => without_www(d.as_str()),
            _ => {
                return Err(LocationParsingError::host());
            },
        };
        match shape {
            PathShape::OneSegment(repo) => Ok(RepoLocation { url, parent: None, repo, host }),
            PathShape::TwoSegments(parent, repo) => Ok(
                RepoLocation { url, parent: Some(parent), repo, host },
            ),
        }
    }
}

} // verus!
