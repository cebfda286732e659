//! Where a fetched repository is kept and under what it is filed.

use vstd::prelude::*;
use crate::address::texts;
use crate::location::{LocationModel, RepoLocation};

verus! {

/// The directories under the cache root that lead to a repository: the host,
/// the parent where there is one, and the repository.
pub open spec fn cache_components(location: LocationModel) -> Seq<Seq<char>> {
    match location.parent {
        Some(parent) => seq![location.host, parent, location.repo],
        None => seq![location.host, location.repo],
    }
}

/// The directories under the cache root that lead to the repository, outermost
/// first.
pub fn cache_path(location: &RepoLocation) -> (path: Vec<String>)
    ensures
        texts(path@) == cache_components(location@),
{
    let mut path: Vec<String> = Vec::new();
    path.push(location.host.clone());
    match &location.parent {
        Some(parent) => {
            path.push(parent.clone());
        },
        None => {},
    }
    path.push(location.repo.clone());
    assert(texts(path@) =~= cache_components(location@));
    path
}

/// Where the language or the name of a filing comes from.
#[derive(Debug, Clone)]
pub enum Source {
    /// The user gave it.
    Given(String),
    /// It is derived from the repository.
    Derived,
    /// The user gave none and asked for nothing to be derived.
    Missing,
}

/// Mathematical model of a [`Source`].
pub enum SourceModel {
    Given(Seq<char>),
    Derived,
    Missing,
}

impl View for Source {
    type V = SourceModel;

    open spec fn view(&self) -> SourceModel {
        match *self {
            Source::Given(value) => SourceModel::Given(value@),
            Source::Derived => SourceModel::Derived,
            Source::Missing => SourceModel::Missing,
        }
    }
}

/// A given value is used as it is. Without one the value is derived, unless
/// `raw` forbids that: then it is missing.
pub open spec fn source_of(given: Option<Seq<char>>, raw: bool) -> SourceModel {
    match given {
        Some(value) => SourceModel::Given(value),
        None => if raw {
            SourceModel::Missing
        } else {
            SourceModel::Derived
        },
    }
}

/// The model of a value that the user may have given.
pub open spec fn given_model(given: Option<String>) -> Option<Seq<char>> {
    match given {
        Some(value) => Some(value@),
        None => None,
    }
}

/// Decides where the language or the name of a filing comes from.
pub fn choose_source(given: Option<String>, raw: bool) -> (source: Source)
    ensures
        source@ == source_of(given_model(given), raw),
{
    match given {
        Some(value) => Source::Given(value),
        None => if raw {
            Source::Missing
        } else {
            Source::Derived
        },
    }
}

} // verus!
