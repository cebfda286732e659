//! From what a user typed, a full URL or the short form `parent/repo`, to an
//! address.

use vstd::prelude::*;
use crate::address::{outcome_model, parse_url, url_parse, Address, AddressModel};
use crate::location::{resolve, LocationModel, LocationPart};

verus! {

/// A text is a short reference when it holds exactly one `/`, with at least
/// one character on either side of it.
pub open spec fn valid_fragment(s: Seq<char>) -> bool {
    exists|i: int|
        0 < i < s.len() - 1 && #[trigger] s[i] == '/' && forall|j: int|
            0 <= j < s.len() && j != i ==> #[trigger] s[j] != '/'
}

/// The index of the first `/` at or after `from`.
fn find_slash(s: &str, from: usize) -> (r: Option<usize>)
    requires
        from <= s@.len(),
    ensures
        match r {
            Some(p) => from <= p < s@.len() && s@[p as int] == '/' && forall|j: int|
                from <= j < p ==> s@[j] != '/',
            None => forall|j: int| from <= j < s@.len() ==> s@[j] != '/',
        },
{
    let n = s.unicode_len();
    let mut i: usize = from;
    while i < n
        invariant
            from <= i <= n,
            n == s@.len(),
            forall|j: int| from <= j < i ==> s@[j] != '/',
        decreases n - i,
    {
        if s.get_char(i) == '/' {
            return Some(i);
        }
        i += 1;
    }
    None
}

/// Whether a text is a short reference, `parent/repo`.
pub fn validate_fragment(frag: &str) -> (ok: bool)
    ensures
        ok == valid_fragment(frag@),
{
    let n = frag.unicode_len();
    match find_slash(frag, 0) {
        Some(p) => {
            if p == 0 || p + 1 >= n {
                proof {
                    assert forall|i: int| 0 < i < n - 1 && frag@[i] == '/' implies exists|j: int|
                        0 <= j < n && j != i && frag@[j] == '/' by {
                        assert(frag@[p as int] == '/');
                    }
                }
                false
            } else {
                match find_slash(frag, p + 1) {
                    Some(q) => {
                        proof {
                            assert forall|i: int| 0 < i < n - 1 && frag@[i] == '/' implies exists|
                                j: int,
                            |
                                0 <= j < n && j != i && frag@[j] == '/' by {
                                if i == p {
                                    assert(frag@[q as int] == '/');
                                } else {
                                    assert(frag@[p as int] == '/');
                                }
                            }
                        }
                        false
                    },
                    None => {
                        assert(frag@[p as int] == '/');
                        true
                    },
                }
            }
        },
        None => false,
    }
}

/// What a short reference is put behind to make a URL of it.
pub open spec fn default_prefix() -> Seq<char> {
    "https://www.github.com/"@
}

/// The URL that a text stands for when it does not parse as one itself: a
/// short reference behind the default prefix; nothing for any other text.
pub open spec fn shorthand_text(s: Seq<char>) -> Option<Seq<char>> {
    if valid_fragment(s) {
        Some(default_prefix() + s)
    } else {
        None
    }
}

/// The address of a reference. A text that parses as a URL is that URL. Of
/// the others a short reference is parsed again behind the default prefix,
/// and the rest fail with what the parser said of the text itself.
pub open spec fn reference_address(s: Seq<char>) -> Result<AddressModel, Seq<char>> {
    match url_parse(s) {
        Ok(a) => Ok(a),
        Err(e) => match shorthand_text(s) {
            Some(full) => url_parse(full),
            None => Err(e),
        },
    }
}

/// The reference was neither a URL nor a short reference.
#[derive(Debug, Clone)]
pub struct MalformedReference {
    /// What the URL parser said.
    pub diagnostic: String,
}

/// An address that was read from a reference.
#[derive(Debug, Clone)]
pub struct TryUrl(pub Address);

impl TryUrl {
    /// The URL to try for a text that did not parse as one: for a short
    /// reference the text behind the default prefix, else nothing.
    pub fn shorthand_url(s: &str) -> (r: Option<String>)
        ensures
            match r {
                Some(full) => shorthand_text(s@) == Some(full@),
                None => shorthand_text(s@) is None,
            },
    {
        if validate_fragment(s) {
            Some("https://www.github.com/".to_owned().concat(s))
        } else {
            None
        }
    }

    /// What to return once the text itself has been parsed, given the outcome
    /// `direct` of that and, where another URL was tried, its outcome `retry`.
    pub fn settle(
        direct: Result<Address, String>,
        retry: Option<Result<Address, String>>,
    ) -> (r: Result<TryUrl, MalformedReference>)
        ensures
            match r {
                Ok(t) => Ok::<AddressModel, Seq<char>>(t.0@) == settled(
                    outcome_model(direct),
                    retry_model(retry),
                ),
                Err(e) => Err::<AddressModel, Seq<char>>(e.diagnostic@) == settled(
                    outcome_model(direct),
                    retry_model(retry),
                ),
            },
    {
        match direct {
            Ok(a) => Ok(TryUrl(a)),
            Err(e) => match retry {
                Some(Ok(a)) => Ok(TryUrl(a)),
                Some(Err(e2)) => Err(MalformedReference { diagnostic: e2 }),
                None => Err(MalformedReference { diagnostic: e }),
            },
        }
    }

    /// Reads a reference: a URL, or a short reference `parent/repo`.
    pub fn from_str(s: &str) -> (r: Result<TryUrl, MalformedReference>)
        ensures
            match r {
                Ok(t) => reference_address(s@) == Ok::<AddressModel, Seq<char>>(t.0@),
                Err(e) => reference_address(s@) == Err::<AddressModel, Seq<char>>(e.diagnostic@),
            },
    {
        let direct = parse_url(s);
        let retry = if direct.is_err() {
            match Self::shorthand_url(s) {
                Some(full) => Some(parse_url(full.as_str())),
                None => None,
            }
        } else {
            None
        };
        Self::settle(direct, retry)
    }

    /// The address that was read.
    pub fn into_address(self) -> (a: Address)
        ensures
            a == self.0,
    {
        self.0
    }
}

impl From<Address> for TryUrl {
    fn from(url: Address) -> (t: TryUrl) {
        TryUrl(url)
    }
}

impl vstd::std_specs::convert::FromSpecImpl<Address> for TryUrl {
    open spec fn obeys_from_spec() -> bool {
        true
    }

    open spec fn from_spec(url: Address) -> TryUrl {
        TryUrl(url)
    }
}

impl From<TryUrl> for Address {
    fn from(try_url: TryUrl) -> (a: Address) {
        try_url.0
    }
}

impl vstd::std_specs::convert::FromSpecImpl<TryUrl> for Address {
    open spec fn obeys_from_spec() -> bool {
        true
    }

    open spec fn from_spec(try_url: TryUrl) -> Address {
        try_url.0
    }
}

/// The model of the outcome of a second parse, where one was made.
pub open spec fn retry_model(retry: Option<Result<Address, String>>) -> Option<
    Result<AddressModel, Seq<char>>,
> {
    match retry {
        Some(r) => Some(outcome_model(r)),
        None => None,
    }
}

/// The first outcome if it is an address, else the second where there is
/// one, else the first.
pub open spec fn settled(
    direct: Result<AddressModel, Seq<char>>,
    retry: Option<Result<AddressModel, Seq<char>>>,
) -> Result<AddressModel, Seq<char>> {
    match direct {
        Ok(a) => Ok(a),
        Err(e) => match retry {
            Some(r) => r,
            None => Err(e),
        },
    }
}

/// A text that parses as a URL is read as that URL, unchanged.
pub proof fn url_is_kept(s: Seq<char>)
    requires
        url_parse(s) is Ok,
    ensures
        reference_address(s) == url_parse(s),
{
}

/// A short reference that is no URL itself is read as the URL made of the
/// default prefix and the reference.
pub proof fn shorthand_goes_behind_prefix(s: Seq<char>)
    requires
        valid_fragment(s),
        url_parse(s) is Err,
    ensures
        reference_address(s) == url_parse(default_prefix() + s),
{
}

/// A text that is neither a URL nor a short reference is refused, with what
/// the parser said of it.
pub proof fn malformed_is_refused(s: Seq<char>)
    requires
        url_parse(s) is Err,
        !valid_fragment(s),
    ensures
        reference_address(s) == url_parse(s),
        reference_address(s) is Err,
{
}

/// A full URL behind the default prefix is never a short reference.
pub proof fn prefixed_is_no_fragment(s: Seq<char>)
    ensures
        !valid_fragment(default_prefix() + s),
{
    reveal_strlit("https://www.github.com/");
    let full = default_prefix() + s;
    assert(full[6] == '/');
    assert(full[7] == '/');
    assert forall|i: int| 0 < i < full.len() - 1 && #[trigger] full[i] == '/' implies exists|j: int|
        0 <= j < full.len() && j != i && #[trigger] full[j] == '/' by {
        if i == 6 {
            assert(full[7] == '/');
        } else {
            assert(full[6] == '/');
        }
    }
}

/// A short reference that is no URL itself and the URL it stands for are read
/// as the same address, and so resolve to the same location.
pub proof fn shorthand_agrees_with_full_url(s: Seq<char>)
    requires
        valid_fragment(s),
        url_parse(s) is Err,
    ensures
        reference_address(s) == reference_address(default_prefix() + s),
        location_of_reference(s) == location_of_reference(default_prefix() + s),
{
    prefixed_is_no_fragment(s);
}

/// What became of a reference, from the text to the location.
pub enum Resolution {
    /// The location of the repository.
    Located(LocationModel),
    /// The text is no reference; with the parser's message.
    Malformed(Seq<char>),
    /// The address has no usable path or host.
    Unusable(LocationPart),
}

/// Reading a reference and resolving its address, in one.
pub open spec fn location_of_reference(s: Seq<char>) -> Resolution {
    match reference_address(s) {
        Ok(a) => match resolve(a) {
            Ok(location) => Resolution::Located(location),
            Err(part) => Resolution::Unusable(part),
        },
        Err(e) => Resolution::Malformed(e),
    }
}

} // verus!
