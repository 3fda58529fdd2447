//! The requests that the capabilities make of the services behind them.

use crate::members::text_of;
use vstd::prelude::*;
use vstd::string::StrSliceExecFns;

verus! {

/// A named value of the query of a request.
#[derive(Debug)]
pub struct QueryPair {
    pub name: String,
    pub value: String,
}

/// A request of a service: the address to ask, and the values of the
/// query in their order. The values are given as they are meant, before
/// any encoding for the address.
#[derive(Debug)]
pub struct ToolRequest {
    pub url: String,
    pub pairs: Vec<QueryPair>,
}

/// The value of a [`ToolRequest`].
pub struct ToolRequestView {
    pub url: Seq<char>,
    pub pairs: Seq<(Seq<char>, Seq<char>)>,
}

impl View for ToolRequest {
    type V = ToolRequestView;

    open spec fn view(&self) -> ToolRequestView {
        ToolRequestView {
            url: self.url@,
            pairs: Seq::new(self.pairs@.len(), |i: int| (self.pairs@[i].name@, self.pairs@[i].value@)),
        }
    }
}

impl ToolRequest {
    /// A request of `url` without a query.
    pub fn new(url: String) -> (r: Self)
        ensures
            r@ == (ToolRequestView { url: url@, pairs: Seq::empty() }),
    {
        let r = ToolRequest { url, pairs: Vec::new() };
        assert(r@.pairs =~= Seq::empty());
        r
    }

    /// Adds a value to the end of the query.
    pub fn with(self, name: &str, value: &str) -> (r: Self)
        ensures
            r@ == (ToolRequestView { url: self@.url, pairs: self@.pairs.push((name@, value@)) }),
    {
        let mut pairs = self.pairs;
        pairs.push(QueryPair { name: name.to_owned(), value: value.to_owned() });
        let r = ToolRequest { url: self.url, pairs };
        assert(r@.pairs =~= self@.pairs.push((name@, value@)));
        r
    }
}

/// The most characters that an address and a pair for its query may have
/// together to be encoded.
pub const MAX_ADDRESS_LENGTH: usize = 100_000_000;

/// What `reqwest::Url` makes of an address to whose query a pair is
/// added: the address as `Url::parse` reads it and writes it back, with
/// the pair encoded as a form at the end of its query. Nothing where the
/// address cannot be parsed.
pub uninterp spec fn address_with_pair(address: Seq<char>, name: Seq<char>, value: Seq<char>) -> Option<Seq<char>>;

/// Adds a pair to the query of an address: parses the address with
/// `reqwest::Url::parse`, appends the pair with
/// `query_pairs_mut().append_pair` and writes the address back with
/// `Url::as_str`. An address that cannot be parsed gives nothing.
#[verifier::external_body]
fn add_query_pair(address: &str, name: &str, value: &str) -> (r: Option<String>)
    requires
        address@.len() + name@.len() + value@.len() <= MAX_ADDRESS_LENGTH,
    ensures
        text_of(r) == address_with_pair(address@, name@, value@),
{
    let mut url = reqwest::Url::parse(address).ok()?;
    url.query_pairs_mut().append_pair(name, value);
    Some(url.as_str().to_owned())
}

/// An address with the pairs from `from` on added to its query, one after
/// the other. Nothing where the address cannot be parsed, or where it
/// grows beyond [`MAX_ADDRESS_LENGTH`].
pub open spec fn address_from(
    address: Option<Seq<char>>,
    pairs: Seq<(Seq<char>, Seq<char>)>,
    from: int,
) -> Option<Seq<char>>
    decreases pairs.len() - from,
{
    if from < 0 || from >= pairs.len() {
        address
    } else {
        match address {
            None => None,
            Some(text) => if text.len() + pairs[from].0.len() + pairs[from].1.len()
                <= MAX_ADDRESS_LENGTH {
                address_from(
                    address_with_pair(text, pairs[from].0, pairs[from].1),
                    pairs,
                    from + 1,
                )
            } else {
                None
            },
        }
    }
}

impl ToolRequestView {
    /// The address to ask, with the query encoded. A request without a
    /// query is asked at its address as it stands.
    pub open spec fn address(self) -> Option<Seq<char>> {
        address_from(Some(self.url), self.pairs, 0)
    }
}

impl ToolRequest {
    /// The address to ask, with the query encoded.
    pub fn address(&self) -> (r: Option<String>)
        ensures
            text_of(r) == self@.address(),
    {
        let mut address: Option<String> = Some(self.url.clone());
        let mut i: usize = 0;
        while i < self.pairs.len()
            invariant
                i <= self.pairs@.len(),
                self@.address() == address_from(text_of(address), self@.pairs, i as int),
            decreases self.pairs@.len() - i,
        {
            address = match address {
                None => None,
                Some(text) => {
                    let name = self.pairs[i].name.as_str();
                    let value = self.pairs[i].value.as_str();
                    assert(self@.pairs[i as int] == (name@, value@));
                    let size = text.as_str().unicode_len();
                    let name_size = name.unicode_len();
                    let value_size = value.unicode_len();
                    if size <= MAX_ADDRESS_LENGTH && name_size <= MAX_ADDRESS_LENGTH - size
                        && value_size <= MAX_ADDRESS_LENGTH - size - name_size {
                        add_query_pair(text.as_str(), name, value)
                    } else {
                        None
                    }
                },
            };
            i += 1;
        }
        address
    }
}

} // verus!
