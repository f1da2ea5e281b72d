use vstd::prelude::*;

use crate::find::{first_index, lemma_first_index};

verus! {

/// String options at one scope (server or table), as key-value pairs. Where
/// a key occurs more than once, the first pair counts.
#[derive(Debug, Clone)]
pub struct Options {
    pub pairs: Vec<(String, String)>,
}

/// The keys of a list of option pairs.
pub open spec fn option_keys(pairs: Seq<(String, String)>) -> Seq<Seq<char>> {
    pairs.map_values(|p: (String, String)| p.0@)
}

/// The value set for `key`, or `fallback` where none is.
pub open spec fn option_or(
    pairs: Seq<(String, String)>,
    key: Seq<char>,
    fallback: Seq<char>,
) -> Seq<char> {
    match first_index(option_keys(pairs), key) {
        Some(i) => pairs[i].1@,
        None => fallback,
    }
}

impl Options {
    /// No options.
    pub fn new() -> (r: Options)
        ensures
            r.pairs@.len() == 0,
    {
        Options { pairs: Vec::new() }
    }

    /// Adds a pair after the existing ones.
    pub fn push(&mut self, key: &str, value: &str)
        ensures
            final(self).pairs@.len() == old(self).pairs@.len() + 1,
            final(self).pairs@.drop_last() == old(self).pairs@,
            final(self).pairs@.last().0@ == key@,
            final(self).pairs@.last().1@ == value@,
    {
        self.pairs.push((String::from_str(key), String::from_str(value)));
    }

    /// The value of `key`, or `default` where it is not set.
    pub fn require_or(&self, key: &str, default: &str) -> (r: String)
        ensures
            r@ == option_or(self.pairs@, key@, default@),
    {
        let ghost keys = option_keys(self.pairs@);
        let k = String::from_str(key);
        let mut i: usize = 0;
        while i < self.pairs.len()
            invariant
                i <= self.pairs@.len(),
                keys == option_keys(self.pairs@),
                k@ == key@,
                forall|j: int| 0 <= j < i ==> keys[j] != key@,
            decreases self.pairs.len() - i,
        {
            if self.pairs[i].0 == k {
                proof {
                    lemma_first_index(keys, key@, Some(i as int));
                }
                return self.pairs[i].1.clone();
            }
            i = i + 1;
        }
        proof {
            lemma_first_index(keys, key@, None);
        }
        String::from_str(default)
    }
}

/// The parameters of the connection to the remote table.
#[derive(Debug, Clone, PartialEq, Eq)]
pub struct ConnParams {
    pub base_url: String,
    pub api_key: String,
    pub cid: String,
    pub object: String,
}

/// The base URL used where no option sets one.
pub open spec fn default_base_url() -> Seq<char> {
    "https://fdw.huruli.dev"@
}

/// The connection id used where no option sets one.
pub open spec fn default_cid() -> Seq<char> {
    "cid1"@
}

/// Each parameter of `r` is the one that `opts` sets, else the one of `prev`.
pub open spec fn overlays(r: ConnParams, pairs: Seq<(String, String)>, prev: ConnParams) -> bool {
    &&& r.base_url@ == option_or(pairs, "api_url"@, prev.base_url@)
    &&& r.api_key@ == option_or(pairs, "api_key"@, prev.api_key@)
    &&& r.cid@ == option_or(pairs, "connection_id"@, prev.cid@)
    &&& r.object@ == option_or(pairs, "object"@, prev.object@)
}

impl ConnParams {
    /// The compiled defaults: the documented endpoint, no key, the
    /// placeholder connection id, and no object.
    pub fn defaults() -> (r: ConnParams)
        ensures
            r.base_url@ == default_base_url(),
            r.api_key@.len() == 0,
            r.cid@ == default_cid(),
            r.object@.len() == 0,
    {
        ConnParams {
            base_url: String::from_str("https://fdw.huruli.dev"),
            api_key: String::new(),
            cid: String::from_str("cid1"),
            object: String::new(),
        }
    }

    /// Overlays `opts` onto these parameters.
    pub fn resolve(&self, opts: &Options) -> (r: ConnParams)
        ensures
            overlays(r, opts.pairs@, *self),
    {
        ConnParams {
            base_url: opts.require_or("api_url", self.base_url.as_str()),
            api_key: opts.require_or("api_key", self.api_key.as_str()),
            cid: opts.require_or("connection_id", self.cid.as_str()),
            object: opts.require_or("object", self.object.as_str()),
        }
    }
}

} // verus!
