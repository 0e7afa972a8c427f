//! A cap on the rate of calls: which bucket a call draws from, and what follows when
//! the bucket is empty.
//!
//! The buckets themselves are kept beside the layer, one for each rate that it names,
//! since they run on a clock.

use vstd::prelude::*;
use vstd::string::*;

use crate::assoc;
use crate::engine_error::{EngineError, ValidationKind};
use crate::layer::hooks::Admit;

verus! {

/// A cap on the rate of calls.
#[derive(Debug)]
pub struct RateLimitLayer {
    buckets: Vec<(String, u32)>,
    default_bucket: Option<u32>,
    one_key: bool,
}

/// Permits per second of a bucket: at least one.
pub open spec fn rate_of(per_second: u32) -> u32 {
    if per_second == 0 {
        1
    } else {
        per_second
    }
}

fn rate(per_second: u32) -> (r: u32)
    ensures
        r == rate_of(per_second),
        r >= 1,
{
    if per_second == 0 {
        1
    } else {
        per_second
    }
}

/// The bucket that a call draws from.
#[derive(Clone, Copy, Debug, PartialEq, Eq, Structural)]
pub enum Bucket {
    /// The one at this place among the named ones.
    Named(usize),
    /// The one for keys without their own.
    Fallback,
}

impl RateLimitLayer {
    /// Names and rates of the named buckets.
    pub closed spec fn pairs(self) -> Seq<(Seq<char>, u32)> {
        assoc::named(self.buckets@)
    }

    /// The rate of each named bucket.
    pub open spec fn rates(self) -> Map<Seq<char>, u32> {
        assoc::map_of(self.pairs())
    }

    /// The rate of the bucket for keys without their own.
    pub closed spec fn fallback(self) -> Option<u32> {
        self.default_bucket
    }

    /// Whether every call has the same key.
    pub closed spec fn shares_key(self) -> bool {
        self.one_key
    }

    /// No key has two buckets.
    #[verifier::type_invariant]
    pub closed spec fn valid(self) -> bool {
        assoc::distinct(self.pairs())
    }

    /// One bucket for all calls.
    pub fn single_bucket(per_second: u32) -> (r: RateLimitLayer)
        ensures
            r.rates() == Map::<Seq<char>, u32>::empty(),
            r.fallback() == Some(rate_of(per_second)),
            r.shares_key(),
    {
        let r = RateLimitLayer {
            buckets: Vec::new(),
            default_bucket: Some(rate(per_second)),
            one_key: true,
        };
        assert(r.pairs() =~= Seq::empty());
        r
    }

    /// No bucket yet. The key of a call is what the client's classifier says.
    pub fn with_classifier() -> (r: RateLimitLayer)
        ensures
            r.rates() == Map::<Seq<char>, u32>::empty(),
            r.fallback() is None,
            !r.shares_key(),
    {
        let r = RateLimitLayer { buckets: Vec::new(), default_bucket: None, one_key: false };
        assert(r.pairs() =~= Seq::empty());
        r
    }

    /// Give a key its own bucket.
    pub fn bucket(self, key: &str, per_second: u32) -> (r: RateLimitLayer)
        ensures
            r.rates() == self.rates().insert(key@, rate_of(per_second)),
            r.fallback() == self.fallback(),
            r.shares_key() == self.shares_key(),
    {
        proof {
            use_type_invariant(&self);
        }
        let mut buckets = self.buckets;
        assoc::set(&mut buckets, key, rate(per_second));
        RateLimitLayer { buckets, default_bucket: self.default_bucket, one_key: self.one_key }
    }

    /// Give the keys without their own bucket one that they share.
    pub fn default_bucket(self, per_second: u32) -> (r: RateLimitLayer)
        ensures
            r.pairs() == self.pairs(),
            r.fallback() == Some(rate_of(per_second)),
            r.shares_key() == self.shares_key(),
    {
        proof {
            use_type_invariant(&self);
        }
        RateLimitLayer {
            buckets: self.buckets,
            default_bucket: Some(rate(per_second)),
            one_key: self.one_key,
        }
    }

    /// Keys and rates of the named buckets, to make them.
    pub fn named_buckets(&self) -> (r: &Vec<(String, u32)>)
        ensures
            assoc::named(r@) == self.pairs(),
    {
        &self.buckets
    }

    /// The rate of the bucket for keys without their own, to make it.
    pub fn fallback_rate(&self) -> (r: Option<u32>)
        ensures
            r == self.fallback(),
    {
        self.default_bucket
    }

    /// The key of a call.
    pub open spec fn key_spec(self, classified: Seq<char>) -> Seq<char> {
        if self.shares_key() {
            "__default__"@
        } else {
            classified
        }
    }

    /// The key of a call, from what the client's classifier said.
    pub fn key(&self, classified: &str) -> (r: String)
        ensures
            r@ == self.key_spec(classified@),
    {
        if self.one_key {
            "__default__".to_owned()
        } else {
            classified.to_owned()
        }
    }

    /// The bucket that a call with this key draws from. Without one the call goes
    /// through.
    pub fn choose_bucket(&self, key: &str) -> (r: Option<Bucket>)
        ensures
            match r {
                Some(Bucket::Named(i)) => i < self.pairs().len() && self.pairs()[i as int].0 == key@
                    && self.rates().contains_key(key@) && self.pairs()[i as int].1
                    == self.rates()[key@],
                Some(Bucket::Fallback) => !self.rates().contains_key(key@)
                    && self.fallback() is Some,
                None => !self.rates().contains_key(key@) && self.fallback() is None,
            },
    {
        proof {
            use_type_invariant(self);
        }
        match assoc::find(&self.buckets, key) {
            Some(i) => {
                assert(self.pairs()[i as int] == (
                    self.buckets@[i as int].0@,
                    self.buckets@[i as int].1,
                ));
                Some(Bucket::Named(i))
            },
            None => match self.default_bucket {
                Some(_) => Some(Bucket::Fallback),
                None => None,
            },
        }
    }
}

/// The error of a call whose bucket is empty.
pub open spec fn exhausted(method: Seq<char>, key: Seq<char>) -> EngineError<Seq<char>> {
    EngineError::Validation {
        kind: ValidationKind::InvalidInput,
        detail: "rate-limit: method "@ + method + " bucket "@ + key + " exhausted"@,
    }
}

/// Whether a call goes through, from whether its bucket had a permit. Without a
/// bucket it does.
pub fn verdict(method: &str, key: &str, permitted: Option<bool>) -> (r: Admit)
    ensures
        match permitted {
            Some(false) => r matches Admit::Reject(e) && (*e)@ == exhausted(method@, key@),
            _ => r is Proceed,
        },
{
    match permitted {
        Some(false) => {
            let mut detail = "rate-limit: method ".to_owned();
            detail.append(method);
            detail.append(" bucket ");
            detail.append(key);
            detail.append(" exhausted");
            Admit::reject(EngineError::Validation { kind: ValidationKind::InvalidInput, detail })
        },
        _ => Admit::Proceed,
    }
}

} // verus!
