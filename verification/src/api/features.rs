//! Optional per-request modifiers: consistency mode, blocking (long-poll)
//! queries, filtering and caching.

use vstd::prelude::*;

use crate::api::endpoint::{hview, ov, qview, HeaderPair, QueryPair, RequestParts};
use crate::text::{dec_str, u64_to_string};

verus! {

/// Configuration options for the blocking-queries feature: the modification
/// index to watch and an optional maximum wait duration such as `5s`.
#[derive(Debug)]
pub struct Blocking {
    pub index: u64,
    pub wait: Option<String>,
}

/// Configuration options for the consistency-mode feature.
#[allow(non_camel_case_types)]
#[derive(Clone, Copy, Debug, PartialEq, Eq, Structural)]
pub enum ConsistencyMode {
    CONSISTENT,
    STALE,
}

/// A set of features which can be applied to an endpoint request.
///
/// All fields are independently optional; no combination is validated here —
/// an invalid combination is rejected by the remote service and surfaced
/// through the error classifier.
#[derive(Debug)]
pub struct Features {
    pub blocking: Option<Blocking>,
    pub cached: Option<String>,
    pub filter: Option<String>,
    pub mode: Option<ConsistencyMode>,
}

/// The mathematical value of a `Blocking` configuration.
pub struct BlockingV {
    pub index: u64,
    pub wait: Option<Seq<char>>,
}

/// The mathematical value of a `Features` descriptor.
pub struct FeaturesV {
    pub blocking: Option<BlockingV>,
    pub cached: Option<Seq<char>>,
    pub filter: Option<Seq<char>>,
    pub mode: Option<ConsistencyMode>,
}

impl View for Blocking {
    type V = BlockingV;

    open spec fn view(&self) -> BlockingV {
        BlockingV { index: self.index, wait: ov(self.wait) }
    }
}

impl View for Features {
    type V = FeaturesV;

    open spec fn view(&self) -> FeaturesV {
        FeaturesV {
            blocking: match self.blocking {
                Some(b) => Some(b@),
                None => None,
            },
            cached: ov(self.cached),
            filter: ov(self.filter),
            mode: self.mode,
        }
    }
}

impl Clone for Blocking {
    /// Clones the configuration without changing its value.
    fn clone(&self) -> (r: Self)
        ensures
            r@ == self@,
    {
        Blocking {
            index: self.index,
            wait: match &self.wait {
                Some(w) => Some(w.clone()),
                None => None,
            },
        }
    }
}

impl Clone for Features {
    /// Clones the descriptor without changing its value.
    fn clone(&self) -> (r: Self)
        ensures
            r@ == self@,
    {
        Features {
            blocking: match &self.blocking {
                Some(b) => Some(b.clone()),
                None => None,
            },
            cached: match &self.cached {
                Some(c) => Some(c.clone()),
                None => None,
            },
            filter: match &self.filter {
                Some(f) => Some(f.clone()),
                None => None,
            },
            mode: self.mode,
        }
    }
}

impl Default for Features {
    /// A descriptor with every feature disabled.
    fn default() -> (r: Self)
        ensures
            r@.blocking is None,
            r@.cached is None,
            r@.filter is None,
            r@.mode is None,
    {
        Features { blocking: None, cached: None, filter: None, mode: None }
    }
}

/// The query pairs contributed by a blocking configuration: the watched
/// index, then the wait duration when one was given.
pub open spec fn blocking_pairs(b: BlockingV) -> Seq<(Seq<char>, Option<Seq<char>>)> {
    seq![("index"@, Some(dec_str(b.index as nat)))] + match b.wait {
        Some(w) => seq![("wait"@, Some(w))],
        None => Seq::<(Seq<char>, Option<Seq<char>>)>::empty(),
    }
}

/// The presence-only query key selecting a consistency mode.
pub open spec fn mode_key(m: ConsistencyMode) -> Seq<char> {
    match m {
        ConsistencyMode::CONSISTENT => "consistent"@,
        ConsistencyMode::STALE => "stale"@,
    }
}

/// Every query pair a `Features` descriptor adds to a request, in order:
/// blocking pairs, the filter expression, the caching flag, and the
/// consistency-mode flag.
pub open spec fn query_additions(f: FeaturesV) -> Seq<(Seq<char>, Option<Seq<char>>)> {
    (match f.blocking {
        Some(b) => blocking_pairs(b),
        None => Seq::<(Seq<char>, Option<Seq<char>>)>::empty(),
    }) + (match f.filter {
        Some(fl) => seq![("filter"@, Some(fl))],
        None => Seq::<(Seq<char>, Option<Seq<char>>)>::empty(),
    }) + (match f.cached {
        Some(_) => seq![("cached"@, None::<Seq<char>>)],
        None => Seq::<(Seq<char>, Option<Seq<char>>)>::empty(),
    }) + (match f.mode {
        Some(m) => seq![(mode_key(m), None::<Seq<char>>)],
        None => Seq::<(Seq<char>, Option<Seq<char>>)>::empty(),
    })
}

/// Every header field a `Features` descriptor adds to a request: a
/// `Cache-Control` header when caching is enabled with a non-empty policy.
/// An empty `cached` string still sets the query flag but adds no header.
pub open spec fn header_additions(f: FeaturesV) -> Seq<(Seq<char>, Seq<char>)> {
    match f.cached {
        Some(c) => if c.len() > 0 {
            seq![("Cache-Control"@, c)]
        } else {
            Seq::<(Seq<char>, Seq<char>)>::empty()
        },
        None => Seq::<(Seq<char>, Seq<char>)>::empty(),
    }
}

/// The view of an optional `Features` descriptor.
pub open spec fn fov(o: Option<Features>) -> Option<FeaturesV> {
    match o {
        Some(f) => Some(f@),
        None => None,
    }
}

/// The query pairs an optional descriptor adds; none when it is absent.
pub open spec fn features_query_additions(o: Option<FeaturesV>) -> Seq<
    (Seq<char>, Option<Seq<char>>),
> {
    match o {
        Some(f) => query_additions(f),
        None => Seq::<(Seq<char>, Option<Seq<char>>)>::empty(),
    }
}

/// The header fields an optional descriptor adds; none when it is absent.
pub open spec fn features_header_additions(o: Option<FeaturesV>) -> Seq<(Seq<char>, Seq<char>)> {
    match o {
        Some(f) => header_additions(f),
        None => Seq::<(Seq<char>, Seq<char>)>::empty(),
    }
}

impl Features {
    /// Mutates a request by appending the query parameters and header fields
    /// determined by the configured features. Parameters already on the
    /// request are kept untouched; feature-derived parameters are appended
    /// after them.
    pub fn process(&self, request: &mut RequestParts)
        ensures
            final(request).method == old(request).method,
            final(request).path@ == old(request).path@,
            final(request).body@ == old(request).body@,
            qview(final(request).query@) == qview(old(request).query@) + query_additions(self@),
            hview(final(request).headers@) == hview(old(request).headers@) + header_additions(
                self@,
            ),
    {
        let ghost q0 = qview(old(request).query@);
        let ghost h0 = hview(old(request).headers@);

        // Blocking queries
        if let Some(b) = &self.blocking {
            request.query.push(
                QueryPair { key: String::from_str("index"), value: Some(u64_to_string(b.index)) },
            );
            if let Some(w) = &b.wait {
                request.query.push(
                    QueryPair { key: String::from_str("wait"), value: Some(w.clone()) },
                );
            }
        }

        // Filtering
        if let Some(fl) = &self.filter {
            request.query.push(
                QueryPair { key: String::from_str("filter"), value: Some(fl.clone()) },
            );
        }

        // Caching
        if let Some(c) = &self.cached {
            if !c.as_str().is_empty() {
                request.headers.push(
                    HeaderPair { name: String::from_str("Cache-Control"), value: c.clone() },
                );
            }
            request.query.push(QueryPair { key: String::from_str("cached"), value: None });
        }

        // Consistency modes
        if let Some(m) = &self.mode {
            let key = match m {
                ConsistencyMode::CONSISTENT => String::from_str("consistent"),
                ConsistencyMode::STALE => String::from_str("stale"),
            };
            request.query.push(QueryPair { key, value: None });
        }

        proof {
            assert(qview(request.query@) =~= q0 + query_additions(self@));
            assert(hview(request.headers@) =~= h0 + header_additions(self@));
        }
    }

    /// Returns a builder for configuring features.
    pub fn builder() -> (b: FeaturesBuilder)
        ensures
            b.features@.blocking is None,
            b.features@.cached is None,
            b.features@.filter is None,
            b.features@.mode is None,
    {
        FeaturesBuilder { features: Features::default() }
    }
}

/// A builder assembling a `Features` descriptor one feature at a time.
#[derive(Debug)]
pub struct FeaturesBuilder {
    pub features: Features,
}

impl FeaturesBuilder {
    /// Enables blocking with the given configuration.
    pub fn blocking(self, b: Blocking) -> (r: Self)
        ensures
            r.features@ == (FeaturesV { blocking: Some(b@), ..self.features@ }),
    {
        FeaturesBuilder { features: Features { blocking: Some(b), ..self.features } }
    }

    /// Enables caching with the given cache-control policy; an empty policy
    /// enables caching with the server's default policy.
    pub fn cached(self, policy: &str) -> (r: Self)
        ensures
            r.features@ == (FeaturesV { cached: Some(policy@), ..self.features@ }),
    {
        FeaturesBuilder { features: Features { cached: Some(policy.to_owned()), ..self.features } }
    }

    /// Sets a filter expression, passed through verbatim.
    pub fn filter(self, expression: &str) -> (r: Self)
        ensures
            r.features@ == (FeaturesV { filter: Some(expression@), ..self.features@ }),
    {
        FeaturesBuilder {
            features: Features { filter: Some(expression.to_owned()), ..self.features },
        }
    }

    /// Selects a consistency mode for the read.
    pub fn mode(self, mode: ConsistencyMode) -> (r: Self)
        ensures
            r.features@ == (FeaturesV { mode: Some(mode), ..self.features@ }),
    {
        FeaturesBuilder { features: Features { mode: Some(mode), ..self.features } }
    }

    /// Finishes the builder.
    pub fn build(self) -> (r: Features)
        ensures
            r@ == self.features@,
    {
        self.features
    }
}

/// The pairs each feature contributes, for reasoning about `query_additions`
/// piecewise.
pub open spec fn filter_pairs(f: FeaturesV) -> Seq<(Seq<char>, Option<Seq<char>>)> {
    match f.filter {
        Some(fl) => seq![("filter"@, Some(fl))],
        None => Seq::<(Seq<char>, Option<Seq<char>>)>::empty(),
    }
}

/// The pair the caching flag contributes.
pub open spec fn cached_pairs(f: FeaturesV) -> Seq<(Seq<char>, Option<Seq<char>>)> {
    match f.cached {
        Some(_) => seq![("cached"@, None::<Seq<char>>)],
        None => Seq::<(Seq<char>, Option<Seq<char>>)>::empty(),
    }
}

/// The pair the consistency mode contributes.
pub open spec fn mode_pairs(f: FeaturesV) -> Seq<(Seq<char>, Option<Seq<char>>)> {
    match f.mode {
        Some(m) => seq![(mode_key(m), None::<Seq<char>>)],
        None => Seq::<(Seq<char>, Option<Seq<char>>)>::empty(),
    }
}

/// The pairs the blocking configuration contributes.
pub open spec fn opt_blocking_pairs(f: FeaturesV) -> Seq<(Seq<char>, Option<Seq<char>>)> {
    match f.blocking {
        Some(b) => blocking_pairs(b),
        None => Seq::<(Seq<char>, Option<Seq<char>>)>::empty(),
    }
}

/// Every query key a feature can contribute, with its rendered length pinned
/// down; the workhorse behind the exclusivity laws.
proof fn lemma_feature_keys(f: FeaturesV)
    ensures
        forall|i: int|
            0 <= i < opt_blocking_pairs(f).len() ==> (#[trigger] opt_blocking_pairs(f)[i]).0
                == "index"@ || opt_blocking_pairs(f)[i].0 == "wait"@,
        f.blocking matches Some(b) && b.wait is None ==> forall|i: int|
            0 <= i < opt_blocking_pairs(f).len() ==> (#[trigger] opt_blocking_pairs(f)[i]).0
                == "index"@,
        forall|i: int|
            0 <= i < filter_pairs(f).len() ==> (#[trigger] filter_pairs(f)[i]).0 == "filter"@,
        forall|i: int|
            0 <= i < cached_pairs(f).len() ==> (#[trigger] cached_pairs(f)[i]).0 == "cached"@,
        forall|i: int|
            0 <= i < mode_pairs(f).len() ==> (#[trigger] mode_pairs(f)[i]).0 == mode_key(
                f.mode.unwrap(),
            ),
        query_additions(f) == opt_blocking_pairs(f) + filter_pairs(f) + cached_pairs(f)
            + mode_pairs(f),
{
}

/// Law (blocking round trip): with blocking configured, the feature-derived
/// query pairs carry `index`, rendered in decimal, and carry `wait` exactly
/// when a wait duration was given — with no `wait` key at all otherwise.
pub proof fn lemma_blocking_round_trip(f: FeaturesV)
    requires
        f.blocking is Some,
    ensures
        query_additions(f).contains(("index"@, Some(dec_str(f.blocking.unwrap().index as nat)))),
        f.blocking.unwrap().wait matches Some(w) ==> query_additions(f).contains((
            "wait"@,
            Some(w),
        )),
        f.blocking.unwrap().wait is None ==> forall|i: int|
            0 <= i < query_additions(f).len() ==> (#[trigger] query_additions(f)[i]).0 != "wait"@,
{
    lemma_feature_keys(f);
    let q = query_additions(f);
    let b = f.blocking.unwrap();
    assert(opt_blocking_pairs(f)[0] == ("index"@, Some(dec_str(b.index as nat))));
    assert(q[0] == ("index"@, Some(dec_str(b.index as nat))));
    assert(q.contains(("index"@, Some(dec_str(b.index as nat)))));
    if let Some(w) = b.wait {
        assert(opt_blocking_pairs(f)[1] == ("wait"@, Some(w)));
        assert(q[1] == ("wait"@, Some(w)));
        assert(q.contains(("wait"@, Some(w))));
    } else {
        reveal_strlit("index");
        reveal_strlit("wait");
        reveal_strlit("filter");
        reveal_strlit("cached");
        reveal_strlit("consistent");
        reveal_strlit("stale");
        assert("index"@.len() == 5);
        assert("wait"@.len() == 4);
        assert("filter"@.len() == 6);
        assert("cached"@.len() == 6);
        assert("consistent"@.len() == 10);
        assert("stale"@.len() == 5);
        assert forall|i: int| 0 <= i < q.len() implies (#[trigger] q[i]).0 != "wait"@ by {
            let nb = opt_blocking_pairs(f).len() as int;
            let nf = filter_pairs(f).len() as int;
            let nc = cached_pairs(f).len() as int;
            if i < nb {
                assert(q[i] == opt_blocking_pairs(f)[i]);
            } else if i < nb + nf {
                assert(q[i] == filter_pairs(f)[i - nb]);
            } else if i < nb + nf + nc {
                assert(q[i] == cached_pairs(f)[i - nb - nf]);
            } else {
                assert(q[i] == mode_pairs(f)[i - nb - nf - nc]);
                if f.mode is Some {
                    assert(mode_key(f.mode.unwrap()).len() != "wait"@.len());
                }
            }
        }
    }
}

/// Law (consistency-mode exclusivity): with a consistency mode configured,
/// the feature-derived query pairs carry its bare flag, and never the flag of
/// the other mode.
pub proof fn lemma_consistency_mode_exclusive(f: FeaturesV)
    requires
        f.mode is Some,
    ensures
        query_additions(f).contains((mode_key(f.mode.unwrap()), None::<Seq<char>>)),
        f.mode == Some(ConsistencyMode::CONSISTENT) ==> forall|i: int|
            0 <= i < query_additions(f).len() ==> (#[trigger] query_additions(f)[i]).0 != "stale"@,
        f.mode == Some(ConsistencyMode::STALE) ==> forall|i: int|
            0 <= i < query_additions(f).len() ==> (#[trigger] query_additions(f)[i]).0
                != "consistent"@,
{
    lemma_feature_keys(f);
    let q = query_additions(f);
    let m = f.mode.unwrap();
    let nb = opt_blocking_pairs(f).len() as int;
    let nf = filter_pairs(f).len() as int;
    let nc = cached_pairs(f).len() as int;
    assert(mode_pairs(f)[0] == (mode_key(m), None::<Seq<char>>));
    assert(q[nb + nf + nc] == mode_pairs(f)[0]);
    assert(q.contains((mode_key(m), None::<Seq<char>>)));
    reveal_strlit("index");
    reveal_strlit("wait");
    reveal_strlit("filter");
    reveal_strlit("cached");
    reveal_strlit("consistent");
    reveal_strlit("stale");
    assert("index"@.len() == 5);
    assert("wait"@.len() == 4);
    assert("filter"@.len() == 6);
    assert("cached"@.len() == 6);
    assert("consistent"@.len() == 10);
    assert("stale"@.len() == 5);
    assert("index"@[0] == 'i');
    assert("stale"@[0] == 's');
    let other = if m is CONSISTENT {
        "stale"@
    } else {
        "consistent"@
    };
    assert(mode_key(m) != other);
    assert forall|i: int| 0 <= i < q.len() implies (#[trigger] q[i]).0 != other by {
        if i < nb {
            assert(q[i] == opt_blocking_pairs(f)[i]);
        } else if i < nb + nf {
            assert(q[i] == filter_pairs(f)[i - nb]);
        } else if i < nb + nf + nc {
            assert(q[i] == cached_pairs(f)[i - nb - nf]);
        } else {
            assert(q[i] == mode_pairs(f)[i - nb - nf - nc]);
        }
    }
}

/// An endpoint description which carries optional `Features` that modify how
/// its generated request is handled.
pub trait FeaturedEndpoint {
    /// The features attached to this endpoint, as a specification value.
    spec fn spec_features(&self) -> Option<FeaturesV>;

    /// The features attached to this endpoint.
    fn features(&self) -> (f: Option<Features>)
        ensures
            (match f {
                Some(x) => Some(x@),
                None => None,
            }) == self.spec_features(),
    ;
}

} // verus!
