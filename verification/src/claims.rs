use vstd::prelude::*;
use vstd::std_specs::cmp::PartialEqSpec;

use crate::error::Error;
use crate::time::TimeSpan;

verus! {

/// The [`Claims`] of a signed token: a chain of `(host, actor, claims)`
/// triples, newest first, with the expiration time of the chain.
#[derive(Debug, PartialEq, Eq)]
pub struct Claims<H, A, C> {
    exp: u64,
    host: H,
    actor_id: A,
    claims: C,
    inherit: Option<Box<Claims<H, A, C>>>,
}

impl<H, A, C> Claims<H, A, C> {
    /// The chain of `(host, actor, claims)` triples, newest first.
    pub closed spec fn chain(self) -> Seq<(H, A, C)>
        decreases self,
    {
        seq![(self.host, self.actor_id, self.claims)] + match self.inherit {
            Some(parent) => parent.chain(),
            None => Seq::empty(),
        }
    }

    /// The chain of the claims that this one inherits.
    pub closed spec fn parent_chain(self) -> Seq<(H, A, C)> {
        match self.inherit {
            Some(parent) => parent.chain(),
            None => Seq::empty(),
        }
    }

    /// The expiration time of this chain, in seconds since the Unix epoch.
    pub closed spec fn spec_exp(self) -> u64 {
        self.exp
    }

    pub proof fn lemma_chain_not_empty(self)
        ensures
            self.chain().len() >= 1,
    {
    }

    /// A chain of one claim.
    pub(crate) fn new(exp: u64, host: H, actor_id: A, claims: C) -> (r: Self)
        ensures
            r.spec_exp() == exp,
            r.chain() == seq![(host, actor_id, claims)],
    {
        let r = Self { exp, host, actor_id, claims, inherit: None };
        assert(r.chain() =~= seq![(host, actor_id, claims)]);
        r
    }

    /// A chain with a new newest claim in front of this one; the expiration
    /// time stays that of this chain.
    pub(crate) fn consume(self, host: H, actor_id: A, claims: C) -> (r: Result<Self, Error>)
        ensures
            r matches Ok(c) && c.spec_exp() == self.spec_exp() && c.chain() == seq![(host, actor_id, claims)]
                + self.chain(),
    {
        let exp = self.exp;
        Ok(Self { exp, host, actor_id, claims, inherit: Some(Box::new(self)) })
    }

    /// The expiration time of this chain, as a span since the Unix epoch.
    pub fn expires(&self) -> (r: TimeSpan)
        ensures
            r.spec_secs() == self.spec_exp(),
            r.spec_nanos() == 0,
    {
        TimeSpan::from_secs(self.exp)
    }

    /// Iterate over this chain of claims from newest to oldest.
    pub fn iter(&self) -> (r: Iter<'_, H, A, C>)
        ensures
            r.remaining() == self.chain(),
    {
        Iter { claims: Some(self) }
    }
}

/// Each part of `y` is a clone of the same part of `x`.
pub open spec fn triple_cloned<H: Clone, A: Clone, C: Clone>(x: (H, A, C), y: (H, A, C)) -> bool {
    &&& cloned(x.0, y.0)
    &&& cloned(x.1, y.1)
    &&& cloned(x.2, y.2)
}

impl<H: Clone, A: Clone, C: Clone> Claims<H, A, C> {
    /// A copy of this chain, each part cloned.
    pub fn duplicate(&self) -> (r: Self)
        ensures
            r.spec_exp() == self.spec_exp(),
            r.chain().len() == self.chain().len(),
            forall|i: int| 0 <= i < r.chain().len() ==> triple_cloned(self.chain()[i], #[trigger] r.chain()[i]),
        decreases self,
    {
        let inherit = match &self.inherit {
            Some(parent) => Some(Box::new(parent.duplicate())),
            None => None,
        };
        let r = Claims {
            exp: self.exp,
            host: self.host.clone(),
            actor_id: self.actor_id.clone(),
            claims: self.claims.clone(),
            inherit,
        };
        proof {
            let tail_r = r.parent_chain();
            let tail_s = self.parent_chain();
            assert(r.chain() == seq![(r.host, r.actor_id, r.claims)] + tail_r);
            assert(self.chain() == seq![(self.host, self.actor_id, self.claims)] + tail_s);
            assert forall|i: int| 0 <= i < r.chain().len() implies triple_cloned(self.chain()[i], #[trigger] r.chain()[i]) by {
                if i > 0 {
                    assert(r.chain()[i] == tail_r[i - 1]);
                    assert(self.chain()[i] == tail_s[i - 1]);
                } else {
                    assert(r.chain()[0] == (r.host, r.actor_id, r.claims));
                    assert(self.chain()[0] == (self.host, self.actor_id, self.claims));
                }
            }
        }
        r
    }
}

impl<H: Clone, A: Clone, C: Clone> Clone for Claims<H, A, C> {
    fn clone(&self) -> (r: Self)
        ensures
            r.spec_exp() == self.spec_exp(),
            r.chain().len() == self.chain().len(),
            forall|i: int| 0 <= i < r.chain().len() ==> triple_cloned(self.chain()[i], #[trigger] r.chain()[i]),
    {
        self.duplicate()
    }
}

/// The first claim in `chain` made with `actor_id` on `host`, by the equality of `H` and `A`.
pub open spec fn first_claim<H: PartialEq, A: PartialEq, C>(chain: Seq<(H, A, C)>, host: H, actor_id: A) -> Option<C>
    decreases chain.len(),
{
    if chain.len() == 0 {
        None
    } else if chain[0].0.eq_spec(&host) && chain[0].1.eq_spec(&actor_id) {
        Some(chain[0].2)
    } else {
        first_claim(chain.drop_first(), host, actor_id)
    }
}

/// The triple at `k` of `chain` was made with `actor_id` on `host`, by the
/// equality of `H` and `A`.
pub open spec fn claim_matches<H: PartialEq, A: PartialEq, C>(chain: Seq<(H, A, C)>, k: int, host: H, actor_id: A) -> bool {
    chain[k].0.eq_spec(&host) && chain[k].1.eq_spec(&actor_id)
}

/// The triple at `k` of `chain` is the first, newest first, made with
/// `actor_id` on `host`: it matches, and no triple before it does.
pub open spec fn first_match_at<H: PartialEq, A: PartialEq, C>(chain: Seq<(H, A, C)>, k: int, host: H, actor_id: A) -> bool {
    &&& 0 <= k < chain.len()
    &&& claim_matches(chain, k, host, actor_id)
    &&& forall|j: int| 0 <= j < k ==> !#[trigger] claim_matches(chain, j, host, actor_id)
}

/// A lookup searches the whole chain: where the triple at `k`, at any depth,
/// is the first made with `actor_id` on `host`, the lookup gives its claims;
/// where no triple of the chain matches, it gives none.
pub proof fn law_first_claim_searches_whole_chain<H: PartialEq, A: PartialEq, C>(
    chain: Seq<(H, A, C)>,
    host: H,
    actor_id: A,
)
    ensures
        forall|k: int| #[trigger] first_match_at(chain, k, host, actor_id) ==> first_claim(chain, host, actor_id)
            == Some(chain[k].2),
        (forall|i: int| 0 <= i < chain.len() ==> !#[trigger] claim_matches(chain, i, host, actor_id))
            ==> first_claim(chain, host, actor_id) is None,
        first_claim(chain, host, actor_id) matches Some(c) ==> exists|k: int| #[trigger]
            first_match_at(chain, k, host, actor_id) && chain[k].2 == c,
        forall|i: int| 0 <= i < chain.len() && #[trigger] claim_matches(chain, i, host, actor_id)
            ==> first_claim(chain, host, actor_id) is Some,
    decreases chain.len(),
{
    if chain.len() > 0 {
        let rest = chain.drop_first();
        law_first_claim_searches_whole_chain(rest, host, actor_id);
        assert forall|i: int| 0 <= i < chain.len() && #[trigger] claim_matches(chain, i, host, actor_id) implies first_claim(
            chain,
            host,
            actor_id,
        ) is Some by {
            if i > 0 && !claim_matches(chain, 0, host, actor_id) {
                assert(claim_matches(rest, i - 1, host, actor_id));
            }
        }
        assert forall|k: int| #[trigger] first_match_at(chain, k, host, actor_id) implies first_claim(
            chain,
            host,
            actor_id,
        ) == Some(chain[k].2) by {
            if k > 0 {
                assert(!claim_matches(chain, 0, host, actor_id));
                assert forall|j: int| 0 <= j < k - 1 implies !#[trigger] claim_matches(rest, j, host, actor_id) by {
                    assert(!claim_matches(chain, j + 1, host, actor_id));
                }
                assert(claim_matches(chain, k, host, actor_id));
                assert(first_match_at(rest, k - 1, host, actor_id));
            }
        }
        if forall|i: int| 0 <= i < chain.len() ==> !#[trigger] claim_matches(chain, i, host, actor_id) {
            assert(!claim_matches(chain, 0, host, actor_id));
            assert forall|i: int| 0 <= i < rest.len() implies !#[trigger] claim_matches(rest, i, host, actor_id) by {
                assert(!claim_matches(chain, i + 1, host, actor_id));
            }
        }
        if first_claim(chain, host, actor_id) is Some {
            if claim_matches(chain, 0, host, actor_id) {
                assert(first_match_at(chain, 0, host, actor_id));
            } else {
                let k = choose|k: int| #[trigger] first_match_at(rest, k, host, actor_id) && rest[k].2
                    == first_claim(chain, host, actor_id)->0;
                assert forall|j: int| 0 <= j < k + 1 implies !#[trigger] claim_matches(chain, j, host, actor_id) by {
                    if j > 0 {
                        assert(!claim_matches(rest, j - 1, host, actor_id));
                    }
                }
                assert(claim_matches(rest, k, host, actor_id));
                assert(first_match_at(chain, k + 1, host, actor_id));
            }
        }
    }
}

impl<H: PartialEq, A: PartialEq, C> Claims<H, A, C> {
    /// Get the most recent claim made with the given `actor_id` on the given
    /// `host`, if any. Where `H` and `A` compare as their specifications say,
    /// it is the first match in the chain, newest first.
    pub fn get(&self, host: &H, actor_id: &A) -> (r: Option<&C>)
        ensures
            (H::obeys_eq_spec() && A::obeys_eq_spec()) ==> match r {
                Some(c) => first_claim(self.chain(), *host, *actor_id) == Some(*c),
                None => first_claim(self.chain(), *host, *actor_id) is None,
            },
            (H::obeys_eq_spec() && A::obeys_eq_spec()) ==> forall|k: int| #[trigger]
                first_match_at(self.chain(), k, *host, *actor_id) ==> (r matches Some(c) && *c == self.chain()[k].2),
            (H::obeys_eq_spec() && A::obeys_eq_spec()) ==> (r matches Some(c) ==> exists|k: int| #[trigger]
                first_match_at(self.chain(), k, *host, *actor_id) && self.chain()[k].2 == *c),
            (H::obeys_eq_spec() && A::obeys_eq_spec()) ==> (r is None ==> forall|i: int| 0 <= i < self.chain().len()
                ==> !#[trigger] claim_matches(self.chain(), i, *host, *actor_id)),
        decreases self,
    {
        proof {
            law_first_claim_searches_whole_chain(self.chain(), *host, *actor_id);
            assert(self.chain().drop_first() =~= self.parent_chain());
            assert(self.chain()[0] == (self.host, self.actor_id, self.claims));
        }
        if self.host.eq(host) && self.actor_id.eq(actor_id) {
            Some(&self.claims)
        } else {
            match &self.inherit {
                Some(parent) => parent.get(host, actor_id),
                None => {
                    proof {
                        assert(self.parent_chain() =~= Seq::<(H, A, C)>::empty());
                        assert(first_claim(Seq::<(H, A, C)>::empty(), *host, *actor_id) is None);
                    }
                    None
                },
            }
        }
    }
}

/// An iterator over the chain of [`Claims`] of a signed token, newest first.
pub struct Iter<'a, H, A, C> {
    claims: Option<&'a Claims<H, A, C>>,
}

impl<'a, H, A, C> Iter<'a, H, A, C> {
    /// The triples that this iterator has yet to give.
    pub closed spec fn remaining(&self) -> Seq<(H, A, C)> {
        match self.claims {
            Some(c) => c.chain(),
            None => Seq::empty(),
        }
    }

    /// The next `(host, actor, claims)` triple, if any.
    pub fn next(&mut self) -> (r: Option<(&'a H, &'a A, &'a C)>)
        ensures
            old(self).remaining().len() == 0 ==> r is None && final(self).remaining().len() == 0,
            old(self).remaining().len() > 0 ==> (r matches Some(t) && (*t.0, *t.1, *t.2) == old(self).remaining()[0]
                && final(self).remaining() == old(self).remaining().drop_first()),
    {
        match self.claims {
            None => None,
            Some(claims) => {
                proof {
                    assert(claims.chain().drop_first() =~= match claims.inherit {
                        Some(parent) => parent.chain(),
                        None => Seq::empty(),
                    });
                }
                let item = (&claims.host, &claims.actor_id, &claims.claims);
                self.claims = match &claims.inherit {
                    Some(parent) => Some(&**parent),
                    None => None,
                };
                Some(item)
            },
        }
    }
}

} // verus!
