//! The pluggable dispatcher: applications declare the identifiers they
//! own, a registry rejects overlapping ownership, and incoming calls
//! are routed to the single owning application with its state loaded
//! before the call and persisted only on success.

use vstd::prelude::*;

use crate::bank::AppResponse;
use crate::errors::{DispatchError, RegistrationError};
use crate::router::Router;
use crate::storage::StateStore;

verus! {

/// Identity of a pluggable application: its registry name and the
/// message and query identifiers it owns, all functions of the
/// application's mathematical state.
pub trait StargateUrls: View + Sized {
    /// Well-formedness of an application value.
    spec fn inv(&self) -> bool;

    /// Registry key, also the persistence namespace.
    spec fn v_name(v: Self::V) -> Seq<char>;

    /// Message identifiers this application owns.
    spec fn v_msg_urls(v: Self::V) -> Set<Seq<char>>;

    /// Query identifiers this application owns.
    spec fn v_query_urls(v: Self::V) -> Set<Seq<char>>;

    /// State an application starts from when its namespace is new.
    spec fn v_default() -> Self::V;

    fn stargate_name(&self) -> (r: String)
        ensures
            r@ == Self::v_name(self@),
    ;

    fn is_msg_type_url(&self, type_url: &String) -> (r: bool)
        ensures
            r == Self::v_msg_urls(self@).contains(type_url@),
    ;

    fn is_query_type_url(&self, type_url: &String) -> (r: bool)
        ensures
            r == Self::v_query_urls(self@).contains(type_url@),
    ;

    /// Every identifier this application owns, message and query alike.
    fn type_urls(&self) -> (r: Vec<String>)
        ensures
            forall|u: Seq<char>|
                #![auto]
                (Self::v_msg_urls(self@).contains(u) || Self::v_query_urls(self@).contains(u))
                    <==> r.deep_view().contains(u),
    ;

    fn default_state() -> (r: Self)
        ensures
            r@ == Self::v_default(),
            r.inv(),
    ;

    /// A copy of the state, equal under the mathematical view.
    fn clone_state(&self) -> (r: Self)
        requires
            self.inv(),
        ensures
            r@ == self@,
            r.inv(),
    ;
}

/// A pluggable application: handlers for the execute and query calls
/// it owns, each pinned to a transition relation over the state view.
///
/// The relations are parameterised by the call result because an
/// application may consult the environment through the router, whose
/// outcomes the library does not constrain.
pub trait StargateApplication<R: Router>: StargateUrls {
    /// Application-specific query answer.
    type QueryOut;

    /// Application-specific error.
    type Err;

    /// How one execute call relates the state before (`pre`) to the
    /// state after (`post`) and to the result.
    spec fn msg_rel(
        pre: Self::V,
        sender: Seq<char>,
        url: Seq<char>,
        data: Seq<u8>,
        post: Self::V,
        r: Result<AppResponse, Self::Err>,
    ) -> bool;

    /// What one query call may answer from the state `pre`.
    spec fn query_rel(
        pre: Self::V,
        url: Seq<char>,
        data: Seq<u8>,
        r: Result<Self::QueryOut, Self::Err>,
    ) -> bool;

    fn stargate_msg(
        &mut self,
        router: &mut R,
        sender: &String,
        type_url: &String,
        data: &Vec<u8>,
    ) -> (r: Result<AppResponse, Self::Err>)
        requires
            old(self).inv(),
        ensures
            final(self).inv(),
            Self::v_name(final(self)@) == Self::v_name(old(self)@),
            Self::v_msg_urls(final(self)@) == Self::v_msg_urls(old(self)@),
            Self::v_query_urls(final(self)@) == Self::v_query_urls(old(self)@),
            Self::msg_rel(old(self)@, sender@, type_url@, data@, final(self)@, r),
    ;

    fn stargate_query(&self, querier: &R, type_url: &String, data: &Vec<u8>) -> (r: Result<
        Self::QueryOut,
        Self::Err,
    >)
        requires
            self.inv(),
        ensures
            Self::query_rel(self@, type_url@, data@, r),
    ;
}

/// States of a sequence of applications, element-wise.
pub open spec fn views_of<A: StargateUrls>(s: Seq<A>) -> Seq<A::V> {
    s.map_values(|a: A| a@)
}

/// Message and query identifiers of an application state, together.
pub open spec fn all_urls<A: StargateUrls>(v: A::V) -> Set<Seq<char>> {
    A::v_msg_urls(v).union(A::v_query_urls(v))
}

/// No identifier of `v1` is an identifier of `v2`.
pub open spec fn urls_disjoint<A: StargateUrls>(v1: A::V, v2: A::V) -> bool {
    forall|u: Seq<char>| all_urls::<A>(v1).contains(u) ==> !(#[trigger] all_urls::<A>(v2).contains(
        u,
    ))
}

/// Some post-state is related to `pre` and the result `r` by the
/// application's execute relation.
pub open spec fn some_post_msg_rel<R: Router, A: StargateApplication<R>>(
    pre: A::V,
    sender: Seq<char>,
    url: Seq<char>,
    data: Seq<u8>,
    r: Result<AppResponse, <A as StargateApplication<R>>::Err>,
) -> bool {
    exists|post: A::V| #[trigger] A::msg_rel(pre, sender, url, data, post, r)
}

/// Every value the store holds is a well-formed application value.
pub open spec fn store_ok<A: StargateUrls>(m: Map<Seq<char>, A>) -> bool {
    forall|k: Seq<char>| #[trigger] m.contains_key(k) ==> m[k].inv()
}

/// The state a dispatch call starts from: the stored value under
/// `name`, or the application default when the namespace is new.
pub open spec fn loaded_view<A: StargateUrls>(m: Map<Seq<char>, A>, name: Seq<char>) -> A::V {
    if m.contains_key(name) {
        m[name]@
    } else {
        A::v_default()
    }
}

/// The registered application set and the dispatcher over it.
///
/// Invariant: across all registered applications, names are distinct
/// and no message or query identifier is claimed twice.
pub struct MultiStargateModule<A> {
    applications: Vec<A>,
}

impl<A: StargateUrls> MultiStargateModule<A> {
    /// The registered applications, in registration order.
    pub closed spec fn apps(&self) -> Seq<A> {
        self.applications@
    }

    /// States of the registered applications, in registration order.
    pub open spec fn app_views(&self) -> Seq<A::V> {
        views_of::<A>(self.apps())
    }

    /// Registry invariant: well-formed applications, distinct names,
    /// disjoint identifier ownership.
    pub open spec fn inv(&self) -> bool {
        &&& forall|i: int| 0 <= i < self.apps().len() ==> (#[trigger] self.apps()[i]).inv()
        &&& forall|i: int, j: int|
            0 <= i < self.app_views().len() && 0 <= j < self.app_views().len() && i != j
                ==> A::v_name(#[trigger] self.app_views()[i]) != A::v_name(
                #[trigger] self.app_views()[j],
            )
        &&& forall|i: int, j: int|
            0 <= i < self.app_views().len() && 0 <= j < self.app_views().len() && i != j
                ==> urls_disjoint::<A>(
                #[trigger] self.app_views()[i],
                #[trigger] self.app_views()[j],
            )
    }

    /// Application `i` owns the message identifier `u`.
    pub open spec fn owns_msg(&self, i: int, u: Seq<char>) -> bool {
        A::v_msg_urls(self.app_views()[i]).contains(u)
    }

    /// Application `i` owns the query identifier `u`.
    pub open spec fn owns_query(&self, i: int, u: Seq<char>) -> bool {
        A::v_query_urls(self.app_views()[i]).contains(u)
    }

    /// Some registered application owns the message identifier `u`.
    pub open spec fn some_msg_owner(&self, u: Seq<char>) -> bool {
        exists|i: int| 0 <= i < self.app_views().len() && self.owns_msg(i, u)
    }

    /// Some registered application owns the query identifier `u`.
    pub open spec fn some_query_owner(&self, u: Seq<char>) -> bool {
        exists|i: int| 0 <= i < self.app_views().len() && self.owns_query(i, u)
    }

    /// The owner of message identifier `u` (unique under `inv`).
    pub open spec fn msg_owner(&self, u: Seq<char>) -> int {
        choose|i: int| 0 <= i < self.app_views().len() && self.owns_msg(i, u)
    }

    /// The owner of query identifier `u` (unique under `inv`).
    pub open spec fn query_owner(&self, u: Seq<char>) -> int {
        choose|i: int| 0 <= i < self.app_views().len() && self.owns_query(i, u)
    }

    /// Routing correctness: under the registry invariant an identifier
    /// reaches the application that declared it and no other.
    pub proof fn lemma_msg_owner_unique(&self, i: int, u: Seq<char>)
        requires
            self.inv(),
            0 <= i < self.app_views().len(),
            self.owns_msg(i, u),
        ensures
            self.some_msg_owner(u),
            self.msg_owner(u) == i,
            forall|j: int|
                0 <= j < self.app_views().len() && #[trigger] self.owns_msg(j, u) ==> j == i,
    {
        assert(self.some_msg_owner(u));
        assert forall|j: int|
            0 <= j < self.app_views().len() && #[trigger] self.owns_msg(j, u) implies j == i by {
            if j != i {
                assert(all_urls::<A>(self.app_views()[i]).contains(u));
                assert(urls_disjoint::<A>(self.app_views()[i], self.app_views()[j]));
                assert(!all_urls::<A>(self.app_views()[j]).contains(u));
            }
        }
    }

    /// Routing correctness for query identifiers.
    pub proof fn lemma_query_owner_unique(&self, i: int, u: Seq<char>)
        requires
            self.inv(),
            0 <= i < self.app_views().len(),
            self.owns_query(i, u),
        ensures
            self.some_query_owner(u),
            self.query_owner(u) == i,
            forall|j: int|
                0 <= j < self.app_views().len() && #[trigger] self.owns_query(j, u) ==> j == i,
    {
        assert(self.some_query_owner(u));
        assert forall|j: int|
            0 <= j < self.app_views().len() && #[trigger] self.owns_query(j, u) implies j == i by {
            if j != i {
                assert(all_urls::<A>(self.app_views()[i]).contains(u));
                assert(urls_disjoint::<A>(self.app_views()[i], self.app_views()[j]));
                assert(!all_urls::<A>(self.app_views()[j]).contains(u));
            }
        }
    }

    /// Disjointness: two distinct registered applications share no
    /// message identifier and no query identifier.
    pub proof fn lemma_registered_disjoint(&self, i: int, j: int)
        requires
            self.inv(),
            0 <= i < self.app_views().len(),
            0 <= j < self.app_views().len(),
            i != j,
        ensures
            A::v_msg_urls(self.app_views()[i]).intersect(A::v_msg_urls(self.app_views()[j]))
                =~= Set::<Seq<char>>::empty(),
            A::v_query_urls(self.app_views()[i]).intersect(A::v_query_urls(self.app_views()[j]))
                =~= Set::<Seq<char>>::empty(),
    {
        assert(urls_disjoint::<A>(self.app_views()[i], self.app_views()[j]));
        assert forall|u: Seq<char>|
            !(#[trigger] A::v_msg_urls(self.app_views()[i]).intersect(
                A::v_msg_urls(self.app_views()[j]),
            ).contains(u)) by {
            if A::v_msg_urls(self.app_views()[i]).contains(u) {
                assert(all_urls::<A>(self.app_views()[i]).contains(u));
                assert(!all_urls::<A>(self.app_views()[j]).contains(u));
            }
        }
        assert forall|u: Seq<char>|
            !(#[trigger] A::v_query_urls(self.app_views()[i]).intersect(
                A::v_query_urls(self.app_views()[j]),
            ).contains(u)) by {
            if A::v_query_urls(self.app_views()[i]).contains(u) {
                assert(all_urls::<A>(self.app_views()[i]).contains(u));
                assert(!all_urls::<A>(self.app_views()[j]).contains(u));
            }
        }
    }

    /// Some registered application owns `u`, and so does the state `v`.
    pub open spec fn url_clash(&self, v: A::V, u: Seq<char>) -> bool {
        exists|i: int|
            0 <= i < self.app_views().len() && #[trigger] all_urls::<A>(
                self.app_views()[i],
            ).contains(u) && all_urls::<A>(v).contains(u)
    }

    /// Some identifier of the state `v` is owned by a registered
    /// application.
    pub open spec fn some_url_clash(&self, v: A::V) -> bool {
        exists|u: Seq<char>| #[trigger] self.url_clash(v, u)
    }

    /// A fresh application is compatible with the registered set: its
    /// name and every identifier it owns are new.
    pub open spec fn compatible(&self, v: A::V) -> bool {
        &&& forall|i: int|
            0 <= i < self.app_views().len() ==> A::v_name(#[trigger] self.app_views()[i])
                != A::v_name(v)
        &&& forall|i: int|
            0 <= i < self.app_views().len() ==> urls_disjoint::<A>(
                v,
                #[trigger] self.app_views()[i],
            )
    }

    pub fn new() -> (r: Self)
        ensures
            r.inv(),
            r.app_views() == Seq::<A::V>::empty(),
    {
        let r = MultiStargateModule { applications: Vec::new() };
        proof {
            assert(r.app_views() =~= Seq::<A::V>::empty());
        }
        r
    }

    /// Add one application, rejecting any overlap of identifier
    /// ownership (naming the offending identifier) or of names.
    pub fn try_add_application(&mut self, application: A) -> (r: Result<(), RegistrationError>)
        requires
            old(self).inv(),
            application.inv(),
        ensures
            final(self).inv(),
            (r is Ok) == old(self).compatible(application@),
            r is Ok ==> final(self).app_views() == old(self).app_views().push(application@),
            r is Err ==> final(self).app_views() == old(self).app_views(),
            r matches Err(RegistrationError::DuplicatedTypeUrl { type_url }) ==> old(
                self,
            ).url_clash(application@, type_url@),
            old(self).some_url_clash(application@) ==> (r matches Err(
                RegistrationError::DuplicatedTypeUrl { .. },
            )),
            r matches Err(RegistrationError::DuplicatedName { name }) ==> name@ == A::v_name(
                application@,
            ) && exists|i: int|
                0 <= i < old(self).app_views().len() && A::v_name(
                    #[trigger] old(self).app_views()[i],
                ) == name@,
    {
        let urls = application.type_urls();
        let n_urls: usize = urls.len();
        let n_apps: usize = self.applications.len();
        let mut k: usize = 0;
        while k < n_urls
            invariant
                self == old(self),
                self.inv(),
                n_urls == urls@.len(),
                n_apps == self.app_views().len(),
                k <= n_urls,
                forall|x: int, i: int|
                    0 <= x < k && 0 <= i < n_apps ==> !(#[trigger] all_urls::<A>(
                        self.app_views()[i],
                    ).contains(urls@[x]@)),
                forall|u: Seq<char>|
                    #![auto]
                    (A::v_msg_urls(application@).contains(u) || A::v_query_urls(
                        application@,
                    ).contains(u)) <==> urls.deep_view().contains(u),
            decreases n_urls - k,
        {
            let mut i: usize = 0;
            while i < n_apps
                invariant
                    self == old(self),
                    self.inv(),
                    n_urls == urls@.len(),
                    n_apps == self.app_views().len(),
                    k < n_urls,
                    i <= n_apps,
                    forall|j: int|
                        0 <= j < i ==> !(#[trigger] all_urls::<A>(self.app_views()[j]).contains(
                            urls@[k as int]@,
                        )),
                    forall|u: Seq<char>|
                        #![auto]
                        (A::v_msg_urls(application@).contains(u) || A::v_query_urls(
                            application@,
                        ).contains(u)) <==> urls.deep_view().contains(u),
                decreases n_apps - i,
            {
                let clash = self.applications[i].is_msg_type_url(&urls[k])
                    || self.applications[i].is_query_type_url(&urls[k]);
                proof {
                    assert(self.app_views()[i as int] == self.applications@[i as int]@);
                }
                if clash {
                    proof {
                        assert(all_urls::<A>(self.app_views()[i as int]).contains(
                            urls@[k as int]@,
                        ));
                        assert(urls.deep_view()[k as int] == urls@[k as int]@);
                        assert(urls.deep_view().contains(urls@[k as int]@));
                        assert(all_urls::<A>(application@).contains(urls@[k as int]@));
                        assert(!old(self).compatible(application@));
                        assert(old(self).url_clash(application@, urls@[k as int]@));
                    }
                    return Err(
                        RegistrationError::DuplicatedTypeUrl { type_url: urls[k].clone() },
                    );
                }
                i = i + 1;
            }
            k = k + 1;
        }
        proof {
            // No identifier of the new application is owned already:
            // each of them occurs in `urls`, and every `urls` entry was
            // checked against every registered application.
            assert forall|j: int| 0 <= j < n_apps implies urls_disjoint::<A>(
                application@,
                #[trigger] self.app_views()[j],
            ) by {
                assert forall|u: Seq<char>| all_urls::<A>(application@).contains(u) implies !(
                #[trigger] all_urls::<A>(self.app_views()[j]).contains(u)) by {
                    assert(urls.deep_view().contains(u));
                    let x = choose|x: int|
                        0 <= x < urls.deep_view().len() && urls.deep_view()[x] == u;
                    assert(urls@[x]@ == u);
                    assert(!all_urls::<A>(self.app_views()[j]).contains(urls@[x]@));
                }
            }
            assert forall|u: Seq<char>| !(#[trigger] old(self).url_clash(application@, u)) by {
                if old(self).url_clash(application@, u) {
                    let j = choose|j: int|
                        0 <= j < old(self).app_views().len() && #[trigger] all_urls::<A>(
                            old(self).app_views()[j],
                        ).contains(u) && all_urls::<A>(application@).contains(u);
                    assert(urls_disjoint::<A>(application@, self.app_views()[j]));
                }
            }
            assert(!old(self).some_url_clash(application@));
        }
        let name = application.stargate_name();
        let mut i: usize = 0;
        while i < n_apps
            invariant
                self == old(self),
                self.inv(),
                n_apps == self.app_views().len(),
                i <= n_apps,
                name@ == A::v_name(application@),
                !old(self).some_url_clash(application@),
                forall|j: int|
                    0 <= j < n_apps ==> urls_disjoint::<A>(
                        application@,
                        #[trigger] self.app_views()[j],
                    ),
                forall|j: int|
                    0 <= j < i ==> A::v_name(#[trigger] self.app_views()[j]) != name@,
            decreases n_apps - i,
        {
            let existing = self.applications[i].stargate_name();
            proof {
                assert(self.app_views()[i as int] == self.applications@[i as int]@);
            }
            if existing == name {
                return Err(RegistrationError::DuplicatedName { name });
            }
            i = i + 1;
        }
        proof {
            assert(old(self).compatible(application@));
        }
        let ghost pre_views = self.app_views();
        let ghost pre_apps = self.apps();
        self.applications.push(application);
        proof {
            assert(self.apps() =~= pre_apps.push(application));
            assert(self.app_views() =~= pre_views.push(application@));
            assert forall|a: int, b: int|
                0 <= a < self.app_views().len() && 0 <= b < self.app_views().len() && a != b
                    implies urls_disjoint::<A>(
                #[trigger] self.app_views()[a],
                #[trigger] self.app_views()[b],
            ) by {
                let last = self.app_views().len() - 1;
                if a == last && b < last {
                    assert(urls_disjoint::<A>(application@, pre_views[b]));
                } else if b == last && a < last {
                    // Disjointness is symmetric: unfold the definition.
                    assert(urls_disjoint::<A>(application@, pre_views[a]));
                    assert forall|u: Seq<char>|
                        all_urls::<A>(self.app_views()[a]).contains(u) implies !(
                    #[trigger] all_urls::<A>(self.app_views()[b]).contains(u)) by {
                        assert(!all_urls::<A>(application@).contains(u) || !all_urls::<A>(
                            pre_views[a],
                        ).contains(u));
                    }
                } else {
                    assert(urls_disjoint::<A>(pre_views[a], pre_views[b]));
                }
            }
        }
        Ok(())
    }

    /// Add one application, which must be compatible with the set.
    pub fn with_application(self, application: A) -> (r: Self)
        requires
            self.inv(),
            application.inv(),
            self.compatible(application@),
        ensures
            r.inv(),
            r.app_views() == self.app_views().push(application@),
    {
        let mut s = self;
        let res = s.try_add_application(application);
        proof {
            assert(res is Ok);
        }
        s
    }
}

/// Do the applications in `s` have pairwise distinct names and
/// pairwise disjoint identifier ownership?
pub open spec fn pairwise_compatible<A: StargateUrls>(s: Seq<A::V>) -> bool {
    forall|i: int, j: int|
        0 <= i < s.len() && 0 <= j < s.len() && i != j ==> A::v_name(#[trigger] s[i]) != A::v_name(
            #[trigger] s[j],
        ) && urls_disjoint::<A>(s[i], s[j])
}

impl<A: StargateUrls> MultiStargateModule<A> {
    /// Build the registry from a list of applications; fails, naming
    /// the offending identifier or name, whenever two of them overlap.
    pub fn register(applications: Vec<A>) -> (r: Result<Self, RegistrationError>)
        requires
            forall|i: int| 0 <= i < applications@.len() ==> (#[trigger] applications@[i]).inv(),
        ensures
            (r is Ok) == pairwise_compatible::<A>(views_of::<A>(applications@)),
            r matches Ok(reg) ==> reg.inv() && reg.app_views() == views_of::<A>(applications@),
    {
        let ghost goal = views_of::<A>(applications@);
        let mut reg = Self::new();
        let n: usize = applications.len();
        let mut k: usize = 0;
        while k < n
            invariant
                n == applications@.len(),
                goal == views_of::<A>(applications@),
                n == goal.len(),
                k <= n,
                forall|i: int|
                    0 <= i < applications@.len() ==> (#[trigger] applications@[i]).inv(),
                reg.inv(),
                reg.app_views() =~= goal.take(k as int),
            decreases n - k,
        {
            let app = applications[k].clone_state();
            proof {
                assert(app@ == goal[k as int]);
            }
            let ghost pre_reg = reg;
            let ghost pre_views = reg.app_views();
            let res = reg.try_add_application(app);
            if let Err(e) = res {
                proof {
                    // The rejected application overlaps some earlier
                    // one, so the whole list is not pairwise
                    // compatible.
                    assert(!pairwise_compatible::<A>(goal)) by {
                        if pairwise_compatible::<A>(goal) {
                            assert forall|i: int| 0 <= i < pre_views.len() implies A::v_name(
                                #[trigger] pre_views[i],
                            ) != A::v_name(goal[k as int]) && urls_disjoint::<A>(
                                goal[k as int],
                                pre_views[i],
                            ) by {
                                assert(pre_views[i] == goal[i]);
                                assert(A::v_name(goal[k as int]) != A::v_name(goal[i]));
                                assert(urls_disjoint::<A>(goal[k as int], goal[i]));
                            }
                            assert(pre_reg.compatible(goal[k as int]));
                            assert(false);
                        }
                    }
                }
                return Err(e);
            }
            proof {
                assert(reg.app_views() =~= goal.take((k + 1) as int));
            }
            k = k + 1;
        }
        proof {
            assert(reg.app_views() =~= goal);
            // Pairwise compatibility follows from the registry
            // invariant over the complete list.
            assert forall|i: int, j: int|
                0 <= i < goal.len() && 0 <= j < goal.len() && i != j implies A::v_name(
                #[trigger] goal[i],
            ) != A::v_name(#[trigger] goal[j]) && urls_disjoint::<A>(goal[i], goal[j]) by {
                assert(reg.app_views()[i] == goal[i]);
                assert(reg.app_views()[j] == goal[j]);
            }
        }
        Ok(reg)
    }

    fn find_msg_app(&self, type_url: &String) -> (r: Option<usize>)
        ensures
            match r {
                Some(i) => i < self.app_views().len() && self.owns_msg(i as int, type_url@),
                None => !self.some_msg_owner(type_url@),
            },
    {
        let n: usize = self.applications.len();
        let mut i: usize = 0;
        while i < n
            invariant
                n == self.app_views().len(),
                i <= n,
                forall|j: int| 0 <= j < i ==> !self.owns_msg(j, type_url@),
            decreases n - i,
        {
            let owns = self.applications[i].is_msg_type_url(type_url);
            proof {
                assert(self.app_views()[i as int] == self.applications@[i as int]@);
            }
            if owns {
                return Some(i);
            }
            i = i + 1;
        }
        None
    }

    fn find_query_app(&self, type_url: &String) -> (r: Option<usize>)
        ensures
            match r {
                Some(i) => i < self.app_views().len() && self.owns_query(i as int, type_url@),
                None => !self.some_query_owner(type_url@),
            },
    {
        let n: usize = self.applications.len();
        let mut i: usize = 0;
        while i < n
            invariant
                n == self.app_views().len(),
                i <= n,
                forall|j: int| 0 <= j < i ==> !self.owns_query(j, type_url@),
            decreases n - i,
        {
            let owns = self.applications[i].is_query_type_url(type_url);
            proof {
                assert(self.app_views()[i as int] == self.applications@[i as int]@);
            }
            if owns {
                return Some(i);
            }
            i = i + 1;
        }
        None
    }

    /// Dispatch one execute call: route the identifier to its owning
    /// application, load that application's state (default when new),
    /// run the handler, and persist the state only on success.
    ///
    /// On any failure the store is exactly as it was before the call.
    pub fn execute<R: Router>(
        &self,
        store: &mut StateStore<A>,
        router: &mut R,
        sender: &String,
        type_url: &String,
        data: &Vec<u8>,
    ) -> (r: Result<AppResponse, DispatchError<<A as StargateApplication<R>>::Err>>) where
        A: StargateApplication<R>,

        requires
            self.inv(),
            old(store).inv(),
            store_ok::<A>(old(store)@),
        ensures
            final(store).inv(),
            store_ok::<A>(final(store)@),
            (!self.some_msg_owner(type_url@)) <==> (r matches Err(
                DispatchError::ApplicationNotFound { .. },
            )),
            r matches Err(DispatchError::ApplicationNotFound { type_url: t }) ==> t@ == type_url@,
            r is Err ==> final(store)@ == old(store)@,
            r matches Ok(resp) ==> ({
                let i = self.msg_owner(type_url@);
                let name = A::v_name(self.app_views()[i]);
                let pre = loaded_view::<A>(old(store)@, name);
                &&& self.some_msg_owner(type_url@)
                &&& exists|post: A|
                    post.inv() && #[trigger] A::msg_rel(
                        pre,
                        sender@,
                        type_url@,
                        data@,
                        post@,
                        Ok(resp),
                    ) && final(store)@ == old(store)@.insert(name, post)
            }),
            r matches Err(DispatchError::App(e)) ==> ({
                let i = self.msg_owner(type_url@);
                let name = A::v_name(self.app_views()[i]);
                let pre = loaded_view::<A>(old(store)@, name);
                &&& self.some_msg_owner(type_url@)
                &&& some_post_msg_rel::<R, A>(pre, sender@, type_url@, data@, Err(e))
            }),
    {
        let idx = match self.find_msg_app(type_url) {
            Some(i) => i,
            None => {
                return Err(DispatchError::ApplicationNotFound { type_url: type_url.clone() });
            },
        };
        proof {
            self.lemma_msg_owner_unique(idx as int, type_url@);
        }
        let name = self.applications[idx].stargate_name();
        proof {
            assert(self.app_views()[idx as int] == self.applications@[idx as int]@);
        }
        let mut loaded: A = match store.load(&name) {
            Some(a) => a.clone_state(),
            None => A::default_state(),
        };
        let ghost nm = name@;
        let ghost pre = loaded@;
        proof {
            assert(nm == A::v_name(self.app_views()[self.msg_owner(type_url@)]));
            assert(pre == loaded_view::<A>(old(store)@, nm));
        }
        let res = loaded.stargate_msg(router, sender, type_url, data);
        match res {
            Ok(resp) => {
                let ghost saved = loaded;
                store.save(name, loaded);
                proof {
                    assert forall|k: Seq<char>| #[trigger] final(store)@.contains_key(k) implies
                        final(store)@[k].inv() by {
                        if k != nm {
                            assert(old(store)@.contains_key(k));
                        }
                    }
                    assert(saved.inv());
                    assert(A::msg_rel(pre, sender@, type_url@, data@, saved@, Ok(resp)));
                    assert(final(store)@ == old(store)@.insert(nm, saved));
                }
                Ok(resp)
            },
            Err(e) => {
                proof {
                    assert(some_post_msg_rel::<R, A>(pre, sender@, type_url@, data@, Err(e))) by {
                        assert(A::msg_rel(pre, sender@, type_url@, data@, loaded@, Err(e)));
                    }
                }
                Err(DispatchError::App(e))
            },
        }
    }

    /// Dispatch one query call: route the identifier to its owning
    /// application, load its state read-only, and answer. Nothing is
    /// ever persisted.
    pub fn query<R: Router>(
        &self,
        store: &StateStore<A>,
        querier: &R,
        type_url: &String,
        data: &Vec<u8>,
    ) -> (r: Result<
        <A as StargateApplication<R>>::QueryOut,
        DispatchError<<A as StargateApplication<R>>::Err>,
    >) where A: StargateApplication<R>
        requires
            self.inv(),
            store.inv(),
            store_ok::<A>(store@),
        ensures
            (!self.some_query_owner(type_url@)) <==> (r matches Err(
                DispatchError::ApplicationNotFound { .. },
            )),
            r matches Err(DispatchError::ApplicationNotFound { type_url: t }) ==> t@ == type_url@,
            r matches Ok(out) ==> ({
                let i = self.query_owner(type_url@);
                let pre = loaded_view::<A>(store@, A::v_name(self.app_views()[i]));
                A::query_rel(pre, type_url@, data@, Ok(out))
            }),
            r matches Err(DispatchError::App(e)) ==> ({
                let i = self.query_owner(type_url@);
                let pre = loaded_view::<A>(store@, A::v_name(self.app_views()[i]));
                A::query_rel(pre, type_url@, data@, Err(e))
            }),
    {
        let idx = match self.find_query_app(type_url) {
            Some(i) => i,
            None => {
                return Err(DispatchError::ApplicationNotFound { type_url: type_url.clone() });
            },
        };
        proof {
            self.lemma_query_owner_unique(idx as int, type_url@);
        }
        let name = self.applications[idx].stargate_name();
        proof {
            assert(self.app_views()[idx as int] == self.applications@[idx as int]@);
        }
        let loaded: A = match store.load(&name) {
            Some(a) => a.clone_state(),
            None => A::default_state(),
        };
        let res = loaded.stargate_query(querier, type_url, data);
        match res {
            Ok(out) => Ok(out),
            Err(e) => Err(DispatchError::App(e)),
        }
    }
}

} // verus!
