//! The registered request handlers of one server, with the claims that
//! their routes demand.
//!
//! A handler and an error factory are values of the caller's own types: this
//! module stores and hands them out, and never looks inside.

use crate::text::text_eq;
use vstd::prelude::*;

verus! {

/// The verbs that a handler can be registered for.
#[derive(Clone, Copy, Debug, PartialEq, Eq, Structural)]
pub enum HttpVerb {
    Get,
    Post,
    Put,
    Delete,
    Options,
}

/// A handler together with the verb and the route that it answers.
#[derive(Debug, PartialEq, Eq)]
pub struct RegisteredAction<A> {
    pub verb: HttpVerb,
    pub route: String,
    pub action: A,
}

/// A registered handler, with the route as a sequence of characters.
pub struct ActionModel<A> {
    pub verb: HttpVerb,
    pub route: Seq<char>,
    pub action: A,
}

impl<A> View for RegisteredAction<A> {
    type V = ActionModel<A>;

    open spec fn view(&self) -> ActionModel<A> {
        ActionModel { verb: self.verb, route: self.route@, action: self.action }
    }
}

/// The registered handlers as models, in registration order.
pub open spec fn action_models<A>(actions: Seq<RegisteredAction<A>>) -> Seq<ActionModel<A>> {
    actions.map_values(|action: RegisteredAction<A>| action@)
}

/// One entry of an authorization map: a request for `route` with `verb`
/// has to hold `claim`.
#[derive(Debug, PartialEq, Eq)]
pub struct RequiredClaim {
    pub verb: HttpVerb,
    pub route: String,
    pub claim: String,
}

/// An entry of an authorization map, with its texts as sequences of
/// characters.
pub struct RequiredClaimModel {
    pub verb: HttpVerb,
    pub route: Seq<char>,
    pub claim: Seq<char>,
}

impl View for RequiredClaim {
    type V = RequiredClaimModel;

    open spec fn view(&self) -> RequiredClaimModel {
        RequiredClaimModel { verb: self.verb, route: self.route@, claim: self.claim@ }
    }
}

/// The texts of a list of strings.
pub open spec fn texts(strings: Seq<String>) -> Seq<Seq<char>> {
    strings.map_values(|s: String| s@)
}

/// The claims that `required` demands of a request for `route` with `verb`.
pub open spec fn claims_required(
    required: Seq<RequiredClaimModel>,
    verb: HttpVerb,
    route: Seq<char>,
) -> Set<Seq<char>> {
    Set::new(
        |claim: Seq<char>|
            exists|i: int|
                0 <= i < required.len() && #[trigger] required[i] == (RequiredClaimModel {
                    verb,
                    route,
                    claim,
                }),
    )
}

/// True when a request for `route` with `verb` that holds the claims `held`
/// meets every entry of `required` for that route.
pub open spec fn authorizes(
    required: Seq<RequiredClaimModel>,
    verb: HttpVerb,
    route: Seq<char>,
    held: Seq<Seq<char>>,
) -> bool {
    forall|i: int|
        0 <= i < required.len() && (#[trigger] required[i]).verb == verb && required[i].route
            == route ==> held.contains(required[i].claim)
}

/// An authorization map: which claims the requests for which routes have
/// to hold. A route without an entry is open to everyone.
#[derive(Debug, PartialEq, Eq)]
pub struct ControllersAuthorization {
    pub required: Vec<RequiredClaim>,
}

impl View for ControllersAuthorization {
    type V = Seq<RequiredClaimModel>;

    open spec fn view(&self) -> Seq<RequiredClaimModel> {
        self.required@.map_values(|entry: RequiredClaim| entry@)
    }
}

impl Clone for ControllersAuthorization {
    fn clone(&self) -> (copy: Self)
        ensures
            copy@ == self@,
    {
        let mut required: Vec<RequiredClaim> = Vec::new();
        let mut i: usize = 0;
        while i < self.required.len()
            invariant
                i <= self.required.len(),
                required@.len() == i,
                forall|k: int| 0 <= k < i ==> (#[trigger] required@[k])@ == self.required@[k]@,
            decreases self.required.len() - i,
        {
            let entry = &self.required[i];
            required.push(
                RequiredClaim {
                    verb: entry.verb,
                    route: entry.route.clone(),
                    claim: entry.claim.clone(),
                },
            );
            i = i + 1;
        }
        let copy = ControllersAuthorization { required };
        assert(copy@ =~= self@);
        copy
    }
}

impl ControllersAuthorization {
    /// A map without entries.
    pub fn new() -> (map: Self)
        ensures
            map@ == Seq::<RequiredClaimModel>::empty(),
    {
        let map = ControllersAuthorization { required: Vec::new() };
        assert(map@ =~= Seq::<RequiredClaimModel>::empty());
        map
    }

    /// Adds the entry that a request for `route` with `verb` has to hold
    /// `claim`.
    pub fn require(&mut self, verb: HttpVerb, route: &str, claim: &str)
        ensures
            final(self)@ == old(self)@.push(
                RequiredClaimModel { verb, route: route@, claim: claim@ },
            ),
    {
        self.required.push(
            RequiredClaim { verb, route: String::from_str(route), claim: String::from_str(claim) },
        );
        assert(self@ =~= old(self)@.push(
            RequiredClaimModel { verb, route: route@, claim: claim@ },
        ));
    }

    /// Adds every entry of `other`. Nothing is replaced: what was demanded
    /// before is still demanded.
    pub fn merge(&mut self, other: ControllersAuthorization)
        ensures
            final(self)@ == old(self)@ + other@,
    {
        let mut other = other;
        let ghost added = other@;
        self.required.append(&mut other.required);
        assert(self@ =~= old(self)@ + added);
    }

    /// Decides whether a request for `route` with `verb` that holds
    /// `claims` meets the map.
    pub fn allows(&self, verb: HttpVerb, route: &str, claims: &Vec<String>) -> (allowed: bool)
        ensures
            allowed == authorizes(self@, verb, route@, texts(claims@)),
    {
        let mut i: usize = 0;
        while i < self.required.len()
            invariant
                i <= self.required.len(),
                forall|k: int|
                    0 <= k < i && (#[trigger] self@[k]).verb == verb && self@[k].route == route@
                        ==> texts(claims@).contains(self@[k].claim),
            decreases self.required.len() - i,
        {
            let entry = &self.required[i];
            assert(self@[i as int] == entry@);
            if entry.verb == verb && text_eq(entry.route.as_str(), route) {
                if !holds_claim(claims, entry.claim.as_str()) {
                    return false;
                }
            }
            i = i + 1;
        }
        true
    }
}

/// True when `claims` holds `claim`.
pub fn holds_claim(claims: &Vec<String>, claim: &str) -> (held: bool)
    ensures
        held == texts(claims@).contains(claim@),
{
    let mut i: usize = 0;
    while i < claims.len()
        invariant
            i <= claims.len(),
            forall|k: int| 0 <= k < i ==> (#[trigger] texts(claims@)[k]) != claim@,
        decreases claims.len() - i,
    {
        if text_eq(claims[i].as_str(), claim) {
            assert(texts(claims@)[i as int] == claim@);
            return true;
        }
        i = i + 1;
    }
    false
}

/// The entries of two maps together demand of a route what either demands.
pub proof fn lemma_merge_is_additive(
    first: Seq<RequiredClaimModel>,
    second: Seq<RequiredClaimModel>,
    verb: HttpVerb,
    route: Seq<char>,
    held: Seq<Seq<char>>,
)
    ensures
        claims_required(first + second, verb, route) == claims_required(first, verb, route).union(
            claims_required(second, verb, route),
        ),
        authorizes(first + second, verb, route, held) == (authorizes(first, verb, route, held)
            && authorizes(second, verb, route, held)),
{
    let both = first + second;
    assert forall|claim: Seq<char>|
        claims_required(both, verb, route).contains(claim) == (claims_required(
            first,
            verb,
            route,
        ).contains(claim) || claims_required(second, verb, route).contains(claim)) by {
        let wanted = RequiredClaimModel { verb, route, claim };
        if claims_required(both, verb, route).contains(claim) {
            let i = choose|i: int| 0 <= i < both.len() && #[trigger] both[i] == wanted;
            if i < first.len() {
                assert(first[i] == wanted);
            } else {
                assert(second[i - first.len()] == wanted);
            }
        }
        if claims_required(first, verb, route).contains(claim) {
            let i = choose|i: int| 0 <= i < first.len() && #[trigger] first[i] == wanted;
            assert(both[i] == wanted);
        }
        if claims_required(second, verb, route).contains(claim) {
            let i = choose|i: int| 0 <= i < second.len() && #[trigger] second[i] == wanted;
            assert(both[i + first.len()] == wanted);
        }
    }
    assert(claims_required(both, verb, route) =~= claims_required(first, verb, route).union(
        claims_required(second, verb, route),
    ));
    if authorizes(both, verb, route, held) {
        assert forall|i: int|
            0 <= i < first.len() && (#[trigger] first[i]).verb == verb && first[i].route
                == route implies held.contains(first[i].claim) by {
            assert(both[i] == first[i]);
        }
        assert forall|i: int|
            0 <= i < second.len() && (#[trigger] second[i]).verb == verb && second[i].route
                == route implies held.contains(second[i].claim) by {
            assert(both[i + first.len()] == second[i]);
        }
    }
    if authorizes(first, verb, route, held) && authorizes(second, verb, route, held) {
        assert forall|i: int|
            0 <= i < both.len() && (#[trigger] both[i]).verb == verb && both[i].route
                == route implies held.contains(both[i].claim) by {
            if i < first.len() {
                assert(both[i] == first[i]);
            } else {
                assert(both[i] == second[i - first.len()]);
            }
        }
    }
}

/// What the handlers stage does with a request.
#[derive(Clone, Copy, Debug, PartialEq, Eq, Structural)]
pub enum ActionResolution {
    /// The request lacks a claim that its route demands: the error factory
    /// answers, and no handler runs.
    Unauthorized,
    /// The handler at this position of the registration order runs.
    Invoke(usize),
    /// No handler is registered for the verb and route.
    NotFound,
}

/// The handlers of one server: what was registered, the authorization map
/// if one was set, and the error factory if one was installed.
#[derive(Debug, PartialEq, Eq)]
pub struct ControllersMiddleware<A, F> {
    pub authorization: Option<ControllersAuthorization>,
    pub auth_error_factory: Option<F>,
    pub actions: Vec<RegisteredAction<A>>,
}

/// The handlers of one server as mathematical values.
pub struct ControllersModel<A, F> {
    pub authorization: Option<Seq<RequiredClaimModel>>,
    pub auth_error_factory: Option<F>,
    pub actions: Seq<ActionModel<A>>,
}

impl<A, F> View for ControllersMiddleware<A, F> {
    type V = ControllersModel<A, F>;

    open spec fn view(&self) -> ControllersModel<A, F> {
        ControllersModel {
            authorization: match self.authorization {
                Some(map) => Some(map@),
                None => None,
            },
            auth_error_factory: self.auth_error_factory,
            actions: action_models(self.actions@),
        }
    }
}

impl<A, F> ControllersModel<A, F> {
    /// Handlers with the given map and factory and nothing registered.
    pub open spec fn new(
        authorization: Option<Seq<RequiredClaimModel>>,
        auth_error_factory: Option<F>,
    ) -> Self {
        ControllersModel { authorization, auth_error_factory, actions: Seq::empty() }
    }

    /// The first map is set as it is; a later one adds its entries.
    pub open spec fn with_authorization(self, added: Seq<RequiredClaimModel>) -> Self {
        ControllersModel {
            authorization: Some(
                match self.authorization {
                    Some(present) => present + added,
                    None => added,
                },
            ),
            ..self
        }
    }

    /// The factory installed last is the one in use.
    pub open spec fn with_auth_error_factory(self, factory: F) -> Self {
        ControllersModel { auth_error_factory: Some(factory), ..self }
    }

    /// A handler joins at the end, whether or not its verb and route are
    /// taken already.
    pub open spec fn with_action(self, action: ActionModel<A>) -> Self {
        ControllersModel { actions: self.actions.push(action), ..self }
    }

    /// True when the handler at `index` is registered for `verb` and
    /// `route`.
    pub open spec fn answers(self, index: int, verb: HttpVerb, route: Seq<char>) -> bool {
        0 <= index < self.actions.len() && self.actions[index].verb == verb
            && self.actions[index].route == route
    }

    /// True when the handlers at the two positions are registered for the
    /// same verb and route.
    pub open spec fn same_key(self, first: int, second: int) -> bool {
        self.actions[first].verb == self.actions[second].verb && self.actions[first].route
            == self.actions[second].route
    }

    /// True when no two handlers are registered for the same verb and
    /// route.
    pub open spec fn has_unique_keys(self) -> bool {
        forall|a: int, b: int|
            0 <= a < b < self.actions.len() ==> !#[trigger] self.same_key(a, b)
    }

    /// What a lookup for `verb` and `route` finds: the handler registered
    /// first for them, or nothing if none is.
    pub open spec fn is_lookup(self, verb: HttpVerb, route: Seq<char>, found: Option<usize>)
        -> bool {
        match found {
            Some(index) => self.answers(index as int, verb, route) && forall|earlier: int|
                0 <= earlier < index ==> !self.answers(earlier, verb, route),
            None => forall|index: int| !self.answers(index, verb, route),
        }
    }

    /// True when a request for `route` with `verb` that holds `held` passes
    /// authorization: no map was set, or the map is met.
    pub open spec fn permits(self, verb: HttpVerb, route: Seq<char>, held: Seq<Seq<char>>)
        -> bool {
        match self.authorization {
            Some(required) => authorizes(required, verb, route, held),
            None => true,
        }
    }

    /// What the stage does with a request: authorization comes first, the
    /// lookup second.
    pub open spec fn is_resolution(
        self,
        verb: HttpVerb,
        route: Seq<char>,
        held: Seq<Seq<char>>,
        resolution: ActionResolution,
    ) -> bool {
        if !self.permits(verb, route, held) {
            resolution == ActionResolution::Unauthorized
        } else {
            match resolution {
                ActionResolution::Unauthorized => false,
                ActionResolution::Invoke(index) => self.is_lookup(verb, route, Some(index)),
                ActionResolution::NotFound => self.is_lookup(verb, route, None),
            }
        }
    }
}

impl<A, F> ControllersMiddleware<A, F> {
    /// Handlers with the given map and factory and nothing registered.
    pub fn new(authorization: Option<ControllersAuthorization>, auth_error_factory: Option<F>) -> (
        controllers: Self)
        ensures
            controllers@ == ControllersModel::<A, F>::new(
                match authorization {
                    Some(map) => Some(map@),
                    None => None,
                },
                auth_error_factory,
            ),
    {
        let controllers = ControllersMiddleware {
            authorization,
            auth_error_factory,
            actions: Vec::new(),
        };
        assert(controllers@.actions =~= Seq::empty());
        controllers
    }

    /// Sets the authorization map, or adds the entries of `authorization`
    /// to the one that is set.
    pub fn update_authorization_map(&mut self, authorization: ControllersAuthorization)
        ensures
            final(self)@ == old(self)@.with_authorization(authorization@),
    {
        match &mut self.authorization {
            Some(present) => {
                present.merge(authorization);
            },
            None => {
                self.authorization = Some(authorization);
            },
        }
    }

    /// Installs the factory that answers requests which fail authorization.
    pub fn update_auth_error_factory(&mut self, value: F)
        ensures
            final(self)@ == old(self)@.with_auth_error_factory(value),
    {
        self.auth_error_factory = Some(value);
    }

    /// Registers a handler for `verb` and `route`.
    pub fn register_action(&mut self, verb: HttpVerb, route: &str, action: A)
        ensures
            final(self)@ == old(self)@.with_action(ActionModel { verb, route: route@, action }),
    {
        self.actions.push(RegisteredAction { verb, route: String::from_str(route), action });
        assert(action_models(self.actions@) =~= action_models(old(self).actions@).push(
            ActionModel { verb, route: route@, action },
        ));
    }

    /// Registers a handler for `GET` requests.
    pub fn register_get_action(&mut self, route: &str, action: A)
        ensures
            final(self)@ == old(self)@.with_action(
                ActionModel { verb: HttpVerb::Get, route: route@, action },
            ),
    {
        self.register_action(HttpVerb::Get, route, action);
    }

    /// Registers a handler for `POST` requests.
    pub fn register_post_action(&mut self, route: &str, action: A)
        ensures
            final(self)@ == old(self)@.with_action(
                ActionModel { verb: HttpVerb::Post, route: route@, action },
            ),
    {
        self.register_action(HttpVerb::Post, route, action);
    }

    /// Registers a handler for `PUT` requests.
    pub fn register_put_action(&mut self, route: &str, action: A)
        ensures
            final(self)@ == old(self)@.with_action(
                ActionModel { verb: HttpVerb::Put, route: route@, action },
            ),
    {
        self.register_action(HttpVerb::Put, route, action);
    }

    /// Registers a handler for `DELETE` requests.
    pub fn register_delete_action(&mut self, route: &str, action: A)
        ensures
            final(self)@ == old(self)@.with_action(
                ActionModel { verb: HttpVerb::Delete, route: route@, action },
            ),
    {
        self.register_action(HttpVerb::Delete, route, action);
    }

    /// Registers a handler for `OPTIONS` requests.
    pub fn register_options_action(&mut self, route: &str, action: A)
        ensures
            final(self)@ == old(self)@.with_action(
                ActionModel { verb: HttpVerb::Options, route: route@, action },
            ),
    {
        self.register_action(HttpVerb::Options, route, action);
    }

    /// Looks up the handler for `verb` and `route`. Where several were
    /// registered for them, the first one is found.
    pub fn find_action(&self, verb: HttpVerb, route: &str) -> (found: Option<usize>)
        ensures
            self@.is_lookup(verb, route@, found),
    {
        let mut i: usize = 0;
        while i < self.actions.len()
            invariant
                i <= self.actions.len(),
                forall|k: int| 0 <= k < i ==> !self@.answers(k, verb, route@),
            decreases self.actions.len() - i,
        {
            let candidate = &self.actions[i];
            assert(self@.actions[i as int] == candidate@);
            if candidate.verb == verb && text_eq(candidate.route.as_str(), route) {
                return Some(i);
            }
            i = i + 1;
        }
        None
    }

    /// Finds the first pair of handlers that were registered for the same
    /// verb and route, as their positions in registration order: the pair
    /// whose earlier handler comes first, and for it the nearest later one.
    pub fn find_duplicate(&self) -> (found: Option<(usize, usize)>)
        ensures
            match found {
                Some((first, second)) => {
                    &&& first < second < self@.actions.len()
                    &&& self@.same_key(first as int, second as int)
                    &&& forall|a: int, b: int|
                        0 <= a < first && a < b < self@.actions.len()
                            ==> !#[trigger] self@.same_key(a, b)
                    &&& forall|b: int|
                        first < b < second ==> !#[trigger] self@.same_key(first as int, b)
                },
                None => self@.has_unique_keys(),
            },
    {
        let mut i: usize = 0;
        while i < self.actions.len()
            invariant
                i <= self.actions.len(),
                forall|a: int, b: int|
                    0 <= a < i && a < b < self@.actions.len() ==> !#[trigger] self@.same_key(a, b),
            decreases self.actions.len() - i,
        {
            let earlier = &self.actions[i];
            assert(self@.actions[i as int] == earlier@);
            let mut j: usize = i + 1;
            while j < self.actions.len()
                invariant
                    i < j <= self.actions.len(),
                    self@.actions[i as int] == earlier@,
                    forall|a: int, b: int|
                        0 <= a < i && a < b < self@.actions.len() ==> !#[trigger] self@.same_key(
                            a,
                            b,
                        ),
                    forall|b: int| i < b < j ==> !#[trigger] self@.same_key(i as int, b),
                decreases self.actions.len() - j,
            {
                let later = &self.actions[j];
                assert(self@.actions[j as int] == later@);
                if later.verb == earlier.verb && text_eq(
                    later.route.as_str(),
                    earlier.route.as_str(),
                ) {
                    return Some((i, j));
                }
                j = j + 1;
            }
            i = i + 1;
        }
        None
    }

    /// Decides what happens to a request for `route` with `verb` whose
    /// sender holds `claims`.
    pub fn resolve(&self, verb: HttpVerb, route: &str, claims: &Vec<String>) -> (resolution:
        ActionResolution)
        ensures
            self@.is_resolution(verb, route@, texts(claims@), resolution),
    {
        let permitted = match &self.authorization {
            Some(map) => map.allows(verb, route, claims),
            None => true,
        };
        if !permitted {
            return ActionResolution::Unauthorized;
        }
        match self.find_action(verb, route) {
            Some(index) => ActionResolution::Invoke(index),
            None => ActionResolution::NotFound,
        }
    }
}

/// A request that lacks a demanded claim never reaches a handler, whatever
/// is registered.
pub proof fn lemma_unauthorized_request_runs_no_handler<A, F>(
    controllers: ControllersModel<A, F>,
    verb: HttpVerb,
    route: Seq<char>,
    held: Seq<Seq<char>>,
    resolution: ActionResolution,
)
    requires
        controllers.is_resolution(verb, route, held, resolution),
        !controllers.permits(verb, route, held),
    ensures
        resolution == ActionResolution::Unauthorized,
        !(resolution is Invoke),
{
}

/// The outcome of a request is determined: two resolutions of the same
/// request against the same handlers are equal.
pub proof fn lemma_resolution_is_unique<A, F>(
    controllers: ControllersModel<A, F>,
    verb: HttpVerb,
    route: Seq<char>,
    held: Seq<Seq<char>>,
    one: ActionResolution,
    other: ActionResolution,
)
    requires
        controllers.is_resolution(verb, route, held, one),
        controllers.is_resolution(verb, route, held, other),
    ensures
        one == other,
{
    if controllers.permits(verb, route, held) {
        match (one, other) {
            (ActionResolution::Invoke(i), ActionResolution::Invoke(j)) => {
                if i < j {
                    assert(controllers.answers(i as int, verb, route));
                } else if j < i {
                    assert(controllers.answers(j as int, verb, route));
                }
            },
            (ActionResolution::Invoke(i), ActionResolution::NotFound) => {
                assert(controllers.answers(i as int, verb, route));
            },
            (ActionResolution::NotFound, ActionResolution::Invoke(j)) => {
                assert(controllers.answers(j as int, verb, route));
            },
            _ => {},
        }
    }
}

} // verus!
