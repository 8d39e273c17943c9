//! The discovery loop's decision logic.
//!
//! The engine holds the registry, the optional allow-filter and the loop's
//! phase, and decides what each bus notification means: it classifies every
//! ownership change, applies the filter, registers endpoints the embedding
//! program has built, and removes departed ones. The embedding program runs
//! the surrounding loop: it feeds notifications in, builds endpoints when
//! asked to, broadcasts detach tokens and forwards the emitted events, and
//! reports channel closure — which the engine answers by going silent.
//!
//! Every transition is captured by a predicate relating the engine before
//! and after the call to the returned action, and the laws at the end of
//! this module are proved from those predicates alone.

use vstd::prelude::*;

use crate::errors::MprisError;
use crate::events::MprisEvent;
use crate::identity::mpris_namespace;
use crate::identity::mpris_namespace_str;
use crate::identity::name_matches_either;
use crate::identity::spec_short_of;
use crate::identity::spec_valid_bus_name;
use crate::identity::PlayerIdentity;
use crate::registry::lookup_bus;
use crate::registry::Registry;
use crate::text::str_starts_with;

verus! {

/// An ownership change reporting a new owner where there was none: a player
/// appeared.
pub open spec fn attach_shape(old_owner: Seq<char>, new_owner: Seq<char>) -> bool {
    old_owner.len() == 0 && new_owner.len() > 0
}

/// An ownership change reporting no owner where there was one: a player
/// departed.
pub open spec fn detach_shape(old_owner: Seq<char>, new_owner: Seq<char>) -> bool {
    old_owner.len() > 0 && new_owner.len() == 0
}

/// True when some entry of the list matches the name, scanning in order.
pub open spec fn list_accepts(fs: Seq<Seq<char>>, short: Seq<char>, bus: Seq<char>) -> bool
    decreases fs.len(),
{
    fs.len() > 0 && (name_matches_either(short, bus, fs[0]) || list_accepts(
        fs.drop_first(),
        short,
        bus,
    ))
}

/// True when the filter accepts a name with this short and bus form; an
/// absent filter accepts every name.
pub open spec fn spec_accepts_name(
    filter: Option<Seq<Seq<char>>>,
    short: Seq<char>,
    bus: Seq<char>,
) -> bool {
    match filter {
        Option::None => true,
        Option::Some(fs) => list_accepts(fs, short, bus),
    }
}

/// A list with a matching entry accepts the name.
proof fn lemma_list_accepts_found(fs: Seq<Seq<char>>, short: Seq<char>, bus: Seq<char>, i: int)
    requires
        0 <= i < fs.len(),
        name_matches_either(short, bus, fs[i]),
    ensures
        list_accepts(fs, short, bus),
    decreases fs.len(),
{
    if i > 0 {
        assert(fs.drop_first()[i - 1] == fs[i]);
        lemma_list_accepts_found(fs.drop_first(), short, bus, i - 1);
    }
}

/// A list without a matching entry rejects the name.
proof fn lemma_list_accepts_none(fs: Seq<Seq<char>>, short: Seq<char>, bus: Seq<char>)
    requires
        forall|j: int| 0 <= j < fs.len() ==> !name_matches_either(short, bus, fs[j]),
    ensures
        !list_accepts(fs, short, bus),
    decreases fs.len(),
{
    if fs.len() > 0 {
        assert forall|j: int|
            0 <= j < fs.drop_first().len() implies !name_matches_either(
            short,
            bus,
            fs.drop_first()[j],
        ) by {
            assert(fs.drop_first()[j] == fs[j + 1]);
        }
        lemma_list_accepts_none(fs.drop_first(), short, bus);
    }
}

/// What the discovery loop decided about one notification.
#[derive(Debug, PartialEq)]
pub enum DiscoveryAction {
    /// Nothing to do: the name is outside the namespace, the change is an
    /// owner handoff, the filter rejected the name, or the loop has already
    /// stopped.
    Ignored,
    /// A player appeared and passed the filter: the caller builds its
    /// endpoint and reports back through `attach_built` or
    /// `on_attach_failed`.
    BuildAttach(PlayerIdentity),
    /// A player departed: the caller broadcasts `token` to the watchers,
    /// and when `removed` carries the registered identity, emits
    /// `PlayerDetached` for it.
    Detach { token: String, removed: Option<PlayerIdentity> },
    /// A confirmed notification carried a malformed name: the caller
    /// forwards the error and the loop stops.
    Fatal(MprisError),
}

/// The events the caller emits for an action: a detach of a registered
/// player emits `PlayerDetached` with its canonical identity, and nothing
/// else is emitted.
pub open spec fn discovery_action_events(action: DiscoveryAction) -> Seq<MprisEvent> {
    match action {
        DiscoveryAction::Detach { token: _, removed: Option::Some(id) } => seq![
            MprisEvent::PlayerDetached(id),
        ],
        _ => Seq::empty(),
    }
}

/// The discovery loop's state: the registry of live endpoints, the optional
/// allow-filter, and whether the loop is still listening.
#[derive(Debug)]
pub struct DiscoveryEngine<H> {
    registry: Registry<H>,
    filter: Option<Vec<String>>,
    listening: bool,
}

impl<H> DiscoveryEngine<H> {
    /// Whether the loop is still listening for notifications.
    pub closed spec fn spec_listening(&self) -> bool {
        self.listening
    }

    /// The allow-filter, as character sequences.
    pub closed spec fn spec_filter(&self) -> Option<Seq<Seq<char>>> {
        match self.filter {
            Option::None => Option::None,
            Option::Some(v) => Option::Some(v.deep_view()),
        }
    }

    /// The registry of live endpoints.
    pub closed spec fn spec_registry(&self) -> Registry<H> {
        self.registry
    }

    /// The registry's entries.
    pub open spec fn spec_entries(&self) -> Seq<(PlayerIdentity, H)> {
        self.spec_registry().sentries()
    }

    /// The registry entry stored under `bus`, if any.
    pub open spec fn spec_lookup(&self, bus: Seq<char>) -> Option<(PlayerIdentity, H)> {
        lookup_bus(self.spec_entries(), bus)
    }

    /// True when an endpoint is registered under `bus`.
    pub open spec fn spec_contains(&self, bus: Seq<char>) -> bool {
        self.spec_lookup(bus) is Some
    }

    /// Creates an engine with an empty registry. A filter of `None` accepts
    /// every player.
    pub fn new(filter: Option<Vec<String>>) -> (r: DiscoveryEngine<H>)
        ensures
            r.spec_listening(),
            r.spec_entries() == Seq::<(PlayerIdentity, H)>::empty(),
            match filter {
                Option::None => r.spec_filter() is None,
                Option::Some(v) => r.spec_filter() == Option::Some(v.deep_view()),
            },
    {
        DiscoveryEngine { registry: Registry::new(), filter, listening: true }
    }

    /// Whether the loop is still listening.
    pub fn is_listening(&self) -> (r: bool)
        ensures
            r == self.spec_listening(),
    {
        self.listening
    }

    /// The registry, for reading registered endpoints.
    pub fn registry(&self) -> (r: &Registry<H>)
        ensures
            *r == self.spec_registry(),
    {
        &self.registry
    }

    /// True when the filter accepts this identity.
    fn accepts(&self, identity: &PlayerIdentity) -> (r: bool)
        ensures
            r == spec_accepts_name(
                self.spec_filter(),
                identity.spec_short(),
                identity.spec_bus(),
            ),
    {
        match &self.filter {
            None => true,
            Some(list) => {
                let n = list.len();
                let mut i: usize = 0;
                while i < n
                    invariant
                        i <= n,
                        n == list@.len(),
                        self.spec_filter() == Option::Some(list.deep_view()),
                        forall|j: int|
                            0 <= j < i ==> !name_matches_either(
                                identity.spec_short(),
                                identity.spec_bus(),
                                list.deep_view()[j],
                            ),
                    decreases n - i,
                {
                    if identity.matches_either(list[i].as_str()) {
                        proof {
                            assert(list.deep_view()[i as int] == list@[i as int]@);
                            lemma_list_accepts_found(
                                list.deep_view(),
                                identity.spec_short(),
                                identity.spec_bus(),
                                i as int,
                            );
                        }
                        return true;
                    }
                    i += 1;
                }
                proof {
                    lemma_list_accepts_none(
                        list.deep_view(),
                        identity.spec_short(),
                        identity.spec_bus(),
                    );
                }
                false
            },
        }
    }

    /// Classifies one ownership-change notification and updates the engine.
    ///
    /// A loop that has stopped ignores everything. Names outside the
    /// namespace and owner handoffs are ignored. An appearing name is parsed
    /// — a malformed one is fatal — and, when the filter accepts it, handed
    /// back for the caller to build. A departing name is parsed the same
    /// way; its entry, if registered, leaves the registry before the caller
    /// is told to broadcast the token, so a consumer that saw the detach can
    /// no longer read a stale handle.
    pub fn on_owner_changed(
        &mut self,
        name: &String,
        old_owner: &String,
        new_owner: &String,
    ) -> (action: DiscoveryAction)
        ensures
            owner_changed_post(*old(self), name@, old_owner@, new_owner@, *final(self), action),
    {
        if !self.listening {
            return DiscoveryAction::Ignored;
        }
        if !str_starts_with(name.as_str(), mpris_namespace_str()) {
            return DiscoveryAction::Ignored;
        }
        let old_empty = old_owner.as_str().is_empty();
        let new_empty = new_owner.as_str().is_empty();
        if old_empty && !new_empty {
            match PlayerIdentity::new(name.clone()) {
                Err(e) => {
                    self.listening = false;
                    DiscoveryAction::Fatal(e)
                },
                Ok(identity) => {
                    if self.accepts(&identity) {
                        DiscoveryAction::BuildAttach(identity)
                    } else {
                        DiscoveryAction::Ignored
                    }
                },
            }
        } else if !old_empty && new_empty {
            match PlayerIdentity::new(name.clone()) {
                Err(e) => {
                    self.listening = false;
                    DiscoveryAction::Fatal(e)
                },
                Ok(_) => {
                    let ghost pre = *self;
                    let removed = match self.registry.remove_entry(name.as_str()) {
                        Some((identity, _)) => Some(identity),
                        None => None,
                    };
                    proof {
                        assert forall|b: Seq<char>|
                            b != name@ implies self.spec_lookup(b) == pre.spec_lookup(b) by {
                            assert(self.registry.spec_lookup(b) == pre.registry.spec_lookup(b));
                        }
                    }
                    DiscoveryAction::Detach { token: name.clone(), removed }
                },
            }
        } else {
            DiscoveryAction::Ignored
        }
    }

    /// Registers an endpoint the caller has built for an accepted identity
    /// and returns the `PlayerAttached` event to emit; after the loop has
    /// stopped, nothing is registered and nothing is emitted.
    pub fn attach_built(&mut self, identity: PlayerIdentity, handle: H) -> (emitted: Option<MprisEvent>)
        ensures
            attach_built_post(*old(self), identity, handle, *final(self), emitted),
    {
        let ghost pre = *self;
        if !self.listening {
            return None;
        }
        let event = MprisEvent::PlayerAttached(identity.clone());
        self.registry.insert(identity, handle);
        proof {
            assert forall|b: Seq<char>|
                b != identity.spec_bus() implies self.spec_lookup(b) == pre.spec_lookup(b) by {
                assert(self.registry.spec_lookup(b) == pre.registry.spec_lookup(b));
            }
        }
        Some(event)
    }

    /// Stops the loop because building an endpoint failed; the caller
    /// forwards the failure it saw.
    pub fn on_attach_failed(&mut self)
        ensures
            stopped_post(*old(self), *final(self)),
    {
        self.listening = false;
    }

    /// Stops the loop because the consumer's channel closed; no further
    /// events are emitted.
    pub fn on_channel_closed(&mut self)
        ensures
            stopped_post(*old(self), *final(self)),
    {
        self.listening = false;
    }

    /// Picks from the names currently on the bus the ones to attach at
    /// startup: those that parse as player identities — the rest are passed
    /// over silently — and that the filter accepts, in order.
    pub fn bootstrap_identities(&self, names: &Vec<String>) -> (r: Vec<PlayerIdentity>)
        ensures
            r@.len() == accepted_buses(names.deep_view(), self.spec_filter()).len(),
            forall|k: int|
                0 <= k < r@.len() ==> r@[k].spec_bus() == accepted_buses(
                    names.deep_view(),
                    self.spec_filter(),
                )[k] && r@[k].spec_short() == spec_short_of(
                    accepted_buses(names.deep_view(), self.spec_filter())[k],
                ),
    {
        let ghost all = names.deep_view();
        let ghost filter = self.spec_filter();
        let n = names.len();
        let mut r: Vec<PlayerIdentity> = Vec::new();
        let mut i: usize = 0;
        while i < n
            invariant
                i <= n,
                n == names@.len(),
                all == names.deep_view(),
                filter == self.spec_filter(),
                r@.len() == accepted_buses(all.take(i as int), filter).len(),
                forall|k: int|
                    0 <= k < r@.len() ==> r@[k].spec_bus() == accepted_buses(
                        all.take(i as int),
                        filter,
                    )[k] && r@[k].spec_short() == spec_short_of(
                        accepted_buses(all.take(i as int), filter)[k],
                    ),
            decreases n - i,
        {
            proof {
                lemma_accepted_buses_push(all.take(i as int), filter, all[i as int]);
                assert(all.take(i + 1) =~= all.take(i as int).push(all[i as int]));
                assert(all[i as int] == names@[i as int]@);
            }
            match PlayerIdentity::new(names[i].clone()) {
                Ok(identity) => {
                    if self.accepts(&identity) {
                        r.push(identity);
                    }
                },
                Err(_) => {},
            }
            i += 1;
        }
        proof {
            assert(all.take(n as int) =~= all);
        }
        r
    }
}

/// The registry and filter are kept and the loop goes on listening.
pub open spec fn keeps_state<H>(pre: DiscoveryEngine<H>, post: DiscoveryEngine<H>) -> bool {
    &&& post.spec_entries() == pre.spec_entries()
    &&& post.spec_listening() == pre.spec_listening()
}

/// The loop has stopped; the registry and filter are kept.
pub open spec fn stopped_post<H>(pre: DiscoveryEngine<H>, post: DiscoveryEngine<H>) -> bool {
    &&& !post.spec_listening()
    &&& post.spec_entries() == pre.spec_entries()
    &&& post.spec_filter() == pre.spec_filter()
}

/// How `on_owner_changed` relates the engine before and after the call to
/// the action it returns.
pub open spec fn owner_changed_post<H>(
    pre: DiscoveryEngine<H>,
    name: Seq<char>,
    old_owner: Seq<char>,
    new_owner: Seq<char>,
    post: DiscoveryEngine<H>,
    action: DiscoveryAction,
) -> bool {
    &&& post.spec_filter() == pre.spec_filter()
    &&& if !pre.spec_listening() {
        action is Ignored && stopped_post(pre, post)
    } else if !mpris_namespace().is_prefix_of(name) {
        action is Ignored && keeps_state(pre, post)
    } else if attach_shape(old_owner, new_owner) {
        if !spec_valid_bus_name(name) {
            action == DiscoveryAction::Fatal(MprisError::InvalidBusName) && stopped_post(pre, post)
        } else if !spec_accepts_name(pre.spec_filter(), spec_short_of(name), name) {
            action is Ignored && keeps_state(pre, post)
        } else {
            (action matches DiscoveryAction::BuildAttach(id) && id.spec_bus() == name
                && id.spec_short() == spec_short_of(name)) && keeps_state(pre, post)
        }
    } else if detach_shape(old_owner, new_owner) {
        if !spec_valid_bus_name(name) {
            action == DiscoveryAction::Fatal(MprisError::InvalidBusName) && stopped_post(pre, post)
        } else {
            &&& (action matches DiscoveryAction::Detach { token, removed } && token@ == name
                && match lookup_bus(pre.spec_entries(), name) {
                    Option::Some(p) => removed == Option::Some(p.0),
                    Option::None => removed is None,
                })
            &&& !post.spec_contains(name)
            &&& (pre.spec_lookup(name) is None ==> post.spec_entries() == pre.spec_entries())
            &&& forall|b: Seq<char>| b != name ==> post.spec_lookup(b) == pre.spec_lookup(b)
            &&& post.spec_listening()
        }
    } else {
        action is Ignored && keeps_state(pre, post)
    }
}

/// How `attach_built` relates the engine before and after the call to the
/// event it returns.
pub open spec fn attach_built_post<H>(
    pre: DiscoveryEngine<H>,
    identity: PlayerIdentity,
    handle: H,
    post: DiscoveryEngine<H>,
    emitted: Option<MprisEvent>,
) -> bool {
    &&& post.spec_filter() == pre.spec_filter()
    &&& if pre.spec_listening() {
        &&& post.spec_listening()
        &&& post.spec_lookup(identity.spec_bus()) == Some((identity, handle))
        &&& forall|b: Seq<char>|
            b != identity.spec_bus() ==> post.spec_lookup(b) == pre.spec_lookup(b)
        &&& emitted == Some(MprisEvent::PlayerAttached(identity))
    } else {
        &&& !post.spec_listening()
        &&& post.spec_entries() == pre.spec_entries()
        &&& emitted is None
    }
}

/// The bus names among `names` that parse as player identities and that the
/// filter accepts, in order.
pub open spec fn accepted_buses(names: Seq<Seq<char>>, filter: Option<Seq<Seq<char>>>) -> Seq<
    Seq<char>,
>
    decreases names.len(),
{
    if names.len() == 0 {
        Seq::empty()
    } else {
        let rest = accepted_buses(names.drop_first(), filter);
        if spec_valid_bus_name(names[0]) && spec_accepts_name(
            filter,
            spec_short_of(names[0]),
            names[0],
        ) {
            seq![names[0]] + rest
        } else {
            rest
        }
    }
}

/// Appending one name extends the accepted names by it exactly when it is
/// valid and accepted.
proof fn lemma_accepted_buses_push(
    names: Seq<Seq<char>>,
    filter: Option<Seq<Seq<char>>>,
    x: Seq<char>,
)
    ensures
        accepted_buses(names.push(x), filter) == accepted_buses(names, filter) + (
        if spec_valid_bus_name(x) && spec_accepts_name(filter, spec_short_of(x), x) {
            seq![x]
        } else {
            Seq::<Seq<char>>::empty()
        }),
    decreases names.len(),
{
    let pushed = names.push(x);
    let tail = (if spec_valid_bus_name(x) && spec_accepts_name(filter, spec_short_of(x), x) {
        seq![x]
    } else {
        Seq::<Seq<char>>::empty()
    });
    if names.len() == 0 {
        assert(pushed[0] == x);
        assert(pushed.drop_first() =~= Seq::<Seq<char>>::empty());
        assert(accepted_buses(pushed.drop_first(), filter) =~= Seq::<Seq<char>>::empty());
        assert(accepted_buses(names, filter) =~= Seq::<Seq<char>>::empty());
        assert(accepted_buses(pushed, filter) =~= tail);
    } else {
        assert(pushed.drop_first() =~= names.drop_first().push(x));
        lemma_accepted_buses_push(names.drop_first(), filter, x);
        assert(pushed[0] == names[0]);
        if spec_valid_bus_name(names[0]) && spec_accepts_name(
            filter,
            spec_short_of(names[0]),
            names[0],
        ) {
            assert(accepted_buses(pushed, filter) =~= accepted_buses(names, filter) + tail);
        } else {
            assert(accepted_buses(pushed, filter) =~= accepted_buses(names, filter) + tail);
        }
    }
}

/// One appearance and one departure of the same name make exactly one
/// `PlayerAttached` followed by exactly one `PlayerDetached` for the name's
/// parsed identity, and afterwards the registry holds no entry for it: the
/// engine sees the attach, the caller reports the endpoint it built, and the
/// engine then sees the detach.
pub proof fn lemma_attach_detach_round_trip<H>(
    e0: DiscoveryEngine<H>,
    e1: DiscoveryEngine<H>,
    e2: DiscoveryEngine<H>,
    e3: DiscoveryEngine<H>,
    name: Seq<char>,
    owner: Seq<char>,
    identity: PlayerIdentity,
    handle: H,
    a1: DiscoveryAction,
    ev2: Option<MprisEvent>,
    a3: DiscoveryAction,
)
    requires
        e0.spec_listening(),
        spec_valid_bus_name(name),
        spec_accepts_name(e0.spec_filter(), spec_short_of(name), name),
        owner.len() > 0,
        owner_changed_post(e0, name, Seq::empty(), owner, e1, a1),
        a1 == DiscoveryAction::BuildAttach(identity),
        attach_built_post(e1, identity, handle, e2, ev2),
        owner_changed_post(e2, name, owner, Seq::empty(), e3, a3),
    ensures
        discovery_action_events(a1) == Seq::<MprisEvent>::empty(),
        ev2 == Some(MprisEvent::PlayerAttached(identity)),
        (a3 matches DiscoveryAction::Detach { token, removed } && token@ == name && removed
            == Some(identity)),
        discovery_action_events(a3) == seq![MprisEvent::PlayerDetached(identity)],
        !e3.spec_contains(name),
{
    assert(identity.spec_bus() == name);
    assert(e2.spec_lookup(name) == Some((identity, handle)));
}

/// A filter that rejects a name guarantees that its appearance is ignored:
/// no attach is requested, nothing is emitted, and no registry entry is
/// made.
pub proof fn lemma_filtered_name_never_attached<H>(
    e0: DiscoveryEngine<H>,
    e1: DiscoveryEngine<H>,
    name: Seq<char>,
    new_owner: Seq<char>,
    action: DiscoveryAction,
)
    requires
        e0.spec_listening(),
        spec_valid_bus_name(name),
        !spec_accepts_name(e0.spec_filter(), spec_short_of(name), name),
        new_owner.len() > 0,
        owner_changed_post(e0, name, Seq::empty(), new_owner, e1, action),
    ensures
        action is Ignored,
        discovery_action_events(action) == Seq::<MprisEvent>::empty(),
        e1.spec_entries() == e0.spec_entries(),
        !e0.spec_contains(name) ==> !e1.spec_contains(name),
{
}

/// The departure of a name that was never registered still yields its
/// detach token — a harmless no-op for the watchers — but emits no
/// `PlayerDetached` and leaves the registry as it was.
pub proof fn lemma_detach_token_for_unregistered<H>(
    e0: DiscoveryEngine<H>,
    e1: DiscoveryEngine<H>,
    name: Seq<char>,
    old_owner: Seq<char>,
    action: DiscoveryAction,
)
    requires
        e0.spec_listening(),
        spec_valid_bus_name(name),
        !e0.spec_contains(name),
        old_owner.len() > 0,
        owner_changed_post(e0, name, old_owner, Seq::empty(), e1, action),
    ensures
        (action matches DiscoveryAction::Detach { token, removed } && token@ == name
            && removed is None),
        discovery_action_events(action) == Seq::<MprisEvent>::empty(),
        e1.spec_entries() == e0.spec_entries(),
{
}

/// Once the consumer channel has closed, the discovery loop answers every
/// further notification with no action, no event, and no registry change.
pub proof fn lemma_closed_discovery_is_silent<H>(
    e0: DiscoveryEngine<H>,
    e1: DiscoveryEngine<H>,
    e2: DiscoveryEngine<H>,
    name: Seq<char>,
    old_owner: Seq<char>,
    new_owner: Seq<char>,
    action: DiscoveryAction,
)
    requires
        stopped_post(e0, e1),
        owner_changed_post(e1, name, old_owner, new_owner, e2, action),
    ensures
        action is Ignored,
        discovery_action_events(action) == Seq::<MprisEvent>::empty(),
        e2.spec_entries() == e1.spec_entries(),
        !e2.spec_listening(),
{
}

/// Once the consumer channel has closed, even a late endpoint build
/// registers nothing and emits nothing.
pub proof fn lemma_closed_discovery_attach_is_silent<H>(
    e0: DiscoveryEngine<H>,
    e1: DiscoveryEngine<H>,
    e2: DiscoveryEngine<H>,
    identity: PlayerIdentity,
    handle: H,
    emitted: Option<MprisEvent>,
)
    requires
        stopped_post(e0, e1),
        attach_built_post(e1, identity, handle, e2, emitted),
    ensures
        emitted is None,
        e2.spec_entries() == e1.spec_entries(),
        !e2.spec_listening(),
{
}

} // verus!
