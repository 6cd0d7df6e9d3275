//! The registry of live sessions.
//!
//! The registry is the one piece of state that the handlers of an
//! application share. It holds each session under the id of its connection,
//! so that no id is held twice. Its view is the map from id to session;
//! `ids` gives the order in which the sessions are listed. The registry
//! holds no lock of its own: whoever shares it guards it.

use crate::elasticsearch::client::{ConnectionInfo, ConnectionInfoView, ESClient};
use crate::text::views;
use vstd::prelude::*;
use vstd::string::*;

verus! {

/// The ids of the entries, in order.
spec fn entry_ids(entries: Seq<ESClient>) -> Seq<Seq<char>> {
    Seq::new(entries.len(), |i: int| entries[i].id())
}

/// The entries as a map from id to session.
spec fn entry_map(entries: Seq<ESClient>) -> Map<Seq<char>, ESClient> {
    Map::new(
        |id: Seq<char>| entry_ids(entries).contains(id),
        |id: Seq<char>| entries[entry_ids(entries).index_of(id)],
    )
}

/// The sessions after `session` is registered, under the id of its
/// connection.
pub open spec fn registered(sessions: Map<Seq<char>, ESClient>, session: ESClient) -> Map<
    Seq<char>,
    ESClient,
> {
    sessions.insert(session.id(), session)
}

/// The sessions after the one under `id` is removed.
pub open spec fn unregistered(sessions: Map<Seq<char>, ESClient>, id: Seq<char>) -> Map<
    Seq<char>,
    ESClient,
> {
    sessions.remove(id)
}

/// The session that a lookup of `id` finds.
pub open spec fn found(sessions: Map<Seq<char>, ESClient>, id: Seq<char>) -> Option<ESClient> {
    if sessions.contains_key(id) {
        Some(sessions[id])
    } else {
        None
    }
}

/// The order of listing after a session is registered under `id`: as it
/// was for an id that was registered, else with the id added at the end.
pub open spec fn listed_after_register(
    ids: Seq<Seq<char>>,
    present: bool,
    id: Seq<char>,
) -> Seq<Seq<char>> {
    if present {
        ids
    } else {
        ids.push(id)
    }
}

/// The order of listing after the session under `id` is removed: without
/// that id, the others in their order.
pub open spec fn listed_after_unregister(
    ids: Seq<Seq<char>>,
    present: bool,
    id: Seq<char>,
) -> Seq<Seq<char>> {
    if present {
        ids.remove(ids.index_of(id))
    } else {
        ids
    }
}

/// What holds of the sessions and the order of listing of every registry:
/// no id is listed twice, the listed ids are the registered ones, and each
/// session stands under the id of its connection.
pub open spec fn registry_valid(sessions: Map<Seq<char>, ESClient>, ids: Seq<Seq<char>>) -> bool {
    &&& ids.no_duplicates()
    &&& ids.to_set() == sessions.dom()
    &&& forall|id: Seq<char>| sessions.contains_key(id) ==> (#[trigger] sessions[id]).id() == id
}

/// The identities that a registry lists: that of each session, in the
/// order of the ids.
pub open spec fn listing(sessions: Map<Seq<char>, ESClient>, ids: Seq<Seq<char>>) -> Seq<
    ConnectionInfoView,
> {
    ids.map_values(|id: Seq<char>| sessions[id].info()@)
}

/// Registering under an id that is already registered replaces the session
/// that was there: a lookup of the id then finds the new session, and
/// the registry is what it would be had the old session never been there.
pub proof fn lemma_register_replaces(
    sessions: Map<Seq<char>, ESClient>,
    old_session: ESClient,
    new_session: ESClient,
)
    requires
        old_session.id() == new_session.id(),
    ensures
        found(registered(registered(sessions, old_session), new_session), new_session.id())
            == Some(new_session),
        registered(registered(sessions, old_session), new_session) == registered(
            sessions,
            new_session,
        ),
{
    let id = new_session.id();
    assert(sessions.insert(id, old_session).insert(id, new_session) =~= sessions.insert(
        id,
        new_session,
    ));
}

/// Registering a session changes what is found under no other id.
pub proof fn lemma_register_keeps_others(
    sessions: Map<Seq<char>, ESClient>,
    session: ESClient,
    other: Seq<char>,
)
    requires
        other != session.id(),
    ensures
        found(registered(sessions, session), other) == found(sessions, other),
{
}

/// Removing an id that is not registered leaves the registry as it was.
pub proof fn lemma_unregister_unknown(sessions: Map<Seq<char>, ESClient>, id: Seq<char>)
    requires
        !sessions.contains_key(id),
    ensures
        unregistered(sessions, id) == sessions,
{
    assert(sessions.remove(id) =~= sessions);
}

/// Removing an id leaves nothing to be found under it, and changes what is
/// found under no other id.
pub proof fn lemma_unregister_keeps_others(
    sessions: Map<Seq<char>, ESClient>,
    id: Seq<char>,
    other: Seq<char>,
)
    ensures
        found(unregistered(sessions, id), id) is None,
        other != id ==> found(unregistered(sessions, id), other) == found(sessions, other),
{
}

/// Registering a session under an id that was not registered and removing
/// it again gives back the registry as it was, sessions and order of listing.
pub proof fn lemma_register_then_unregister(
    sessions: Map<Seq<char>, ESClient>,
    ids: Seq<Seq<char>>,
    session: ESClient,
)
    requires
        !sessions.contains_key(session.id()),
        !ids.contains(session.id()),
    ensures
        unregistered(registered(sessions, session), session.id()) == sessions,
        listed_after_unregister(
            listed_after_register(ids, false, session.id()),
            true,
            session.id(),
        ) == ids,
{
    let id = session.id();
    assert(sessions.insert(id, session).remove(id) =~= sessions);
    let longer = ids.push(id);
    let at = longer.index_of(id);
    assert(longer[ids.len() as int] == id);
    assert(0 <= at < longer.len() && longer[at] == id);
    if at < ids.len() {
        assert(ids[at] == id);
    }
    assert(longer.remove(at) =~= ids);
}

/// Among ids that are all different, an id is found where it stands.
proof fn lemma_index_of_unique(ids: Seq<Seq<char>>, at: int)
    requires
        ids.no_duplicates(),
        0 <= at < ids.len(),
    ensures
        ids.contains(ids[at]),
        ids.index_of(ids[at]) == at,
{
}

/// Registering a session leaves a registry valid.
pub proof fn lemma_register_keeps_valid(
    sessions: Map<Seq<char>, ESClient>,
    ids: Seq<Seq<char>>,
    session: ESClient,
)
    requires
        registry_valid(sessions, ids),
    ensures
        registry_valid(
            registered(sessions, session),
            listed_after_register(ids, sessions.contains_key(session.id()), session.id()),
        ),
{
    let id = session.id();
    let after = registered(sessions, session);
    let order = listed_after_register(ids, sessions.contains_key(id), id);
    if sessions.contains_key(id) {
        assert(ids.to_set().contains(id));
        assert(order.to_set() =~= after.dom());
    } else {
        assert(!ids.to_set().contains(id));
        assert forall|i: int, j: int|
            0 <= i < order.len() && 0 <= j < order.len() && i != j implies order[i] != order[j] by {
            if i < ids.len() {
                assert(ids.contains(ids[i]));
            }
            if j < ids.len() {
                assert(ids.contains(ids[j]));
            }
        }
        assert forall|k: Seq<char>| order.to_set().contains(k) <==> after.dom().contains(k) by {
            if order.contains(k) {
                let i = order.index_of(k);
                if i < ids.len() {
                    assert(ids.contains(k));
                    assert(ids.to_set().contains(k));
                }
            }
            if after.dom().contains(k) {
                if k == id {
                    assert(order[ids.len() as int] == k);
                } else {
                    assert(ids.to_set().contains(k));
                    let i = ids.index_of(k);
                    assert(order[i] == k);
                }
            }
        }
        assert(order.to_set() =~= after.dom());
    }
}

/// Removing a session leaves a registry valid.
pub proof fn lemma_unregister_keeps_valid(
    sessions: Map<Seq<char>, ESClient>,
    ids: Seq<Seq<char>>,
    id: Seq<char>,
)
    requires
        registry_valid(sessions, ids),
    ensures
        registry_valid(
            unregistered(sessions, id),
            listed_after_unregister(ids, sessions.contains_key(id), id),
        ),
{
    let after = unregistered(sessions, id);
    let order = listed_after_unregister(ids, sessions.contains_key(id), id);
    if sessions.contains_key(id) {
        assert(ids.to_set().contains(id));
        let at = ids.index_of(id);
        assert forall|i: int| 0 <= i < order.len() implies order[i] == ids[if i < at {
            i
        } else {
            i + 1
        }] by {}
        assert forall|k: Seq<char>| order.to_set().contains(k) <==> after.dom().contains(k) by {
            if order.contains(k) {
                let i = order.index_of(k);
                let from = if i < at { i } else { i + 1 };
                assert(ids[from] == k);
                assert(ids.contains(k));
                assert(ids.to_set().contains(k));
            }
            if after.dom().contains(k) {
                assert(ids.to_set().contains(k));
                let i = ids.index_of(k);
                let to = if i < at { i } else { i - 1 };
                assert(order[to] == k);
            }
        }
        assert(order.to_set() =~= after.dom());
    } else {
        assert(after =~= sessions);
    }
}

/// A valid registry lists each of its sessions once: the identity of the
/// session under `id` stands at one place of the listing, and it is the
/// only listed identity with that id.
pub proof fn lemma_listing_names_each_session_once(
    sessions: Map<Seq<char>, ESClient>,
    ids: Seq<Seq<char>>,
    id: Seq<char>,
)
    requires
        registry_valid(sessions, ids),
        sessions.contains_key(id),
    ensures
        listing(sessions, ids).len() == ids.len(),
        0 <= ids.index_of(id) < ids.len(),
        listing(sessions, ids)[ids.index_of(id)] == sessions[id].info()@,
        forall|at: int|
            0 <= at < ids.len() && (#[trigger] listing(sessions, ids)[at]).id == id ==> at
                == ids.index_of(id),
{
    assert(ids.to_set().contains(id));
    let place = ids.index_of(id);
    assert forall|at: int| 0 <= at < ids.len() && (#[trigger] listing(sessions, ids)[at]).id
        == id implies at == place by {
        assert(ids.contains(ids[at]));
        assert(ids.to_set().contains(ids[at]));
        assert(sessions[ids[at]].id() == ids[at]);
    }
}

/// After a session is registered under an id that held another, the
/// listing holds the identity of the new session, once, and under that id
/// nothing else: the identity of the session that was replaced is gone,
/// unless it is the same.
pub proof fn lemma_register_again_lists_new_session(
    sessions: Map<Seq<char>, ESClient>,
    ids: Seq<Seq<char>>,
    old_session: ESClient,
    new_session: ESClient,
)
    requires
        registry_valid(sessions, ids),
        old_session.id() == new_session.id(),
    ensures
        ({
            let id = new_session.id();
            let first = registered(sessions, old_session);
            let first_ids = listed_after_register(ids, sessions.contains_key(id), id);
            let second = registered(first, new_session);
            let second_ids = listed_after_register(first_ids, first.contains_key(id), id);
            let listed = listing(second, second_ids);
            &&& registry_valid(second, second_ids)
            &&& second_ids == first_ids
            &&& 0 <= second_ids.index_of(id) < listed.len()
            &&& listed[second_ids.index_of(id)] == new_session.info()@
            &&& forall|at: int|
                0 <= at < listed.len() && (#[trigger] listed[at]).id == id ==> listed[at]
                    == new_session.info()@
            &&& old_session.info()@ != new_session.info()@ ==> forall|at: int|
                0 <= at < listed.len() ==> #[trigger] listed[at] != old_session.info()@
        }),
{
    let id = new_session.id();
    let first = registered(sessions, old_session);
    let first_ids = listed_after_register(ids, sessions.contains_key(id), id);
    lemma_register_keeps_valid(sessions, ids, old_session);
    let second = registered(first, new_session);
    let second_ids = listed_after_register(first_ids, first.contains_key(id), id);
    lemma_register_keeps_valid(first, first_ids, new_session);
    lemma_listing_names_each_session_once(second, second_ids, id);
    let listed = listing(second, second_ids);
    assert forall|at: int| 0 <= at < listed.len() && old_session.info()@
        != new_session.info()@ implies #[trigger] listed[at] != old_session.info()@ by {
        if listed[at] == old_session.info()@ {
            assert(listed[at].id == id);
        }
    }
}

/// The sessions of an application, each under the id of its connection.
pub struct AppState {
    es_clients: Vec<ESClient>,
}

impl View for AppState {
    type V = Map<Seq<char>, ESClient>;

    /// The registered sessions, by id.
    closed spec fn view(&self) -> Map<Seq<char>, ESClient> {
        entry_map(self.es_clients@)
    }
}

impl AppState {
    /// No id is registered twice.
    #[verifier::type_invariant]
    spec fn ids_differ(self) -> bool {
        entry_ids(self.es_clients@).no_duplicates()
    }

    /// The registered ids, in the order in which the sessions are listed:
    /// the order of their first registration.
    pub closed spec fn ids(&self) -> Seq<Seq<char>> {
        entry_ids(self.es_clients@)
    }

    /// Entries with different ids make a valid registry.
    proof fn lemma_entries_valid(entries: Seq<ESClient>)
        requires
            entry_ids(entries).no_duplicates(),
        ensures
            registry_valid(entry_map(entries), entry_ids(entries)),
    {
        let ids = entry_ids(entries);
        assert(ids.to_set() =~= entry_map(entries).dom());
        assert forall|id: Seq<char>| entry_map(entries).contains_key(id) implies (
        #[trigger] entry_map(entries)[id]).id() == id by {
            let at = ids.index_of(id);
            assert(ids[at] == id);
        }
    }

    /// A registry without sessions.
    pub fn new() -> (state: AppState)
        ensures
            state@ == Map::<Seq<char>, ESClient>::empty(),
            state.ids() == Seq::<Seq<char>>::empty(),
    {
        let state = AppState { es_clients: Vec::new() };
        assert(state@ =~= Map::<Seq<char>, ESClient>::empty());
        assert(state.ids() =~= Seq::<Seq<char>>::empty());
        state
    }

    /// Where the entry for `id` stands.
    fn find(&self, id: &str) -> (place: Option<usize>)
        ensures
            match place {
                Some(at) => at < self.es_clients.len() && self.es_clients@[at as int].id() == id@,
                None => !entry_ids(self.es_clients@).contains(id@),
            },
    {
        let mut at: usize = 0;
        while at < self.es_clients.len()
            invariant
                at <= self.es_clients.len(),
                forall|i: int| 0 <= i < at ==> (#[trigger] self.es_clients@[i]).id() != id@,
            decreases self.es_clients.len() - at,
        {
            if self.es_clients[at].get_connection_info().id.as_str().eq(id) {
                return Some(at);
            }
            at += 1;
        }
        proof {
            let ids = entry_ids(self.es_clients@);
            assert forall|i: int| 0 <= i < ids.len() implies ids[i] != id@ by {
                assert(self.es_clients@[i].id() != id@);
            }
        }
        None
    }

    /// Takes the entries out and leaves the registry empty.
    fn take_entries(&mut self) -> (entries: Vec<ESClient>)
        ensures
            entries == old(self).es_clients,
            final(self).es_clients@.len() == 0,
    {
        let mut emptied = AppState { es_clients: Vec::new() };
        core::mem::swap(self, &mut emptied);
        emptied.es_clients
    }

    /// The number of registered sessions.
    pub fn len(&self) -> (count: usize)
        ensures
            count == self.ids().len(),
            registry_valid(self@, self.ids()),
    {
        proof {
            use_type_invariant(self);
            Self::lemma_entries_valid(self.es_clients@);
        }
        self.es_clients.len()
    }

    /// Registers `session` under the id of its connection. A session that
    /// was registered under that id is replaced and dropped, and the new
    /// one takes its place in the listing; every other session stays.
    pub fn register(&mut self, session: ESClient)
        ensures
            final(self)@ == registered(old(self)@, session),
            final(self).ids() == listed_after_register(
                old(self).ids(),
                old(self)@.contains_key(session.id()),
                session.id(),
            ),
            registry_valid(final(self)@, final(self).ids()),
    {
        proof {
            use_type_invariant(&*self);
        }
        let ghost before = self.es_clients@;
        let ghost key = session.id();
        let place = self.find(session.get_connection_info().id.as_str());
        let mut entries = self.take_entries();
        match place {
            Some(at) => {
                proof {
                    lemma_index_of_unique(entry_ids(before), at as int);
                }
                entries.set(at, session);
                proof {
                    let after = entries@;
                    assert(entry_ids(after) =~= entry_ids(before));
                    assert forall|k: Seq<char>| entry_ids(after).contains(k) implies #[trigger] entry_map(
                        after,
                    )[k] == entry_map(before).insert(key, session)[k] by {
                        let i = entry_ids(after).index_of(k);
                        lemma_index_of_unique(entry_ids(before), i);
                    }
                    assert(entry_map(after) =~= entry_map(before).insert(key, session));
                }
            },
            None => {
                entries.push(session);
                proof {
                    let after = entries@;
                    assert(entry_ids(after) =~= entry_ids(before).push(key));
                    assert(entry_ids(after).no_duplicates());
                    lemma_index_of_unique(entry_ids(after), before.len() as int);
                    assert forall|k: Seq<char>| entry_ids(before).contains(k) implies entry_ids(
                        after,
                    ).contains(k) && entry_ids(after).index_of(k) == entry_ids(before).index_of(
                        k,
                    ) by {
                        let i = entry_ids(before).index_of(k);
                        assert(entry_ids(after)[i] == k);
                        lemma_index_of_unique(entry_ids(after), i);
                    }
                    assert forall|k: Seq<char>| entry_ids(after).contains(k) implies k == key
                        || entry_ids(before).contains(k) by {
                        let i = entry_ids(after).index_of(k);
                        if i < before.len() {
                            assert(entry_ids(before)[i] == k);
                        }
                    }
                    assert(entry_map(after) =~= entry_map(before).insert(key, session));
                }
            },
        }
        proof {
            Self::lemma_entries_valid(entries@);
        }
        *self = AppState { es_clients: entries };
    }

    /// Removes the session registered under `id`, if there is one. An id
    /// that is not registered changes nothing, and is no error.
    pub fn unregister(&mut self, id: &str)
        ensures
            final(self)@ == unregistered(old(self)@, id@),
            final(self).ids() == listed_after_unregister(
                old(self).ids(),
                old(self)@.contains_key(id@),
                id@,
            ),
            registry_valid(final(self)@, final(self).ids()),
    {
        proof {
            use_type_invariant(&*self);
        }
        let ghost before = self.es_clients@;
        let place = self.find(id);
        let mut entries = self.take_entries();
        match place {
            Some(at) => {
                proof {
                    lemma_index_of_unique(entry_ids(before), at as int);
                }
                entries.remove(at);
                proof {
                    let after = entries@;
                    assert(entry_ids(after) =~= entry_ids(before).remove(at as int));
                    assert(entry_ids(after).no_duplicates()) by {
                        assert forall|i: int, j: int|
                            0 <= i < after.len() && 0 <= j < after.len() && i != j implies entry_ids(
                            after,
                        )[i] != entry_ids(after)[j] by {
                            let from_i = if i < at { i } else { i + 1 };
                            let from_j = if j < at { j } else { j + 1 };
                            assert(entry_ids(after)[i] == entry_ids(before)[from_i]);
                            assert(entry_ids(after)[j] == entry_ids(before)[from_j]);
                        }
                    }
                    assert forall|k: Seq<char>| entry_ids(after).contains(k) implies k != id@
                        && entry_ids(before).contains(k) && #[trigger] entry_map(after)[k]
                        == entry_map(before)[k] by {
                        let i = entry_ids(after).index_of(k);
                        let from = if i < at { i } else { i + 1 };
                        assert(entry_ids(before)[from] == k);
                        lemma_index_of_unique(entry_ids(before), from);
                    }
                    assert forall|k: Seq<char>| k != id@ && entry_ids(before).contains(
                        k,
                    ) implies entry_ids(after).contains(k) by {
                        let i = entry_ids(before).index_of(k);
                        let to = if i < at { i } else { i - 1 };
                        assert(entry_ids(after)[to] == k);
                    }
                    assert(entry_map(after) =~= entry_map(before).remove(id@));
                }
            },
            None => {
                assert(entry_map(before) =~= entry_map(before).remove(id@));
            },
        }
        proof {
            Self::lemma_entries_valid(entries@);
        }
        *self = AppState { es_clients: entries };
    }

    /// The session registered under `id`.
    pub fn lookup(&self, id: &str) -> (session: Option<&ESClient>)
        ensures
            match session {
                Some(registered) => found(self@, id@) == Some(*registered) && registered.id()
                    == id@,
                None => found(self@, id@) is None,
            },
    {
        proof {
            use_type_invariant(self);
        }
        match self.find(id) {
            Some(at) => {
                proof {
                    lemma_index_of_unique(entry_ids(self.es_clients@), at as int);
                }
                Some(&self.es_clients[at])
            },
            None => None,
        }
    }

    /// The identities of all registered sessions: that of each session
    /// once, in the order of `ids`.
    pub fn list_all(&self) -> (listed: Vec<ConnectionInfo>)
        ensures
            views(listed@) == listing(self@, self.ids()),
            registry_valid(self@, self.ids()),
    {
        proof {
            use_type_invariant(self);
            Self::lemma_entries_valid(self.es_clients@);
        }
        let mut listed: Vec<ConnectionInfo> = Vec::new();
        let mut at: usize = 0;
        while at < self.es_clients.len()
            invariant
                at <= self.es_clients.len(),
                listed.len() == at,
                forall|i: int|
                    0 <= i < at ==> (#[trigger] listed@[i])@ == self.es_clients@[i].info()@,
            decreases self.es_clients.len() - at,
        {
            listed.push(self.es_clients[at].get_connection_info().clone());
            at += 1;
        }
        proof {
            let ids = self.ids();
            let wanted = listing(self@, ids);
            assert forall|i: int| 0 <= i < ids.len() implies views(listed@)[i] == wanted[i] by {
                lemma_index_of_unique(ids, i);
            }
            assert(views(listed@) =~= wanted);
        }
        listed
    }
}

} // verus!
