//! The presence registry: which outbound channel currently serves each user,
//! and what each of these channels has been handed.

use vstd::prelude::*;
use dashmap::DashMap;
use tokio::sync::mpsc::UnboundedSender;
use crate::error::{AppError, AppResult};

verus! {

#[verifier::external_type_specification]
#[verifier::external_body]
#[verifier::reject_recursive_types(K)]
#[verifier::reject_recursive_types(V)]
#[verifier::reject_recursive_types(S)]
pub struct ExDashMap<K, V, S>(DashMap<K, V, S>);

#[verifier::external_type_specification]
#[verifier::external_body]
#[verifier::reject_recursive_types(T)]
pub struct ExUnboundedSender<T>(UnboundedSender<T>);

/// The model of a presence map: user identifier to the number of a slot.
pub type Slots = Map<Seq<char>, usize>;

/// The entries that a presence map holds: for each registered user the
/// number of the slot that keeps the user's channel.
pub uninterp spec fn presence(users: DashMap<String, usize>) -> Slots;

/// What a map holds for a key, if it holds anything.
pub open spec fn lookup(entries: Slots, user: Seq<char>) -> Option<usize> {
    if entries.contains_key(user) {
        Some(entries[user])
    } else {
        None
    }
}

/// `DashMap::new`: the map starts without entries.
#[verifier::external_body]
fn presence_new() -> (users: DashMap<String, usize>)
    ensures
        presence(users) == Slots::empty(),
{
    DashMap::new()
}

/// `DashMap::insert`: afterwards `user` maps to `slot`, whatever it mapped
/// to before, and every other entry is as it was.
#[verifier::external_body]
fn presence_insert(users: &mut DashMap<String, usize>, user: String, slot: usize)
    ensures
        presence(*final(users)) == presence(*old(users)).insert(user@, slot),
{
    users.insert(user, slot);
}

/// `DashMap::remove`: afterwards `user` has no entry, and every other entry
/// is as it was. Returns what `user` mapped to before.
#[verifier::external_body]
fn presence_remove(users: &mut DashMap<String, usize>, user: &str) -> (previous: Option<usize>)
    ensures
        presence(*final(users)) == presence(*old(users)).remove(user@),
        previous == lookup(presence(*old(users)), user@),
{
    users.remove(user).map(|(_, slot)| slot)
}

/// `DashMap::get`: what `user` maps to, or `None` where `user` has no
/// entry.
#[verifier::external_body]
fn presence_get(users: &DashMap<String, usize>, user: &str) -> (slot: Option<usize>)
    ensures
        slot == lookup(presence(*users), user@),
{
    users.get(user).map(|entry| *entry.value())
}

/// The sending half of one connection's outbound channel, as the registry
/// keeps it.
#[verifier::external_body]
pub struct Channel {
    sender: UnboundedSender<String>,
}

/// The payloads that a channel has taken since the registry took it over,
/// oldest first.
pub uninterp spec fn handed(channel: Channel) -> Seq<Seq<char>>;

/// Takes a sender over. So far it has been handed nothing through the
/// registry.
#[verifier::external_body]
fn channel_new(tx: UnboundedSender<String>) -> (channel: Channel)
    ensures
        handed(channel) == Seq::<Seq<char>>::empty(),
{
    Channel { sender: tx }
}

/// `UnboundedSender::send`: hands `payload` to the channel and tells whether
/// the channel took it. A channel takes what it is handed unless its
/// receiving half is closed or dropped, which nothing here can foresee. What
/// it took is `payload` and nothing else; what it refused leaves no trace.
#[verifier::external_body]
fn channel_send(channel: &mut Channel, payload: String) -> (accepted: bool)
    ensures
        handed(*final(channel)) == (if accepted {
            handed(*old(channel)).push(payload@)
        } else {
            handed(*old(channel))
        }),
{
    channel.sender.send(payload).is_ok()
}

/// The mathematical value of a [`WsManager`]: for each registered user, the
/// payloads that the user's current channel has taken, oldest first.
pub ghost struct RegistryView {
    pub entries: Map<Seq<char>, Seq<Seq<char>>>,
}

impl RegistryView {
    /// The registry after `user` has connected with a new channel, which has
    /// taken nothing yet.
    pub open spec fn connected(self, user: Seq<char>) -> RegistryView {
        RegistryView { entries: self.entries.insert(user, Seq::empty()) }
    }

    /// The registry after `user` has disconnected.
    pub open spec fn disconnected(self, user: Seq<char>) -> RegistryView {
        RegistryView { entries: self.entries.remove(user) }
    }

    /// The registry after `payload` was routed to `user`, where `accepted`
    /// tells whether the channel of `user`, if there is one, took it: that
    /// channel has then taken `payload` last, and no other channel has been
    /// handed anything.
    pub open spec fn routed(self, user: Seq<char>, payload: Seq<char>, accepted: bool) -> RegistryView {
        if self.entries.contains_key(user) && accepted {
            RegistryView { entries: self.entries.insert(user, self.entries[user].push(payload)) }
        } else {
            self
        }
    }

    /// What routing to `user` reports: a failure only where `user` is
    /// registered and the channel refused the payload.
    pub open spec fn route_result(self, user: Seq<char>, accepted: bool) -> AppResult<()> {
        if self.entries.contains_key(user) {
            spec_delivery_result(accepted)
        } else {
            Ok(())
        }
    }
}

/// What a channel's answer means for the sender of a payload.
pub open spec fn spec_delivery_result(accepted: bool) -> AppResult<()> {
    if accepted {
        Ok(())
    } else {
        Err(AppError::DeliveryFailed)
    }
}

/// Turns a channel's answer into the result of a delivery: a refused payload
/// is a delivery failure.
pub fn delivery_result(accepted: bool) -> (r: AppResult<()>)
    ensures
        r == spec_delivery_result(accepted),
{
    if accepted {
        Ok(())
    } else {
        Err(AppError::DeliveryFailed)
    }
}

/// What the channels of the entries of a presence map have taken, given the
/// slots that keep them.
pub open spec fn entries_of(slots: Slots, channels: Seq<Option<Channel>>) -> Map<
    Seq<char>,
    Seq<Seq<char>>,
> {
    Map::new(
        |user: Seq<char>| slots.contains_key(user),
        |user: Seq<char>| handed(channels[slots[user] as int]->Some_0),
    )
}

/// The process-wide presence registry. It is built once, handed to whoever
/// needs it, and holds at most one channel per user.
///
/// The presence map names, for each user, the slot that keeps the sending
/// half of the user's channel. A slot that an entry has left is emptied and
/// kept for the next user who connects.
pub struct WsManager {
    users: DashMap<String, usize>,
    channels: Vec<Option<Channel>>,
    free: Vec<usize>,
}

impl View for WsManager {
    type V = RegistryView;

    closed spec fn view(&self) -> RegistryView {
        RegistryView { entries: entries_of(presence(self.users), self.channels@) }
    }
}

impl WsManager {
    /// The invariant of the registry: every entry names a slot that keeps a
    /// channel, no two entries name the same slot, and the slots that are
    /// kept for later are empty and listed once.
    pub closed spec fn wf(&self) -> bool {
        &&& forall|user: Seq<char>| #[trigger]
            presence(self.users).contains_key(user) ==> presence(self.users)[user]
                < self.channels@.len() && self.channels@[presence(self.users)[user] as int] is Some
        &&& forall|a: Seq<char>, b: Seq<char>|
            #[trigger] presence(self.users).contains_key(a) && #[trigger] presence(
                self.users,
            ).contains_key(b) && a != b ==> presence(self.users)[a] != presence(self.users)[b]
        &&& forall|k: int|
            0 <= k < self.free@.len() ==> (#[trigger] self.free@[k]) < self.channels@.len()
                && self.channels@[self.free@[k] as int] is None
        &&& forall|k: int, l: int|
            0 <= k < l < self.free@.len() ==> (#[trigger] self.free@[k]) != (#[trigger] self.free@[l])
    }

    /// A registry in which nobody is connected.
    pub fn new() -> (manager: Self)
        ensures
            manager.wf(),
            manager@.entries == Map::<Seq<char>, Seq<Seq<char>>>::empty(),
    {
        let manager = WsManager { users: presence_new(), channels: Vec::new(), free: Vec::new() };
        assert(manager@.entries =~= Map::<Seq<char>, Seq<Seq<char>>>::empty());
        manager
    }

    /// Registers `tx` as the outbound route of `user`, replacing any route
    /// that `user` had. A channel that is replaced is let go of, so that
    /// nothing can be handed to it any more.
    pub fn connect(&mut self, user: String, tx: UnboundedSender<String>)
        requires
            old(self).wf(),
        ensures
            final(self).wf(),
            final(self)@ == old(self)@.connected(user@),
    {
        let channel = channel_new(tx);
        match presence_get(&self.users, user.as_str()) {
            Some(slot) => {
                self.channels[slot] = Some(channel);
            },
            None => {
                let ghost name = user@;
                let slot = match self.free.pop() {
                    Some(slot) => {
                        self.channels[slot] = Some(channel);
                        slot
                    },
                    None => {
                        self.channels.push(Some(channel));
                        self.channels.len() - 1
                    },
                };
                presence_insert(&mut self.users, user, slot);
                assert(self@.entries =~= old(self)@.entries.insert(name, Seq::empty()));
            },
        }
        assert(self@.entries =~= old(self)@.entries.insert(user@, Seq::empty()));
    }

    /// Removes the route of `user`, if there is one, and lets go of its
    /// channel.
    pub fn disconnect(&mut self, user: &str)
        requires
            old(self).wf(),
        ensures
            final(self).wf(),
            final(self)@ == old(self)@.disconnected(user@),
    {
        match presence_remove(&mut self.users, user) {
            Some(slot) => {
                self.channels[slot] = None;
                self.free.push(slot);
            },
            None => {},
        }
        assert(self@.entries =~= old(self)@.entries.remove(user@));
    }

    /// Routes `msg` to `user`. Where `user` is not registered the payload is
    /// dropped and the call succeeds: no channel is handed anything. Where
    /// `user` is registered, `msg` is handed to that user's channel and to no
    /// other: if the channel takes it, the call succeeds, and if not, it
    /// fails with [`AppError::DeliveryFailed`].
    pub fn send_to(&mut self, user: String, msg: String) -> (r: AppResult<()>)
        requires
            old(self).wf(),
        ensures
            final(self).wf(),
            exists|accepted: bool|
                {
                    &&& final(self)@ == #[trigger] old(self)@.routed(user@, msg@, accepted)
                    &&& r == old(self)@.route_result(user@, accepted)
                },
            !old(self)@.entries.contains_key(user@) ==> r is Ok && final(self)@ == old(self)@,
            r is Ok && old(self)@.entries.contains_key(user@) ==> final(self)@.entries
                == old(self)@.entries.insert(user@, old(self)@.entries[user@].push(msg@)),
            r is Err ==> final(self)@ == old(self)@,
    {
        let slot = match presence_get(&self.users, user.as_str()) {
            Some(slot) => slot,
            None => {
                assert(self@ == old(self)@.routed(user@, msg@, true));
                return Ok(());
            },
        };
        let ghost payload = msg@;
        let accepted = match &mut self.channels[slot] {
            Some(channel) => channel_send(channel, msg),
            None => false,
        };
        assert(self@.entries =~= old(self)@.routed(user@, payload, accepted).entries);
        delivery_result(accepted)
    }
}

/// Connecting a user a second time replaces the first channel: the registry
/// is as if only the second connection had been made, and a payload routed
/// to that user afterwards is handed to the second channel, which has taken
/// nothing else.
pub proof fn lemma_reconnect_replaces(
    registry: RegistryView,
    user: Seq<char>,
    payload: Seq<char>,
    accepted: bool,
)
    ensures
        registry.connected(user).connected(user) == registry.connected(user),
        registry.connected(user).connected(user).entries[user] == Seq::<Seq<char>>::empty(),
        registry.connected(user).connected(user).routed(user, payload, accepted).entries[user]
            == if accepted {
            seq![payload]
        } else {
            Seq::<Seq<char>>::empty()
        },
        forall|other: Seq<char>|
            other != user && registry.entries.contains_key(other) ==> #[trigger] registry.connected(
                user,
            ).connected(user).routed(user, payload, accepted).entries[other]
                == registry.entries[other],
{
    let once = registry.connected(user);
    let twice = registry.connected(user).connected(user);
    assert(twice.entries =~= once.entries);
    assert(Seq::<Seq<char>>::empty().push(payload) =~= seq![payload]);
}

/// Payloads that the channel of a user takes are taken in the order in
/// which they were routed.
pub proof fn lemma_relay_order(
    registry: RegistryView,
    user: Seq<char>,
    first: Seq<char>,
    second: Seq<char>,
)
    requires
        registry.entries.contains_key(user),
    ensures
        registry.routed(user, first, true).routed(user, second, true).entries
            == registry.entries.insert(user, registry.entries[user].push(first).push(second)),
{
    assert(registry.routed(user, first, true).routed(user, second, true).entries
        =~= registry.entries.insert(user, registry.entries[user].push(first).push(second)));
}

/// Routing to a user who is not registered succeeds and changes nothing,
/// whatever a channel would have answered.
pub proof fn lemma_route_to_absent_user(
    registry: RegistryView,
    user: Seq<char>,
    payload: Seq<char>,
    accepted: bool,
)
    requires
        !registry.entries.contains_key(user),
    ensures
        registry.routed(user, payload, accepted) == registry,
        registry.route_result(user, accepted) is Ok,
{
}

/// Disconnecting is idempotent, and a no-op for a user who is not registered.
pub proof fn lemma_disconnect_idempotent(registry: RegistryView, user: Seq<char>)
    ensures
        registry.disconnected(user).disconnected(user) == registry.disconnected(user),
        !registry.entries.contains_key(user) ==> registry.disconnected(user) == registry,
        !registry.disconnected(user).entries.contains_key(user),
{
    assert(registry.disconnected(user).disconnected(user).entries =~= registry.disconnected(
        user,
    ).entries);
    if !registry.entries.contains_key(user) {
        assert(registry.disconnected(user).entries =~= registry.entries);
    }
}

} // verus!
