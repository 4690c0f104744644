//! Live viewer counts per match, kept in a concurrent map, together with the
//! broadcast channel of each match on which count changes are announced.

use vstd::prelude::*;
use dashmap::DashMap;
use tokio::sync::broadcast::{Receiver, Sender};

verus! {

/// Viewer counts keyed by match id.
pub type CountMap = Map<Seq<char>, usize>;

/// Per match id, the channel that announces its counts: the channel's
/// identity and the counts sent on it through the sender the map holds.
pub type ChannelMap = Map<Seq<char>, (int, Seq<usize>)>;

/// Capacity of the broadcast channel that announces a match's count.
pub const CHANNEL_CAPACITY: usize = 32;

#[verifier::external_type_specification]
#[verifier::external_body]
#[verifier::reject_recursive_types(K)]
#[verifier::reject_recursive_types(V)]
#[verifier::reject_recursive_types(S)]
pub struct ExDashMap<K, V, S>(DashMap<K, V, S>);

#[verifier::external_type_specification]
#[verifier::external_body]
#[verifier::reject_recursive_types(T)]
pub struct ExSender<T>(Sender<T>);

#[verifier::external_type_specification]
#[verifier::external_body]
#[verifier::reject_recursive_types(T)]
pub struct ExReceiver<T>(Receiver<T>);

/// What a count map holds: match id (as characters) to viewer count.
pub uninterp spec fn dashmap_counts(m: DashMap<String, usize>) -> Map<Seq<char>, usize>;

/// What a map of senders holds: per match id, the identity of the channel
/// its sender belongs to (two handles have the same identity exactly when
/// `Sender::same_channel` holds of them) and the values sent through that
/// sender.
pub uninterp spec fn dashmap_channels(m: DashMap<String, Sender<usize>>) -> Map<Seq<char>, (int, Seq<usize>)>;

/// The identity of the channel a sender belongs to.
pub uninterp spec fn sender_channel(tx: Sender<usize>) -> int;

/// The values sent through this sender handle, oldest first. Each went to
/// the receivers of the channel that were alive when it was sent.
pub uninterp spec fn sender_sent(tx: Sender<usize>) -> Seq<usize>;

/// The identity of the channel a receiver belongs to.
pub uninterp spec fn receiver_channel(rx: Receiver<usize>) -> int;

/// `DashMap::new` for counts: the map starts empty.
#[verifier::external_body]
fn counts_new() -> (m: DashMap<String, usize>)
    ensures
        dashmap_counts(m) == CountMap::empty(),
{
    DashMap::new()
}

/// `DashMap::get` for counts: the value stored under a key equal to `key`, if any.
#[verifier::external_body]
fn counts_get(m: &DashMap<String, usize>, key: &str) -> (r: Option<usize>)
    ensures
        r == (if dashmap_counts(*m).contains_key(key@) {
            Some(dashmap_counts(*m)[key@])
        } else {
            None
        }),
{
    m.get(key).map(|e| *e)
}

/// `DashMap::entry(..).or_insert(0)` for counts: the key is present afterwards,
/// with its old value if it had one and 0 if not; the value is returned.
#[verifier::external_body]
fn counts_touch(m: &mut DashMap<String, usize>, key: &str) -> (r: usize)
    ensures
        dashmap_counts(*final(m)) == (if dashmap_counts(*old(m)).contains_key(key@) {
            dashmap_counts(*old(m))
        } else {
            dashmap_counts(*old(m)).insert(key@, 0)
        }),
        r == dashmap_counts(*final(m))[key@],
{
    *m.entry(key.to_string()).or_insert(0)
}

/// `DashMap::insert` for counts: `key` now maps to `value`, nothing else changes.
#[verifier::external_body]
fn counts_set(m: &mut DashMap<String, usize>, key: &str, value: usize)
    ensures
        dashmap_counts(*final(m)) == dashmap_counts(*old(m)).insert(key@, value),
{
    m.insert(key.to_string(), value);
}

/// `DashMap::new` for channels: no match has a channel yet.
#[verifier::external_body]
fn channels_new() -> (m: DashMap<String, Sender<usize>>)
    ensures
        dashmap_channels(m) == ChannelMap::empty(),
{
    DashMap::new()
}

/// `tokio::sync::broadcast::channel`: the sending half of a fresh channel
/// (its first receiver is dropped), through which nothing has been sent. It
/// panics on a capacity of 0 or above `usize::MAX / 2`, which `requires`
/// rules out. That the channel differs from every other is not stated.
#[verifier::external_body]
fn sender_new(capacity: usize) -> (tx: Sender<usize>)
    requires
        0 < capacity <= usize::MAX / 2,
    ensures
        sender_sent(tx) == Seq::<usize>::empty(),
{
    tokio::sync::broadcast::channel::<usize>(capacity).0
}

/// `DashMap::entry(..).or_insert(fresh).clone()` for channels: a match that
/// had a sender keeps it, one that had none now holds `fresh`; the handle
/// returned is a new clone of the sender the map holds for `key`, on the
/// same channel, through which nothing has been sent yet.
#[verifier::external_body]
fn channels_sender(m: &mut DashMap<String, Sender<usize>>, key: &str, fresh: Sender<usize>) -> (r: Sender<usize>)
    ensures
        dashmap_channels(*final(m)) == (if dashmap_channels(*old(m)).contains_key(key@) {
            dashmap_channels(*old(m))
        } else {
            dashmap_channels(*old(m)).insert(key@, (sender_channel(fresh), sender_sent(fresh)))
        }),
        sender_channel(r) == dashmap_channels(*final(m))[key@].0,
        sender_sent(r) == Seq::<usize>::empty(),
{
    m.entry(key.to_string()).or_insert(fresh).clone()
}

/// `DashMap::remove` for channels: the sender held for `key`, if any, taken
/// out of the map.
#[verifier::external_body]
fn channels_take(m: &mut DashMap<String, Sender<usize>>, key: &str) -> (r: Option<Sender<usize>>)
    ensures
        dashmap_channels(*final(m)) == dashmap_channels(*old(m)).remove(key@),
        r is Some <==> dashmap_channels(*old(m)).contains_key(key@),
        r matches Some(tx) ==> (sender_channel(tx), sender_sent(tx)) == dashmap_channels(*old(m))[key@],
{
    m.remove(key).map(|entry| entry.1)
}

/// `DashMap::insert` for channels: `key` now holds `tx`.
#[verifier::external_body]
fn channels_put(m: &mut DashMap<String, Sender<usize>>, key: &str, tx: Sender<usize>)
    ensures
        dashmap_channels(*final(m)) == dashmap_channels(*old(m)).insert(
            key@,
            (sender_channel(tx), sender_sent(tx)),
        ),
{
    m.insert(key.to_string(), tx);
}

/// `Sender::subscribe`: a new receiver of the sender's channel. What it will
/// receive (the values sent on the channel from now on, the oldest lost when
/// it lags by more than the capacity) is not stated.
#[verifier::external_body]
fn sender_subscribe(tx: &Sender<usize>) -> (rx: Receiver<usize>)
    ensures
        receiver_channel(rx) == sender_channel(*tx),
{
    tx.subscribe()
}

/// `Sender::send`, its result dropped: the value is sent on the channel, to
/// the receivers alive at that moment (to none if there are none).
#[verifier::external_body]
fn sender_send(tx: &mut Sender<usize>, value: usize)
    ensures
        sender_sent(*final(tx)) == sender_sent(*old(tx)).push(value),
        sender_channel(*final(tx)) == sender_channel(*old(tx)),
{
    let _ = tx.send(value);
}

/// Tracks active viewers per match in memory, and the broadcast channel on
/// which each match's count changes are announced.
pub struct ActiveViewers {
    counts: DashMap<String, usize>,
    broadcasters: DashMap<String, Sender<usize>>,
}

impl View for ActiveViewers {
    type V = (CountMap, ChannelMap);

    /// The current viewer count of every match that has one, and the
    /// channel of every match that has one with the counts announced on it.
    closed spec fn view(&self) -> (CountMap, ChannelMap) {
        (dashmap_counts(self.counts), dashmap_channels(self.broadcasters))
    }
}

/// The count of a match in a count map: 0 where it has none.
pub open spec fn count_of(m: CountMap, match_id: Seq<char>) -> int {
    if m.contains_key(match_id) { m[match_id] as int } else { 0 }
}

/// The counts after one more viewer joins `match_id`.
pub open spec fn incremented(m: CountMap, match_id: Seq<char>) -> CountMap {
    m.insert(match_id, (count_of(m, match_id) + 1) as usize)
}

/// The new count of `match_id` after a viewer leaves: one less, but never
/// below zero.
pub open spec fn count_after_leaving(m: CountMap, match_id: Seq<char>) -> int {
    if count_of(m, match_id) > 0 { count_of(m, match_id) - 1 } else { 0 }
}

/// The counts after a viewer leaves `match_id`: a counted match loses one
/// viewer unless it has none; an uncounted match stays uncounted.
pub open spec fn decremented(m: CountMap, match_id: Seq<char>) -> CountMap {
    if m.contains_key(match_id) {
        m.insert(match_id, count_after_leaving(m, match_id) as usize)
    } else {
        m
    }
}

/// The counts after someone subscribes to `match_id`: it is counted from then
/// on, with 0 viewers if it had no count.
pub open spec fn subscribed(m: CountMap, match_id: Seq<char>) -> CountMap {
    if m.contains_key(match_id) { m } else { m.insert(match_id, 0) }
}

/// The channels after `value` is announced for `match_id`: appended to what
/// its channel has carried, if it has a channel; nothing happens otherwise.
pub open spec fn announced(c: ChannelMap, match_id: Seq<char>, value: usize) -> ChannelMap {
    if c.contains_key(match_id) {
        c.insert(match_id, (c[match_id].0, c[match_id].1.push(value)))
    } else {
        c
    }
}

/// The channels after a subscription to `match_id`: a match that had a
/// channel keeps it as it was; one that had none gets a new channel (of
/// identity `fresh`) that has carried nothing yet.
pub open spec fn channel_opened(c: ChannelMap, match_id: Seq<char>, fresh: int) -> ChannelMap {
    if c.contains_key(match_id) {
        c
    } else {
        c.insert(match_id, (fresh, Seq::<usize>::empty()))
    }
}

impl ActiveViewers {
    pub fn new() -> (r: Self)
        ensures
            r@.0 == CountMap::empty(),
            r@.1 == ChannelMap::empty(),
    {
        ActiveViewers { counts: counts_new(), broadcasters: channels_new() }
    }

    /// The current count of a match; 0 if it was never counted.
    pub fn get_count(&self, match_id: &str) -> (r: usize)
        ensures
            r == count_of(self@.0, match_id@),
    {
        match counts_get(&self.counts, match_id) {
            Some(c) => c,
            None => 0,
        }
    }

    /// Registers interest in a match: the match gets a count (0 if it had
    /// none) and a channel (a new one if it had none); returns the current
    /// count and a receiver on the match's channel.
    pub fn subscribe(&mut self, match_id: &str) -> (r: (usize, Receiver<usize>))
        ensures
            final(self)@.0 == subscribed(old(self)@.0, match_id@),
            r.0 == count_of(old(self)@.0, match_id@),
            final(self)@.1 == channel_opened(old(self)@.1, match_id@, final(self)@.1[match_id@].0),
            receiver_channel(r.1) == final(self)@.1[match_id@].0,
    {
        let current = counts_touch(&mut self.counts, match_id);
        let fresh = sender_new(CHANNEL_CAPACITY);
        let tx = channels_sender(&mut self.broadcasters, match_id, fresh);
        (current, sender_subscribe(&tx))
    }

    /// Adds a viewer to a match, announces the new count on the match's
    /// channel if it has one, and returns the new count.
    pub fn increment(&mut self, match_id: &str) -> (r: usize)
        requires
            count_of(old(self)@.0, match_id@) < usize::MAX,
        ensures
            r == count_of(old(self)@.0, match_id@) + 1,
            final(self)@.0 == incremented(old(self)@.0, match_id@),
            final(self)@.1 == announced(old(self)@.1, match_id@, r),
    {
        let current = counts_touch(&mut self.counts, match_id);
        let new_count = current + 1;
        counts_set(&mut self.counts, match_id, new_count);
        self.broadcast_count(match_id, new_count);
        new_count
    }

    /// Removes a viewer from a match and returns its new count, which never
    /// goes below 0, announcing it on the match's channel if it has one; a
    /// match that was never counted stays uncounted, nothing is announced,
    /// and 0 is returned.
    pub fn decrement(&mut self, match_id: &str) -> (r: usize)
        ensures
            r == count_after_leaving(old(self)@.0, match_id@),
            final(self)@.0 == decremented(old(self)@.0, match_id@),
            final(self)@.1 == (if old(self)@.0.contains_key(match_id@) {
                announced(old(self)@.1, match_id@, r)
            } else {
                old(self)@.1
            }),
    {
        match counts_get(&self.counts, match_id) {
            Some(current) => {
                let new_count = if current > 0 { current - 1 } else { current };
                counts_set(&mut self.counts, match_id, new_count);
                self.broadcast_count(match_id, new_count);
                new_count
            },
            None => 0,
        }
    }

    /// Announces a count on the match's channel, if it has one.
    fn broadcast_count(&mut self, match_id: &str, count: usize)
        ensures
            final(self)@.0 == old(self)@.0,
            final(self)@.1 == announced(old(self)@.1, match_id@, count),
    {
        match channels_take(&mut self.broadcasters, match_id) {
            Some(mut tx) => {
                sender_send(&mut tx, count);
                channels_put(&mut self.broadcasters, match_id, tx);
                proof {
                    assert(final(self)@.1 =~= announced(old(self)@.1, match_id@, count));
                }
            },
            None => {
                proof {
                    assert(final(self)@.1 =~= old(self)@.1);
                }
            },
        }
    }
}

/// A viewer who joins and then leaves a match leaves its count as it was.
pub proof fn law_increment_then_decrement(m: CountMap, match_id: Seq<char>)
    requires
        count_of(m, match_id) < usize::MAX,
    ensures
        count_of(decremented(incremented(m, match_id), match_id), match_id) == count_of(m, match_id),
        m.contains_key(match_id) ==> decremented(incremented(m, match_id), match_id) == m,
{
    if m.contains_key(match_id) {
        assert(decremented(incremented(m, match_id), match_id) =~= m);
    }
}

/// Joining, leaving and subscribing touch only the match concerned.
pub proof fn law_other_matches_unchanged(m: CountMap, match_id: Seq<char>, other: Seq<char>)
    requires
        other != match_id,
    ensures
        count_of(incremented(m, match_id), other) == count_of(m, other),
        count_of(decremented(m, match_id), other) == count_of(m, other),
        count_of(subscribed(m, match_id), other) == count_of(m, other),
{
}

/// Subscribing never changes the count that a match shows.
pub proof fn law_subscribe_keeps_count(m: CountMap, match_id: Seq<char>)
    ensures
        count_of(subscribed(m, match_id), match_id) == count_of(m, match_id),
{
}

/// A count never drops below zero: leaving a match with no viewers keeps it at 0.
pub proof fn law_decrement_floor(m: CountMap, match_id: Seq<char>)
    requires
        count_of(m, match_id) == 0,
    ensures
        count_of(decremented(m, match_id), match_id) == 0,
{
}

/// Each arrival raises the shown count by exactly one.
pub proof fn law_increment_adds_one(m: CountMap, match_id: Seq<char>)
    requires
        count_of(m, match_id) < usize::MAX,
    ensures
        count_of(incremented(m, match_id), match_id) == count_of(m, match_id) + 1,
{
}

/// Everyone who subscribes to a match gets a receiver on the same channel:
/// the second subscription finds the channel the first one opened.
pub proof fn law_subscribers_share_channel(c: ChannelMap, match_id: Seq<char>, first: int, second: int)
    ensures
        channel_opened(channel_opened(c, match_id, first), match_id, second) == channel_opened(
            c,
            match_id,
            first,
        ),
        channel_opened(c, match_id, first).contains_key(match_id),
{
}

/// After a subscription, each count announced for the match is carried by
/// the subscriber's channel, after everything it carried before; the
/// channels of other matches are untouched.
pub proof fn law_announced_on_subscribed_channel(
    c: ChannelMap,
    match_id: Seq<char>,
    fresh: int,
    value: usize,
    other: Seq<char>,
)
    ensures
        ({
            let opened = channel_opened(c, match_id, fresh);
            let after = announced(opened, match_id, value);
            &&& after[match_id].0 == opened[match_id].0
            &&& after[match_id].1 == opened[match_id].1.push(value)
            &&& other != match_id ==> after.contains_key(other) == opened.contains_key(other)
                && (opened.contains_key(other) ==> after[other] == opened[other])
        }),
{
}

/// A match nobody subscribed to announces nothing.
pub proof fn law_no_channel_no_announcement(c: ChannelMap, match_id: Seq<char>, value: usize)
    requires
        !c.contains_key(match_id),
    ensures
        announced(c, match_id, value) == c,
{
}

} // verus!
