//! A simple in-memory broker: a registry of topic slots, each holding the
//! most recently published value for its key, a version counter and a
//! last-touched day stamp.  Publishing replaces the slot's value and wakes
//! subscribers; subscribers poll their slot and observe only the newest
//! value (older ones coalesce).  A sweeper removes slots that have not been
//! touched within a retention window.

use vstd::prelude::*;

use chrono::Datelike;
use tokio::sync::watch;

verus! {

/// A topic key.  The empty string is a message type's global channel; any
/// other value partitions the broadcast space.
pub type Key = String;

/// Days an untouched slot is kept before the sweeper may remove it.
pub const DEFAULT_RETENTION_DAYS: u64 = 3;

// ---------------------------------------------------------------------------
// Trusted boundary: the watch channel used to wake subscribers, and the
// local calendar day used for retention stamps.
// ---------------------------------------------------------------------------

#[verifier::external_type_specification]
#[verifier::external_body]
#[verifier::reject_recursive_types(T)]
pub struct ExWatchSender<T>(watch::Sender<T>);

#[verifier::external_type_specification]
#[verifier::external_body]
#[verifier::reject_recursive_types(T)]
pub struct ExWatchReceiver<T>(watch::Receiver<T>);

/// Relies on tokio::sync::watch::channel: creates the wake-up channel of a
/// fresh slot.  Only the sending end is kept; receivers are made from it on
/// demand.
#[verifier::external_body]
fn wake_channel() -> watch::Sender<u64> {
    watch::channel(0u64).0
}

/// Relies on tokio::sync::watch::Sender::send_replace: stores the version
/// number unconditionally and wakes every receiver waiting on the channel.
#[verifier::external_body]
fn wake_subscribers(tx: &watch::Sender<u64>, version: u64) {
    let _ = tx.send_replace(version);
}

/// Relies on tokio::sync::watch::Sender::subscribe: a new receiving end of
/// the same wake-up channel.
#[verifier::external_body]
fn wake_handle(tx: &watch::Sender<u64>) -> watch::Receiver<u64> {
    tx.subscribe()
}

/// Relies on chrono::Local::now and chrono::Datelike::num_days_from_ce for
/// the local calendar day.  The result depends on the clock, so nothing is
/// promised of it.
#[verifier::external_body]
fn local_day_number() -> i32 {
    chrono::Local::now().date_naive().num_days_from_ce()
}

/// The local calendar day as a day number, clamped to zero for days before
/// the common era.
fn today() -> (d: u64) {
    let raw = local_day_number();
    if raw < 0 {
        0
    } else {
        raw as u64
    }
}

// ---------------------------------------------------------------------------
// The mathematical model.
// ---------------------------------------------------------------------------

/// Model of one channel slot: the latest value (`None` until the first
/// publish), how many publishes the slot has seen, the day it was last
/// accessed, and an identity that tells it apart from any slot that may
/// later be created under the same key.
pub ghost struct SlotModel<T> {
    pub value: Option<T>,
    pub version: nat,
    pub last_touched: nat,
    pub slot_id: nat,
}

/// Model of the whole broker: the registry of slots by key, the next free
/// slot identity, and the retention window in days.
pub ghost struct BrokerModel<T> {
    pub slots: Map<Seq<char>, SlotModel<T>>,
    pub next_slot_id: nat,
    pub retention_days: nat,
}

/// Model of a subscription: which slot it reads (key and identity) and the
/// version it has last observed (`None` before its first observation).
pub ghost struct SubscriptionModel {
    pub key: Seq<char>,
    pub slot_id: nat,
    pub seen: Option<nat>,
}

/// A fresh slot: no value yet, version zero, stamped with `today`.
pub open spec fn spec_slot_new<T>(slot_id: nat, today: nat) -> SlotModel<T> {
    SlotModel { value: None, version: 0, last_touched: today, slot_id }
}

/// A slot after one publish of `v` on day `today`.
pub open spec fn spec_slot_published<T>(s: SlotModel<T>, v: T, today: nat) -> SlotModel<T> {
    SlotModel { value: Some(v), version: s.version + 1, last_touched: today, slot_id: s.slot_id }
}

/// A slot whose day stamp was refreshed to `today`; value and version stay.
pub open spec fn spec_slot_touched<T>(s: SlotModel<T>, today: nat) -> SlotModel<T> {
    SlotModel { value: s.value, version: s.version, last_touched: today, slot_id: s.slot_id }
}

/// Publishing to `k`: if the slot exists its value is replaced and it is
/// touched; if nobody ever subscribed, nothing at all changes.
pub open spec fn spec_publish_to<T>(m: BrokerModel<T>, k: Seq<char>, v: T, today: nat) -> BrokerModel<T> {
    if m.slots.contains_key(k) {
        BrokerModel {
            slots: m.slots.insert(k, spec_slot_published(m.slots[k], v, today)),
            next_slot_id: m.next_slot_id,
            retention_days: m.retention_days,
        }
    } else {
        m
    }
}

/// Subscribing to `k`: the slot is touched, or lazily created when absent,
/// and the new subscription has observed nothing yet.
pub open spec fn spec_subscribe_to<T>(m: BrokerModel<T>, k: Seq<char>, today: nat) -> (BrokerModel<T>, SubscriptionModel) {
    if m.slots.contains_key(k) {
        (
            BrokerModel {
                slots: m.slots.insert(k, spec_slot_touched(m.slots[k], today)),
                next_slot_id: m.next_slot_id,
                retention_days: m.retention_days,
            },
            SubscriptionModel { key: k, slot_id: m.slots[k].slot_id, seen: None },
        )
    } else {
        (
            BrokerModel {
                slots: m.slots.insert(k, spec_slot_new(m.next_slot_id, today)),
                next_slot_id: m.next_slot_id + 1,
                retention_days: m.retention_days,
            },
            SubscriptionModel { key: k, slot_id: m.next_slot_id, seen: None },
        )
    }
}

/// A slot is stale on `today` when the days since its last touch strictly
/// exceed the retention window.
pub open spec fn spec_slot_stale<T>(s: SlotModel<T>, today: nat, retention_days: nat) -> bool {
    today > s.last_touched && today - s.last_touched > retention_days
}

/// The sweep keeps exactly the slots that are not stale.
pub open spec fn spec_cleanup<T>(m: BrokerModel<T>, today: nat) -> BrokerModel<T> {
    BrokerModel {
        slots: Map::new(
            |k: Seq<char>| m.slots.contains_key(k) && !spec_slot_stale(m.slots[k], today, m.retention_days),
            |k: Seq<char>| m.slots[k],
        ),
        next_slot_id: m.next_slot_id,
        retention_days: m.retention_days,
    }
}

/// One poll of a subscription.  If its slot is gone (or was replaced by a
/// younger slot under the same key) there is nothing to observe; otherwise
/// the subscription observes the slot's current value exactly when it has
/// not yet observed the slot's current version.
pub open spec fn spec_poll<T>(m: BrokerModel<T>, s: SubscriptionModel) -> (Option<Option<T>>, SubscriptionModel) {
    if m.slots.contains_key(s.key) && m.slots[s.key].slot_id == s.slot_id {
        let slot = m.slots[s.key];
        if s.seen != Some(slot.version) {
            (
                Some(slot.value),
                SubscriptionModel { key: s.key, slot_id: s.slot_id, seen: Some(slot.version) },
            )
        } else {
            (None, s)
        }
    } else {
        (None, s)
    }
}

// ---------------------------------------------------------------------------
// The executable types and their views.
// ---------------------------------------------------------------------------

/// One topic's slot: the latest value, its version, the last-touched day
/// stamp, and the wake-up channel whose receiving ends subscribers hold.
pub struct ChannelSlot<T> {
    key: Key,
    slot_id: u64,
    value: Option<T>,
    version: u64,
    last_touched: u64,
    wake: watch::Sender<u64>,
}

/// An independent reader of one slot.  Distinct subscriptions to the same
/// key share the slot but observe it each at their own pace.
pub struct Subscription {
    key: Key,
    slot_id: u64,
    seen: Option<u64>,
    wake: watch::Receiver<u64>,
}

/// The broker for one message type: a registry of slots by topic key.
pub struct CindyBroker<T> {
    slots: Vec<ChannelSlot<T>>,
    next_slot_id: u64,
    retention_days: u64,
}

impl<T> ChannelSlot<T> {
    /// The slot's model.
    pub closed spec fn model(&self) -> SlotModel<T> {
        SlotModel {
            value: self.value,
            version: self.version as nat,
            last_touched: self.last_touched as nat,
            slot_id: self.slot_id as nat,
        }
    }

    /// The slot's key, as a sequence of characters.
    pub closed spec fn key_view(&self) -> Seq<char> {
        self.key@
    }

    /// A fresh slot for `key`, stamped with `today`.
    pub fn new(key: Key, slot_id: u64, today: u64) -> (s: Self)
        ensures
            s.model() == spec_slot_new::<T>(slot_id as nat, today as nat),
            s.key_view() == key@,
    {
        ChannelSlot {
            key,
            slot_id,
            value: None,
            version: 0,
            last_touched: today,
            wake: wake_channel(),
        }
    }
}

impl View for Subscription {
    type V = SubscriptionModel;

    closed spec fn view(&self) -> SubscriptionModel {
        SubscriptionModel {
            key: self.key@,
            slot_id: self.slot_id as nat,
            seen: match self.seen {
                Some(v) => Some(v as nat),
                None => None,
            },
        }
    }
}

impl Subscription {
    /// The topic key this subscription reads.
    pub fn key(&self) -> (k: &Key)
        ensures
            k@ == self@.key,
    {
        &self.key
    }

    /// The receiving end of the slot's wake-up channel; it changes whenever
    /// a value is published to the slot.
    pub fn wake_handle(&self) -> &watch::Receiver<u64> {
        &self.wake
    }
}

spec fn has_key<T>(s: Seq<ChannelSlot<T>>, k: Seq<char>) -> bool {
    exists|i: int| 0 <= i < s.len() && s[i].key_view() == k
}

spec fn idx_of<T>(s: Seq<ChannelSlot<T>>, k: Seq<char>) -> int {
    choose|i: int| 0 <= i < s.len() && s[i].key_view() == k
}

spec fn keys_unique<T>(s: Seq<ChannelSlot<T>>) -> bool {
    forall|i: int, j: int| 0 <= i < j < s.len() ==> s[i].key_view() != s[j].key_view()
}

spec fn map_of<T>(s: Seq<ChannelSlot<T>>) -> Map<Seq<char>, SlotModel<T>> {
    Map::new(|k: Seq<char>| has_key(s, k), |k: Seq<char>| s[idx_of(s, k)].model())
}

impl<T> View for CindyBroker<T> {
    type V = BrokerModel<T>;

    closed spec fn view(&self) -> BrokerModel<T> {
        BrokerModel {
            slots: map_of(self.slots@),
            next_slot_id: self.next_slot_id as nat,
            retention_days: self.retention_days as nat,
        }
    }
}

impl<T> CindyBroker<T> {
    /// Internal well-formedness: keys are distinct, and every slot's
    /// identity lies below the next free identity.
    pub closed spec fn wf(&self) -> bool {
        &&& keys_unique(self.slots@)
        &&& forall|i: int| 0 <= i < self.slots@.len() ==> (#[trigger] self.slots@[i]).slot_id < self.next_slot_id
    }

    /// An empty broker with the default retention window.
    pub fn new() -> (b: Self)
        ensures
            b.wf(),
            b@.slots == Map::<Seq<char>, SlotModel<T>>::empty(),
            b@.next_slot_id == 0,
            b@.retention_days == DEFAULT_RETENTION_DAYS,
    {
        let b = CindyBroker { slots: Vec::new(), next_slot_id: 0, retention_days: DEFAULT_RETENTION_DAYS };
        proof {
            assert(b@.slots =~= Map::<Seq<char>, SlotModel<T>>::empty());
        }
        b
    }

    /// An empty broker whose retention window is `days` days.
    pub fn with_retention_days(days: u64) -> (b: Self)
        ensures
            b.wf(),
            b@.slots == Map::<Seq<char>, SlotModel<T>>::empty(),
            b@.next_slot_id == 0,
            b@.retention_days == days,
    {
        let b = CindyBroker { slots: Vec::new(), next_slot_id: 0, retention_days: days };
        proof {
            assert(b@.slots =~= Map::<Seq<char>, SlotModel<T>>::empty());
        }
        b
    }

    /// The configured retention window, in days.
    pub fn retention(&self) -> (d: u64)
        ensures
            d == self@.retention_days,
    {
        self.retention_days
    }

    /// How many slot identities have been handed out so far.
    pub fn slot_ids_used(&self) -> (n: u64)
        ensures
            n == self@.next_slot_id,
    {
        self.next_slot_id
    }

    /// How many publishes the slot for `key` has seen, if it exists.
    pub fn publish_count(&self, key: &Key) -> (r: Option<u64>)
        requires
            self.wf(),
        ensures
            match r {
                Some(n) => self@.slots.contains_key(key@) && n == self@.slots[key@].version,
                None => !self@.slots.contains_key(key@),
            },
    {
        match self.find_index(key) {
            Some(i) => {
                proof {
                    lemma_idx_of(self.slots@, key@);
                }
                Some(self.slots[i].version)
            },
            None => None,
        }
    }

    /// Whether every slot's publish counter still has headroom, as a
    /// fan-out publish requires of each slot it may stamp.
    pub fn has_publish_headroom(&self) -> (r: bool)
        requires
            self.wf(),
        ensures
            r == (forall|k: Seq<char>| #[trigger] self@.slots.contains_key(k)
                ==> self@.slots[k].version < u64::MAX),
    {
        let n = self.slots.len();
        let mut i: usize = 0;
        while i < n
            invariant
                i <= n,
                n == self.slots@.len(),
                self.wf(),
                forall|j: int| 0 <= j < i ==> (#[trigger] self.slots@[j]).version < u64::MAX,
            decreases n - i,
        {
            if self.slots[i].version == u64::MAX {
                proof {
                    let k0 = self.slots@[i as int].key_view();
                    lemma_idx_of(self.slots@, k0);
                    assert(map_of(self.slots@).contains_key(k0));
                    assert(map_of(self.slots@)[k0] == self.slots@[i as int].model());
                }
                return false;
            }
            i += 1;
        }
        proof {
            assert forall|k: Seq<char>| #[trigger] map_of(self.slots@).contains_key(k) implies
                map_of(self.slots@)[k].version < u64::MAX by {
                lemma_idx_of(self.slots@, k);
            }
        }
        true
    }

    fn find_index(&self, key: &Key) -> (r: Option<usize>)
        ensures
            match r {
                Some(i) => i < self.slots@.len() && self.slots@[i as int].key_view() == key@,
                None => !has_key(self.slots@, key@),
            },
    {
        let n = self.slots.len();
        let mut i: usize = 0;
        while i < n
            invariant
                i <= n,
                n == self.slots@.len(),
                forall|j: int| 0 <= j < i ==> self.slots@[j].key_view() != key@,
            decreases n - i,
        {
            if self.slots[i].key == *key {
                return Some(i);
            }
            i += 1;
        }
        None
    }

    /// Whether a slot exists for `key`.
    pub fn has_slot(&self, key: &Key) -> (r: bool)
        ensures
            r == self@.slots.contains_key(key@),
    {
        self.find_index(key).is_some()
    }

    /// Whether `sub` still reads a live slot: its key is registered and the
    /// registered slot is the one it subscribed to.  A subscription whose
    /// slot was swept observes nothing further, without error.
    pub fn subscription_live(&self, sub: &Subscription) -> (r: bool)
        requires
            self.wf(),
        ensures
            r == (self@.slots.contains_key(sub@.key) && self@.slots[sub@.key].slot_id == sub@.slot_id),
    {
        match self.find_index(&sub.key) {
            Some(i) => {
                proof {
                    lemma_idx_of(self.slots@, sub.key@);
                }
                self.slots[i].slot_id == sub.slot_id
            },
            None => false,
        }
    }
}

impl<T> CindyBroker<T> {
    /// Ensure the slot for `key` exists, stamp it with `today`, and return a
    /// fresh subscription to it that has observed nothing yet.
    pub fn subscribe_to_on_day(&mut self, key: Key, today: u64) -> (s: Subscription)
        requires
            old(self).wf(),
            old(self)@.next_slot_id < u64::MAX,
        ensures
            final(self).wf(),
            ({
                let (m2, sm) = spec_subscribe_to(old(self)@, key@, today as nat);
                final(self)@ == m2 && s@ == sm
            }),
    {
        let ghost s0 = self.slots@;
        match self.find_index(&key) {
            Some(i) => {
                proof {
                    lemma_idx_of(s0, key@);
                }
                let slot_id = self.slots[i].slot_id;
                let wake = wake_handle(&self.slots[i].wake);
                self.slots[i].last_touched = today;
                proof {
                    assert(self.slots@ =~= s0.update(i as int, self.slots@[i as int]));
                    lemma_map_of_update(s0, i as int, self.slots@[i as int]);
                    assert(self.slots@[i as int].model() == spec_slot_touched(map_of(s0)[key@], today as nat));
                }
                Subscription { key, slot_id, seen: None, wake }
            },
            None => {
                let id = self.next_slot_id;
                self.next_slot_id = id + 1;
                let sub_key = key.clone();
                let slot = ChannelSlot::new(key, id, today);
                let wake = wake_handle(&slot.wake);
                proof {
                    assert(!has_key(s0, slot.key_view()));
                }
                self.slots.push(slot);
                proof {
                    lemma_map_of_push(s0, self.slots@[s0.len() as int]);
                }
                Subscription { key: sub_key, slot_id: id, seen: None, wake }
            },
        }
    }

    /// Publish `msg` to the slot for `key`, stamping it with `today`.  When
    /// nobody ever subscribed to `key`, this is a silent no-op: no slot is
    /// created and nothing changes.
    pub fn publish_to_on_day(&mut self, key: &Key, msg: T, today: u64)
        requires
            old(self).wf(),
            old(self)@.slots.contains_key(key@) ==> old(self)@.slots[key@].version < u64::MAX,
        ensures
            final(self).wf(),
            final(self)@ == spec_publish_to(old(self)@, key@, msg, today as nat),
    {
        let ghost s0 = self.slots@;
        match self.find_index(key) {
            Some(i) => {
                proof {
                    lemma_idx_of(s0, key@);
                }
                let version = self.slots[i].version + 1;
                self.slots[i].value = Some(msg);
                self.slots[i].version = version;
                self.slots[i].last_touched = today;
                wake_subscribers(&self.slots[i].wake, version);
                proof {
                    assert(self.slots@ =~= s0.update(i as int, self.slots@[i as int]));
                    lemma_map_of_update(s0, i as int, self.slots@[i as int]);
                    assert(self.slots@[i as int].model()
                        == spec_slot_published(map_of(s0)[key@], self.slots@[i as int].value->0, today as nat));
                }
            },
            None => {},
        }
    }
}

impl<T> CindyBroker<T> {
    /// The next observation of `sub`, if one is pending: `Some` of the
    /// slot's current value (itself `None` until the first publish) when
    /// `sub` has not yet observed the slot's current version, and `None`
    /// when nothing new is there.  Once `sub`'s slot has been swept, the
    /// result stays `None` forever: the reader degrades gracefully instead
    /// of failing.  Polling is read-only on the broker and does not touch
    /// the slot's day stamp.
    pub fn poll_next<'a>(&'a self, sub: &mut Subscription) -> (r: Option<&'a Option<T>>)
        requires
            self.wf(),
        ensures
            ({
                let (obs, sm2) = spec_poll(self@, old(sub)@);
                &&& final(sub)@ == sm2
                &&& (r is Some <==> obs is Some)
                &&& (r is Some ==> *r->0 == obs->0)
            }),
    {
        match self.find_index(&sub.key) {
            Some(i) => {
                proof {
                    lemma_idx_of(self.slots@, sub.key@);
                }
                if self.slots[i].slot_id == sub.slot_id {
                    let version = self.slots[i].version;
                    let pending = match sub.seen {
                        Some(v) => v != version,
                        None => true,
                    };
                    if pending {
                        sub.seen = Some(version);
                        Some(&self.slots[i].value)
                    } else {
                        None
                    }
                } else {
                    None
                }
            },
            None => None,
        }
    }

    /// Sweep the registry: remove every slot whose last touch lies more
    /// than the retention window before `today`, and no other.  Receivers
    /// already handed out stay valid; they simply observe nothing further.
    pub fn cleanup_on_day(&mut self, today: u64)
        requires
            old(self).wf(),
        ensures
            final(self).wf(),
            final(self)@ == spec_cleanup(old(self)@, today as nat),
    {
        let ghost m0 = self@;
        let mut drained: Vec<ChannelSlot<T>> = Vec::new();
        core::mem::swap(&mut self.slots, &mut drained);
        let ghost s0 = drained@;
        proof {
            assert(map_of(self.slots@) =~= Map::<Seq<char>, SlotModel<T>>::empty());
        }
        let retention = self.retention_days;
        let n = drained.len();
        let mut j: usize = 0;
        while j < n
            invariant
                j <= n,
                n == s0.len(),
                retention == self.retention_days,
                self.next_slot_id == m0.next_slot_id,
                self.retention_days == m0.retention_days,
                drained@ == s0.subrange(j as int, s0.len() as int),
                keys_unique(s0),
                forall|a: int| 0 <= a < s0.len() ==> (#[trigger] s0[a]).slot_id < m0.next_slot_id,
                map_of(s0) == m0.slots,
                keys_unique(self.slots@),
                forall|a: int|
                    0 <= a < self.slots@.len() ==> (#[trigger] self.slots@[a]).slot_id < m0.next_slot_id,
                map_of(self.slots@) == swept_prefix(s0, j as int, today as nat, m0.retention_days),
            decreases n - j,
        {
            let ghost kept0 = self.slots@;
            let slot = drained.remove(0);
            proof {
                assert(slot == s0[j as int]);
                assert(drained@ =~= s0.subrange(j + 1, s0.len() as int));
            }
            let stale = today > slot.last_touched && today - slot.last_touched > retention;
            let ghost k0 = slot.key_view();
            proof {
                lemma_idx_of(s0, k0);
                assert(s0.subrange(0, j as int).push(s0[j as int]) =~= s0.subrange(0, j + 1));
                assert(idx_of(s0, k0) == j as int);
                assert(map_of(s0)[k0] == slot.model());
                assert(!has_key(kept0, k0)) by {
                    if has_key(kept0, k0) {
                        assert(map_of(kept0).contains_key(k0));
                        assert(has_key(s0.subrange(0, j as int), k0));
                        let b = choose|b: int|
                            0 <= b < j && (#[trigger] s0.subrange(0, j as int)[b].key_view()) == k0;
                        assert(s0[b].key_view() == s0[j as int].key_view());
                    }
                }
            }
            if !stale {
                self.slots.push(slot);
                proof {
                    lemma_map_of_push(kept0, self.slots@[kept0.len() as int]);
                }
            }
            proof {
                assert(map_of(self.slots@)
                    =~= swept_prefix(s0, j + 1, today as nat, m0.retention_days)) by {
                    assert forall|k: Seq<char>| #[trigger] has_key(s0.subrange(0, j + 1), k) implies
                        has_key(s0.subrange(0, j as int), k) || k == k0 by {
                        let b = choose|b: int|
                            0 <= b < j + 1 && (#[trigger] s0.subrange(0, j + 1)[b].key_view()) == k;
                        if b < j {
                            assert(s0.subrange(0, j as int)[b].key_view() == k);
                        }
                    }
                    assert forall|k: Seq<char>| has_key(s0.subrange(0, j as int), k) implies
                        #[trigger] has_key(s0.subrange(0, j + 1), k) by {
                        let b = choose|b: int|
                            0 <= b < j && (#[trigger] s0.subrange(0, j as int)[b].key_view()) == k;
                        assert(s0.subrange(0, j + 1)[b].key_view() == k);
                    }
                    assert(has_key(s0.subrange(0, j + 1), k0)) by {
                        assert(s0.subrange(0, j + 1)[j as int].key_view() == k0);
                    }
                }
            }
            j += 1;
        }
        proof {
            assert(s0.subrange(0, s0.len() as int) =~= s0);
            assert(map_of(self.slots@) =~= spec_cleanup(m0, today as nat).slots);
        }
    }
}

impl<T: Clone> CindyBroker<T> {
    /// Publish a clone of `msg` to every existing slot whose key satisfies
    /// `filter`, stamping each with `today`.  No slot is created; a filter
    /// that matches nothing changes nothing, and that is no error.  Slots
    /// the filter cannot accept are left exactly as they were; slots it
    /// cannot reject are published to.
    pub fn publish_to_all_on_day<F: Fn(&Key) -> bool>(&mut self, filter: F, msg: T, today: u64)
        requires
            old(self).wf(),
            forall|ks: &Key| #[trigger] call_requires(filter, (ks,)),
            forall|k: Seq<char>| #[trigger] old(self)@.slots.contains_key(k)
                ==> old(self)@.slots[k].version < u64::MAX,
        ensures
            final(self).wf(),
            final(self)@.next_slot_id == old(self)@.next_slot_id,
            final(self)@.retention_days == old(self)@.retention_days,
            final(self)@.slots.dom() == old(self)@.slots.dom(),
            forall|k: Seq<char>| #[trigger] old(self)@.slots.contains_key(k) ==> (final(self)@.slots[k]
                == old(self)@.slots[k] || exists|c: T|
                cloned(msg, c) && final(self)@.slots[k] == spec_slot_published(
                    old(self)@.slots[k],
                    c,
                    today as nat,
                )),
            forall|k: Seq<char>| #[trigger] old(self)@.slots.contains_key(k) && final(self)@.slots[k]
                != old(self)@.slots[k] ==> exists|ks: &Key| ks@ == k && call_ensures(filter, (ks,), true),
            forall|k: Seq<char>| #[trigger] old(self)@.slots.contains_key(k) && !(exists|ks: &Key|
                ks@ == k && call_ensures(filter, (ks,), false)) ==> final(self)@.slots[k]
                != old(self)@.slots[k],
            (forall|ks: &Key| old(self)@.slots.contains_key(ks@)
                ==> !call_ensures(filter, (ks,), true)) ==> final(self)@ == old(self)@,
    {
        let ghost m0 = old(self)@;
        let ghost s0 = self.slots@;
        let n = self.slots.len();
        let mut i: usize = 0;
        while i < n
            invariant
                i <= n,
                n == self.slots@.len(),
                n == s0.len(),
                keys_unique(s0),
                map_of(s0) == m0.slots,
                self.next_slot_id == m0.next_slot_id,
                self.retention_days == m0.retention_days,
                forall|ks: &Key| #[trigger] call_requires(filter, (ks,)),
                forall|k: Seq<char>| #[trigger] m0.slots.contains_key(k) ==> m0.slots[k].version < u64::MAX,
                forall|a: int| 0 <= a < s0.len() ==> (#[trigger] s0[a]).slot_id < m0.next_slot_id,
                forall|a: int| 0 <= a < n ==> (#[trigger] self.slots@[a]).key_view() == s0[a].key_view(),
                forall|a: int| 0 <= a < n ==> (#[trigger] self.slots@[a]).slot_id == s0[a].slot_id,
                forall|a: int| i <= a < n ==> (#[trigger] self.slots@[a]) == s0[a],
                forall|a: int| 0 <= a < n ==> ((#[trigger] self.slots@[a]).model() == s0[a].model()
                    || exists|c: T|
                    cloned(msg, c) && self.slots@[a].model() == spec_slot_published(
                        s0[a].model(),
                        c,
                        today as nat,
                    )),
                forall|a: int| 0 <= a < i && (#[trigger] self.slots@[a]).model() != s0[a].model()
                    ==> exists|ks: &Key| ks@ == s0[a].key_view() && call_ensures(filter, (ks,), true),
                forall|a: int| 0 <= a < i && (#[trigger] self.slots@[a]).model() == s0[a].model()
                    ==> exists|ks: &Key| ks@ == s0[a].key_view() && call_ensures(filter, (ks,), false),
            decreases n - i,
        {
            let ghost before = self.slots@;
            let matched = filter(&self.slots[i].key);
            if matched {
                proof {
                    lemma_idx_of(s0, s0[i as int].key_view());
                    assert(map_of(s0).contains_key(s0[i as int].key_view()));
                    assert(map_of(s0)[s0[i as int].key_view()] == s0[i as int].model());
                    assert(self.slots@[i as int] == s0[i as int]);
                    assert(self.slots@[i as int].version < u64::MAX);
                }
                let version = self.slots[i].version + 1;
                let copy = msg.clone();
                proof {
                    assert(cloned(msg, copy));
                }
                self.slots[i].value = Some(copy);
                self.slots[i].version = version;
                self.slots[i].last_touched = today;
                wake_subscribers(&self.slots[i].wake, version);
                proof {
                    assert(self.slots@ =~= before.update(i as int, self.slots@[i as int]));
                    assert(self.slots@[i as int].model() == spec_slot_published(
                        s0[i as int].model(),
                        self.slots@[i as int].value->0,
                        today as nat,
                    ));
                    assert(self.slots@[i as int].model() != s0[i as int].model());
                    assert(cloned(msg, self.slots@[i as int].value->0));
                }
            }
            i += 1;
        }
        proof {
            lemma_publish_to_all_view(s0, self.slots@, m0, self@);
            assert forall|k: Seq<char>| #[trigger] m0.slots.contains_key(k) && !(exists|ks: &Key|
                ks@ == k && call_ensures(filter, (ks,), false)) implies self@.slots[k]
                != m0.slots[k] by {
                lemma_idx_of(s0, k);
                let a = idx_of(s0, k);
                if self.slots@[a].model() == s0[a].model() {
                    let ks = choose|ks: &Key| ks@ == s0[a].key_view() && call_ensures(filter, (ks,), false);
                    assert(ks@ == k && call_ensures(filter, (ks,), false));
                }
            }
            if forall|ks: &Key| m0.slots.contains_key(ks@) ==> !call_ensures(filter, (ks,), true) {
                assert forall|a: int| 0 <= a < s0.len() implies (#[trigger] self.slots@[a]).model()
                    == s0[a].model() by {
                    if self.slots@[a].model() != s0[a].model() {
                        let ks = choose|ks: &Key| ks@ == s0[a].key_view() && call_ensures(filter, (ks,), true);
                        lemma_idx_of(s0, s0[a].key_view());
                        assert(m0.slots.contains_key(ks@));
                    }
                }
                assert(self@.slots =~= m0.slots) by {
                    lemma_publish_to_all_view(s0, self.slots@, m0, self@);
                }
            }
        }
    }
}

impl<T> CindyBroker<T> {
    /// Publish a message that all subscription streams of the default key
    /// can receive.  The day stamp is taken from the local clock.
    pub fn publish(&mut self, msg: T)
        requires
            old(self).wf(),
            old(self)@.slots.contains_key(Seq::<char>::empty())
                ==> old(self)@.slots[Seq::<char>::empty()].version < u64::MAX,
        ensures
            final(self).wf(),
            exists|d: nat| final(self)@ == spec_publish_to(old(self)@, Seq::<char>::empty(), msg, d),
    {
        let d = today();
        let key = Key::new();
        self.publish_to_on_day(&key, msg, d);
        proof {
            assert(final(self)@ == spec_publish_to(old(self)@, Seq::<char>::empty(), msg, d as nat));
        }
    }

    /// Publish a message that all subscription streams of `key` can
    /// receive.  The day stamp is taken from the local clock.
    pub fn publish_to(&mut self, key: Key, msg: T)
        requires
            old(self).wf(),
            old(self)@.slots.contains_key(key@) ==> old(self)@.slots[key@].version < u64::MAX,
        ensures
            final(self).wf(),
            exists|d: nat| final(self)@ == spec_publish_to(old(self)@, key@, msg, d),
    {
        let d = today();
        self.publish_to_on_day(&key, msg, d);
        proof {
            assert(final(self)@ == spec_publish_to(old(self)@, key@, msg, d as nat));
        }
    }

    /// Subscribe to the default key.  The day stamp is taken from the local
    /// clock.
    pub fn subscribe(&mut self) -> (s: Subscription)
        requires
            old(self).wf(),
            old(self)@.next_slot_id < u64::MAX,
        ensures
            final(self).wf(),
            exists|d: nat|
                final(self)@ == (#[trigger] spec_subscribe_to(old(self)@, Seq::<char>::empty(), d)).0
                    && s@ == spec_subscribe_to(old(self)@, Seq::<char>::empty(), d).1,
            s@.key == Seq::<char>::empty(),
            s@.seen is None,
    {
        let d = today();
        let s = self.subscribe_to_on_day(Key::new(), d);
        proof {
            let (m2, sm) = spec_subscribe_to(old(self)@, Seq::<char>::empty(), d as nat);
            assert(final(self)@ == m2 && s@ == sm);
        }
        s
    }

    /// Subscribe to `key`.  The day stamp is taken from the local clock.
    pub fn subscribe_to(&mut self, key: Key) -> (s: Subscription)
        requires
            old(self).wf(),
            old(self)@.next_slot_id < u64::MAX,
        ensures
            final(self).wf(),
            exists|d: nat|
                final(self)@ == (#[trigger] spec_subscribe_to(old(self)@, key@, d)).0
                    && s@ == spec_subscribe_to(old(self)@, key@, d).1,
            s@.key == key@,
            s@.seen is None,
    {
        let ghost kv = key@;
        let d = today();
        let s = self.subscribe_to_on_day(key, d);
        proof {
            let (m2, sm) = spec_subscribe_to(old(self)@, kv, d as nat);
            assert(final(self)@ == m2 && s@ == sm);
        }
        s
    }

    /// Sweep the registry against the local clock's day.
    pub fn cleanup(&mut self)
        requires
            old(self).wf(),
        ensures
            final(self).wf(),
            exists|d: nat| final(self)@ == spec_cleanup(old(self)@, d),
    {
        let d = today();
        self.cleanup_on_day(d);
        proof {
            assert(final(self)@ == spec_cleanup(old(self)@, d as nat));
        }
    }
}

impl<T: Clone> CindyBroker<T> {
    /// Publish a clone of `msg` to every existing slot whose key satisfies
    /// `filter`.  The day stamp is taken from the local clock.
    pub fn publish_to_all<F: Fn(&Key) -> bool>(&mut self, filter: F, msg: T)
        requires
            old(self).wf(),
            forall|ks: &Key| #[trigger] call_requires(filter, (ks,)),
            forall|k: Seq<char>| #[trigger] old(self)@.slots.contains_key(k)
                ==> old(self)@.slots[k].version < u64::MAX,
        ensures
            final(self).wf(),
            final(self)@.next_slot_id == old(self)@.next_slot_id,
            final(self)@.retention_days == old(self)@.retention_days,
            final(self)@.slots.dom() == old(self)@.slots.dom(),
            forall|k: Seq<char>| #[trigger] old(self)@.slots.contains_key(k) ==> (final(self)@.slots[k]
                == old(self)@.slots[k] || exists|c: T, d: nat|
                cloned(msg, c) && final(self)@.slots[k] == spec_slot_published(
                    old(self)@.slots[k],
                    c,
                    d,
                )),
            forall|k: Seq<char>| #[trigger] old(self)@.slots.contains_key(k) && final(self)@.slots[k]
                != old(self)@.slots[k] ==> exists|ks: &Key| ks@ == k && call_ensures(filter, (ks,), true),
            forall|k: Seq<char>| #[trigger] old(self)@.slots.contains_key(k) && !(exists|ks: &Key|
                ks@ == k && call_ensures(filter, (ks,), false)) ==> final(self)@.slots[k]
                != old(self)@.slots[k],
            (forall|ks: &Key| old(self)@.slots.contains_key(ks@)
                ==> !call_ensures(filter, (ks,), true)) ==> final(self)@ == old(self)@,
    {
        let d = today();
        self.publish_to_all_on_day(filter, msg, d);
    }
}

// ---------------------------------------------------------------------------
// Laws of the broker.
// ---------------------------------------------------------------------------

/// A subscription reads a live slot of `m`: its key is registered, the
/// registered slot is the one it subscribed to, and it has not observed
/// past the slot's current version.  Every subscription handed out by the
/// broker satisfies this until its slot is swept.
pub open spec fn spec_sub_valid<T>(m: BrokerModel<T>, s: SubscriptionModel) -> bool {
    &&& m.slots.contains_key(s.key)
    &&& m.slots[s.key].slot_id == s.slot_id
    &&& match s.seen {
        Some(j) => j <= m.slots[s.key].version,
        None => true,
    }
}

/// Subscribing to a key and then publishing to it yields the published
/// value as the subscription's next observation.
pub proof fn lemma_publish_after_subscribe_observed<T>(
    m: BrokerModel<T>,
    k: Seq<char>,
    v: T,
    d1: nat,
    d2: nat,
)
    ensures
        ({
            let (m1, s) = spec_subscribe_to(m, k, d1);
            let m2 = spec_publish_to(m1, k, v, d2);
            spec_poll(m2, s).0 == Some(Some(v))
        }),
{
}

/// Last-value-wins: a subscription created after two publishes to its key
/// observes the second value first, never the first one.
pub proof fn lemma_last_value_wins<T>(
    m: BrokerModel<T>,
    k: Seq<char>,
    v1: T,
    v2: T,
    d1: nat,
    d2: nat,
    d3: nat,
)
    requires
        m.slots.contains_key(k),
    ensures
        ({
            let m1 = spec_publish_to(m, k, v1, d1);
            let m2 = spec_publish_to(m1, k, v2, d2);
            let (m3, s) = spec_subscribe_to(m2, k, d3);
            spec_poll(m3, s).0 == Some(Some(v2))
        }),
{
}

/// Publishing to a key nobody ever subscribed to creates no registry entry
/// and has no effect at all.
pub proof fn lemma_publish_without_subscribers_is_noop<T>(
    m: BrokerModel<T>,
    k: Seq<char>,
    v: T,
    d: nat,
)
    requires
        !m.slots.contains_key(k),
    ensures
        spec_publish_to(m, k, v, d) == m,
{
}

/// The sweep removes a slot if and only if the days since its last touch
/// strictly exceed the retention window, and leaves the kept slots as they
/// were.
pub proof fn lemma_cleanup_removes_exactly_stale<T>(m: BrokerModel<T>, d: nat)
    ensures
        forall|k: Seq<char>| #[trigger] spec_cleanup(m, d).slots.contains_key(k)
            <==> (m.slots.contains_key(k) && !spec_slot_stale(m.slots[k], d, m.retention_days)),
        forall|k: Seq<char>| #[trigger] spec_cleanup(m, d).slots.contains_key(k)
            ==> spec_cleanup(m, d).slots[k] == m.slots[k],
{
}

/// Fan-out: one publish is observed, as its next observation, by every
/// valid subscription of that key, wherever each of them had read up to.
pub proof fn lemma_publish_fans_out<T>(
    m: BrokerModel<T>,
    s1: SubscriptionModel,
    s2: SubscriptionModel,
    v: T,
    d: nat,
)
    requires
        spec_sub_valid(m, s1),
        spec_sub_valid(m, s2),
        s1.key == s2.key,
    ensures
        ({
            let m2 = spec_publish_to(m, s1.key, v, d);
            spec_poll(m2, s1).0 == Some(Some(v)) && spec_poll(m2, s2).0 == Some(Some(v))
        }),
{
}

/// Subscribing yields a valid subscription of the resulting broker.
pub proof fn lemma_subscribe_yields_valid_subscription<T>(m: BrokerModel<T>, k: Seq<char>, d: nat)
    ensures
        spec_sub_valid(spec_subscribe_to(m, k, d).0, spec_subscribe_to(m, k, d).1),
{
}

/// Publishing anywhere keeps every valid subscription valid: delivery
/// never invalidates readers.
pub proof fn lemma_publish_preserves_validity<T>(
    m: BrokerModel<T>,
    s: SubscriptionModel,
    k: Seq<char>,
    v: T,
    d: nat,
)
    requires
        spec_sub_valid(m, s),
    ensures
        spec_sub_valid(spec_publish_to(m, k, v, d), s),
{
}

/// Any access resets staleness: after a slot is published to on day `d`,
/// no sweep up to `d` plus the retention window removes it.
pub proof fn lemma_access_resets_staleness<T>(
    m: BrokerModel<T>,
    k: Seq<char>,
    v: T,
    d: nat,
    sweep_day: nat,
)
    requires
        m.slots.contains_key(k),
        sweep_day <= d + m.retention_days,
    ensures
        spec_cleanup(spec_publish_to(m, k, v, d), sweep_day).slots.contains_key(k),
{
}

/// A run in which each value in turn is published to a subscription's key
/// and the subscription then polls once: the final broker and subscription,
/// and the observations in order.
pub open spec fn spec_lockstep_run<T>(
    m: BrokerModel<T>,
    s: SubscriptionModel,
    vs: Seq<T>,
    d: nat,
) -> (BrokerModel<T>, SubscriptionModel, Seq<Option<Option<T>>>)
    decreases vs.len(),
{
    if vs.len() == 0 {
        (m, s, Seq::empty())
    } else {
        let m1 = spec_publish_to(m, s.key, vs[0], d);
        let polled = spec_poll(m1, s);
        let rest = spec_lockstep_run(m1, polled.1, vs.subrange(1, vs.len() as int), d);
        (rest.0, rest.1, seq![polled.0] + rest.2)
    }
}

/// Fan-out correctness over whole runs: a valid subscription that polls
/// after each publish observes exactly the published values, in order.
/// Two independent subscriptions to the same key therefore observe the same
/// ordered sequence.
pub proof fn lemma_lockstep_observes_all<T>(
    m: BrokerModel<T>,
    s: SubscriptionModel,
    vs: Seq<T>,
    d: nat,
)
    requires
        spec_sub_valid(m, s),
    ensures
        ({
            let run = spec_lockstep_run(m, s, vs, d);
            &&& run.2.len() == vs.len()
            &&& forall|i: int| 0 <= i < vs.len() ==> run.2[i] == Some(Some(vs[i]))
            &&& spec_sub_valid(run.0, run.1)
        }),
    decreases vs.len(),
{
    if vs.len() > 0 {
        let m1 = spec_publish_to(m, s.key, vs[0], d);
        let polled = spec_poll(m1, s);
        assert(polled.0 == Some(Some(vs[0])));
        assert(spec_sub_valid(m1, polled.1));
        lemma_lockstep_observes_all(m1, polled.1, vs.subrange(1, vs.len() as int), d);
        let rest = spec_lockstep_run(m1, polled.1, vs.subrange(1, vs.len() as int), d);
        assert forall|i: int| 0 <= i < vs.len() implies (seq![polled.0] + rest.2)[i] == Some(
            Some(vs[i]),
        ) by {
            if i > 0 {
                assert(rest.2[i - 1] == Some(Some(vs.subrange(1, vs.len() as int)[i - 1])));
            }
        }
    }
}

/// After a fan-out publish the registry has the same keys, and each key's
/// slot is the old one or a published form of it, read off index-wise.
proof fn lemma_publish_to_all_view<T>(
    s0: Seq<ChannelSlot<T>>,
    s1: Seq<ChannelSlot<T>>,
    m0: BrokerModel<T>,
    m1: BrokerModel<T>,
)
    requires
        keys_unique(s0),
        s0.len() == s1.len(),
        forall|a: int| 0 <= a < s0.len() ==> (#[trigger] s1[a]).key_view() == s0[a].key_view(),
        map_of(s0) == m0.slots,
        map_of(s1) == m1.slots,
    ensures
        m1.slots.dom() == m0.slots.dom(),
        forall|k: Seq<char>| #[trigger] m0.slots.contains_key(k) ==> m1.slots[k] == s1[idx_of(s0, k)].model(),
        forall|k: Seq<char>| #[trigger] m0.slots.contains_key(k) ==> m0.slots[k] == s0[idx_of(s0, k)].model(),
        keys_unique(s1),
{
    assert forall|a: int, b: int| 0 <= a < b < s1.len() implies s1[a].key_view() != s1[b].key_view() by {
        assert(s0[a].key_view() != s0[b].key_view());
    }
    assert forall|k: Seq<char>| #[trigger] has_key(s0, k) implies has_key(s1, k) by {
        let a = choose|a: int| 0 <= a < s0.len() && (#[trigger] s0[a].key_view()) == k;
        assert(s1[a].key_view() == k);
    }
    assert forall|k: Seq<char>| #[trigger] has_key(s1, k) implies has_key(s0, k) by {
        let a = choose|a: int| 0 <= a < s1.len() && (#[trigger] s1[a].key_view()) == k;
        assert(s0[a].key_view() == k);
    }
    assert(m1.slots.dom() =~= m0.slots.dom());
    assert forall|k: Seq<char>| #[trigger] m0.slots.contains_key(k) implies m1.slots[k] == s1[idx_of(
        s0,
        k,
    )].model() && m0.slots[k] == s0[idx_of(s0, k)].model() by {
        lemma_idx_of(s0, k);
        lemma_idx_of(s1, k);
        assert(s1[idx_of(s0, k)].key_view() == k);
        assert(idx_of(s1, k) == idx_of(s0, k));
    }
}

/// The registry after the sweep has processed the first `j` slots of `s0`:
/// of those, exactly the ones not stale on `today` remain.
spec fn swept_prefix<T>(s0: Seq<ChannelSlot<T>>, j: int, today: nat, retention_days: nat) -> Map<
    Seq<char>,
    SlotModel<T>,
> {
    Map::new(
        |k: Seq<char>| has_key(s0.subrange(0, j), k) && !spec_slot_stale(map_of(s0)[k], today, retention_days),
        |k: Seq<char>| map_of(s0)[k],
    )
}

// ---------------------------------------------------------------------------
// Lemmas tying the slot vector to its map view.
// ---------------------------------------------------------------------------

proof fn lemma_map_of_push<T>(s: Seq<ChannelSlot<T>>, c: ChannelSlot<T>)
    requires
        keys_unique(s),
        !has_key(s, c.key_view()),
    ensures
        map_of(s.push(c)) == map_of(s).insert(c.key_view(), c.model()),
        keys_unique(s.push(c)),
{
    let s2 = s.push(c);
    let k0 = c.key_view();
    assert forall|i: int, j: int| 0 <= i < j < s2.len() implies s2[i].key_view() != s2[j].key_view() by {
        if j == s.len() {
            assert(s2[i] == s[i]);
            assert(!(s[i].key_view() == k0));
        }
    }
    assert forall|k: Seq<char>| #[trigger] has_key(s2, k) implies
        map_of(s2)[k] == map_of(s).insert(k0, c.model())[k] by {
        lemma_idx_of(s2, k);
        let i = idx_of(s2, k);
        if k == k0 {
            assert(s2[s.len() as int].key_view() == k0);
            assert(i == s.len());
        } else {
            assert(i < s.len());
            assert(has_key(s, k));
            lemma_idx_of(s, k);
            assert(s2[idx_of(s, k)] == s[idx_of(s, k)]);
            assert(idx_of(s, k) == i);
        }
    }
    assert forall|k: Seq<char>| has_key(s, k) || k == k0 implies has_key(s2, k) by {
        if k == k0 {
            assert(s2[s.len() as int].key_view() == k0);
        } else {
            let i = choose|i: int| 0 <= i < s.len() && s[i].key_view() == k;
            assert(s2[i].key_view() == k);
        }
    }
    assert forall|k: Seq<char>| #[trigger] has_key(s2, k) implies has_key(s, k) || k == k0 by {
        let i = choose|i: int| 0 <= i < s2.len() && s2[i].key_view() == k;
        if i < s.len() {
            assert(s[i].key_view() == k);
        }
    }
    assert(map_of(s2) =~= map_of(s).insert(k0, c.model()));
}

proof fn lemma_map_of_update<T>(s: Seq<ChannelSlot<T>>, i: int, c: ChannelSlot<T>)
    requires
        keys_unique(s),
        0 <= i < s.len(),
        c.key_view() == s[i].key_view(),
    ensures
        map_of(s.update(i, c)) == map_of(s).insert(c.key_view(), c.model()),
        keys_unique(s.update(i, c)),
{
    let s2 = s.update(i, c);
    let k0 = c.key_view();
    assert forall|a: int, b: int| 0 <= a < b < s2.len() implies s2[a].key_view() != s2[b].key_view() by {
        assert(s[a].key_view() != s[b].key_view());
    }
    assert forall|k: Seq<char>| has_key(s, k) implies has_key(s2, k) by {
        lemma_idx_of(s, k);
        let j = idx_of(s, k);
        if j == i {
            assert(s2[i].key_view() == k);
        } else {
            assert(s2[j].key_view() == k);
        }
    }
    assert forall|k: Seq<char>| #[trigger] has_key(s2, k) implies has_key(s, k) by {
        let j = choose|j: int| 0 <= j < s2.len() && s2[j].key_view() == k;
        if j == i {
            assert(s[i].key_view() == k);
        } else {
            assert(s[j].key_view() == k);
        }
    }
    assert forall|k: Seq<char>| #[trigger] has_key(s2, k) implies
        map_of(s2)[k] == map_of(s).insert(k0, c.model())[k] by {
        lemma_idx_of(s2, k);
        lemma_idx_of(s, k);
        let j = idx_of(s2, k);
        if k == k0 {
            assert(s2[i].key_view() == k0);
            assert(j == i);
        } else {
            assert(j != i);
            assert(s[j] == s2[j]);
            assert(idx_of(s, k) == j);
        }
    }
    assert(map_of(s2) =~= map_of(s).insert(k0, c.model()));
}

proof fn lemma_idx_of<T>(s: Seq<ChannelSlot<T>>, k: Seq<char>)
    requires
        keys_unique(s),
        has_key(s, k),
    ensures
        0 <= idx_of(s, k) < s.len(),
        s[idx_of(s, k)].key_view() == k,
        forall|i: int| 0 <= i < s.len() && s[i].key_view() == k ==> i == idx_of(s, k),
{
    let i0 = idx_of(s, k);
    assert(0 <= i0 < s.len() && s[i0].key_view() == k);
    assert forall|i: int| 0 <= i < s.len() && s[i].key_view() == k implies i == i0 by {
        if i != i0 {
            if i < i0 {
                assert(s[i].key_view() != s[i0].key_view());
            } else {
                assert(s[i0].key_view() != s[i].key_view());
            }
        }
    }
}

} // verus!

