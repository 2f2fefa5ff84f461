//! Abuse throttling for the unauthenticated login surface: a sliding window of
//! attempts for each budget and key.
//!
//! Instants are nanoseconds on a monotonic clock of the caller's choosing. The
//! table is owned by the caller too, so one table can stand behind a lock.

use vstd::hash_map::StringHashMap;
use vstd::prelude::*;
use vstd::string::*;

use crate::text;

verus! {

/// A distinct budget. The budgets are kept apart: spending one never consumes
/// another.
#[derive(Clone, Copy, Debug, PartialEq, Eq, Hash, Structural)]
pub enum Bucket {
    /// Codes dispatched to one identifier.
    OtpDispatchPerIdentifier,
    /// Codes dispatched by one client.
    OtpDispatchPerClient,
    /// Redemption attempts against one identifier.
    OtpVerifyPerIdentifier,
    /// Step-up attempts from one client.
    MfaVerifyPerClient,
    /// Password grants against one account.
    PasswordPerIdentifier,
}

/// Outcome of a throttle check. `retry_after_secs` is never zero on a denial.
#[derive(Clone, Copy, Debug, PartialEq, Eq, Structural)]
pub struct Decision {
    pub allowed: bool,
    pub retry_after_secs: u64,
}

/// Bound on distinct tracked keys. A full table refuses a new key rather than
/// evict a live one.
pub const MAX_TRACKED_KEYS: usize = 100_000;

/// Nanoseconds in a second.
pub const NANOS_PER_SEC: u64 = 1_000_000_000;

/// What a budget's events are filed under: the budget and the normalised key.
pub type WindowKey = (Bucket, Seq<char>);

/// The events on record, by budget and key.
pub type WindowMap = Map<WindowKey, Seq<u64>>;

/// How many events `bucket` admits in its window.
pub open spec fn limit_of(bucket: Bucket) -> nat {
    match bucket {
        Bucket::OtpDispatchPerIdentifier => 3,
        Bucket::OtpDispatchPerClient => 10,
        Bucket::OtpVerifyPerIdentifier => 5,
        Bucket::MfaVerifyPerClient => 5,
        Bucket::PasswordPerIdentifier => 10,
    }
}

/// The length of the window of `bucket`, in seconds.
pub open spec fn window_secs_of(bucket: Bucket) -> nat {
    match bucket {
        Bucket::OtpDispatchPerIdentifier => 15 * 60,
        Bucket::OtpDispatchPerClient => 60 * 60,
        Bucket::OtpVerifyPerIdentifier => 10 * 60,
        Bucket::MfaVerifyPerClient => 10 * 60,
        Bucket::PasswordPerIdentifier => 15 * 60,
    }
}

/// The length of the window of `bucket`, in nanoseconds.
pub open spec fn window_of(bucket: Bucket) -> int {
    window_secs_of(bucket) * NANOS_PER_SEC
}

/// The time from `at` to `now`; zero where `at` lies ahead.
pub open spec fn age(now: u64, at: u64) -> int {
    if now >= at {
        now - at
    } else {
        0
    }
}

/// The events that have not aged out of the window of `bucket` at `now`.
pub open spec fn live(events: Seq<u64>, bucket: Bucket, now: u64) -> Seq<u64> {
    events.filter(|at: u64| age(now, at) < window_of(bucket))
}

/// The events on record for `k`, none where the key is not tracked.
pub open spec fn events_of(windows: WindowMap, k: WindowKey) -> Seq<u64> {
    if windows.contains_key(k) {
        windows[k]
    } else {
        Seq::empty()
    }
}

/// The table without aged-out events and without the keys that had no other.
pub open spec fn pruned(windows: WindowMap, now: u64) -> WindowMap {
    Map::new(
        |k: WindowKey| windows.contains_key(k) && live(windows[k], k.0, now).len() > 0,
        |k: WindowKey| live(windows[k], k.0, now),
    )
}

/// The key that an attempt is filed under: case and surrounding white space do
/// not matter.
pub open spec fn normal_key(key: Seq<char>) -> Seq<char> {
    text::lowered(text::trimmed(key))
}

/// Whole seconds until the oldest of `events` ages out, at least one.
pub open spec fn retry_after(events: Seq<u64>, bucket: Bucket, now: u64) -> int {
    let secs = (window_of(bucket) - age(now, events[0])) / (NANOS_PER_SEC as int);
    if secs < 1 {
        1
    } else {
        secs
    }
}

/// The table that an attempt under `k` is judged against: a full table is pruned
/// before a key that it does not track.
pub open spec fn table_for(windows: WindowMap, k: WindowKey, now: u64) -> WindowMap {
    if windows.dom().len() >= MAX_TRACKED_KEYS && !windows.contains_key(k) {
        pruned(windows, now)
    } else {
        windows
    }
}

/// Whether the table has no room for `k`.
pub open spec fn no_room(windows: WindowMap, k: WindowKey, now: u64) -> bool {
    !windows.contains_key(k) && table_for(windows, k, now).dom().len() >= MAX_TRACKED_KEYS
}

/// The decision on one attempt under `k` at `now`.
pub open spec fn decision(windows: WindowMap, k: WindowKey, now: u64) -> Decision {
    let events = live(events_of(windows, k), k.0, now);
    if no_room(windows, k, now) {
        Decision { allowed: false, retry_after_secs: window_secs_of(k.0) as u64 }
    } else if events.len() >= limit_of(k.0) {
        Decision { allowed: false, retry_after_secs: retry_after(events, k.0, now) as u64 }
    } else {
        Decision { allowed: true, retry_after_secs: 0 }
    }
}

/// The table after one attempt under `k` at `now`.
pub open spec fn after(windows: WindowMap, k: WindowKey, now: u64) -> WindowMap {
    let events = live(events_of(windows, k), k.0, now);
    if no_room(windows, k, now) {
        pruned(windows, now)
    } else if events.len() >= limit_of(k.0) {
        table_for(windows, k, now).insert(k, events)
    } else {
        table_for(windows, k, now).insert(k, events.push(now))
    }
}

impl Bucket {
    /// The number of events admitted, and the seconds within which they count.
    pub fn budget(self) -> (r: (u32, u64))
        ensures
            r.0 == limit_of(self),
            r.1 == window_secs_of(self),
    {
        match self {
            Bucket::OtpDispatchPerIdentifier => (3, 900),
            Bucket::OtpDispatchPerClient => (10, 3600),
            Bucket::OtpVerifyPerIdentifier => (5, 600),
            Bucket::MfaVerifyPerClient => (5, 600),
            Bucket::PasswordPerIdentifier => (10, 900),
        }
    }

    /// The letter that marks this budget in a table's index.
    spec fn mark(self) -> char {
        match self {
            Bucket::OtpDispatchPerIdentifier => 'a',
            Bucket::OtpDispatchPerClient => 'b',
            Bucket::OtpVerifyPerIdentifier => 'c',
            Bucket::MfaVerifyPerClient => 'd',
            Bucket::PasswordPerIdentifier => 'e',
        }
    }

    fn mark_char(self) -> (r: char)
        ensures
            r == self.mark(),
    {
        match self {
            Bucket::OtpDispatchPerIdentifier => 'a',
            Bucket::OtpDispatchPerClient => 'b',
            Bucket::OtpVerifyPerIdentifier => 'c',
            Bucket::MfaVerifyPerClient => 'd',
            Bucket::PasswordPerIdentifier => 'e',
        }
    }
}

impl Decision {
    /// An admitted attempt.
    pub fn allow() -> (r: Self)
        ensures
            r == (Decision { allowed: true, retry_after_secs: 0 }),
    {
        Decision { allowed: true, retry_after_secs: 0 }
    }
}

/// The events of one budget and key.
struct Slot {
    bucket: Bucket,
    key: String,
    events: Vec<u64>,
}

impl Slot {
    spec fn window_key(self) -> WindowKey {
        (self.bucket, self.key@)
    }
}

/// The text that indexes a budget and key.
spec fn tag(k: WindowKey) -> Seq<char> {
    seq![k.0.mark()] + k.1
}

proof fn lemma_tag_injective(a: WindowKey, b: WindowKey)
    requires
        tag(a) == tag(b),
    ensures
        a == b,
{
    assert(tag(a)[0] == a.0.mark());
    assert(tag(b)[0] == b.0.mark());
    assert(a.1 =~= tag(a).drop_first());
    assert(b.1 =~= tag(b).drop_first());
}

fn tag_text(bucket: Bucket, key: &str) -> (r: String)
    ensures
        r@ == tag((bucket, key@)),
{
    let mut r = String::new();
    r.push(bucket.mark_char());
    r.append(key);
    assert(r@ =~= tag((bucket, key@)));
    r
}

/// The sliding-window event log of every budget and key.
pub struct Windows {
    index: StringHashMap<usize>,
    slots: Vec<Slot>,
}

impl View for Windows {
    type V = WindowMap;

    closed spec fn view(&self) -> WindowMap {
        Map::new(
            |k: WindowKey| self.index@.contains_key(tag(k)),
            |k: WindowKey| self.slots@[self.index@[tag(k)] as int].events@,
        )
    }
}

impl Windows {
    /// The index finds each slot under its own tag and nothing else, and no slot
    /// holds more events than its budget admits.
    #[verifier::type_invariant]
    spec fn wf(self) -> bool {
        &&& forall|t: Seq<char>| #[trigger]
            self.index@.contains_key(t) ==> self.index@[t] < self.slots@.len() && tag(
                self.slots@[self.index@[t] as int].window_key(),
            ) == t
        &&& forall|i: int|
            #![trigger self.slots@[i]]
            0 <= i < self.slots@.len() ==> self.index@.contains_key(tag(self.slots@[i].window_key()))
                && self.index@[tag(self.slots@[i].window_key())] == i
        &&& forall|i: int|
            #![trigger self.slots@[i]]
            0 <= i < self.slots@.len() ==> self.slots@[i].events@.len() <= limit_of(
                self.slots@[i].bucket,
            )
    }

    /// The keys of the slots, in order.
    spec fn keys(self) -> Seq<WindowKey> {
        self.slots@.map_values(|s: Slot| s.window_key())
    }

    proof fn lemma_keys(self)
        requires
            self.wf(),
        ensures
            self.keys().no_duplicates(),
            self@.dom() == self.keys().to_set(),
            self@.dom().finite(),
            self@.dom().len() == self.slots@.len(),
    {
        let keys = self.keys();
        assert forall|i: int, j: int|
            0 <= i < keys.len() && 0 <= j < keys.len() && i != j implies keys[i] != keys[j] by {
            assert(keys[i] == self.slots@[i].window_key());
            assert(keys[j] == self.slots@[j].window_key());
        }
        keys.unique_seq_to_set();
        assert forall|k: WindowKey| self@.dom().contains(k) <==> keys.to_set().contains(k) by {
            if self@.dom().contains(k) {
                let i = self.index@[tag(k)] as int;
                lemma_tag_injective(self.slots@[i].window_key(), k);
                assert(keys[i] == k);
            }
            if keys.to_set().contains(k) {
                let i = choose|i: int| 0 <= i < keys.len() && keys[i] == k;
                assert(self.slots@[i].window_key() == k);
            }
        }
        assert(self@.dom() =~= keys.to_set());
    }

    /// No key has more events than its budget admits.
    proof fn lemma_within_budget(self, k: WindowKey)
        requires
            self.wf(),
            self@.contains_key(k),
        ensures
            self@[k].len() <= limit_of(k.0),
    {
        let i = self.index@[tag(k)] as int;
        lemma_tag_injective(self.slots@[i].window_key(), k);
    }

    /// An empty table.
    pub fn new() -> (r: Self)
        ensures
            r@ == WindowMap::empty(),
    {
        let r = Windows { index: StringHashMap::new(), slots: Vec::new() };
        assert(r@ =~= WindowMap::empty());
        r
    }

    /// The number of tracked keys.
    pub fn len(&self) -> (n: usize)
        ensures
            n == self@.dom().len(),
            self@.dom().finite(),
    {
        proof {
            use_type_invariant(self);
            self.lemma_keys();
        }
        self.slots.len()
    }

    /// The slot of a key, where it is tracked.
    fn find(&self, bucket: Bucket, key: &str) -> (r: Option<usize>)
        ensures
            match r {
                Some(i) => {
                    &&& i < self.slots@.len()
                    &&& self.slots@[i as int].window_key() == (bucket, key@)
                    &&& self@.contains_key((bucket, key@))
                    &&& self@[(bucket, key@)] == self.slots@[i as int].events@
                },
                None => !self@.contains_key((bucket, key@)),
            },
    {
        proof {
            use_type_invariant(self);
        }
        let t = tag_text(bucket, key);
        match self.index.get(t.as_str()) {
            Some(i) => {
                proof {
                    lemma_tag_injective(self.slots@[*i as int].window_key(), (bucket, key@));
                }
                Some(*i)
            },
            None => None,
        }
    }

    /// The table with events under a key that it does not track yet.
    fn with_new(self, bucket: Bucket, key: String, events: Vec<u64>) -> (r: Windows)
        requires
            !self@.contains_key((bucket, key@)),
            events@.len() <= limit_of(bucket),
        ensures
            r@ == self@.insert((bucket, key@), events@),
    {
        proof {
            use_type_invariant(&self);
        }
        let ghost k = (bucket, key@);
        let ghost before = self;
        let t = tag_text(bucket, key.as_str());
        let Windows { mut index, mut slots } = self;
        let at = slots.len();
        index.insert(t, at);
        slots.push(Slot { bucket, key, events });
        proof {
            assert(slots@[at as int].window_key() == k);
            assert forall|i: int|
                #![trigger slots@[i]]
                0 <= i < slots@.len() implies index@.contains_key(tag(slots@[i].window_key()))
                && index@[tag(slots@[i].window_key())] == i by {
                if i < at {
                    assert(slots@[i] == before.slots@[i]);
                }
            }
            assert forall|t2: Seq<char>| #[trigger] index@.contains_key(t2) implies index@[t2]
                < slots@.len() && tag(slots@[index@[t2] as int].window_key()) == t2 by {
                if t2 != tag(k) {
                    assert(before.index@.contains_key(t2));
                }
            }
            assert forall|i: int|
                #![trigger slots@[i]]
                0 <= i < slots@.len() implies slots@[i].events@.len() <= limit_of(
                slots@[i].bucket,
            ) by {
                if i < at {
                    assert(slots@[i] == before.slots@[i]);
                }
            }
        }
        let r = Windows { index, slots };
        proof {
            assert forall|k2: WindowKey| #[trigger] r@.contains_key(k2) <==> before@.insert(
                k,
                events@,
            ).contains_key(k2) by {
                if tag(k2) == tag(k) {
                    lemma_tag_injective(k2, k);
                }
            }
            assert forall|k2: WindowKey| #[trigger] r@.contains_key(k2) implies r@[k2]
                == before@.insert(k, events@)[k2] by {
                if tag(k2) == tag(k) {
                    lemma_tag_injective(k2, k);
                } else {
                    assert(before.index@.contains_key(tag(k2)));
                }
            }
            assert(r@ =~= before@.insert(k, events@));
        }
        r
    }

    /// The table with other events under a key that it tracks.
    fn with_replaced(self, i: usize, events: Vec<u64>) -> (r: Windows)
        requires
            i < self.slots@.len(),
            events@.len() <= limit_of(self.slots@[i as int].bucket),
        ensures
            r@ == self@.insert(self.slots@[i as int].window_key(), events@),
    {
        proof {
            use_type_invariant(&self);
        }
        let ghost k = self.slots@[i as int].window_key();
        let ghost before = self;
        let Windows { index, mut slots } = self;
        slots[i].events = events;
        proof {
            assert forall|j: int|
                #![trigger slots@[j]]
                0 <= j < slots@.len() implies slots@[j].window_key()
                == before.slots@[j].window_key() by {}
            assert forall|t2: Seq<char>| #[trigger] index@.contains_key(t2) implies index@[t2]
                < slots@.len() && tag(slots@[index@[t2] as int].window_key()) == t2 by {
                assert(before.index@.contains_key(t2));
            }
        }
        let r = Windows { index, slots };
        proof {
            assert forall|k2: WindowKey| #[trigger] r@.contains_key(k2) implies r@[k2]
                == before@.insert(k, events@)[k2] by {
                let j = r.index@[tag(k2)] as int;
                lemma_tag_injective(before.slots@[j].window_key(), k2);
            }
            assert(r@ =~= before@.insert(k, events@));
        }
        r
    }
}

/// Takes a table out of its place, where an empty one is left.
fn take(state: &mut Windows) -> (r: Windows)
    ensures
        r == *old(state),
        final(state)@ == WindowMap::empty(),
{
    let mut r = Windows::new();
    std::mem::swap(&mut r, state);
    r
}

/// The events that have not aged out.
fn keep_live(events: &Vec<u64>, bucket: Bucket, now: u64) -> (r: Vec<u64>)
    ensures
        r@ == live(events@, bucket, now),
        r@.len() <= events@.len(),
{
    let window: u64 = bucket.budget().1 * NANOS_PER_SEC;
    let ghost fresh = |at: u64| age(now, at) < window_of(bucket);
    let mut r: Vec<u64> = Vec::new();
    let mut i: usize = 0;
    assert(events@.take(0).filter(fresh) =~= Seq::empty()) by {
        reveal(Seq::filter);
    }
    while i < events.len()
        invariant
            i <= events.len(),
            window == window_of(bucket),
            fresh == (|at: u64| age(now, at) < window_of(bucket)),
            r@ == events@.take(i as int).filter(fresh),
            r@.len() <= i,
        decreases events.len() - i,
    {
        proof {
            reveal(Seq::filter);
            assert(events@.take(i + 1).drop_last() =~= events@.take(i as int));
        }
        let at = events[i];
        if now < at || now - at < window {
            r.push(at);
        }
        i += 1;
    }
    assert(events@.take(i as int) =~= events@);
    r
}

/// Drops aged-out events, and every key that had no other.
pub fn prune_expired(state: &mut Windows, now: u64)
    ensures
        final(state)@ == pruned(old(state)@, now),
{
    let ghost before = *state;
    proof {
        use_type_invariant(&*state);
        before.lemma_keys();
    }
    let Windows { index: _, slots: mut rest } = take(state);
    let mut fresh = Windows::new();
    assert(before.slots@.take(before.slots@.len() as int) =~= before.slots@);
    while rest.len() > 0
        invariant
            before.wf(),
            rest@ == before.slots@.take(rest@.len() as int),
            rest@.len() <= before.slots@.len(),
            forall|k: WindowKey| #[trigger]
                fresh@.contains_key(k) <==> pruned(before@, now).contains_key(k)
                    && before.index@[tag(k)] >= rest@.len(),
            forall|k: WindowKey| #[trigger]
                fresh@.contains_key(k) ==> fresh@[k] == live(before@[k], k.0, now),
        decreases rest.len(),
    {
        let ghost n = rest@.len() - 1;
        let ghost had = fresh@;
        match rest.pop() {
            Some(slot) => {
                let ghost k0 = slot.window_key();
                assert(slot == before.slots@[n]);
                assert(before.index@[tag(k0)] == n);
                let events = keep_live(&slot.events, slot.bucket, now);
                if events.len() > 0 {
                    fresh = fresh.with_new(slot.bucket, slot.key, events);
                }
                assert forall|k: WindowKey| #[trigger] fresh@.contains_key(k) <==> pruned(
                    before@,
                    now,
                ).contains_key(k) && before.index@[tag(k)] >= n by {
                    if k != k0 && before.index@.contains_key(tag(k)) && before.index@[tag(k)] == n {
                        lemma_tag_injective(before.slots@[n].window_key(), k);
                    }
                    assert(fresh@.contains_key(k) <==> had.contains_key(k) || (k == k0
                        && events@.len() > 0));
                }
            },
            None => {},
        }
    }
    proof {
        assert(fresh@ =~= pruned(before@, now));
    }
    *state = fresh;
}

/// Records an attempt at `now` and decides whether it may proceed.
pub fn check_in(state: &mut Windows, bucket: Bucket, key: &str, now: u64) -> (r: Decision)
    ensures
        r == decision(old(state)@, (bucket, normal_key(key@)), now),
        final(state)@ == after(old(state)@, (bucket, normal_key(key@)), now),
{
    let (limit, window_secs) = bucket.budget();
    let name = text::to_ascii_lowercase(text::trim(key));
    let ghost k = (bucket, normal_key(key@));
    let ghost before = state@;
    let tracked_at = state.find(bucket, name.as_str());
    if tracked_at.is_none() && state.len() >= MAX_TRACKED_KEYS {
        prune_expired(state, now);
        if state.len() >= MAX_TRACKED_KEYS {
            return Decision { allowed: false, retry_after_secs: window_secs };
        }
    }
    match tracked_at {
        Some(i) => {
            proof {
                use_type_invariant(&*state);
                state.lemma_within_budget(k);
            }
            let mut events = keep_live(&state.slots[i].events, bucket, now);
            if events.len() >= limit as usize {
                let secs = seconds_left(events[0], bucket, now);
                *state = take(state).with_replaced(i, events);
                Decision { allowed: false, retry_after_secs: secs }
            } else {
                events.push(now);
                *state = take(state).with_replaced(i, events);
                Decision::allow()
            }
        },
        None => {
            let mut events: Vec<u64> = Vec::new();
            assert(live(Seq::<u64>::empty(), bucket, now) =~= Seq::<u64>::empty()) by {
                reveal(Seq::filter);
            }
            events.push(now);
            assert(events@ =~= Seq::<u64>::empty().push(now));
            *state = take(state).with_new(bucket, name, events);
            Decision::allow()
        },
    }
}

/// `std::time::Instant`, a reading of the process's clock. Nothing is claimed of one.
#[verifier::external_type_specification]
#[verifier::external_body]
pub struct ExInstant(std::time::Instant);

/// `Instant::elapsed`: the time since `origin`, in nanoseconds. Nothing is
/// claimed of it: it depends on when it is asked.
#[verifier::external_body]
fn elapsed_nanos(origin: &std::time::Instant) -> u64 {
    origin.elapsed().as_nanos() as u64
}

/// Records an attempt and decides whether it may proceed, at the time since
/// `origin` that the clock tells.
pub fn check(
    state: &mut Windows,
    origin: &std::time::Instant,
    bucket: Bucket,
    key: &str,
) -> (r: Decision)
    ensures
        exists|now: u64|
            {
                &&& r == #[trigger] decision(old(state)@, (bucket, normal_key(key@)), now)
                &&& final(state)@ == after(old(state)@, (bucket, normal_key(key@)), now)
            },
{
    let now = elapsed_nanos(origin);
    check_in(state, bucket, key, now)
}

/// Whole seconds until `oldest` ages out, at least one.
fn seconds_left(oldest: u64, bucket: Bucket, now: u64) -> (secs: u64)
    requires
        age(now, oldest) < window_of(bucket),
    ensures
        secs == retry_after(seq![oldest], bucket, now),
{
    let window: u64 = bucket.budget().1 * NANOS_PER_SEC;
    let spent: u64 = if now >= oldest {
        now - oldest
    } else {
        0
    };
    let secs: u64 = (window - spent) / NANOS_PER_SEC;
    if secs < 1 {
        1
    } else {
        secs
    }
}

/// The client identity that a forwarded-for header attributes: the last hop, or
/// one shared name where there is none.
pub open spec fn client_of(forwarded_for: Option<Seq<char>>) -> Seq<char> {
    match forwarded_for {
        Some(value) => {
            let hop = text::trimmed(text::pieces(value, ',').last());
            if hop.len() > 0 {
                hop
            } else {
                "unattributed"@
            }
        },
        None => "unattributed"@,
    }
}

/// The client identity used for per-client budgets.
///
/// The gateway appends the peer it saw, so the last element is the one hop that
/// a client cannot forge. A caller without one shares a single budget.
pub fn client_key(forwarded_for: Option<&str>) -> (r: String)
    ensures
        r@ == client_of(text::opt_str_view(forwarded_for)),
{
    match forwarded_for {
        Some(value) => {
            let hops = text::split(value, ',');
            assert(text::slice_views(hops@).len() == hops@.len());
            assert(text::pieces(value@, ',').len() > 0);
            let hop = text::trim(hops[hops.len() - 1]);
            if hop.is_empty() {
                "unattributed".to_owned()
            } else {
                hop.to_owned()
            }
        },
        None => "unattributed".to_owned(),
    }
}

} // verus!
