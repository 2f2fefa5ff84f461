//! What the throttle promises over any history of attempts.

use vstd::prelude::*;

use crate::text;
use crate::text_laws;
use crate::throttle;
use crate::throttle::{Bucket, WindowKey, WindowMap, MAX_TRACKED_KEYS, NANOS_PER_SEC};

verus! {

/// One attempt: what it is filed under, and when it is made.
pub struct Attempt {
    pub key: WindowKey,
    pub now: u64,
}

/// The table after `history`, from an empty one.
pub open spec fn run(history: Seq<Attempt>) -> WindowMap
    decreases history.len(),
{
    if history.len() == 0 {
        WindowMap::empty()
    } else {
        throttle::after(run(history.drop_last()), history.last().key, history.last().now)
    }
}

/// The instants at which `history` had an attempt under `k` admitted.
pub open spec fn admitted(history: Seq<Attempt>, k: WindowKey) -> Seq<u64>
    decreases history.len(),
{
    if history.len() == 0 {
        Seq::empty()
    } else {
        let before = admitted(history.drop_last(), k);
        let last = history.last();
        if last.key == k && throttle::decision(run(history.drop_last()), k, last.now).allowed {
            before.push(last.now)
        } else {
            before
        }
    }
}

/// The clock of `history` does not run backwards.
pub open spec fn in_order(history: Seq<Attempt>) -> bool {
    forall|i: int, j: int|
        0 <= i <= j < history.len() ==> (#[trigger] history[i]).now <= (#[trigger] history[j]).now
}

proof fn lemma_filter_push(s: Seq<u64>, p: spec_fn(u64) -> bool, x: u64)
    ensures
        s.push(x).filter(p) == if p(x) {
            s.filter(p).push(x)
        } else {
            s.filter(p)
        },
{
    reveal(Seq::filter);
    assert(s.push(x).drop_last() =~= s);
}

proof fn lemma_filter_twice(s: Seq<u64>, p: spec_fn(u64) -> bool, q: spec_fn(u64) -> bool)
    requires
        forall|x: u64| #[trigger] q(x) ==> p(x),
    ensures
        s.filter(p).filter(q) == s.filter(q),
    decreases s.len(),
{
    reveal(Seq::filter);
    if s.len() > 0 {
        let front = s.drop_last();
        lemma_filter_twice(front, p, q);
        if p(s.last()) {
            lemma_filter_push(front.filter(p), q, s.last());
        }
    }
}

/// A filter keeps at least the elements of a suffix that all pass it.
proof fn lemma_filter_keeps_suffix(s: Seq<u64>, p: spec_fn(u64) -> bool, from: int)
    requires
        0 <= from <= s.len(),
        forall|i: int| from <= i < s.len() ==> p(#[trigger] s[i]),
    ensures
        s.filter(p).len() >= s.len() - from,
    decreases s.len(),
{
    reveal(Seq::filter);
    if from < s.len() {
        lemma_filter_keeps_suffix(s.drop_last(), p, from);
        assert(p(s[s.len() - 1]));
    }
}

proof fn lemma_filter_none(s: Seq<u64>, p: spec_fn(u64) -> bool)
    requires
        forall|i: int| 0 <= i < s.len() ==> !p(#[trigger] s[i]),
    ensures
        s.filter(p).len() == 0,
    decreases s.len(),
{
    reveal(Seq::filter);
    if s.len() > 0 {
        lemma_filter_none(s.drop_last(), p);
        assert(!p(s[s.len() - 1]));
    }
}

/// What is live at a later instant was live at an earlier one.
proof fn lemma_live_later(events: Seq<u64>, bucket: Bucket, now: u64, later: u64)
    requires
        now <= later,
    ensures
        throttle::live(throttle::live(events, bucket, now), bucket, later) == throttle::live(events, bucket, later),
{
    let p = |at: u64| throttle::age(now, at) < throttle::window_of(bucket);
    let q = |at: u64| throttle::age(later, at) < throttle::window_of(bucket);
    lemma_filter_twice(events, p, q);
}

proof fn lemma_pruned_events(windows: WindowMap, k: WindowKey, now: u64)
    ensures
        throttle::events_of(throttle::pruned(windows, now), k) == throttle::live(throttle::events_of(windows, k), k.0, now),
{
    reveal(Seq::filter);
    if !throttle::pruned(windows, now).contains_key(k) {
        assert(throttle::live(throttle::events_of(windows, k), k.0, now) =~= Seq::empty());
    }
}

/// One attempt adds its own instant, if it is admitted, to what is live under its
/// key, and changes nothing of what is live under any other key: budgets and keys
/// are independent, and a refused attempt is not counted.
pub proof fn law_attempts_touch_only_their_own_key(
    windows: WindowMap,
    k: WindowKey,
    other: WindowKey,
    now: u64,
    later: u64,
)
    requires
        now <= later,
    ensures
        throttle::live(throttle::events_of(throttle::after(windows, k, now), other), other.0, later) == if other == k && throttle::decision(
            windows,
            k,
            now,
        ).allowed {
            throttle::live(throttle::events_of(windows, k).push(now), k.0, later)
        } else {
            throttle::live(throttle::events_of(windows, other), other.0, later)
        },
{
    lemma_pruned_events(windows, other, now);
    lemma_live_later(throttle::events_of(windows, other), other.0, now, later);
    let events = throttle::live(throttle::events_of(windows, k), k.0, now);
    let q = |at: u64| throttle::age(later, at) < throttle::window_of(k.0);
    lemma_live_later(throttle::events_of(windows, k), k.0, now, later);
    lemma_filter_push(events, q, now);
    lemma_filter_push(throttle::events_of(windows, k), q, now);
}

proof fn lemma_admitted_in_order(history: Seq<Attempt>, k: WindowKey)
    requires
        in_order(history),
    ensures
        forall|i: int, j: int|
            0 <= i <= j < admitted(history, k).len() ==> #[trigger] admitted(history, k)[i]
                <= #[trigger] admitted(history, k)[j],
        history.len() > 0 ==> forall|i: int|
            0 <= i < admitted(history, k).len() ==> #[trigger] admitted(history, k)[i]
                <= history.last().now,
    decreases history.len(),
{
    if history.len() > 0 {
        let front = history.drop_last();
        let before = admitted(front, k);
        let now = history.last().now;
        lemma_front_in_order(history);
        lemma_admitted_in_order(front, k);
        if front.len() > 0 {
            assert(front.last() == history[history.len() - 2]);
            assert(history[history.len() - 2].now <= history[history.len() - 1].now);
        }
        assert forall|i: int| 0 <= i < before.len() implies #[trigger] before[i] <= now by {
            assert(admitted(front, k)[i] <= front.last().now);
        }
        assert(admitted(history, k) == before || admitted(history, k) == before.push(now));
    }
}

proof fn lemma_front_in_order(history: Seq<Attempt>)
    requires
        in_order(history),
        history.len() > 0,
    ensures
        in_order(history.drop_last()),
{
    let front = history.drop_last();
    assert forall|i: int, j: int| 0 <= i <= j < front.len() implies (#[trigger] front[i]).now <= (
    #[trigger] front[j]).now by {
        assert(history[i] == front[i] && history[j] == front[j]);
    }
}

/// The table's live events are the admitted attempts that are still live.
proof fn lemma_table_remembers(history: Seq<Attempt>, k: WindowKey, later: u64)
    requires
        in_order(history),
        history.len() > 0 ==> history.last().now <= later,
    ensures
        throttle::live(throttle::events_of(run(history), k), k.0, later) == throttle::live(admitted(history, k), k.0, later),
    decreases history.len(),
{
    if history.len() > 0 {
        let front = history.drop_last();
        let last = history.last();
        lemma_front_in_order(history);
        if front.len() > 0 {
            assert(front.last() == history[history.len() - 2]);
            assert(history[history.len() - 2].now <= history[history.len() - 1].now);
        }
        lemma_table_remembers(front, k, later);
        law_attempts_touch_only_their_own_key(run(front), last.key, k, last.now, later);
        let q = |at: u64| throttle::age(later, at) < throttle::window_of(k.0);
        lemma_filter_push(throttle::events_of(run(front), k), q, last.now);
        lemma_filter_push(admitted(front, k), q, last.now);
    }
}

/// The budget holds over every history: of the attempts admitted under one key,
/// any one and the one that comes a whole budget later are at least a window
/// apart, so no window ever holds more admissions than its budget.
pub proof fn law_budget_holds_in_every_window(history: Seq<Attempt>, k: WindowKey, i: int)
    requires
        in_order(history),
        0 <= i,
        i + throttle::limit_of(k.0) < admitted(history, k).len(),
    ensures
        admitted(history, k)[i + throttle::limit_of(k.0)] - admitted(history, k)[i] >= throttle::window_of(k.0),
    decreases history.len(),
{
    let front = history.drop_last();
    let last = history.last();
    let limit = throttle::limit_of(k.0) as int;
    lemma_front_in_order(history);
    let before = admitted(front, k);
    if i + limit < before.len() {
        law_budget_holds_in_every_window(front, k, i);
    } else {
        if front.len() > 0 {
            assert(front.last() == history[history.len() - 2]);
            assert(history[history.len() - 2].now <= history[history.len() - 1].now);
        }
        lemma_table_remembers(front, k, last.now);
        lemma_admitted_in_order(history, k);
        lemma_admitted_in_order(front, k);
        if last.now - before[i] < throttle::window_of(k.0) {
            let p = |at: u64| throttle::age(last.now, at) < throttle::window_of(k.0);
            assert forall|j: int| i <= j < before.len() implies p(#[trigger] before[j]) by {
                assert(before[i] <= before[j]);
            }
            lemma_filter_keeps_suffix(before, p, i);
            assert(false);
        }
    }
}

/// A denial always advertises a delay: at least one second, at most the window.
pub proof fn law_denial_advertises_a_delay(windows: WindowMap, k: WindowKey, now: u64)
    requires
        !throttle::decision(windows, k, now).allowed,
    ensures
        1 <= throttle::decision(windows, k, now).retry_after_secs <= throttle::window_secs_of(k.0),
{
    let events = throttle::live(throttle::events_of(windows, k), k.0, now);
    if !throttle::no_room(windows, k, now) {
        let left = throttle::window_of(k.0) - throttle::age(now, events[0]);
        assert(left / (NANOS_PER_SEC as int) <= throttle::window_secs_of(k.0)) by {
            assert(left <= throttle::window_secs_of(k.0) * NANOS_PER_SEC);
        }
    }
}

/// The window slides: once every event of a key has aged out, its next attempt is
/// admitted, unless the table has no room for the key.
pub proof fn law_budget_recovers(windows: WindowMap, k: WindowKey, now: u64)
    requires
        forall|i: int|
            0 <= i < throttle::events_of(windows, k).len() ==> throttle::age(now, #[trigger] throttle::events_of(windows, k)[i])
                >= throttle::window_of(k.0),
        !throttle::no_room(windows, k, now),
    ensures
        throttle::decision(windows, k, now).allowed,
{
    lemma_filter_none(throttle::events_of(windows, k), |at: u64| throttle::age(now, at) < throttle::window_of(k.0));
}

proof fn lemma_pruned_size(windows: WindowMap, now: u64)
    requires
        windows.dom().finite(),
    ensures
        throttle::pruned(windows, now).dom().finite(),
        throttle::pruned(windows, now).dom().len() <= windows.dom().len(),
{
    assert(throttle::pruned(windows, now).dom().subset_of(windows.dom()));
    vstd::set_lib::lemma_len_subset(throttle::pruned(windows, now).dom(), windows.dom());
}

/// The table never tracks more keys than its bound, whatever is attempted.
pub proof fn law_table_is_bounded(windows: WindowMap, k: WindowKey, now: u64)
    requires
        windows.dom().finite(),
        windows.dom().len() <= MAX_TRACKED_KEYS,
    ensures
        throttle::after(windows, k, now).dom().finite(),
        throttle::after(windows, k, now).dom().len() <= MAX_TRACKED_KEYS,
{
    lemma_pruned_size(windows, now);
    let table = throttle::table_for(windows, k, now);
    if windows.contains_key(k) {
        assert(forall|e: Seq<u64>| #[trigger] table.insert(k, e).dom() =~= table.dom());
    }
}

/// No attempt evicts a key that still has a live event, or any of its live events.
pub proof fn law_live_keys_are_never_evicted(
    windows: WindowMap,
    k: WindowKey,
    other: WindowKey,
    now: u64,
)
    requires
        windows.contains_key(other),
        throttle::live(windows[other], other.0, now).len() > 0,
    ensures
        throttle::after(windows, k, now).contains_key(other),
{
}

/// Case and surrounding white space do not hand out a fresh budget: every such
/// variant of a key is filed under the same one.
pub proof fn law_keys_ignore_case_and_space(l: Seq<char>, key: Seq<char>, r: Seq<char>)
    requires
        text::all_white_space(l),
        text::all_white_space(r),
    ensures
        throttle::normal_key(l + key + r) == throttle::normal_key(key),
        throttle::normal_key(text::lowered(key)) == throttle::normal_key(key),
        throttle::normal_key(throttle::normal_key(key)) == throttle::normal_key(key),
{
    text::lemma_trimmed_padding(l, key, r);
    text::lemma_trimmed_lowered(key);
    text::lemma_lowered_twice(text::trimmed(key));
    text::lemma_trimmed_lowered(text::trimmed(key));
    text::lemma_trimmed_ends(key);
}

/// What a client puts in front of what the gateway appends does not change the
/// client's identity.
pub proof fn law_forwarded_prefix_is_ignored(prefix: Seq<char>, hop: Seq<char>)
    ensures
        throttle::client_of(Some(prefix.push(',') + hop)) == throttle::client_of(Some(hop)),
{
    text::lemma_last_piece(prefix, ',', hop);
}

/// Each budget admits so many attempts in so many seconds.
pub proof fn law_budgets()
    ensures
        throttle::limit_of(Bucket::OtpDispatchPerIdentifier) == 3,
        throttle::window_secs_of(Bucket::OtpDispatchPerIdentifier) == 15 * 60,
        throttle::limit_of(Bucket::OtpDispatchPerClient) == 10,
        throttle::window_secs_of(Bucket::OtpDispatchPerClient) == 60 * 60,
        throttle::limit_of(Bucket::OtpVerifyPerIdentifier) == 5,
        throttle::window_secs_of(Bucket::OtpVerifyPerIdentifier) == 10 * 60,
        throttle::limit_of(Bucket::MfaVerifyPerClient) == 5,
        throttle::window_secs_of(Bucket::MfaVerifyPerClient) == 10 * 60,
        throttle::limit_of(Bucket::PasswordPerIdentifier) == 10,
        throttle::window_secs_of(Bucket::PasswordPerIdentifier) == 15 * 60,
{
}

/// A table that tracks a key, or fewer than a hundred thousand, has room for the key; a full one
/// that tracks a key with nothing live has room for another.
pub proof fn law_tables_have_room(windows: WindowMap, k: WindowKey, dead: WindowKey, now: u64)
    ensures
        windows.contains_key(k) ==> !throttle::no_room(windows, k, now),
        windows.dom().len() < 100_000 ==> !throttle::no_room(windows, k, now),
        windows.dom().finite() && windows.dom().len() <= 100_000 && windows.contains_key(dead)
            && throttle::live(windows[dead], dead.0, now).len() == 0 ==> !throttle::no_room(
            windows,
            k,
            now,
        ),
{
    if windows.dom().finite() && windows.contains_key(dead) && throttle::live(
        windows[dead],
        dead.0,
        now,
    ).len() == 0 {
        let left = throttle::pruned(windows, now).dom();
        let fewer = windows.dom().remove(dead);
        assert(left.subset_of(fewer));
        vstd::set_lib::lemma_len_subset(left, fewer);
    }
}

/// A filter keeps nothing of a beginning that fails it.
proof fn lemma_filter_drops_prefix(s: Seq<u64>, p: spec_fn(u64) -> bool, n: int)
    requires
        0 <= n <= s.len(),
        forall|i: int| 0 <= i < n ==> !p(#[trigger] s[i]),
    ensures
        s.filter(p).len() <= s.len() - n,
    decreases s.len(),
{
    reveal(Seq::filter);
    if s.len() > n {
        let front = s.drop_last();
        assert forall|i: int| 0 <= i < n implies !p(#[trigger] front[i]) by {
            assert(front[i] == s[i]);
        }
        lemma_filter_drops_prefix(front, p, n);
    } else {
        lemma_filter_none(s, p);
    }
}

/// The budget can be used up, and comes back as its window slides: over every history, an
/// attempt under a key that the table has room for is admitted exactly where fewer attempts than
/// the budget were admitted under the key before, or the one that lies a whole budget back was
/// admitted at least a window ago.
pub proof fn law_budget_can_be_used_up(history: Seq<Attempt>, k: WindowKey, now: u64)
    requires
        in_order(history),
        history.len() > 0 ==> history.last().now <= now,
        run(history).contains_key(k) || run(history).dom().len() < 100_000,
    ensures
        ({
            let before = admitted(history, k);
            let back = before.len() - throttle::limit_of(k.0);
            throttle::decision(run(history), k, now).allowed <==> back < 0 || now - before[back]
                >= throttle::window_secs_of(k.0) * 1_000_000_000
        }),
        throttle::decision(run(history), k, now).allowed ==> throttle::decision(
            run(history),
            k,
            now,
        ).retry_after_secs == 0,
{
    let before = admitted(history, k);
    let limit = throttle::limit_of(k.0) as int;
    let back = before.len() - limit;
    let p = |at: u64| throttle::age(now, at) < throttle::window_of(k.0);
    law_tables_have_room(run(history), k, k, now);
    lemma_table_remembers(history, k, now);
    lemma_admitted_in_order(history, k);
    before.lemma_filter_len(p);
    if back >= 0 {
        if now - before[back] < throttle::window_of(k.0) {
            assert forall|i: int| back <= i < before.len() implies p(#[trigger] before[i]) by {
                assert(before[back] <= before[i]);
            }
            lemma_filter_keeps_suffix(before, p, back);
        } else {
            assert forall|i: int| 0 <= i < back + 1 implies !p(#[trigger] before[i]) by {
                assert(before[i] <= before[back]);
            }
            lemma_filter_drops_prefix(before, p, back + 1);
        }
    }
}

/// A filter that admits nothing before an item that it admits starts with that item.
proof fn lemma_filter_first(s: Seq<u64>, p: spec_fn(u64) -> bool, i: int)
    requires
        0 <= i < s.len(),
        p(s[i]),
        forall|j: int| 0 <= j < i ==> !p(#[trigger] s[j]),
    ensures
        s.filter(p).len() > 0,
        s.filter(p)[0] == s[i],
    decreases s.len(),
{
    reveal(Seq::filter);
    let front = s.drop_last();
    if i < s.len() - 1 {
        assert forall|j: int| 0 <= j < i implies !p(#[trigger] front[j]) by {
            assert(front[j] == s[j]);
        }
        lemma_filter_first(front, p, i);
    } else {
        assert forall|j: int| 0 <= j < front.len() implies !p(#[trigger] front[j]) by {
            assert(front[j] == s[j]);
        }
        lemma_filter_none(front, p);
    }
}

/// A denial for want of budget tells the whole seconds until the oldest attempt that still counts
/// ages out, or one second where that is sooner; a denial for want of room tells the window.
pub proof fn law_denials_tell_when_the_oldest_ages_out(
    windows: WindowMap,
    k: WindowKey,
    now: u64,
    i: int,
)
    requires
        0 <= i < throttle::events_of(windows, k).len(),
        throttle::events_of(windows, k)[i] <= now,
        now - throttle::events_of(windows, k)[i] < throttle::window_secs_of(k.0) * 1_000_000_000,
        forall|j: int|
            0 <= j < i ==> throttle::age(now, #[trigger] throttle::events_of(windows, k)[j])
                >= throttle::window_secs_of(k.0) * 1_000_000_000,
        !throttle::decision(windows, k, now).allowed,
    ensures
        ({
            let left = throttle::events_of(windows, k)[i] + throttle::window_secs_of(k.0)
                * 1_000_000_000 - now;
            let told = throttle::decision(windows, k, now).retry_after_secs as int;
            &&& told * 1_000_000_000 <= left || told == 1
            &&& left < (told + 1) * 1_000_000_000
        }),
{
    let events = throttle::events_of(windows, k);
    let p = |at: u64| throttle::age(now, at) < throttle::window_of(k.0);
    assert(p(events[i]));
    lemma_filter_first(events, p, i);
    assert(windows.contains_key(k));
    let oldest = throttle::live(events, k.0, now)[0];
    let left = throttle::window_of(k.0) - throttle::age(now, oldest);
    let secs = left / 1_000_000_000;
    assert(secs * 1_000_000_000 <= left < (secs + 1) * 1_000_000_000);
    assert(secs <= throttle::window_secs_of(k.0));
}

/// A denial for want of room tells the window.
pub proof fn law_denials_for_want_of_room_tell_the_window(
    windows: WindowMap,
    k: WindowKey,
    now: u64,
)
    requires
        !windows.contains_key(k),
        !throttle::decision(windows, k, now).allowed,
    ensures
        windows.dom().len() >= 100_000,
        throttle::decision(windows, k, now).retry_after_secs == throttle::window_secs_of(k.0),
{
    let p = |at: u64| throttle::age(now, at) < throttle::window_of(k.0);
    lemma_filter_none(Seq::empty(), p);
}

/// Keys that are filed as one are the same but for case and the white space around them.
pub proof fn law_only_equal_keys_share_a_budget(a: Seq<char>, b: Seq<char>, i: int)
    requires
        throttle::normal_key(a) == throttle::normal_key(b),
        0 <= i < text::trimmed(a).len(),
    ensures
        text::trimmed(a).len() == text::trimmed(b).len(),
        ({
            let x = text::trimmed(a)[i] as u32;
            let y = text::trimmed(b)[i] as u32;
            ||| x == y
            ||| 0x41 <= x <= 0x5a && y == x + 0x20
            ||| 0x41 <= y <= 0x5a && x == y + 0x20
        }),
{
    assert(throttle::normal_key(a).len() == text::trimmed(a).len());
    assert(throttle::normal_key(b).len() == text::trimmed(b).len());
    text_laws::law_lower_case_is_for_ascii_letters(text::trimmed(a), i);
    text_laws::law_lower_case_is_for_ascii_letters(text::trimmed(b), i);
}

/// A client is known by the last hop, and all clients without one by one and the same name.
pub proof fn law_clients_are_known_by_their_last_hop(prefix: Seq<char>, hop: Seq<char>)
    requires
        !hop.contains(','),
    ensures
        text::trimmed(hop).len() > 0 ==> {
            &&& throttle::client_of(Some(hop)) == text::trimmed(hop)
            &&& throttle::client_of(Some(prefix.push(',') + hop)) == text::trimmed(hop)
        },
        text::trimmed(hop).len() == 0 ==> {
            &&& throttle::client_of(Some(hop)) == "unattributed"@
            &&& throttle::client_of(Some(prefix.push(',') + hop)) == "unattributed"@
        },
        throttle::client_of(None) == "unattributed"@,
{
    assert forall|i: int| 0 <= i < hop.len() implies hop[i] != ',' by {
        assert(hop.contains(hop[i]));
    }
    text::lemma_first_position_is(hop, ',', hop.len() as int);
    text::lemma_last_piece(prefix, ',', hop);
}

/// An attempt that is denied for want of room leaves the table without what has aged out: every
/// other key keeps the events that still count, and one with none left is forgotten.
pub proof fn law_denials_for_want_of_room_clear_the_table(
    windows: WindowMap,
    k: WindowKey,
    now: u64,
    other: WindowKey,
)
    requires
        !windows.contains_key(k),
        !throttle::decision(windows, k, now).allowed,
    ensures
        ({
            let left = throttle::after(windows, k, now);
            &&& left.contains_key(other) <==> windows.contains_key(other) && throttle::live(
                windows[other],
                other.0,
                now,
            ).len() > 0
            &&& left.contains_key(other) ==> left[other] == throttle::live(
                windows[other],
                other.0,
                now,
            )
        }),
{
    let p = |at: u64| throttle::age(now, at) < throttle::window_of(k.0);
    lemma_filter_none(Seq::empty(), p);
}

} // verus!
