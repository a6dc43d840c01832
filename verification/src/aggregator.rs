//! The batching decisions of the "set to" aggregator. Messages that set a
//! user's aggregate value are gathered (the latest one per user wins) and
//! handed out as a batch once enough messages came or enough time passed
//! since the previous message; the caller writes each batch.

use vstd::prelude::*;
use std::collections::HashMap;
use crate::clock::{UtcTime, utc_now, seconds_between, whole_seconds_between};
use crate::text::parse_bool;

verus! {

broadcast use vstd::std_specs::hash::group_hash_axioms;

/// A message that sets one user's aggregate `name` to `value` (JSON text).
pub struct SetToMessage {
    pub user_id: u128,
    pub name: String,
    pub value: String,
}

/// What the aggregator's channel delivered.
pub enum AggregatorEvent {
    /// A message that sets an aggregate.
    SetTo(SetToMessage),
    /// A message of another kind, which this aggregator ignores.
    Other,
    /// The receiver fell behind and messages were dropped.
    Lagged,
    /// The channel was closed.
    Closed,
}

/// What the caller is to do after an event.
pub enum AggregatorAction {
    /// Wait for the next event.
    Continue,
    /// Write `calls` (user id to name and value), gathered from `count` messages.
    Flush { calls: HashMap<u128, (String, String)>, count: i32 },
    /// Stop with an error: the channel is closed.
    Stop,
}

/// The aggregator's state between events.
pub struct SetToAggregator {
    /// The latest pending name and value per user.
    calls: HashMap<u128, (String, String)>,
    /// Messages gathered since the last batch.
    count: i32,
    /// When the previous message was handled.
    prev: UtcTime,
    /// A batch is due once this many messages are gathered.
    agg_size: i32,
    /// A batch is due once more than this many whole seconds passed.
    time_limit: i64,
}

impl SetToAggregator {
    /// The count never passes the batch size: it is zero, or below `agg_size`.
    #[verifier::type_invariant]
    spec fn count_below_batch_size(self) -> bool {
        &&& 0 <= self.count
        &&& (self.count == 0 || self.count < self.agg_size)
    }

    /// The latest pending name and value per user.
    pub closed spec fn pending_view(self) -> Map<u128, (String, String)> {
        self.calls@
    }

    /// The number of messages gathered since the last batch.
    pub closed spec fn gathered(self) -> int {
        self.count as int
    }

    /// When the previous message was handled.
    pub closed spec fn last_message_at(self) -> UtcTime {
        self.prev
    }

    /// The batch size.
    pub closed spec fn batch_size(self) -> int {
        self.agg_size as int
    }

    /// The time limit, in whole seconds.
    pub closed spec fn time_limit_secs(self) -> int {
        self.time_limit as int
    }
}

/// `post` and `action` are what the aggregator in state `pre` produces for
/// `event`, where `now` is read when a message arrives and `later` right
/// after the decision.
pub open spec fn steps_to(
    pre: SetToAggregator,
    event: AggregatorEvent,
    now: UtcTime,
    later: UtcTime,
    post: SetToAggregator,
    action: AggregatorAction,
) -> bool {
    &&& post.batch_size() == pre.batch_size()
    &&& post.time_limit_secs() == pre.time_limit_secs()
    &&& match event {
        AggregatorEvent::SetTo(m) => {
            let calls = pre.pending_view().insert(m.user_id, (m.name, m.value));
            let count = pre.gathered() + 1;
            let due = whole_seconds_between(pre.last_message_at(), now) > pre.time_limit_secs()
                || count >= pre.batch_size();
            &&& post.last_message_at() == later
            &&& if due {
                &&& action matches AggregatorAction::Flush { calls: batch, count: n }
                &&& batch@ == calls
                &&& n == count
                &&& post.pending_view() == Map::<u128, (String, String)>::empty()
                &&& post.gathered() == 0
            } else {
                &&& action is Continue
                &&& post.pending_view() == calls
                &&& post.gathered() == count
            }
        },
        AggregatorEvent::Closed => {
            &&& action is Stop
            &&& post.pending_view() == pre.pending_view()
            &&& post.gathered() == pre.gathered()
            &&& post.last_message_at() == pre.last_message_at()
        },
        _ => {
            &&& action is Continue
            &&& post.pending_view() == pre.pending_view()
            &&& post.gathered() == pre.gathered()
            &&& post.last_message_at() == pre.last_message_at()
        },
    }
}

impl SetToAggregator {
    /// An aggregator with nothing gathered, started at `now`.
    pub fn new(agg_size: i32, time_limit: i64, now: UtcTime) -> (s: Self)
        ensures
            s.pending_view() == Map::<u128, (String, String)>::empty(),
            s.gathered() == 0,
            s.last_message_at() == now,
            s.batch_size() == agg_size,
            s.time_limit_secs() == time_limit,
    {
        SetToAggregator { calls: HashMap::new(), count: 0, prev: now, agg_size, time_limit }
    }

    /// The pending name and value per user.
    pub fn pending(&self) -> (calls: &HashMap<u128, (String, String)>)
        ensures
            calls@ == self.pending_view(),
    {
        &self.calls
    }

    /// The number of messages gathered since the last batch: zero, or below
    /// the batch size.
    pub fn count(&self) -> (n: i32)
        ensures
            n == self.gathered(),
            n >= 0,
            n == 0 || n < self.batch_size(),
    {
        proof {
            use_type_invariant(self);
        }
        self.count
    }

    /// When the previous message was handled.
    pub fn prev(&self) -> (t: UtcTime)
        ensures
            t == self.last_message_at(),
    {
        self.prev
    }

    /// The batch size.
    pub fn agg_size(&self) -> (n: i32)
        ensures
            n == self.batch_size(),
    {
        self.agg_size
    }

    /// The time limit, in whole seconds.
    pub fn time_limit(&self) -> (n: i64)
        ensures
            n == self.time_limit_secs(),
    {
        self.time_limit
    }

    /// Handles `event`, with `now` read when a message arrives and `later`
    /// read after the decision: a message replaces its user's pending value
    /// and counts one more; a batch is handed out and the state emptied once
    /// more than `time_limit` whole seconds passed since the previous message
    /// or `agg_size` messages are gathered. A closed channel stops; other
    /// events change nothing.
    pub fn step(&mut self, event: AggregatorEvent, now: UtcTime, later: UtcTime) -> (action: AggregatorAction)
        ensures
            steps_to(*old(self), event, now, later, *final(self), action),
    {
        proof {
            use_type_invariant(&*self);
        }
        match event {
            AggregatorEvent::SetTo(m) => {
                let mut calls: HashMap<u128, (String, String)> = HashMap::new();
                std::mem::swap(&mut calls, &mut self.calls);
                calls.insert(m.user_id, (m.name, m.value));
                let count = self.count + 1;
                let elapsed = seconds_between(self.prev, now);
                let due = elapsed > self.time_limit as i128 || count >= self.agg_size;
                self.prev = later;
                if due {
                    self.count = 0;
                    AggregatorAction::Flush { calls, count }
                } else {
                    self.count = count;
                    std::mem::swap(&mut calls, &mut self.calls);
                    AggregatorAction::Continue
                }
            },
            AggregatorEvent::Closed => AggregatorAction::Stop,
            _ => AggregatorAction::Continue,
        }
    }

    /// An aggregator with nothing gathered, started at the current time.
    pub fn started_now(agg_size: i32, time_limit: i64) -> (s: Self)
        ensures
            s.last_message_at().wf(),
            s.pending_view() == Map::<u128, (String, String)>::empty(),
            s.gathered() == 0,
            s.batch_size() == agg_size,
            s.time_limit_secs() == time_limit,
    {
        Self::new(agg_size, time_limit, utc_now())
    }

    /// Handles `event` as `step` does, reading the clock when a message
    /// arrives and again after the decision.
    pub fn handle(&mut self, event: AggregatorEvent) -> (action: AggregatorAction)
        ensures
            exists|now: UtcTime, later: UtcTime|
                now.wf() && later.wf() && steps_to(*old(self), event, now, later, *final(self), action),
    {
        let now = match &event {
            AggregatorEvent::SetTo(_) => utc_now(),
            _ => UtcTime { secs: 0, nanos: 0 },
        };
        let later = match &event {
            AggregatorEvent::SetTo(_) => utc_now(),
            _ => UtcTime { secs: 0, nanos: 0 },
        };
        self.step(event, now, later)
    }
}

/// The number of batches handed out in `actions`.
pub open spec fn batches(actions: Seq<AggregatorAction>) -> nat
    decreases actions.len(),
{
    if actions.len() == 0 {
        0
    } else {
        batches(actions.drop_last()) + if actions.last() is Flush {
            1nat
        } else {
            0nat
        }
    }
}

/// The pending map `m` after the messages among `events`, in order.
pub open spec fn with_messages(
    m: Map<u128, (String, String)>,
    events: Seq<AggregatorEvent>,
) -> Map<u128, (String, String)>
    decreases events.len(),
{
    if events.len() == 0 {
        m
    } else {
        let before = with_messages(m, events.drop_last());
        match events.last() {
            AggregatorEvent::SetTo(msg) => before.insert(msg.user_id, (msg.name, msg.value)),
            _ => before,
        }
    }
}

/// `states[i + 1]` and `actions[i]` come from `states[i]` and `events[i]`,
/// for each of the `events.len()` steps.
pub open spec fn is_run(
    states: Seq<SetToAggregator>,
    events: Seq<AggregatorEvent>,
    nows: Seq<UtcTime>,
    laters: Seq<UtcTime>,
    actions: Seq<AggregatorAction>,
) -> bool {
    &&& states.len() == events.len() + 1
    &&& nows.len() == events.len()
    &&& laters.len() == events.len()
    &&& actions.len() == events.len()
    &&& forall|i: int|
        0 <= i < events.len() ==> #[trigger] steps_to(
            states[i],
            events[i],
            nows[i],
            laters[i],
            states[i + 1],
            actions[i],
        )
}

proof fn lemma_count_step(k: int, a: int)
    requires
        k >= 0,
        a >= 1,
    ensures
        k % a + 1 >= a ==> (k + 1) % a == 0 && (k + 1) / a == k / a + 1,
        k % a + 1 < a ==> (k + 1) % a == k % a + 1 && (k + 1) / a == k / a,
        0 <= k % a < a,
{
    vstd::arithmetic::div_mod::lemma_fundamental_div_mod(k, a);
    vstd::arithmetic::div_mod::lemma_fundamental_div_mod(k + 1, a);
    vstd::arithmetic::div_mod::lemma_mod_bound(k, a);
    vstd::arithmetic::div_mod::lemma_mod_bound(k + 1, a);
    let q = k / a;
    assert((q + 1) * a == a * q + a) by (nonlinear_arith);
    assert(q * a == a * q) by (nonlinear_arith);
    if k % a + 1 >= a {
        vstd::arithmetic::div_mod::lemma_fundamental_div_mod_converse(k + 1, a, k / a + 1, 0);
    } else {
        vstd::arithmetic::div_mod::lemma_fundamental_div_mod_converse(k + 1, a, k / a, k % a + 1);
    }
}

/// The number of messages among `events`.
pub open spec fn messages(events: Seq<AggregatorEvent>) -> nat
    decreases events.len(),
{
    if events.len() == 0 {
        0
    } else {
        messages(events.drop_last()) + if events.last() is SetTo {
            1nat
        } else {
            0nat
        }
    }
}

/// With a batch size of at least one and messages that each come within
/// the time limit of the previous one, a run from an empty state in which
/// `n` messages arrive (among any number of ignored, lagged or closed
/// events) gives exactly `n / agg_size` batches, each right after the
/// message whose number is a multiple of `agg_size`, and leaves
/// `n % agg_size` messages gathered.
pub proof fn lemma_batches_by_count(
    states: Seq<SetToAggregator>,
    events: Seq<AggregatorEvent>,
    nows: Seq<UtcTime>,
    laters: Seq<UtcTime>,
    actions: Seq<AggregatorAction>,
)
    requires
        is_run(states, events, nows, laters, actions),
        states[0].gathered() == 0,
        states[0].batch_size() >= 1,
        forall|i: int|
            0 <= i < events.len() && #[trigger] events[i] is SetTo ==> whole_seconds_between(
                states[i].last_message_at(),
                nows[i],
            ) <= states[0].time_limit_secs(),
    ensures
        states.last().gathered() == (messages(events) as int) % states[0].batch_size(),
        batches(actions) == (messages(events) as int) / states[0].batch_size(),
        forall|i: int|
            0 <= i < events.len() ==> (#[trigger] actions[i] is Flush <==> (events[i] is SetTo && (messages(
                events.take(i + 1),
            ) as int) % states[0].batch_size() == 0)),
    decreases events.len(),
{
    let n = events.len() as int;
    let a = states[0].batch_size();
    if n == 0 {
        assert(0int % a == 0 && 0int / a == 0) by {
            lemma_count_step(0, a);
            vstd::arithmetic::div_mod::lemma_small_mod(0, a as nat);
            vstd::arithmetic::div_mod::lemma_basic_div(0, a);
        }
    } else {
        let k = n - 1;
        assert forall|i: int|
            0 <= i < k && #[trigger] events.drop_last()[i] is SetTo implies whole_seconds_between(
                states.drop_last()[i].last_message_at(),
                nows.drop_last()[i],
            ) <= states.drop_last()[0].time_limit_secs() by {
            assert(events[i] is SetTo);
        }
        lemma_batches_by_count(
            states.drop_last(),
            events.drop_last(),
            nows.drop_last(),
            laters.drop_last(),
            actions.drop_last(),
        );
        lemma_run_keeps_settings(states, events, nows, laters, actions, k);
        assert(steps_to(states[k], events[k], nows[k], laters[k], states[k + 1], actions[k]));
        let m = messages(events.drop_last()) as int;
        lemma_count_step(m, a);
        assert(actions.drop_last().push(actions.last()) =~= actions);
        assert(states.drop_last().last() == states[k]);
        assert(events.take(n) =~= events);
        assert forall|i: int| 0 <= i < n implies (#[trigger] actions[i] is Flush <==> (events[i] is SetTo
            && (messages(events.take(i + 1)) as int) % a == 0)) by {
            if i < k {
                assert(actions[i] == actions.drop_last()[i]);
                assert(events[i] == events.drop_last()[i]);
                assert(events.take(i + 1) =~= events.drop_last().take(i + 1));
            }
        }
    }
}

/// Along a run, the batch size and the time limit never change.
proof fn lemma_run_keeps_settings(
    states: Seq<SetToAggregator>,
    events: Seq<AggregatorEvent>,
    nows: Seq<UtcTime>,
    laters: Seq<UtcTime>,
    actions: Seq<AggregatorAction>,
    i: int,
)
    requires
        is_run(states, events, nows, laters, actions),
        0 <= i <= events.len(),
    ensures
        states[i].batch_size() == states[0].batch_size(),
        states[i].time_limit_secs() == states[0].time_limit_secs(),
    decreases i,
{
    if i > 0 {
        let j = i - 1;
        lemma_run_keeps_settings(states, events, nows, laters, actions, j);
        assert(steps_to(states[j], events[j], nows[j], laters[j], states[j + 1], actions[j]));
    }
}

/// While no batch is handed out, the pending map holds, for each user, the
/// name and value of that user's latest message.
pub proof fn lemma_latest_message_per_user(
    states: Seq<SetToAggregator>,
    events: Seq<AggregatorEvent>,
    nows: Seq<UtcTime>,
    laters: Seq<UtcTime>,
    actions: Seq<AggregatorAction>,
)
    requires
        is_run(states, events, nows, laters, actions),
        forall|i: int| 0 <= i < actions.len() ==> !(#[trigger] actions[i] is Flush),
    ensures
        states.last().pending_view() == with_messages(states[0].pending_view(), events),
    decreases events.len(),
{
    let n = events.len() as int;
    if n > 0 {
        let k = n - 1;
        assert forall|i: int| 0 <= i < k implies !(#[trigger] actions.drop_last()[i] is Flush) by {
            assert(actions.drop_last()[i] == actions[i]);
        }
        lemma_latest_message_per_user(
            states.drop_last(),
            events.drop_last(),
            nows.drop_last(),
            laters.drop_last(),
            actions.drop_last(),
        );
        assert(steps_to(states[k], events[k], nows[k], laters[k], states[k + 1], actions[k]));
        assert(!(actions[k] is Flush));
        assert(states.drop_last().last() == states[k]);
    }
}

/// With a batch size of one or less, every message is handed out at once.
pub proof fn lemma_small_batch_flushes_each_message(
    pre: SetToAggregator,
    event: AggregatorEvent,
    now: UtcTime,
    later: UtcTime,
    post: SetToAggregator,
    action: AggregatorAction,
)
    requires
        steps_to(pre, event, now, later, post, action),
        event is SetTo,
        pre.gathered() >= 0,
        pre.batch_size() <= 1,
    ensures
        action is Flush,
        post.gathered() == 0,
{
}

/// Whether batches are written to the database, from the text of the
/// setting (absent counts as `false`): only the exact text `true` enables it.
pub fn save_to_db_enabled(setting: Option<String>) -> (on: bool)
    ensures
        on == (setting matches Some(v) && v@ == "true"@),
{
    let text = match setting {
        Some(v) => v,
        None => String::from_str("false"),
    };
    proof {
        reveal_strlit("true");
        reveal_strlit("false");
    }
    match parse_bool(text.as_str()) {
        Some(b) => b,
        None => false,
    }
}

} // verus!
