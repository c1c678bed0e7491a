//! Status conditions in the shape of Kubernetes' `metav1.Condition`, and
//! the rule by which a controller records one.
use vstd::prelude::*;
use crate::clock::{utc_now, Timestamp};

pub mod reasons;
pub mod types;

verus! {

/// One status condition.
#[derive(Clone, Debug, Default, PartialEq, Eq)]
pub struct Condition {
    /// `Ready`, `Reconciling`, `Available`, `Degraded`, `Progressing`,
    /// `Failed`, plus per-resource types.
    pub type_: String,
    /// `"True"`, `"False"` or `"Unknown"`.
    pub status: String,
    /// CamelCase reason the controller defines.
    pub reason: String,
    /// Free-text human-readable detail; may be empty.
    pub message: String,
    /// Time of the most recent status transition.
    pub last_transition_time: Timestamp,
    /// `metadata.generation` the controller had observed when it set this
    /// condition.
    pub observed_generation: Option<i64>,
}

/// An instant no earlier than the Unix epoch, with fewer than a billion
/// nanoseconds past its second: what the system clock stamps.
pub open spec fn stamp_after_epoch(t: Timestamp) -> bool {
    0 <= t.secs && t.nanos < 1_000_000_000
}

impl Condition {
    /// A `Ready=True` condition with `reason`.
    pub fn ready_true(reason: &str) -> (r: Condition)
        ensures
            r.type_@ == types::READY@,
            r.status@ == "True"@,
            r.reason@ == reason@,
            r.message@ == ""@,
            r.observed_generation is None,
            stamp_after_epoch(r.last_transition_time),
    {
        Self::new(types::READY, "True", reason, "", None)
    }

    /// A `Ready=False` condition with `reason` and `message`.
    pub fn ready_false(reason: &str, message: &str) -> (r: Condition)
        ensures
            r.type_@ == types::READY@,
            r.status@ == "False"@,
            r.reason@ == reason@,
            r.message@ == message@,
            r.observed_generation is None,
            stamp_after_epoch(r.last_transition_time),
    {
        Self::new(types::READY, "False", reason, message, None)
    }

    /// A condition of type `ty`, stamped with the current time of the
    /// system clock; with the Unix epoch when the clock reads before the
    /// epoch or past what a UTC date and time can hold.
    pub fn new(
        ty: &str,
        status: &str,
        reason: &str,
        message: &str,
        observed_generation: Option<i64>,
    ) -> (r: Condition)
        ensures
            r.type_@ == ty@,
            r.status@ == status@,
            r.reason@ == reason@,
            r.message@ == message@,
            r.observed_generation == observed_generation,
            stamp_after_epoch(r.last_transition_time),
    {
        let now = match utc_now() {
            Some(t) => t,
            None => Timestamp { secs: 0, nanos: 0 },
        };
        Self::new_at(ty, status, reason, message, observed_generation, now)
    }

    /// A condition of type `ty`, stamped with the instant `now`.
    pub fn new_at(
        ty: &str,
        status: &str,
        reason: &str,
        message: &str,
        observed_generation: Option<i64>,
        now: Timestamp,
    ) -> (r: Condition)
        ensures
            r.type_@ == ty@,
            r.status@ == status@,
            r.reason@ == reason@,
            r.message@ == message@,
            r.observed_generation == observed_generation,
            r.last_transition_time == now,
    {
        Condition {
            type_: ty.to_owned(),
            status: status.to_owned(),
            reason: reason.to_owned(),
            message: message.to_owned(),
            last_transition_time: now,
            observed_generation,
        }
    }
}

/// Some condition in `s` has type `t`.
pub open spec fn has_type(s: Seq<Condition>, t: Seq<char>) -> bool {
    exists|i: int| 0 <= i < s.len() && #[trigger] s[i].type_@ == t
}

/// `i` is the first position in `s` of a condition of type `t`.
pub open spec fn is_first_of_type(s: Seq<Condition>, t: Seq<char>, i: int) -> bool {
    &&& 0 <= i < s.len()
    &&& s[i].type_@ == t
    &&& forall|j: int| 0 <= j < i ==> #[trigger] s[j].type_@ != t
}

/// The first position in `s` of a condition of type `t`.
pub open spec fn first_of_type(s: Seq<Condition>, t: Seq<char>) -> int {
    choose|i: int| is_first_of_type(s, t, i)
}

/// `new` as it replaces `existing`: it keeps the transition time of
/// `existing` when the status is the same.
pub open spec fn merged(existing: Condition, new: Condition) -> Condition {
    if existing.status@ == new.status@ {
        Condition { last_transition_time: existing.last_transition_time, ..new }
    } else {
        new
    }
}

/// The conditions after recording `new`: the first condition of the same
/// type is replaced in place, or `new` is appended when there is none.
pub open spec fn set_condition_spec(s: Seq<Condition>, new: Condition) -> Seq<Condition> {
    if has_type(s, new.type_@) {
        let i = first_of_type(s, new.type_@);
        s.update(i, merged(s[i], new))
    } else {
        s.push(new)
    }
}

/// There is a first position for every type that occurs, and it is unique.
pub proof fn lemma_first_of_type(s: Seq<Condition>, t: Seq<char>)
    requires
        has_type(s, t),
    ensures
        is_first_of_type(s, t, first_of_type(s, t)),
        forall|i: int| is_first_of_type(s, t, i) ==> i == first_of_type(s, t),
    decreases s.len(),
{
    if s[0].type_@ == t {
        assert(is_first_of_type(s, t, 0));
    } else {
        let r = s.drop_first();
        let w = choose|i: int| 0 <= i < s.len() && #[trigger] s[i].type_@ == t;
        assert(r[w - 1].type_@ == t);
        lemma_first_of_type(r, t);
        let k = first_of_type(r, t);
        assert forall|j: int| 0 <= j < k + 1 implies #[trigger] s[j].type_@ != t by {
            if j > 0 {
                assert(s[j] == r[j - 1]);
            }
        }
        assert(is_first_of_type(s, t, k + 1));
    }
    assert forall|i: int| is_first_of_type(s, t, i) implies i == first_of_type(s, t) by {
        let c = first_of_type(s, t);
        if i < c {
            assert(s[i].type_@ != t);
        } else if c < i {
            assert(s[c].type_@ != t);
        }
    }
}

/// Records `new` in `conditions`. A condition of the same type is updated
/// in place, keeping its transition time when the status did not change;
/// otherwise `new` is appended.
pub fn set_condition(conditions: &mut Vec<Condition>, new: Condition)
    ensures
        final(conditions)@ == set_condition_spec(old(conditions)@, new),
{
    let ghost s = conditions@;
    let n = conditions.len();
    let mut i: usize = 0;
    while i < n && conditions[i].type_ != new.type_
        invariant
            n == conditions@.len(),
            s == conditions@,
            i <= n,
            forall|j: int| 0 <= j < i ==> #[trigger] s[j].type_@ != new.type_@,
        decreases n - i,
    {
        i = i + 1;
    }
    if i < n {
        proof {
            assert(is_first_of_type(s, new.type_@, i as int));
            lemma_first_of_type(s, new.type_@);
        }
        let mut updated = new;
        if conditions[i].status == updated.status {
            updated.last_transition_time = conditions[i].last_transition_time;
        }
        conditions.set(i, updated);
    } else {
        proof {
            assert(!has_type(s, new.type_@));
        }
        conditions.push(new);
    }
}

/// After recording `new`, the first condition of its type is `new`, except
/// that it keeps the previous transition time when the status did not
/// change.
pub proof fn lemma_set_condition_records(s: Seq<Condition>, new: Condition)
    ensures
        ({
            let r = set_condition_spec(s, new);
            let k = first_of_type(r, new.type_@);
            &&& has_type(r, new.type_@)
            &&& is_first_of_type(r, new.type_@, k)
            &&& r[k].type_ == new.type_
            &&& r[k].status == new.status
            &&& r[k].reason == new.reason
            &&& r[k].message == new.message
            &&& r[k].observed_generation == new.observed_generation
            &&& r[k].last_transition_time == if has_type(s, new.type_@) && s[first_of_type(
                s,
                new.type_@,
            )].status@ == new.status@ {
                s[first_of_type(s, new.type_@)].last_transition_time
            } else {
                new.last_transition_time
            }
        }),
{
    let t = new.type_@;
    let r = set_condition_spec(s, new);
    if has_type(s, t) {
        lemma_first_of_type(s, t);
        let i = first_of_type(s, t);
        assert(is_first_of_type(r, t, i));
        lemma_first_of_type(r, t);
    } else {
        assert(r[s.len() as int] == new);
        assert(is_first_of_type(r, t, s.len() as int));
        lemma_first_of_type(r, t);
    }
}

/// Recording a condition changes no other position, and adds one
/// position exactly when no condition of its type was there.
pub proof fn lemma_set_condition_frame(s: Seq<Condition>, new: Condition)
    ensures
        ({
            let r = set_condition_spec(s, new);
            &&& r.len() == if has_type(s, new.type_@) {
                s.len()
            } else {
                s.len() + 1
            }
            &&& forall|j: int|
                0 <= j < s.len() && !is_first_of_type(s, new.type_@, j) ==> #[trigger] r[j]
                    == s[j]
        }),
{
    if has_type(s, new.type_@) {
        lemma_first_of_type(s, new.type_@);
    }
}

/// Recording the same condition twice is the same as recording it once.
pub proof fn lemma_set_condition_idempotent(s: Seq<Condition>, new: Condition)
    ensures
        set_condition_spec(set_condition_spec(s, new), new) == set_condition_spec(s, new),
{
    let t = new.type_@;
    let r1 = set_condition_spec(s, new);
    if has_type(s, t) {
        lemma_first_of_type(s, t);
        let i = first_of_type(s, t);
        assert(is_first_of_type(r1, t, i));
        lemma_first_of_type(r1, t);
        assert(merged(r1[i], new) == r1[i]);
        assert(r1.update(i, r1[i]) =~= r1);
    } else {
        assert(r1[s.len() as int] == new);
        assert(is_first_of_type(r1, t, s.len() as int));
        lemma_first_of_type(r1, t);
        assert(merged(r1[s.len() as int], new) == new);
        assert(r1.update(s.len() as int, new) =~= r1);
    }
}

/// No two conditions have the same type.
pub open spec fn types_distinct(s: Seq<Condition>) -> bool {
    forall|i: int, j: int| 0 <= i < s.len() && 0 <= j < s.len() && i != j ==> s[i].type_@ != s[j].type_@
}

/// Recording a condition keeps the types of the conditions distinct.
pub proof fn lemma_set_condition_keeps_types_distinct(s: Seq<Condition>, new: Condition)
    requires
        types_distinct(s),
    ensures
        types_distinct(set_condition_spec(s, new)),
{
    let t = new.type_@;
    let r = set_condition_spec(s, new);
    if has_type(s, t) {
        lemma_first_of_type(s, t);
        let c = first_of_type(s, t);
        assert forall|i: int, j: int|
            0 <= i < r.len() && 0 <= j < r.len() && i != j implies r[i].type_@ != r[j].type_@ by {
            if i != c && j != c {
                assert(r[i] == s[i] && r[j] == s[j]);
            } else if i == c {
                assert(r[j] == s[j]);
            } else {
                assert(r[i] == s[i]);
            }
        }
    } else {
        assert forall|i: int, j: int|
            0 <= i < r.len() && 0 <= j < r.len() && i != j implies r[i].type_@ != r[j].type_@ by {
            if i < s.len() && j < s.len() {
                assert(r[i] == s[i] && r[j] == s[j]);
            } else if i < s.len() {
                assert(r[i] == s[i]);
            } else {
                assert(r[j] == s[j]);
            }
        }
    }
}

} // verus!
