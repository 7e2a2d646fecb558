//! The event (payload) model: a tagged value built once per run from an
//! event-type code and a seed, copied into every send, and carrying a pure
//! "is this the exit sentinel" predicate.

use vstd::prelude::*;
use vstd::string::StringExecFns;

verus! {

/// The mathematical shape of an event. The fractional variant is held by its
/// numerator: a `Frac(n)` event stands for the value `n / 100`.
pub enum EventModel {
    Int(int),
    Str(Seq<char>),
    StaticStr(Seq<char>),
    Frac(int),
}

/// A sequence of `n` copies of the character `'A'`: the text every string
/// event is built from.
pub open spec fn repeated_a(n: nat) -> Seq<char> {
    Seq::new(n, |i: int| 'A')
}

/// The event that `Event::new` builds from an event-type code and a seed.
pub open spec fn event_model(etype: int, seed: int) -> EventModel {
    if etype == 0 {
        EventModel::Int(seed)
    } else if etype == 1 {
        EventModel::Str(repeated_a(seed as nat))
    } else if etype == 2 {
        EventModel::StaticStr(repeated_a(seed as nat))
    } else if etype == 3 {
        EventModel::Str(repeated_a(seed as nat))
    } else {
        EventModel::Frac(seed)
    }
}

/// The exit-sentinel predicate: an integer event equal to -1, a text event
/// spelling "exit", or a fractional event whose value is -1 or below it
/// (a numerator of -100 or less).
pub open spec fn is_exit_model(e: EventModel) -> bool {
    match e {
        EventModel::Int(v) => v == -1,
        EventModel::Str(s) => s == "exit"@,
        EventModel::StaticStr(s) => s == "exit"@,
        EventModel::Frac(n) => n <= -100,
    }
}

/// One benchmark message. `StaticStr` is the process-lifetime-storage
/// variant: its text is allocated once and shared, so a clone copies a
/// reference, not the characters.
pub enum Event {
    Int(i64),
    Str(String),
    StaticStr(&'static str),
    /// A fractional value held by its numerator over 100.
    Frac(i64),
}

impl View for Event {
    type V = EventModel;

    open spec fn view(&self) -> EventModel {
        match self {
            Event::Int(v) => EventModel::Int(*v as int),
            Event::Str(s) => EventModel::Str(s@),
            Event::StaticStr(s) => EventModel::StaticStr(s@),
            Event::Frac(n) => EventModel::Frac(*n as int),
        }
    }
}

/// Builds the string "AAA…A" of the given length.
fn repeat_a(n: usize) -> (r: String)
    ensures
        r@ == repeated_a(n as nat),
{
    proof {
        reveal_strlit("A");
    }
    let mut s = String::new();
    let mut i: usize = 0;
    while i < n
        invariant
            i <= n,
            s@ =~= repeated_a(i as nat),
        decreases n - i,
    {
        s.append("A");
        i = i + 1;
        proof {
            reveal_strlit("A");
            assert(s@ =~= repeated_a(i as nat));
        }
    }
    s
}

/// Relies on `String::leak`: the returned slice holds exactly the string's
/// characters, in storage that lives for the rest of the process.
#[verifier::external_body]
fn leak_string(s: String) -> (r: &'static str)
    ensures
        r@ == s@,
{
    s.leak()
}

/// Whether two string slices hold the same characters.
fn str_eq(a: &str, b: &str) -> (r: bool)
    ensures
        r == (a@ == b@),
{
    let x: String = a.to_owned();
    let y: String = b.to_owned();
    x == y
}

/// Whether a string slice spells exactly "exit".
fn str_is_exit(s: &str) -> (r: bool)
    ensures
        r == (s@ == "exit"@),
{
    str_eq(s, "exit")
}

impl Event {
    /// Builds the one event of a run from its event-type code and seed.
    /// The code must be one of the recognized ones, and a string event's
    /// seed is its length, so it cannot be negative.
    pub fn new(etype: i64, seed: i64) -> (r: Self)
        requires
            0 <= etype <= 4,
            1 <= etype <= 3 ==> 0 <= seed <= usize::MAX,
        ensures
            r@ == event_model(etype as int, seed as int),
    {
        if etype == 0 {
            Event::Int(seed)
        } else if etype == 1 {
            Event::Str(repeat_a(seed as usize))
        } else if etype == 2 {
            Event::StaticStr(leak_string(repeat_a(seed as usize)))
        } else if etype == 3 {
            Event::Str(repeat_a(seed as usize))
        } else {
            Event::Frac(seed)
        }
    }

    /// The exit-sentinel predicate: pure, side-effect free, and never
    /// actually triggered by the dispatcher in this harness.
    pub fn is_exit(&self) -> (r: bool)
        ensures
            r == is_exit_model(self@),
    {
        match self {
            Event::Int(v) => *v == -1,
            Event::Str(s) => str_is_exit(s.as_str()),
            Event::StaticStr(s) => str_is_exit(s),
            Event::Frac(n) => *n <= -100,
        }
    }
}

impl Clone for Event {
    /// A clone carries the same value; for `StaticStr` it copies only the
    /// reference to the shared text.
    fn clone(&self) -> (r: Self)
        ensures
            r == *self,
    {
        match self {
            Event::Int(v) => Event::Int(*v),
            Event::Str(s) => Event::Str(s.clone()),
            Event::StaticStr(s) => Event::StaticStr(*s),
            Event::Frac(n) => Event::Frac(*n),
        }
    }
}

impl PartialEq for Event {
    fn eq(&self, other: &Self) -> (r: bool) {
        match (self, other) {
            (Event::Int(a), Event::Int(b)) => *a == *b,
            (Event::Str(a), Event::Str(b)) => *a == *b,
            (Event::StaticStr(a), Event::StaticStr(b)) => str_eq(*a, *b),
            (Event::Frac(a), Event::Frac(b)) => *a == *b,
            _ => false,
        }
    }
}

impl vstd::std_specs::cmp::PartialEqSpecImpl for Event {
    open spec fn obeys_eq_spec() -> bool {
        true
    }

    /// Two events are equal exactly when their values are: same variant,
    /// same held value.
    open spec fn eq_spec(&self, other: &Event) -> bool {
        self@ == other@
    }
}

/// Law: event construction is deterministic — the (etype, seed) pair fixes
/// the built event's value entirely, so two events built from the same pair
/// are equal-valued.
pub proof fn lemma_new_deterministic(e1: Event, e2: Event, etype: int, seed: int)
    requires
        e1@ == event_model(etype, seed),
        e2@ == event_model(etype, seed),
    ensures
        e1@ == e2@,
{
}

} // verus!
