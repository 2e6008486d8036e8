//! The ordered set of request parameters.
//!
//! A parameter set is a sequence of `(field, value)` pairs in which no field
//! occurs twice. Adding a field that is already present overwrites its value
//! in place; adding a new one appends it. The order of the sequence is the
//! order in which the parameters are shown and sent.

use vstd::prelude::*;

verus! {

/// A parameter as plain text: the field's name, then its value.
pub type Field = (Seq<char>, Seq<char>);

/// The plain-text reading of a list of owned pairs.
pub open spec fn fields_of(entries: Seq<(String, String)>) -> Seq<Field> {
    entries.map_values(|e: (String, String)| (e.0@, e.1@))
}

/// No field name occurs at two positions.
pub open spec fn distinct_fields(s: Seq<Field>) -> bool {
    forall|i: int, j: int| 0 <= i < j < s.len() ==> (#[trigger] s[i]).0 != (#[trigger] s[j]).0
}

/// The first position at which `name` occurs in `s`, if there is one.
pub open spec fn position(s: Seq<Field>, name: Seq<char>) -> Option<int>
    decreases s.len(),
{
    if s.len() == 0 {
        None
    } else if s.last().0 == name && position(s.drop_last(), name) is None {
        Some(s.len() - 1)
    } else {
        position(s.drop_last(), name)
    }
}

/// The value stored under `name`, if the field is present.
pub open spec fn value_of(s: Seq<Field>, name: Seq<char>) -> Option<Seq<char>> {
    match position(s, name) {
        Some(i) => Some(s[i].1),
        None => None,
    }
}

/// `s` after `name` has been given the value `value`: overwritten in place
/// where the field is present, appended where it is not.
pub open spec fn with_field(s: Seq<Field>, name: Seq<char>, value: Seq<char>) -> Seq<Field> {
    match position(s, name) {
        Some(i) => s.update(i, (name, value)),
        None => s.push((name, value)),
    }
}

/// `s` without the field `name`; `s` itself where the field is absent.
pub open spec fn without_field(s: Seq<Field>, name: Seq<char>) -> Seq<Field> {
    match position(s, name) {
        Some(i) => s.remove(i),
        None => s,
    }
}

/// `position` finds the first entry named `name`, and finds none exactly
/// when no entry has that name.
pub proof fn lemma_position(s: Seq<Field>, name: Seq<char>)
    ensures
        match position(s, name) {
            Some(i) => 0 <= i < s.len() && s[i].0 == name && forall|j: int|
                0 <= j < i ==> (#[trigger] s[j]).0 != name,
            None => forall|j: int| 0 <= j < s.len() ==> (#[trigger] s[j]).0 != name,
        },
    decreases s.len(),
{
    if s.len() > 0 {
        let front = s.drop_last();
        lemma_position(front, name);
        assert forall|j: int| 0 <= j < front.len() implies front[j] == #[trigger] s[j] by {}
        match position(front, name) {
            Some(i) => {
                assert(front[i] == s[i]);
                assert forall|j: int| 0 <= j < i implies (#[trigger] s[j]).0 != name by {
                    assert(front[j].0 != name);
                }
            },
            None => {
                assert forall|j: int| 0 <= j < front.len() implies (#[trigger] s[j]).0 != name by {
                    assert(front[j].0 != name);
                }
            },
        }
    }
}

/// An entry named `name` with no earlier entry of that name is where
/// `position` points.
pub proof fn lemma_position_is(s: Seq<Field>, name: Seq<char>, i: int)
    requires
        0 <= i < s.len(),
        s[i].0 == name,
        forall|j: int| 0 <= j < i ==> (#[trigger] s[j]).0 != name,
    ensures
        position(s, name) == Some(i),
{
    lemma_position(s, name);
}

/// No entry named `name` means no position.
pub proof fn lemma_position_none(s: Seq<Field>, name: Seq<char>)
    requires
        forall|j: int| 0 <= j < s.len() ==> (#[trigger] s[j]).0 != name,
    ensures
        position(s, name) is None,
{
    lemma_position(s, name);
}

/// Giving a field a value keeps the field names distinct.
pub proof fn lemma_with_field_distinct(s: Seq<Field>, name: Seq<char>, value: Seq<char>)
    requires
        distinct_fields(s),
    ensures
        distinct_fields(with_field(s, name, value)),
{
    lemma_position(s, name);
    let t = with_field(s, name, value);
    assert forall|i: int, j: int| 0 <= i < j < t.len() implies (#[trigger] t[i]).0 != (
    #[trigger] t[j]).0 by {
        match position(s, name) {
            Some(k) => {
                assert(t[i].0 == s[i].0);
                assert(t[j].0 == s[j].0);
            },
            None => {
                if j < s.len() {
                    assert(t[i] == s[i] && t[j] == s[j]);
                } else {
                    assert(t[i] == s[i]);
                }
            },
        }
    }
}

/// Taking a field out keeps the field names distinct.
pub proof fn lemma_without_field_distinct(s: Seq<Field>, name: Seq<char>)
    requires
        distinct_fields(s),
    ensures
        distinct_fields(without_field(s, name)),
{
    lemma_position(s, name);
    let t = without_field(s, name);
    assert forall|i: int, j: int| 0 <= i < j < t.len() implies (#[trigger] t[i]).0 != (
    #[trigger] t[j]).0 by {
        match position(s, name) {
            Some(k) => {
                let a = if i < k { i } else { i + 1 };
                let b = if j < k { j } else { j + 1 };
                assert(t[i] == s[a] && t[j] == s[b]);
            },
            None => {},
        }
    }
}

/// Where a field stands after another has been given a value: a new field
/// stands at the end, and every other field stands where it stood.
pub proof fn lemma_position_after_with_field(
    s: Seq<Field>,
    name: Seq<char>,
    value: Seq<char>,
    other: Seq<char>,
)
    ensures
        position(with_field(s, name, value), other) == if other == name && position(s, name)
            is None {
            Some(s.len() as int)
        } else {
            position(s, other)
        },
{
    lemma_position(s, name);
    lemma_position(s, other);
    let t = with_field(s, name, value);
    assert forall|j: int| 0 <= j < s.len() implies (#[trigger] t[j]).0 == s[j].0 by {}
    match position(s, other) {
        Some(i) => {
            assert forall|j: int| 0 <= j < i implies (#[trigger] t[j]).0 != other by {
                assert(s[j].0 != other);
            }
            lemma_position_is(t, other, i);
        },
        None => {
            if other == name {
                assert forall|j: int| 0 <= j < s.len() implies (#[trigger] t[j]).0 != other by {
                    assert(s[j].0 != other);
                }
                lemma_position_is(t, other, s.len() as int);
            } else {
                assert forall|j: int| 0 <= j < t.len() implies (#[trigger] t[j]).0 != other by {
                    if j < s.len() {
                        assert(s[j].0 != other);
                    }
                }
                lemma_position_none(t, other);
            }
        },
    }
}

/// After `add`, the field that was set holds the new value, and every other
/// field holds what it held.
pub proof fn law_value_after_add(
    s: Seq<Field>,
    name: Seq<char>,
    value: Seq<char>,
    other: Seq<char>,
)
    ensures
        value_of(with_field(s, name, value), other) == if other == name {
            Some(value)
        } else {
            value_of(s, other)
        },
{
    lemma_position(s, name);
    lemma_position(s, other);
    lemma_position_after_with_field(s, name, value, other);
}

/// After `remove` on a set with distinct names, the field that was taken
/// out is absent, and every other field holds what it held.
pub proof fn law_value_after_remove(s: Seq<Field>, name: Seq<char>, other: Seq<char>)
    requires
        distinct_fields(s),
    ensures
        value_of(without_field(s, name), other) == if other == name {
            None
        } else {
            value_of(s, other)
        },
{
    lemma_position(s, name);
    lemma_position(s, other);
    let t = without_field(s, name);
    match position(s, name) {
        Some(k) => {
            assert forall|j: int| 0 <= j < t.len() implies #[trigger] t[j] == s[if j < k {
                j
            } else {
                j + 1
            }] by {}
            if other == name {
                assert forall|j: int| 0 <= j < t.len() implies (#[trigger] t[j]).0 != other by {
                    let a = if j < k { j } else { j + 1 };
                    assert(t[j] == s[a]);
                    if a < k {
                        assert(s[a].0 != s[k].0);
                    } else {
                        assert(s[k].0 != s[a].0);
                    }
                }
                lemma_position_none(t, other);
            } else {
                match position(s, other) {
                    Some(i) => {
                        let at = if i < k { i } else { i - 1 };
                        assert(t[at] == s[i]);
                        assert forall|j: int| 0 <= j < at implies (#[trigger] t[j]).0 != other by {
                            let a = if j < k { j } else { j + 1 };
                            assert(t[j] == s[a]);
                            assert(s[a].0 != other);
                        }
                        lemma_position_is(t, other, at);
                    },
                    None => {
                        assert forall|j: int| 0 <= j < t.len() implies (#[trigger] t[j]).0
                            != other by {
                            let a = if j < k { j } else { j + 1 };
                            assert(t[j] == s[a]);
                            assert(s[a].0 != other);
                        }
                        lemma_position_none(t, other);
                    },
                }
            }
        },
        None => {},
    }
}

/// The set that a run of `add` calls leaves, starting from `s`: `calls`
/// holds the field and the value of each call, in the order of the calls.
pub open spec fn after_adds(s: Seq<Field>, calls: Seq<Field>) -> Seq<Field>
    decreases calls.len(),
{
    if calls.len() == 0 {
        s
    } else {
        with_field(after_adds(s, calls.drop_last()), calls.last().0, calls.last().1)
    }
}

/// After any run of `add` calls on the empty set, no field occurs twice.
pub proof fn law_adds_keep_fields_distinct(calls: Seq<Field>)
    ensures
        distinct_fields(after_adds(Seq::empty(), calls)),
    decreases calls.len(),
{
    if calls.len() > 0 {
        law_adds_keep_fields_distinct(calls.drop_last());
        lemma_with_field_distinct(
            after_adds(Seq::empty(), calls.drop_last()),
            calls.last().0,
            calls.last().1,
        );
    }
}

/// After any run of `add` calls on the empty set, a field is present exactly
/// when some call named it.
pub proof fn law_adds_keep_every_field(calls: Seq<Field>, name: Seq<char>)
    ensures
        position(after_adds(Seq::empty(), calls), name) is Some <==> position(calls, name)
            is Some,
    decreases calls.len(),
{
    if calls.len() > 0 {
        let front = calls.drop_last();
        law_adds_keep_every_field(front, name);
        lemma_position_after_with_field(
            after_adds(Seq::empty(), front),
            calls.last().0,
            calls.last().1,
            name,
        );
        law_adds_keep_every_field(front, calls.last().0);
    }
}

/// After any run of `add` calls on the empty set, a field holds the value of
/// the last call that named it: here the call at `i`, which no later call
/// repeats.
pub proof fn law_adds_keep_last_value(calls: Seq<Field>, i: int)
    requires
        0 <= i < calls.len(),
        forall|j: int| i < j < calls.len() ==> (#[trigger] calls[j]).0 != calls[i].0,
    ensures
        value_of(after_adds(Seq::empty(), calls), calls[i].0) == Some(calls[i].1),
    decreases calls.len(),
{
    let front = calls.drop_last();
    let last = calls.last();
    law_value_after_add(after_adds(Seq::empty(), front), last.0, last.1, calls[i].0);
    if i < calls.len() - 1 {
        assert(calls[calls.len() - 1].0 != calls[i].0);
        assert(front[i] == calls[i]);
        assert forall|j: int| i < j < front.len() implies (#[trigger] front[j]).0 != front[i].0 by {
            assert(calls[j].0 != calls[i].0);
        }
        law_adds_keep_last_value(front, i);
    }
}

/// After any run of `add` calls on the empty set, the fields stand in the
/// order of their first calls: of two fields that were named, one stands
/// before the other exactly when its first call came before the other's.
pub proof fn law_adds_keep_first_position(calls: Seq<Field>, f: Seq<char>, g: Seq<char>)
    requires
        position(calls, f) is Some,
        position(calls, g) is Some,
    ensures
        position(after_adds(Seq::empty(), calls), f) is Some,
        position(after_adds(Seq::empty(), calls), g) is Some,
        position(after_adds(Seq::empty(), calls), f).unwrap() < position(
            after_adds(Seq::empty(), calls),
            g,
        ).unwrap() <==> position(calls, f).unwrap() < position(calls, g).unwrap(),
    decreases calls.len(),
{
    let front = calls.drop_last();
    let last = calls.last();
    let before = after_adds(Seq::empty(), front);
    law_adds_keep_every_field(calls, f);
    law_adds_keep_every_field(calls, g);
    law_adds_keep_every_field(front, f);
    law_adds_keep_every_field(front, g);
    law_adds_keep_every_field(front, last.0);
    lemma_position_after_with_field(before, last.0, last.1, f);
    lemma_position_after_with_field(before, last.0, last.1, g);
    lemma_position(front, f);
    lemma_position(front, g);
    lemma_position(before, f);
    lemma_position(before, g);
    if position(front, f) is Some && position(front, g) is Some {
        law_adds_keep_first_position(front, f, g);
    }
}

/// An ordered set of parameters. No field name occurs twice.
#[derive(Debug)]
pub struct ParameterSet {
    entries: Vec<(String, String)>,
}

impl View for ParameterSet {
    type V = Seq<Field>;

    closed spec fn view(&self) -> Seq<Field> {
        fields_of(self.entries@)
    }
}

impl ParameterSet {
    #[verifier::type_invariant]
    spec fn well_formed(self) -> bool {
        distinct_fields(fields_of(self.entries@))
    }

    /// The empty parameter set.
    pub fn new() -> (r: Self)
        ensures
            r@ == Seq::<Field>::empty(),
    {
        let r = ParameterSet { entries: Vec::new() };
        assert(fields_of(r.entries@) =~= Seq::<Field>::empty());
        r
    }

    /// The number of parameters.
    pub fn len(&self) -> (n: usize)
        ensures
            n == self@.len(),
            distinct_fields(self@),
    {
        proof {
            use_type_invariant(self);
        }
        self.entries.len()
    }

    /// Whether the set holds no parameter.
    pub fn is_empty(&self) -> (b: bool)
        ensures
            b == (self@.len() == 0),
    {
        self.entries.len() == 0
    }

    /// Gives `field` the value `value`. A field that is already present keeps
    /// its position and takes the new value; a new field goes to the end.
    pub fn add(&mut self, field: String, value: String)
        ensures
            final(self)@ == with_field(old(self)@, field@, value@),
            distinct_fields(final(self)@),
    {
        proof {
            use_type_invariant(&*self);
            lemma_with_field_distinct(self@, field@, value@);
        }
        let found = self.find(&field);
        let mut entries: Vec<(String, String)> = Vec::new();
        assert(fields_of(entries@) =~= Seq::<Field>::empty());
        std::mem::swap(&mut self.entries, &mut entries);
        match found {
            Some(i) => {
                entries.set(i, (field, value));
            },
            None => {
                entries.push((field, value));
            },
        }
        assert(fields_of(entries@) =~= with_field(old(self)@, field@, value@));
        self.entries = entries;
    }

    /// Takes `field` out of the set. Nothing changes where it is absent.
    pub fn remove(&mut self, field: &String)
        ensures
            final(self)@ == without_field(old(self)@, field@),
            distinct_fields(final(self)@),
    {
        proof {
            use_type_invariant(&*self);
            lemma_without_field_distinct(self@, field@);
        }
        let found = self.find(field);
        let mut entries: Vec<(String, String)> = Vec::new();
        assert(fields_of(entries@) =~= Seq::<Field>::empty());
        std::mem::swap(&mut self.entries, &mut entries);
        match found {
            Some(i) => {
                entries.remove(i);
            },
            None => {},
        }
        assert(fields_of(entries@) =~= without_field(old(self)@, field@));
        self.entries = entries;
    }

    /// The value stored under `field`, or `None` where the field is absent.
    pub fn get(&self, field: &String) -> (r: Option<String>)
        ensures
            match r {
                Some(v) => value_of(self@, field@) == Some(v@),
                None => value_of(self@, field@) is None,
            },
    {
        match self.find(field) {
            Some(i) => Some(self.entries[i].1.clone()),
            None => None,
        }
    }

    /// The parameters in order, each as an owned `(field, value)` pair.
    pub fn iterate(&self) -> (r: Vec<(String, String)>)
        ensures
            fields_of(r@) == self@,
            distinct_fields(self@),
    {
        proof {
            use_type_invariant(self);
        }
        let mut out: Vec<(String, String)> = Vec::new();
        let mut i: usize = 0;
        while i < self.entries.len()
            invariant
                i <= self.entries@.len(),
                fields_of(out@) =~= fields_of(self.entries@).take(i as int),
            decreases self.entries@.len() - i,
        {
            let name = self.entries[i].0.clone();
            let value = self.entries[i].1.clone();
            let ghost before = out@;
            out.push((name, value));
            assert(before.len() == fields_of(before).len() == i);
            assert forall|k: int| 0 <= k < i + 1 implies fields_of(out@)[k] == fields_of(
                self.entries@,
            )[k] by {
                if k < i {
                    assert(out@[k] == before[k]);
                    assert(fields_of(before)[k] == fields_of(self.entries@).take(i as int)[k]);
                }
            }
            i += 1;
        }
        assert(fields_of(self.entries@).take(i as int) =~= fields_of(self.entries@));
        out
    }

    fn find(&self, name: &String) -> (r: Option<usize>)
        ensures
            match r {
                Some(i) => position(self@, name@) == Some(i as int) && i < self.entries@.len(),
                None => position(self@, name@) is None,
            },
    {
        let mut i: usize = 0;
        while i < self.entries.len()
            invariant
                i <= self.entries@.len(),
                forall|j: int| 0 <= j < i ==> (#[trigger] fields_of(self.entries@)[j]).0 != name@,
            decreases self.entries@.len() - i,
        {
            if self.entries[i].0 == *name {
                proof {
                    lemma_position_is(self@, name@, i as int);
                }
                return Some(i);
            }
            i += 1;
        }
        proof {
            lemma_position_none(self@, name@);
        }
        None
    }
}

} // verus!
