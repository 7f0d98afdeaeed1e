//! A generic value: what an outline, or a set of options, is to a caller
//! that does not know the typed model.

use vstd::prelude::*;

verus! {

/// A generic value.
#[derive(Debug, PartialEq)]
pub enum Value {
    Null,
    Bool(bool),
    Number(u64),
    String(String),
    Array(Vec<Value>),
    /// Keys with their values, in order.
    Object(Vec<(String, Value)>),
}

/// What a [`Value`] holds.
pub enum ValueView {
    Null,
    Bool(bool),
    Number(u64),
    String(Seq<char>),
    Array(Seq<ValueView>),
    Object(Seq<(Seq<char>, ValueView)>),
}

/// The view of a value: the same value over sequences.
pub open spec fn value_view(value: Value) -> ValueView
    decreases value,
{
    match value {
        Value::Null => ValueView::Null,
        Value::Bool(b) => ValueView::Bool(b),
        Value::Number(n) => ValueView::Number(n),
        Value::String(s) => ValueView::String(s@),
        Value::Array(items) => ValueView::Array(
            Seq::new(
                items@.len(),
                |i: int|
                    if 0 <= i < items@.len() {
                        value_view(items@[i])
                    } else {
                        arbitrary()
                    },
            ),
        ),
        Value::Object(entries) => ValueView::Object(
            Seq::new(
                entries@.len(),
                |i: int|
                    if 0 <= i < entries@.len() {
                        (entries@[i].0@, value_view(entries@[i].1))
                    } else {
                        arbitrary()
                    },
            ),
        ),
    }
}

impl View for Value {
    type V = ValueView;

    open spec fn view(&self) -> ValueView {
        value_view(*self)
    }
}

/// The views of a list of values.
pub open spec fn value_views(items: Seq<Value>) -> Seq<ValueView> {
    Seq::new(items.len(), |i: int| items[i]@)
}

/// The views of a list of keys with their values.
pub open spec fn entry_views(entries: Seq<(String, Value)>) -> Seq<(Seq<char>, ValueView)> {
    Seq::new(entries.len(), |i: int| (entries[i].0@, entries[i].1@))
}

impl Value {
    /// The view of an array holds the views of its items, that of an object
    /// the views of its entries.
    pub proof fn lemma_view(&self)
        ensures
            self matches Value::Array(items) ==> self@ == ValueView::Array(value_views(items@)),
            self matches Value::Object(entries) ==> self@ == ValueView::Object(
                entry_views(entries@),
            ),
    {
        match self {
            Value::Array(items) => {
                assert(self@->Array_0 =~= value_views(items@));
            },
            Value::Object(entries) => {
                assert(self@->Object_0 =~= entry_views(entries@));
            },
            _ => {},
        }
    }

    /// A copy of the value.
    pub fn clone(&self) -> (copy: Value)
        ensures
            copy@ == self@,
        decreases self,
    {
        match self {
            Value::Null => Value::Null,
            Value::Bool(b) => Value::Bool(*b),
            Value::Number(n) => Value::Number(*n),
            Value::String(s) => Value::String(s.clone()),
            Value::Array(items) => {
                let mut copies: Vec<Value> = Vec::new();
                let mut i: usize = 0;
                while i < items.len()
                    invariant
                        i <= items.len(),
                        *self == Value::Array(*items),
                        copies@.len() == i,
                        forall|j: int| 0 <= j < i ==> (#[trigger] copies@[j])@ == items@[j]@,
                    decreases items.len() - i,
                {
                    proof {
                        assert(self->Array_0 == *items);
                    }
                    copies.push(items[i].clone());
                    i = i + 1;
                }
                let copy = Value::Array(copies);
                proof {
                    self.lemma_view();
                    copy.lemma_view();
                    assert(value_views(copies@) =~= value_views(items@));
                }
                copy
            },
            Value::Object(entries) => {
                let mut copies: Vec<(String, Value)> = Vec::new();
                let mut i: usize = 0;
                while i < entries.len()
                    invariant
                        i <= entries.len(),
                        *self == Value::Object(*entries),
                        copies@.len() == i,
                        forall|j: int|
                            0 <= j < i ==> (#[trigger] copies@[j]).0@ == entries@[j].0@
                                && copies@[j].1@ == entries@[j].1@,
                    decreases entries.len() - i,
                {
                    proof {
                        assert(self->Object_0 == *entries);
                    }
                    let key = entries[i].0.clone();
                    let value = entries[i].1.clone();
                    copies.push((key, value));
                    i = i + 1;
                }
                let copy = Value::Object(copies);
                proof {
                    self.lemma_view();
                    copy.lemma_view();
                    assert(entry_views(copies@) =~= entry_views(entries@));
                }
                copy
            },
        }
    }
}


/// Whether `entries` holds an entry under `key`.
pub open spec fn has_key(entries: Seq<(Seq<char>, ValueView)>, key: Seq<char>) -> bool {
    exists|i: int| 0 <= i < entries.len() && (#[trigger] entries[i]).0 == key
}

/// The entries of `left` under keys that `right` does not hold, in order.
pub open spec fn kept(
    left: Seq<(Seq<char>, ValueView)>,
    right: Seq<(Seq<char>, ValueView)>,
) -> Seq<(Seq<char>, ValueView)>
    decreases left.len(),
{
    if left.len() == 0 {
        Seq::empty()
    } else if has_key(right, left.last().0) {
        kept(left.drop_last(), right)
    } else {
        kept(left.drop_last(), right).push(left.last())
    }
}

/// Whether the entry at `i` settles its key: no later entry has the key, and
/// its value is no null.
pub open spec fn settles(entries: Seq<(Seq<char>, ValueView)>, i: int) -> bool {
    !has_key(entries.skip(i + 1), entries[i].0) && !(entries[i].1 is Null)
}

/// The entries among the first `n` of `entries` that settle their key, in
/// order.
pub open spec fn settled(entries: Seq<(Seq<char>, ValueView)>, n: int) -> Seq<
    (Seq<char>, ValueView),
>
    decreases n,
{
    if n <= 0 {
        Seq::empty()
    } else if settles(entries, n - 1) {
        settled(entries, n - 1).push(entries[n - 1])
    } else {
        settled(entries, n - 1)
    }
}

/// Two sets of options as one, the right one first: what `left` holds under
/// keys that `right` does not hold, then for each key of `right` its last
/// entry, unless that is a null, which removes the key.
pub open spec fn merged(
    left: Seq<(Seq<char>, ValueView)>,
    right: Seq<(Seq<char>, ValueView)>,
) -> Seq<(Seq<char>, ValueView)> {
    kept(left, right) + settled(right, right.len() as int)
}

/// Tests whether an entry of `entries` from index `from` on has the key.
pub fn holds_key(entries: &Vec<(String, Value)>, from: usize, key: &String) -> (held: bool)
    requires
        from <= entries@.len(),
    ensures
        held == has_key(entry_views(entries@).skip(from as int), key@),
{
    let ghost rest = entry_views(entries@).skip(from as int);
    let mut i: usize = from;
    while i < entries.len()
        invariant
            from <= i <= entries.len(),
            rest == entry_views(entries@).skip(from as int),
            forall|j: int| 0 <= j < i - from ==> (#[trigger] rest[j]).0 != key@,
        decreases entries.len() - i,
    {
        if entries[i].0 == *key {
            assert(rest[i - from].0 == key@);
            return true;
        }
        i = i + 1;
    }
    false
}

impl Value {
    /// Whether the value is a null.
    pub fn is_null(&self) -> (null: bool)
        ensures
            null == (self@ is Null),
    {
        match self {
            Value::Null => true,
            _ => false,
        }
    }
}

/// Merges two sets of options, the right one first: see [`merged`].
pub fn merge_entries(left: &Vec<(String, Value)>, right: &Vec<(String, Value)>) -> (out: Vec<
    (String, Value),
>)
    ensures
        entry_views(out@) == merged(entry_views(left@), entry_views(right@)),
{
    let ghost l = entry_views(left@);
    let ghost r = entry_views(right@);
    let mut out: Vec<(String, Value)> = Vec::new();
    let mut i: usize = 0;
    assert(entry_views(out@) =~= kept(l.take(0), r));
    while i < left.len()
        invariant
            i <= left.len(),
            l == entry_views(left@),
            r == entry_views(right@),
            entry_views(out@) == kept(l.take(i as int), r),
        decreases left.len() - i,
    {
        proof {
            assert(l.take(i + 1).drop_last() =~= l.take(i as int));
            assert(l.take(i + 1).last() == l[i as int]);
            assert(r.skip(0) =~= r);
        }
        if !holds_key(right, 0, &left[i].0) {
            let key = left[i].0.clone();
            let value = left[i].1.clone();
            assert(entry_views(out@.push((key, value))) =~= entry_views(out@).push(l[i as int]));
            out.push((key, value));
        }
        i = i + 1;
    }
    assert(l.take(i as int) =~= l);
    let ghost head = entry_views(out@);
    let mut k: usize = 0;
    assert(entry_views(out@) =~= head + settled(r, 0));
    while k < right.len()
        invariant
            k <= right.len(),
            r == entry_views(right@),
            entry_views(out@) == head + settled(r, k as int),
        decreases right.len() - k,
    {
        if !holds_key(right, k + 1, &right[k].0) && !right[k].1.is_null() {
            let key = right[k].0.clone();
            let value = right[k].1.clone();
            assert(entry_views(out@.push((key, value))) =~= entry_views(out@).push(r[k as int]));
            assert((head + settled(r, k as int)).push(r[k as int]) =~= head + settled(
                r,
                k as int,
            ).push(r[k as int]));
            out.push((key, value));
        }
        k = k + 1;
    }
    out
}

} // verus!
