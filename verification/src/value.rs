//! JSON values as a tree, and the mathematical model that contracts speak of.

use vstd::prelude::*;
use vstd::utf8::{encode_utf8, encode_utf8_decode_utf8};
use crate::text::{clone_number, from_outside, json_view, to_outside};
use rustc_serialize::json::Json;

verus! {

/// Whether two texts hold the same characters.
pub fn same_text(a: &str, b: &str) -> (r: bool)
    ensures
        r == (a@ == b@),
{
    let x = a.as_bytes();
    let y = b.as_bytes();
    proof {
        encode_utf8_decode_utf8(a@);
        encode_utf8_decode_utf8(b@);
    }
    if x.len() != y.len() {
        return false;
    }
    let mut i: usize = 0;
    while i < x.len()
        invariant
            i <= x.len(),
            x.len() == y.len(),
            forall|j: int| 0 <= j < i ==> x@[j] == y@[j],
            x@ == encode_utf8(a@),
            y@ == encode_utf8(b@),
        decreases x.len() - i,
    {
        if x[i] != y[i] {
            assert(x@[i as int] != y@[i as int]);
            assert(encode_utf8(a@) != encode_utf8(b@));
            return false;
        }
        i += 1;
    }
    assert(x@ =~= y@);
    true
}

/// The mathematical model of a JSON value.
pub enum ValueView {
    I64(i64),
    U64(u64),
    /// A number with a fraction or an exponent, as its decimal text.
    F64(Seq<char>),
    String(Seq<char>),
    Boolean(bool),
    Array(Seq<ValueView>),
    Object(Map<Seq<char>, ValueView>),
    Null,
}

/// A JSON number with a fraction or an exponent. The library carries such a
/// number through without reading it: it keeps the number as it came, and
/// beside it the decimal text that prints it. Two of them are equal where
/// their texts are, so a number that is no number equals itself, and zero
/// differs from minus zero.
#[derive(Debug)]
pub struct Float {
    pub(crate) text: String,
    pub(crate) number: Json,
}

impl Float {
    /// The number is a float, and the text is the one that prints it.
    #[verifier::type_invariant]
    closed spec fn text_of_number(&self) -> bool {
        json_view(self.number) == ValueView::F64(self.text@)
    }
}

impl View for Float {
    type V = Seq<char>;

    closed spec fn view(&self) -> Seq<char> {
        self.text@
    }
}

impl Float {
    /// A copy of the number.
    fn duplicate(&self) -> (r: Float)
        ensures
            r@ == self@,
    {
        proof {
            use_type_invariant(self);
        }
        Float { text: self.text.clone(), number: clone_number(&self.number) }
    }
}

/// A JSON value.
#[derive(Debug)]
pub enum Value {
    I64(i64),
    U64(u64),
    F64(Float),
    String(String),
    Boolean(bool),
    Array(Vec<Value>),
    Object(Object),
    Null,
}

/// A JSON object: members under pairwise distinct keys.
#[derive(Debug)]
pub struct Object {
    pub(crate) entries: Vec<(String, Value)>,
}

impl Object {
    #[verifier::type_invariant]
    closed spec fn keys_distinct(&self) -> bool {
        forall|i: int, j: int|
            0 <= i < j < self.entries.len() ==> self.entries[i].0@ != self.entries[j].0@
    }

    /// The index of the member stored under `key`, if there is one.
    pub closed spec fn position(&self, key: Seq<char>) -> Option<int> {
        if exists|i: int| 0 <= i < self.entries.len() && self.entries[i].0@ == key {
            Some(choose|i: int| 0 <= i < self.entries.len() && self.entries[i].0@ == key)
        } else {
            None
        }
    }

    /// With distinct keys, the model holds exactly the stored members.
    proof fn lemma_members(&self)
        requires
            self.keys_distinct(),
        ensures
            forall|i: int|
                0 <= i < self.entries.len() ==> {
                    &&& self@.contains_key(#[trigger] self.entries[i].0@)
                    &&& self@[self.entries[i].0@] == self.entries[i].1@
                },
            forall|key: Seq<char>| #[trigger]
                self@.contains_key(key) ==> exists|i: int|
                    0 <= i < self.entries.len() && self.entries[i].0@ == key,
    {
        assert forall|i: int| 0 <= i < self.entries.len() implies {
            &&& self@.contains_key(#[trigger] self.entries[i].0@)
            &&& self@[self.entries[i].0@] == self.entries[i].1@
        } by {
            let key = self.entries[i].0@;
            assert(self.position(key) is Some);
            let found = self.position(key)->0;
            assert(found == i) by {
                if found < i {
                    assert(self.entries[found].0@ != self.entries[i].0@);
                } else if i < found {
                    assert(self.entries[i].0@ != self.entries[found].0@);
                }
            }
        }
    }
}

impl Object {
    /// An object without members.
    pub fn new() -> (r: Object)
        ensures
            r@ == Map::<Seq<char>, ValueView>::empty(),
    {
        let r = Object { entries: Vec::new() };
        assert(r@ =~= Map::<Seq<char>, ValueView>::empty());
        r
    }

    /// The number of members.
    pub fn len(&self) -> (n: usize)
        ensures
            n == self@.dom().len(),
            self@.dom().finite(),
    {
        proof {
            use_type_invariant(self);
            self.lemma_domain(self.entries.len() as int);
            assert(self.keys_below(self.entries.len() as int) =~= self@.dom()) by {
                self.lemma_members();
            }
        }
        self.entries.len()
    }

    /// The keys of the first `n` members.
    spec fn keys_below(&self, n: int) -> Set<Seq<char>> {
        Set::new(|key: Seq<char>| exists|i: int| 0 <= i < n && self.entries[i].0@ == key)
    }

    proof fn lemma_domain(&self, n: int)
        requires
            self.keys_distinct(),
            0 <= n <= self.entries.len(),
        ensures
            self.keys_below(n).finite(),
            self.keys_below(n).len() == n,
        decreases n,
    {
        if n == 0 {
            assert(self.keys_below(0) =~= Set::<Seq<char>>::empty());
        } else {
            self.lemma_domain(n - 1);
            let key = self.entries[n - 1].0@;
            assert(!self.keys_below(n - 1).contains(key)) by {
                if self.keys_below(n - 1).contains(key) {
                    let i = choose|i: int| 0 <= i < n - 1 && self.entries[i].0@ == key;
                    assert(self.entries[i].0@ != self.entries[n - 1].0@);
                }
            }
            assert(self.keys_below(n) =~= self.keys_below(n - 1).insert(key));
        }
    }

    /// Moves the members out and leaves the object empty.
    fn take_entries(&mut self) -> (entries: Vec<(String, Value)>)
        ensures
            entries == old(self).entries,
            final(self).entries@.len() == 0,
    {
        let mut taken = Object { entries: Vec::new() };
        core::mem::swap(self, &mut taken);
        taken.entries
    }

    fn find(&self, key: &str) -> (r: Option<usize>)
        ensures
            match r {
                Some(i) => i < self.entries.len() && self.entries[i as int].0@ == key@,
                None => forall|j: int| 0 <= j < self.entries.len() ==> self.entries[j].0@ != key@,
            },
    {
        let mut i: usize = 0;
        while i < self.entries.len()
            invariant
                i <= self.entries.len(),
                forall|j: int| 0 <= j < i ==> self.entries[j].0@ != key@,
            decreases self.entries.len() - i,
        {
            if same_text(self.entries[i].0.as_str(), key) {
                return Some(i);
            }
            i += 1;
        }
        None
    }

    /// Whether a member is stored under `key`.
    pub fn contains_key(&self, key: &str) -> (r: bool)
        ensures
            r == self@.contains_key(key@),
    {
        proof {
            use_type_invariant(self);
            self.lemma_members();
        }
        self.find(key).is_some()
    }

    /// The member stored under `key`.
    pub fn get(&self, key: &str) -> (r: Option<&Value>)
        ensures
            match r {
                Some(value) => self@.contains_key(key@) && value@ == self@[key@],
                None => !self@.contains_key(key@),
            },
    {
        proof {
            use_type_invariant(self);
            self.lemma_members();
        }
        match self.find(key) {
            Some(i) => Some(&self.entries[i].1),
            None => None,
        }
    }

    /// An object whose members are exactly those of a map has that map as
    /// its model.
    proof fn lemma_model_is(&self, m: Map<Seq<char>, ValueView>)
        requires
            self.keys_distinct(),
            forall|i: int|
                0 <= i < self.entries.len() ==> {
                    &&& m.contains_key(#[trigger] self.entries[i].0@)
                    &&& m[self.entries[i].0@] == self.entries[i].1@
                },
            forall|key: Seq<char>| #[trigger]
                m.contains_key(key) ==> exists|i: int|
                    0 <= i < self.entries.len() && self.entries[i].0@ == key,
        ensures
            self@ == m,
    {
        self.lemma_members();
        assert forall|key: Seq<char>| self@.contains_key(key) implies m.contains_key(key)
            && self@[key] == m[key] by {
            let i = choose|i: int| 0 <= i < self.entries.len() && self.entries[i].0@ == key;
            assert(m.contains_key(self.entries[i].0@));
        }
        assert forall|key: Seq<char>| m.contains_key(key) implies self@.contains_key(key) by {
            let i = choose|i: int| 0 <= i < self.entries.len() && self.entries[i].0@ == key;
            assert(self@.contains_key(self.entries[i].0@));
        }
        assert(self@ =~= m);
    }

    /// Stores `value` under `key` and returns the member that it replaces.
    pub fn insert(&mut self, key: String, value: Value) -> (r: Option<Value>)
        ensures
            final(self)@ == old(self)@.insert(key@, value@),
            match r {
                Some(previous) => old(self)@.contains_key(key@) && previous@ == old(self)@[key@],
                None => !old(self)@.contains_key(key@),
            },
    {
        proof {
            use_type_invariant(&*self);
            self.lemma_members();
        }
        let ghost before = *self;
        let ghost after = before@.insert(key@, value@);
        let found = self.find(key.as_str());
        let mut entries = self.take_entries();
        let previous = match found {
            Some(i) => {
                let (stored, previous) = entries.remove(i);
                entries.insert(i, (stored, value));
                Some(previous)
            },
            None => {
                entries.push((key, value));
                None
            },
        };
        *self = Object { entries };
        proof {
            assert forall|k: Seq<char>| #[trigger] after.contains_key(k) implies exists|j: int|
                0 <= j < self.entries.len() && self.entries[j].0@ == k by {
                if k == key@ {
                    let at = if found is Some {
                        found->0 as int
                    } else {
                        before.entries.len() as int
                    };
                    assert(self.entries[at].0@ == k);
                } else {
                    let j = choose|j: int|
                        0 <= j < before.entries.len() && before.entries[j].0@ == k;
                    assert(self.entries[j].0@ == k);
                }
            }
            self.lemma_model_is(after);
        }
        previous
    }

    /// Takes out the member stored under `key`.
    pub fn remove(&mut self, key: &str) -> (r: Option<Value>)
        ensures
            final(self)@ == old(self)@.remove(key@),
            match r {
                Some(value) => old(self)@.contains_key(key@) && value@ == old(self)@[key@],
                None => !old(self)@.contains_key(key@),
            },
    {
        proof {
            use_type_invariant(&*self);
            self.lemma_members();
        }
        let ghost before = *self;
        let ghost after = before@.remove(key@);
        match self.find(key) {
            Some(i) => {
                let mut entries = self.take_entries();
                let (_, value) = entries.remove(i);
                *self = Object { entries };
                proof {
                    assert forall|j: int| 0 <= j < self.entries.len() implies {
                        &&& after.contains_key(#[trigger] self.entries[j].0@)
                        &&& after[self.entries[j].0@] == self.entries[j].1@
                    } by {
                        let from = if j < i {
                            j
                        } else {
                            j + 1
                        };
                        assert(self.entries[j] == before.entries[from]);
                        assert(before@.contains_key(before.entries[from].0@));
                    }
                    assert forall|k: Seq<char>| #[trigger] after.contains_key(k) implies exists|
                        j: int,
                    | 0 <= j < self.entries.len() && self.entries[j].0@ == k by {
                        let from = choose|j: int|
                            0 <= j < before.entries.len() && before.entries[j].0@ == k;
                        let j = if from < i {
                            from
                        } else {
                            from - 1
                        };
                        assert(self.entries[j].0@ == k);
                    }
                    self.lemma_model_is(after);
                }
                Some(value)
            },
            None => {
                assert(self@ =~= after);
                None
            },
        }
    }
}

impl View for Object {
    type V = Map<Seq<char>, ValueView>;

    closed spec fn view(&self) -> Map<Seq<char>, ValueView>
        decreases self,
    {
        Map::new(
            |key: Seq<char>| self.position(key) is Some,
            |key: Seq<char>|
                match self.position(key) {
                    Some(i) if 0 <= i < self.entries.len() => self.entries[i].1@,
                    _ => ValueView::Null,
                },
        )
    }
}

/// The models of the elements of an array, in order.
pub open spec fn items_view(items: &Vec<Value>) -> Seq<ValueView>
    decreases items,
{
    Seq::new(
        items.len() as nat,
        |i: int|
            if 0 <= i < items.len() {
                items[i]@
            } else {
                ValueView::Null
            },
    )
}

impl Value {
    /// The value that a `rustc_serialize::json::Json` holds.
    pub fn from_json(value: Json) -> (r: Value)
        ensures
            r@ == json_view(value),
    {
        from_outside(value)
    }

    /// The value as a `rustc_serialize::json::Json`.
    pub fn to_json(&self) -> (r: Json)
        ensures
            json_view(r) == self@,
    {
        to_outside(self)
    }
}

impl View for Value {
    type V = ValueView;

    open spec fn view(&self) -> ValueView
        decreases self,
    {
        match self {
            Value::I64(n) => ValueView::I64(*n),
            Value::U64(n) => ValueView::U64(*n),
            Value::F64(x) => ValueView::F64(x@),
            Value::String(s) => ValueView::String(s@),
            Value::Boolean(b) => ValueView::Boolean(*b),
            Value::Array(items) => ValueView::Array(items_view(items)),
            Value::Object(object) => ValueView::Object(object@),
            Value::Null => ValueView::Null,
        }
    }
}

/// A copy of `value`.
fn clone_value(value: &Value) -> (r: Value)
    ensures
        r@ == value@,
    decreases value,
{
    match value {
        Value::I64(n) => Value::I64(*n),
        Value::U64(n) => Value::U64(*n),
        Value::F64(x) => Value::F64(x.duplicate()),
        Value::String(s) => Value::String(s.clone()),
        Value::Boolean(b) => Value::Boolean(*b),
        Value::Array(items) => Value::Array(clone_items(items)),
        Value::Object(object) => Value::Object(clone_object(object)),
        Value::Null => Value::Null,
    }
}

/// Copies of the elements of an array, in order.
fn clone_items(items: &Vec<Value>) -> (r: Vec<Value>)
    ensures
        items_view(&r) == items_view(items),
    decreases items,
{
    let mut copies: Vec<Value> = Vec::new();
    let mut i: usize = 0;
    while i < items.len()
        invariant
            i <= items.len(),
            copies.len() == i,
            forall|j: int| 0 <= j < i ==> copies[j]@ == items[j]@,
        decreases items.len() - i,
    {
        copies.push(clone_value(&items[i]));
        i += 1;
    }
    assert(items_view(&copies) =~= items_view(items));
    copies
}

/// A copy of `object`.
fn clone_object(object: &Object) -> (r: Object)
    ensures
        r@ == object@,
    decreases object,
{
    proof {
        use_type_invariant(object);
    }
    let mut copies: Vec<(String, Value)> = Vec::new();
    let mut i: usize = 0;
    while i < object.entries.len()
        invariant
            i <= object.entries.len(),
            copies.len() == i,
            forall|j: int|
                0 <= j < i ==> copies[j].0@ == object.entries[j].0@ && copies[j].1@
                    == object.entries[j].1@,
        decreases object.entries.len() - i,
    {
        copies.push((object.entries[i].0.clone(), clone_value(&object.entries[i].1)));
        i += 1;
    }
    let r = Object { entries: copies };
    proof {
        object.lemma_members();
        assert forall|j: int| 0 <= j < r.entries.len() implies {
            &&& object@.contains_key(#[trigger] r.entries[j].0@)
            &&& object@[r.entries[j].0@] == r.entries[j].1@
        } by {
            assert(object@.contains_key(object.entries[j].0@));
        }
        assert forall|k: Seq<char>| #[trigger] object@.contains_key(k) implies exists|j: int|
            0 <= j < r.entries.len() && r.entries[j].0@ == k by {
            let j = choose|j: int| 0 <= j < object.entries.len() && object.entries[j].0@ == k;
            assert(r.entries[j].0@ == k);
        }
        r.lemma_model_is(object@);
    }
    r
}

/// Whether two values have the same model.
fn value_eq(a: &Value, b: &Value) -> (r: bool)
    ensures
        r == (a@ == b@),
    decreases a,
{
    match a {
        Value::I64(x) => match b {
            Value::I64(y) => *x == *y,
            _ => false,
        },
        Value::U64(x) => match b {
            Value::U64(y) => *x == *y,
            _ => false,
        },
        Value::F64(x) => match b {
            Value::F64(y) => same_text(x.text.as_str(), y.text.as_str()),
            _ => false,
        },
        Value::String(x) => match b {
            Value::String(y) => same_text(x.as_str(), y.as_str()),
            _ => false,
        },
        Value::Boolean(x) => match b {
            Value::Boolean(y) => *x == *y,
            _ => false,
        },
        Value::Array(x) => match b {
            Value::Array(y) => items_eq(x, y),
            _ => false,
        },
        Value::Object(x) => match b {
            Value::Object(y) => object_eq(x, y),
            _ => false,
        },
        Value::Null => match b {
            Value::Null => true,
            _ => false,
        },
    }
}

/// Whether two arrays have the same elements in the same order.
fn items_eq(a: &Vec<Value>, b: &Vec<Value>) -> (r: bool)
    ensures
        r == (items_view(a) == items_view(b)),
    decreases a,
{
    if a.len() != b.len() {
        assert(items_view(a).len() != items_view(b).len());
        return false;
    }
    let mut i: usize = 0;
    while i < a.len()
        invariant
            i <= a.len(),
            a.len() == b.len(),
            forall|j: int| 0 <= j < i ==> a[j]@ == b[j]@,
        decreases a.len() - i,
    {
        if !value_eq(&a[i], &b[i]) {
            assert(items_view(a)[i as int] != items_view(b)[i as int]);
            return false;
        }
        i += 1;
    }
    assert(items_view(a) =~= items_view(b));
    true
}

/// Whether two objects have the same model.
fn object_eq(a: &Object, b: &Object) -> (r: bool)
    ensures
        r == (a@ == b@),
    decreases a,
{
    proof {
        use_type_invariant(a);
        use_type_invariant(b);
        a.lemma_members();
        b.lemma_members();
    }
    let mut i: usize = 0;
    while i < a.entries.len()
        invariant
            i <= a.entries.len(),
            a.keys_distinct(),
            b.keys_distinct(),
            forall|j: int|
                0 <= j < i ==> b@.contains_key(#[trigger] a.entries[j].0@) && b@[a.entries[j].0@]
                    == a.entries[j].1@,
        decreases a.entries.len() - i,
    {
        proof {
            a.lemma_members();
            b.lemma_members();
        }
        match b.find(a.entries[i].0.as_str()) {
            Some(at) => {
                assert(b.entries[at as int].0@ == a.entries[i as int].0@);
                if !value_eq(&a.entries[i].1, &b.entries[at].1) {
                    assert(a@[a.entries[i as int].0@] != b@[a.entries[i as int].0@]);
                    return false;
                }
            },
            None => {
                assert(a@.contains_key(a.entries[i as int].0@));
                assert(!b@.contains_key(a.entries[i as int].0@));
                return false;
            },
        }
        i += 1;
    }
    let mut k: usize = 0;
    while k < b.entries.len()
        invariant
            k <= b.entries.len(),
            a.keys_distinct(),
            b.keys_distinct(),
            forall|j: int| 0 <= j < k ==> a@.contains_key(#[trigger] b.entries[j].0@),
        decreases b.entries.len() - k,
    {
        proof {
            a.lemma_members();
            b.lemma_members();
        }
        if a.find(b.entries[k].0.as_str()).is_none() {
            assert(b@.contains_key(b.entries[k as int].0@));
            assert(!a@.contains_key(b.entries[k as int].0@));
            return false;
        }
        k += 1;
    }
    assert(a@ =~= b@) by {
        assert forall|key: Seq<char>| a@.contains_key(key) implies b@.contains_key(key) && a@[key]
            == b@[key] by {
            let j = choose|j: int| 0 <= j < a.entries.len() && a.entries[j].0@ == key;
            assert(b@.contains_key(a.entries[j].0@));
        }
        assert forall|key: Seq<char>| b@.contains_key(key) implies a@.contains_key(key) by {
            let j = choose|j: int| 0 <= j < b.entries.len() && b.entries[j].0@ == key;
            assert(a@.contains_key(b.entries[j].0@));
        }
    }
    true
}

impl Clone for Float {
    fn clone(&self) -> (r: Float)
        ensures
            r@ == self@,
    {
        self.duplicate()
    }
}

impl Clone for Value {
    fn clone(&self) -> (r: Value)
        ensures
            r@ == self@,
    {
        clone_value(self)
    }
}

impl Clone for Object {
    fn clone(&self) -> (r: Object)
        ensures
            r@ == self@,
    {
        clone_object(self)
    }
}

impl PartialEq for Float {
    fn eq(&self, other: &Float) -> (r: bool) {
        same_text(self.text.as_str(), other.text.as_str())
    }
}

impl vstd::std_specs::cmp::PartialEqSpecImpl for Float {
    open spec fn obeys_eq_spec() -> bool {
        true
    }

    open spec fn eq_spec(&self, other: &Float) -> bool {
        self@ == other@
    }
}

impl PartialEq for Value {
    fn eq(&self, other: &Value) -> (r: bool) {
        value_eq(self, other)
    }
}

impl vstd::std_specs::cmp::PartialEqSpecImpl for Value {
    open spec fn obeys_eq_spec() -> bool {
        true
    }

    open spec fn eq_spec(&self, other: &Value) -> bool {
        self@ == other@
    }
}

impl PartialEq for Object {
    fn eq(&self, other: &Object) -> (r: bool) {
        object_eq(self, other)
    }
}

impl vstd::std_specs::cmp::PartialEqSpecImpl for Object {
    open spec fn obeys_eq_spec() -> bool {
        true
    }

    open spec fn eq_spec(&self, other: &Object) -> bool {
        self@ == other@
    }
}

} // verus!
