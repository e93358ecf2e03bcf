//! A JSON document tree that the evaluators read, with its lookup semantics.
//!
//! Arrays and objects are cons lists, so that two documents are equal exactly
//! when they hold the same tree; object fields keep the order in which the
//! document lists them.
use vstd::prelude::*;
use crate::text::{owned, str_eq};

verus! {

/// A JSON number: a non-negative integer, a negative integer, or any other
/// number kept as its decimal text.
pub enum JsonNumber {
    PosInt(u64),
    NegInt(i64),
    Float(String),
}

/// A JSON value.
pub enum JsonValue {
    Null,
    Bool(bool),
    Number(JsonNumber),
    Str(String),
    Array(Box<JsonList>),
    Object(Box<JsonFields>),
}

/// The elements of a JSON array, first to last.
pub enum JsonList {
    Nil,
    Cons(Box<JsonValue>, Box<JsonList>),
}

/// The fields of a JSON object, in document order.
pub enum JsonFields {
    Nil,
    Cons(String, Box<JsonValue>, Box<JsonFields>),
}

/// The value of the first field named `key`.
pub open spec fn fields_get(f: JsonFields, key: Seq<char>) -> Option<JsonValue>
    decreases f,
{
    match f {
        JsonFields::Nil => None,
        JsonFields::Cons(k, v, rest) => if k@ == key {
            Some(*v)
        } else {
            fields_get(*rest, key)
        },
    }
}

/// The number of fields of an object.
pub open spec fn fields_len(f: JsonFields) -> nat
    decreases f,
{
    match f {
        JsonFields::Nil => 0,
        JsonFields::Cons(_, _, rest) => 1 + fields_len(*rest),
    }
}

/// The elements of an array as a sequence.
pub open spec fn list_seq(l: JsonList) -> Seq<JsonValue>
    decreases l,
{
    match l {
        JsonList::Nil => Seq::empty(),
        JsonList::Cons(v, rest) => seq![*v] + list_seq(*rest),
    }
}

impl JsonValue {
    /// `Value::get`: the field `key` of an object; `None` for any other value.
    pub open spec fn spec_get(self, key: Seq<char>) -> Option<JsonValue> {
        match self {
            JsonValue::Object(f) => fields_get(*f, key),
            _ => None,
        }
    }

    /// `Value::as_str`, by the text's characters.
    pub open spec fn spec_str(self) -> Option<Seq<char>> {
        match self {
            JsonValue::Str(s) => Some(s@),
            _ => None,
        }
    }

    /// `Value::as_bool`.
    pub open spec fn spec_bool(self) -> Option<bool> {
        match self {
            JsonValue::Bool(b) => Some(b),
            _ => None,
        }
    }

    /// `Value::as_u64`: only non-negative integers have one.
    pub open spec fn spec_u64(self) -> Option<u64> {
        match self {
            JsonValue::Number(JsonNumber::PosInt(n)) => Some(n),
            _ => None,
        }
    }

    /// `Value::as_i64`: integers that fit in `i64` have one.
    pub open spec fn spec_i64(self) -> Option<i64> {
        match self {
            JsonValue::Number(JsonNumber::PosInt(n)) => if n <= i64::MAX {
                Some(n as i64)
            } else {
                None
            },
            JsonValue::Number(JsonNumber::NegInt(n)) => Some(n),
            _ => None,
        }
    }

    /// `Value::as_object` holds an empty map or the value is not an object.
    pub open spec fn spec_object_empty_or_absent(self) -> bool {
        match self {
            JsonValue::Object(f) => *f is Nil,
            _ => true,
        }
    }

    /// The elements of an array; `None` for any other value.
    pub open spec fn spec_array(self) -> Option<Seq<JsonValue>> {
        match self {
            JsonValue::Array(l) => Some(list_seq(*l)),
            _ => None,
        }
    }

    pub fn get<'a>(&'a self, key: &str) -> (r: Option<&'a JsonValue>)
        ensures
            r is Some <==> self.spec_get(key@) is Some,
            r is Some ==> *r.unwrap() == self.spec_get(key@).unwrap(),
    {
        match self {
            JsonValue::Object(f) => fields_lookup(&**f, key),
            _ => None,
        }
    }

    pub fn as_str<'a>(&'a self) -> (r: Option<&'a String>)
        ensures
            r is Some <==> self.spec_str() is Some,
            r is Some ==> r.unwrap()@ == self.spec_str().unwrap(),
            r is Some ==> self == JsonValue::Str(*r.unwrap()),
    {
        match self {
            JsonValue::Str(s) => Some(s),
            _ => None,
        }
    }

    pub fn as_bool(&self) -> (r: Option<bool>)
        ensures
            r == self.spec_bool(),
    {
        match self {
            JsonValue::Bool(b) => Some(*b),
            _ => None,
        }
    }

    pub fn as_u64(&self) -> (r: Option<u64>)
        ensures
            r == self.spec_u64(),
    {
        match self {
            JsonValue::Number(JsonNumber::PosInt(n)) => Some(*n),
            _ => None,
        }
    }

    pub fn as_i64(&self) -> (r: Option<i64>)
        ensures
            r == self.spec_i64(),
    {
        match self {
            JsonValue::Number(JsonNumber::PosInt(n)) => if *n <= 9_223_372_036_854_775_807 {
                Some(*n as i64)
            } else {
                None
            },
            JsonValue::Number(JsonNumber::NegInt(n)) => Some(*n),
            _ => None,
        }
    }

    pub fn object_empty_or_absent(&self) -> (r: bool)
        ensures
            r == self.spec_object_empty_or_absent(),
    {
        match self {
            JsonValue::Object(f) => match &**f {
                JsonFields::Nil => true,
                _ => false,
            },
            _ => true,
        }
    }

    /// A copy of the value: the same tree.
    pub fn deep_clone(&self) -> (r: JsonValue)
        ensures
            r == *self,
        decreases self,
    {
        match self {
            JsonValue::Null => JsonValue::Null,
            JsonValue::Bool(b) => JsonValue::Bool(*b),
            JsonValue::Number(n) => JsonValue::Number(
                match n {
                    JsonNumber::PosInt(x) => JsonNumber::PosInt(*x),
                    JsonNumber::NegInt(x) => JsonNumber::NegInt(*x),
                    JsonNumber::Float(t) => JsonNumber::Float(t.clone()),
                },
            ),
            JsonValue::Str(s) => JsonValue::Str(s.clone()),
            JsonValue::Array(l) => JsonValue::Array(Box::new(clone_list(&**l))),
            JsonValue::Object(f) => JsonValue::Object(Box::new(clone_fields(&**f))),
        }
    }

    /// A string value holding a copy of `s`.
    pub fn text(s: &str) -> (r: JsonValue)
        ensures
            r.spec_str() == Some(s@),
    {
        JsonValue::Str(owned(s))
    }

    /// An empty object.
    pub fn empty_object() -> (r: JsonValue)
        ensures
            r == JsonValue::Object(Box::new(JsonFields::Nil)),
    {
        JsonValue::Object(Box::new(JsonFields::Nil))
    }

    /// The value `Some(v)` stands for `v` and `None` for null, as serde writes an option.
    pub fn from_option(v: Option<&JsonValue>) -> (r: JsonValue)
        ensures
            r == opt_json(opt_ref(v)),
    {
        match v {
            Some(x) => x.deep_clone(),
            None => JsonValue::Null,
        }
    }
}

/// An optional borrowed value, as a value.
pub open spec fn opt_ref(v: Option<&JsonValue>) -> Option<JsonValue> {
    match v {
        Some(x) => Some(*x),
        None => None,
    }
}

/// The JSON form of an optional value: the value itself, or null.
pub open spec fn opt_json(v: Option<JsonValue>) -> JsonValue {
    match v {
        Some(x) => x,
        None => JsonValue::Null,
    }
}

fn fields_lookup<'a>(f: &'a JsonFields, key: &str) -> (r: Option<&'a JsonValue>)
    ensures
        r is Some <==> fields_get(*f, key@) is Some,
        r is Some ==> *r.unwrap() == fields_get(*f, key@).unwrap(),
    decreases f,
{
    match f {
        JsonFields::Nil => None,
        JsonFields::Cons(k, v, rest) => {
            if str_eq(k.as_str(), key) {
                Some(&**v)
            } else {
                fields_lookup(&**rest, key)
            }
        },
    }
}

fn clone_list(l: &JsonList) -> (r: JsonList)
    ensures
        r == *l,
    decreases l,
{
    match l {
        JsonList::Nil => JsonList::Nil,
        JsonList::Cons(v, rest) => JsonList::Cons(
            Box::new((&**v).deep_clone()),
            Box::new(clone_list(&**rest)),
        ),
    }
}

fn clone_fields(f: &JsonFields) -> (r: JsonFields)
    ensures
        r == *f,
    decreases f,
{
    match f {
        JsonFields::Nil => JsonFields::Nil,
        JsonFields::Cons(k, v, rest) => JsonFields::Cons(
            k.clone(),
            Box::new((&**v).deep_clone()),
            Box::new(clone_fields(&**rest)),
        ),
    }
}

/// The object's fields, as (name, value) pairs in document order.
pub open spec fn fields_seq(f: JsonFields) -> Seq<(Seq<char>, JsonValue)>
    decreases f,
{
    match f {
        JsonFields::Nil => Seq::empty(),
        JsonFields::Cons(k, v, rest) => seq![(k@, *v)] + fields_seq(*rest),
    }
}

/// The value is an object whose fields are exactly `entries`, in that order.
pub open spec fn is_object(v: JsonValue, entries: Seq<(Seq<char>, JsonValue)>) -> bool {
    match v {
        JsonValue::Object(f) => fields_seq(*f) == entries,
        _ => false,
    }
}

/// Builds objects field by field; the fields keep the order in which they were added.
pub struct ObjectBuilder {
    fields: Vec<(String, JsonValue)>,
}

impl ObjectBuilder {
    pub closed spec fn entries(self) -> Seq<(Seq<char>, JsonValue)> {
        self.fields@.map_values(|p: (String, JsonValue)| (p.0@, p.1))
    }

    pub fn new() -> (r: ObjectBuilder)
        ensures
            r.entries() == Seq::<(Seq<char>, JsonValue)>::empty(),
    {
        let r = ObjectBuilder { fields: Vec::new() };
        assert(r.entries() =~= Seq::<(Seq<char>, JsonValue)>::empty());
        r
    }

    pub fn field(self, key: &str, value: JsonValue) -> (r: ObjectBuilder)
        ensures
            r.entries() == self.entries().push((key@, value)),
    {
        let mut fields = self.fields;
        fields.push((owned(key), value));
        let r = ObjectBuilder { fields };
        assert(r.entries() =~= self.entries().push((key@, value)));
        r
    }

    pub fn build(self) -> (r: JsonValue)
        ensures
            is_object(r, self.entries()),
    {
        let mut fields = self.fields;
        let ghost all = self.entries();
        let mut acc = JsonFields::Nil;
        while fields.len() > 0
            invariant
                all.len() >= fields@.len(),
                fields@.map_values(|p: (String, JsonValue)| (p.0@, p.1)) == all.take(
                    fields@.len() as int,
                ),
                fields_seq(acc) == all.skip(fields@.len() as int),
            decreases fields@.len(),
        {
            let ghost before = fields@;
            let (k, v) = fields.pop().unwrap();
            assert(before[before.len() - 1] == (k, v));
            let ghost mapped = before.map_values(|p: (String, JsonValue)| (p.0@, p.1));
            assert(mapped[before.len() - 1] == (k@, v));
            assert(all.take(before.len() as int)[before.len() - 1] == all[fields@.len() as int]);
            assert(all[fields@.len() as int] == (k@, v));
            acc = JsonFields::Cons(k, Box::new(v), Box::new(acc));
            assert(fields@.map_values(|p: (String, JsonValue)| (p.0@, p.1)) =~= all.take(
                fields@.len() as int,
            ));
            assert(fields_seq(acc) =~= all.skip(fields@.len() as int));
        }
        assert(all.skip(0) =~= all);
        JsonValue::Object(Box::new(acc))
    }
}

/// The elements are strings holding exactly `texts`, in order.
pub open spec fn holds_texts(items: Seq<JsonValue>, texts: Seq<Seq<char>>) -> bool {
    &&& items.len() == texts.len()
    &&& forall|i: int| 0 <= i < items.len() ==> #[trigger] items[i].spec_str() == Some(texts[i])
}

/// Builds arrays element by element, in order.
pub struct ArrayBuilder {
    items: Vec<JsonValue>,
}

impl ArrayBuilder {
    pub closed spec fn items(self) -> Seq<JsonValue> {
        self.items@
    }

    pub fn new() -> (r: ArrayBuilder)
        ensures
            r.items() == Seq::<JsonValue>::empty(),
    {
        ArrayBuilder { items: Vec::new() }
    }

    /// A builder already holding `items`, in order.
    pub fn from_items(items: Vec<JsonValue>) -> (r: ArrayBuilder)
        ensures
            r.items() == items@,
    {
        ArrayBuilder { items }
    }

    pub fn item(self, value: JsonValue) -> (r: ArrayBuilder)
        ensures
            r.items() == self.items().push(value),
    {
        let mut items = self.items;
        items.push(value);
        ArrayBuilder { items }
    }

    pub fn build(self) -> (r: JsonValue)
        ensures
            r.spec_array() == Some(self.items()),
    {
        let mut items = self.items;
        let ghost all = self.items@;
        let mut acc = JsonList::Nil;
        while items.len() > 0
            invariant
                all.len() >= items@.len(),
                items@ == all.take(items@.len() as int),
                list_seq(acc) == all.skip(items@.len() as int),
            decreases items@.len(),
        {
            let v = items.pop().unwrap();
            acc = JsonList::Cons(Box::new(v), Box::new(acc));
            assert(items@ =~= all.take(items@.len() as int));
            assert(list_seq(acc) =~= all.skip(items@.len() as int));
        }
        assert(all.skip(0) =~= all);
        JsonValue::Array(Box::new(acc))
    }
}

// ---------------------------------------------------------------------------
// Merging one object's fields over another's
// ---------------------------------------------------------------------------

/// The fields of `base` whose names `over` does not hold, in order.
pub open spec fn fields_not_in(base: JsonFields, over: JsonFields) -> JsonFields
    decreases base,
{
    match base {
        JsonFields::Nil => JsonFields::Nil,
        JsonFields::Cons(k, v, rest) => if fields_get(over, k@) is Some {
            fields_not_in(*rest, over)
        } else {
            JsonFields::Cons(k, v, Box::new(fields_not_in(*rest, over)))
        },
    }
}

/// The fields of `a` followed by those of `b`.
pub open spec fn fields_then(a: JsonFields, b: JsonFields) -> JsonFields
    decreases a,
{
    match a {
        JsonFields::Nil => b,
        JsonFields::Cons(k, v, rest) => JsonFields::Cons(k, v, Box::new(fields_then(*rest, b))),
    }
}

/// What a lookup of `key` finds once `overrides` is written over `base`: where
/// both are objects, the override's field if it has one and the base's
/// otherwise; where either is not an object, the base is left as it is.
pub open spec fn merged_get(base: JsonValue, overrides: JsonValue, key: Seq<char>) -> Option<
    JsonValue,
> {
    match (base, overrides) {
        (JsonValue::Object(b), JsonValue::Object(o)) => if fields_get(*o, key) is Some {
            fields_get(*o, key)
        } else {
            fields_get(*b, key)
        },
        _ => base.spec_get(key),
    }
}

/// The merged document: the override's fields first, then the base's fields
/// that the override does not name.
pub open spec fn merged_value(base: JsonValue, overrides: JsonValue) -> JsonValue {
    match (base, overrides) {
        (JsonValue::Object(b), JsonValue::Object(o)) => JsonValue::Object(
            Box::new(fields_then(*o, fields_not_in(*b, *o))),
        ),
        _ => base,
    }
}

proof fn lemma_get_fields_then(a: JsonFields, b: JsonFields, key: Seq<char>)
    ensures
        fields_get(fields_then(a, b), key) == if fields_get(a, key) is Some {
            fields_get(a, key)
        } else {
            fields_get(b, key)
        },
    decreases a,
{
    match a {
        JsonFields::Nil => {},
        JsonFields::Cons(k, v, rest) => lemma_get_fields_then(*rest, b, key),
    }
}

proof fn lemma_get_fields_not_in(base: JsonFields, over: JsonFields, key: Seq<char>)
    ensures
        fields_get(fields_not_in(base, over), key) == if fields_get(over, key) is Some {
            None
        } else {
            fields_get(base, key)
        },
    decreases base,
{
    match base {
        JsonFields::Nil => {},
        JsonFields::Cons(k, v, rest) => lemma_get_fields_not_in(*rest, over, key),
    }
}

fn copy_fields_not_in(base: &JsonFields, over: &JsonFields) -> (r: JsonFields)
    ensures
        r == fields_not_in(*base, *over),
    decreases base,
{
    match base {
        JsonFields::Nil => JsonFields::Nil,
        JsonFields::Cons(k, v, rest) => {
            let tail = copy_fields_not_in(&**rest, over);
            if fields_lookup(over, k.as_str()).is_some() {
                tail
            } else {
                JsonFields::Cons(k.clone(), Box::new((&**v).deep_clone()), Box::new(tail))
            }
        },
    }
}

fn copy_fields_then(a: &JsonFields, b: JsonFields) -> (r: JsonFields)
    ensures
        r == fields_then(*a, b),
    decreases a,
{
    match a {
        JsonFields::Nil => b,
        JsonFields::Cons(k, v, rest) => JsonFields::Cons(
            k.clone(),
            Box::new((&**v).deep_clone()),
            Box::new(copy_fields_then(&**rest, b)),
        ),
    }
}

/// Writes the fields of `overrides` over those of `base`, as inserting each
/// override into the base object does: a field that both hold takes the
/// override's value, the others keep theirs. Where either value is not an
/// object, the base comes back unchanged.
pub fn merge_objects(base: &JsonValue, overrides: &JsonValue) -> (r: JsonValue)
    ensures
        forall|key: Seq<char>| #[trigger] r.spec_get(key) == merged_get(*base, *overrides, key),
        r is Object <==> base is Object,
        !(overrides is Object) ==> r == *base,
        !(base is Object) ==> r == *base,
        r == merged_value(*base, *overrides),
{
    match (base, overrides) {
        (JsonValue::Object(b), JsonValue::Object(o)) => {
            let kept = copy_fields_not_in(&**b, &**o);
            let all = copy_fields_then(&**o, kept);
            let r = JsonValue::Object(Box::new(all));
            assert forall|key: Seq<char>| #[trigger] r.spec_get(key) == merged_get(
                *base,
                *overrides,
                key,
            ) by {
                lemma_get_fields_then(**o, fields_not_in(**b, **o), key);
                lemma_get_fields_not_in(**b, **o, key);
            }
            r
        },
        _ => base.deep_clone(),
    }
}

impl JsonValue {
    /// The elements of an array, copied in order; none for any other value.
    pub fn array_items(&self) -> (r: Vec<JsonValue>)
        ensures
            r@ == match self.spec_array() {
                Some(items) => items,
                None => Seq::<JsonValue>::empty(),
            },
    {
        let mut r: Vec<JsonValue> = Vec::new();
        match self {
            JsonValue::Array(l) => {
                let mut cur: &JsonList = &**l;
                let ghost all = list_seq(**l);
                loop
                    invariant
                        r@ + list_seq(*cur) == all,
                    ensures
                        r@ == all,
                    decreases *cur,
                {
                    match cur {
                        JsonList::Nil => {
                            assert(r@ + list_seq(*cur) =~= r@);
                            break;
                        },
                        JsonList::Cons(v, rest) => {
                            let ghost before = r@;
                            r.push((&**v).deep_clone());
                            assert(r@ + list_seq(**rest) =~= before + list_seq(*cur));
                            cur = &**rest;
                        },
                    }
                }
                r
            },
            _ => r,
        }
    }
}

/// An array of the given strings, in order.
pub fn text_array(texts: &Vec<String>) -> (r: JsonValue)
    ensures
        r.spec_array() matches Some(items) && holds_texts(items, texts@.map_values(|s: String| s@)),
{
    let mut b = ArrayBuilder::new();
    for i in 0..texts.len()
        invariant
            b.items().len() == i,
            forall|j: int| 0 <= j < i ==> #[trigger] b.items()[j].spec_str() == Some(texts@[j]@),
    {
        b = b.item(JsonValue::text(texts[i].as_str()));
    }
    b.build()
}

} // verus!
