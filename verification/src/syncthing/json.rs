//! A JSON document as plain data, and the slots that a record is read from.

use vstd::prelude::*;

verus! {

/// A JSON number.
#[derive(Debug, Clone, Copy, PartialEq, Eq)]
pub enum JsonNumber {
    /// An integer from 0 on.
    PosInt(u64),
    /// An integer kept with its sign, as one below 0 is.
    NegInt(i64),
    /// A number with a fraction or an exponent: a binary64 float, by its
    /// bits.
    Float(u64),
}

impl JsonNumber {
    /// The integer that the number denotes, if it was written as one.
    pub open spec fn as_int(self) -> Option<int> {
        match self {
            JsonNumber::PosInt(n) => Some(n as int),
            JsonNumber::NegInt(n) => Some(n as int),
            JsonNumber::Float(_) => None,
        }
    }

    /// The number as an integer between 0 and `max`, if it is one.
    pub fn bounded(&self, max: u64) -> (r: Option<u64>)
        ensures
            r matches Some(n) ==> self.as_int() == Some(n as int) && n <= max,
            r is None ==> !(self.as_int() matches Some(n) && 0 <= n <= max),
    {
        match self {
            JsonNumber::PosInt(n) => if *n <= max { Some(*n) } else { None },
            JsonNumber::NegInt(n) => {
                if *n >= 0 && (*n as u64) <= max { Some(*n as u64) } else { None }
            }
            JsonNumber::Float(_) => None,
        }
    }
}

/// A JSON document. The members of an object stay in the order given.
#[derive(Debug, PartialEq)]
pub enum JsonValue {
    Null,
    Bool(bool),
    Number(JsonNumber),
    String(String),
    Array(Vec<JsonValue>),
    Object(Vec<(String, JsonValue)>),
}

/// The mathematical content of a [`JsonValue`].
pub enum JsonModel {
    Null,
    Bool(bool),
    Number(JsonNumber),
    Text(Seq<char>),
    Array(Seq<JsonModel>),
    Object(Seq<(Seq<char>, JsonModel)>),
}

impl JsonValue {
    /// The content of the document.
    pub open spec fn model(self) -> JsonModel
        decreases self,
    {
        match self {
            JsonValue::Null => JsonModel::Null,
            JsonValue::Bool(b) => JsonModel::Bool(b),
            JsonValue::Number(n) => JsonModel::Number(n),
            JsonValue::String(s) => JsonModel::Text(s@),
            JsonValue::Array(items) => JsonModel::Array(
                Seq::new(
                    items@.len(),
                    |i: int|
                        if 0 <= i < items@.len() {
                            items@[i].model()
                        } else {
                            JsonModel::Null
                        },
                ),
            ),
            JsonValue::Object(members) => JsonModel::Object(
                Seq::new(
                    members@.len(),
                    |i: int|
                        if 0 <= i < members@.len() {
                            (members@[i].0@, members@[i].1.model())
                        } else {
                            (Seq::empty(), JsonModel::Null)
                        },
                ),
            ),
        }
    }
}

impl View for JsonValue {
    type V = JsonModel;

    open spec fn view(&self) -> JsonModel {
        self.model()
    }
}

impl JsonValue {
    /// The model of an array holds the models of its items.
    pub proof fn lemma_view_array(self)
        requires
            self is Array,
        ensures
            self@ is Array,
            self@->Array_0.len() == self->Array_0@.len(),
            forall|i: int|
                0 <= i < self->Array_0@.len() ==> (#[trigger] self@->Array_0[i])
                    == self->Array_0@[i]@,
    {
    }

    /// The model of an object holds the names and the models of its
    /// members.
    pub proof fn lemma_view_object(self)
        requires
            self is Object,
        ensures
            self@ is Object,
            self@->Object_0.len() == self->Object_0@.len(),
            forall|i: int|
                0 <= i < self->Object_0@.len() ==> (#[trigger] self@->Object_0[i]) == (
                    self->Object_0@[i].0@,
                    self->Object_0@[i].1@,
                ),
    {
    }
}

impl Clone for JsonValue {
    #[verifier::loop_isolation(false)]
    fn clone(&self) -> (r: Self)
        ensures
            r@ == self@,
        decreases self,
    {
        match self {
            JsonValue::Null => JsonValue::Null,
            JsonValue::Bool(b) => JsonValue::Bool(*b),
            JsonValue::Number(n) => JsonValue::Number(*n),
            JsonValue::String(s) => JsonValue::String(s.clone()),
            JsonValue::Array(items) => {
                let mut copy: Vec<JsonValue> = Vec::new();
                let mut i: usize = 0;
                while i < items.len()
                    invariant
                        i <= items.len(),
                        copy@.len() == i,
                        forall|j: int| 0 <= j < i ==> copy@[j]@ == items@[j]@,
                    decreases items.len() - i,
                {
                    copy.push(items[i].clone());
                    i += 1;
                }
                let r = JsonValue::Array(copy);
                assert(r@->Array_0 =~= self@->Array_0);
                r
            }
            JsonValue::Object(members) => {
                let mut copy: Vec<(String, JsonValue)> = Vec::new();
                let mut i: usize = 0;
                while i < members.len()
                    invariant
                        i <= members.len(),
                        copy@.len() == i,
                        forall|j: int|
                            0 <= j < i ==> copy@[j].0@ == members@[j].0@ && copy@[j].1@
                                == members@[j].1@,
                    decreases members.len() - i,
                {
                    copy.push((members[i].0.clone(), members[i].1.clone()));
                    i += 1;
                }
                let r = JsonValue::Object(copy);
                assert(r@->Object_0 =~= self@->Object_0);
                r
            }
        }
    }
}

/// What a record's field finds in a JSON value: nothing, a conflict, or one
/// value.
pub enum Slot {
    /// An object without a member of that name.
    Missing,
    /// An object with several members of that name, an array of another
    /// length than the record has fields, or a value that holds no fields.
    Clash,
    Found(JsonModel),
}

/// [`Slot`] over borrowed data.
pub enum Field<'a> {
    Missing,
    Clash,
    Found(&'a JsonValue),
}

impl<'a> View for Field<'a> {
    type V = Slot;

    open spec fn view(&self) -> Slot {
        match self {
            Field::Missing => Slot::Missing,
            Field::Clash => Slot::Clash,
            Field::Found(v) => Slot::Found(v@),
        }
    }
}

/// Member `i` of `members` is called `name`.
pub open spec fn named(members: Seq<(Seq<char>, JsonModel)>, name: Seq<char>, i: int) -> bool {
    0 <= i < members.len() && members[i].0 == name
}

/// The slot of `name` among the members of an object: the value of the one
/// member of that name.
pub open spec fn member_slot(members: Seq<(Seq<char>, JsonModel)>, name: Seq<char>) -> Slot {
    if !exists|i: int| named(members, name, i) {
        Slot::Missing
    } else {
        let k = choose|i: int| named(members, name, i);
        if forall|j: int| named(members, name, j) ==> j == k {
            Slot::Found(members[k].1)
        } else {
            Slot::Clash
        }
    }
}

/// The slot of a record's field in `m`. A record of `arity` fields is
/// written as an object, where the field is the member called `name`, or
/// as an array of `arity` items, where it is the item at `position`.
pub open spec fn slot(m: JsonModel, name: Seq<char>, position: int, arity: int) -> Slot {
    match m {
        JsonModel::Object(members) => member_slot(members, name),
        JsonModel::Array(items) => if items.len() == arity && 0 <= position < arity {
            Slot::Found(items[position])
        } else {
            Slot::Clash
        },
        _ => Slot::Clash,
    }
}

impl JsonValue {
    /// Looks up the field of a record of `arity` fields: by `name` in an
    /// object, by `position` in an array.
    pub fn field<'a>(&'a self, name: &str, position: usize, arity: usize) -> (r: Field<'a>)
        ensures
            r@ == slot(self@, name@, position as int, arity as int),
    {
        match self {
            JsonValue::Object(members) => {
                let wanted = name.to_owned();
                let ghost model = self@->Object_0;
                proof {
                    self.lemma_view_object();
                }
                let mut found: Option<usize> = None;
                let mut clash = false;
                let mut i: usize = 0;
                while i < members.len()
                    invariant
                        i <= members.len(),
                        wanted@ == name@,
                        model.len() == members.len(),
                        forall|j: int|
                            0 <= j < members.len() ==> model[j] == (
                                members@[j].0@,
                                members@[j].1@,
                            ),
                        found is None ==> !clash && forall|j: int|
                            0 <= j < i ==> !named(model, name@, j),
                        found matches Some(k) ==> k < i && named(model, name@, k as int),
                        found matches Some(k) ==> (clash <==> exists|j: int|
                            0 <= j < i && j != k && named(model, name@, j)),
                    decreases members.len() - i,
                {
                    if members[i].0 == wanted {
                        assert(named(model, name@, i as int));
                        match found {
                            None => {
                                found = Some(i);
                            },
                            Some(_) => {
                                clash = true;
                            },
                        }
                    }
                    i += 1;
                }
                match found {
                    None => Field::Missing,
                    Some(k) => if clash {
                        Field::Clash
                    } else {
                        Field::Found(&members[k].1)
                    },
                }
            },
            JsonValue::Array(items) => if items.len() == arity && position < arity {
                Field::Found(&items[position])
            } else {
                Field::Clash
            },
            _ => Field::Clash,
        }
    }
}

} // verus!
