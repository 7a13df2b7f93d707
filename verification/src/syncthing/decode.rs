//! Reading typed values out of JSON: the rule for each field type.

use vstd::prelude::*;
use super::json::{Field, JsonModel, JsonNumber, JsonValue, Slot};

verus! {

/// A type that can be read from the slot of a field.
pub trait FromJson: Sized {
    /// Whether the slot holds a value of this type.
    spec fn fits(s: Slot) -> bool;

    /// Whether `self` is the value that the slot holds.
    spec fn reads(&self, s: Slot) -> bool;

    /// Reads the value, if the slot holds one.
    fn read(field: &Field) -> (r: Option<Self>)
        ensures
            r is Some <==> Self::fits(field@),
            r matches Some(x) ==> x.reads(field@),
    ;
}

/// A map with text keys, as a list of entries. The entries stand as the
/// members of the object that was read stand in it: one entry for each
/// member, in the members' order. Read from a text, an object has its
/// members in the order of their names and no name twice; an object put
/// together by hand may hold a name twice, and the map then holds both
/// entries.
#[derive(Debug, Clone, PartialEq)]
pub struct JsonMap<T> {
    pub entries: Vec<(String, T)>,
}

/// Text: a JSON string.
impl FromJson for String {
    open spec fn fits(s: Slot) -> bool {
        s matches Slot::Found(JsonModel::Text(_))
    }

    open spec fn reads(&self, s: Slot) -> bool {
        s == Slot::Found(JsonModel::Text(self@))
    }

    fn read(field: &Field) -> (r: Option<Self>) {
        match field {
            Field::Found(JsonValue::String(s)) => Some(s.clone()),
            _ => None,
        }
    }
}

/// A truth value: a JSON boolean.
impl FromJson for bool {
    open spec fn fits(s: Slot) -> bool {
        s matches Slot::Found(JsonModel::Bool(_))
    }

    open spec fn reads(&self, s: Slot) -> bool {
        s == Slot::Found(JsonModel::Bool(*self))
    }

    fn read(field: &Field) -> (r: Option<Self>) {
        match field {
            Field::Found(JsonValue::Bool(b)) => Some(*b),
            _ => None,
        }
    }
}

/// An id: a JSON integer from 0 to the largest that 64 bits hold.
impl FromJson for u64 {
    open spec fn fits(s: Slot) -> bool {
        s matches Slot::Found(JsonModel::Number(n)) && n.as_int() matches Some(x) && 0 <= x
            <= u64::MAX
    }

    open spec fn reads(&self, s: Slot) -> bool {
        s matches Slot::Found(JsonModel::Number(n)) && n.as_int() == Some(*self as int)
    }

    fn read(field: &Field) -> (r: Option<Self>) {
        match field {
            Field::Found(JsonValue::Number(n)) => n.bounded(u64::MAX),
            _ => None,
        }
    }
}

/// A 16-bit count: a JSON integer from 0 to 65535.
impl FromJson for u16 {
    open spec fn fits(s: Slot) -> bool {
        s matches Slot::Found(JsonModel::Number(n)) && n.as_int() matches Some(x) && 0 <= x
            <= 0xffff
    }

    open spec fn reads(&self, s: Slot) -> bool {
        s matches Slot::Found(JsonModel::Number(n)) && n.as_int() == Some(*self as int)
    }

    fn read(field: &Field) -> (r: Option<Self>) {
        match field {
            Field::Found(JsonValue::Number(n)) => match n.bounded(0xffff) {
                Some(x) => Some(x as u16),
                None => None,
            },
            _ => None,
        }
    }
}

/// An 8-bit count: a JSON integer from 0 to 255.
impl FromJson for u8 {
    open spec fn fits(s: Slot) -> bool {
        s matches Slot::Found(JsonModel::Number(n)) && n.as_int() matches Some(x) && 0 <= x
            <= 0xff
    }

    open spec fn reads(&self, s: Slot) -> bool {
        s matches Slot::Found(JsonModel::Number(n)) && n.as_int() == Some(*self as int)
    }

    fn read(field: &Field) -> (r: Option<Self>) {
        match field {
            Field::Found(JsonValue::Number(n)) => match n.bounded(0xff) {
                Some(x) => Some(x as u8),
                None => None,
            },
            _ => None,
        }
    }
}

/// A measure: any JSON number, kept as written.
impl FromJson for JsonNumber {
    open spec fn fits(s: Slot) -> bool {
        s matches Slot::Found(JsonModel::Number(_))
    }

    open spec fn reads(&self, s: Slot) -> bool {
        s == Slot::Found(JsonModel::Number(*self))
    }

    fn read(field: &Field) -> (r: Option<Self>) {
        match field {
            Field::Found(JsonValue::Number(n)) => Some(*n),
            _ => None,
        }
    }
}

/// Any document, kept as it is.
impl FromJson for JsonValue {
    open spec fn fits(s: Slot) -> bool {
        s is Found
    }

    open spec fn reads(&self, s: Slot) -> bool {
        s == Slot::Found(self@)
    }

    fn read(field: &Field) -> (r: Option<Self>) {
        match field {
            Field::Found(v) => Some((*v).clone()),
            _ => None,
        }
    }
}

/// An optional value: absent where the field is missing or null.
impl<T: FromJson> FromJson for Option<T> {
    open spec fn fits(s: Slot) -> bool {
        s is Missing || s == Slot::Found(JsonModel::Null) || T::fits(s)
    }

    open spec fn reads(&self, s: Slot) -> bool {
        match self {
            None => s is Missing || s == Slot::Found(JsonModel::Null),
            Some(x) => !(s is Missing) && s != Slot::Found(JsonModel::Null) && x.reads(s),
        }
    }

    fn read(field: &Field) -> (r: Option<Self>) {
        match field {
            Field::Missing => Some(None),
            Field::Found(JsonValue::Null) => Some(None),
            _ => match T::read(field) {
                Some(x) => Some(Some(x)),
                None => None,
            },
        }
    }
}

/// A list: a JSON array whose every item fits.
impl<T: FromJson> FromJson for Vec<T> {
    open spec fn fits(s: Slot) -> bool {
        s matches Slot::Found(JsonModel::Array(items)) && forall|i: int|
            0 <= i < items.len() ==> T::fits(Slot::Found(#[trigger] items[i]))
    }

    open spec fn reads(&self, s: Slot) -> bool {
        s matches Slot::Found(JsonModel::Array(items)) && self@.len() == items.len()
            && forall|i: int|
            0 <= i < items.len() ==> (#[trigger] self@[i]).reads(Slot::Found(items[i]))
    }

    fn read(field: &Field) -> (r: Option<Self>) {
        match field {
            Field::Found(JsonValue::Array(items)) => {
                let ghost model = field@->Found_0->Array_0;
                proof {
                    JsonValue::Array(*items).lemma_view_array();
                }
                let mut out: Vec<T> = Vec::new();
                let mut i: usize = 0;
                while i < items.len()
                    invariant
                        i <= items.len(),
                        out@.len() == i,
                        field@ == Slot::Found(JsonModel::Array(model)),
                        model.len() == items@.len(),
                        forall|j: int| 0 <= j < items@.len() ==> model[j] == items@[j]@,
                        forall|j: int| 0 <= j < i ==> T::fits(Slot::Found(#[trigger] model[j])),
                        forall|j: int|
                            0 <= j < i ==> (#[trigger] out@[j]).reads(Slot::Found(model[j])),
                    decreases items.len() - i,
                {
                    let item = Field::Found(&items[i]);
                    match T::read(&item) {
                        Some(x) => {
                            out.push(x);
                        },
                        None => {
                            assert(!T::fits(Slot::Found(model[i as int])));
                            assert(field@->Found_0->Array_0 == model);
                            return None;
                        },
                    }
                    i += 1;
                }
                Some(out)
            },
            _ => None,
        }
    }
}

/// A map: a JSON object whose every member's value fits.
impl<T: FromJson> FromJson for JsonMap<T> {
    open spec fn fits(s: Slot) -> bool {
        s matches Slot::Found(JsonModel::Object(members)) && forall|i: int|
            0 <= i < members.len() ==> T::fits(Slot::Found((#[trigger] members[i]).1))
    }

    open spec fn reads(&self, s: Slot) -> bool {
        s matches Slot::Found(JsonModel::Object(members)) && self.entries@.len()
            == members.len() && forall|i: int|
            0 <= i < members.len() ==> (#[trigger] self.entries@[i]).0@ == members[i].0
                && self.entries@[i].1.reads(Slot::Found(members[i].1))
    }

    fn read(field: &Field) -> (r: Option<Self>) {
        match field {
            Field::Found(JsonValue::Object(members)) => {
                let ghost model = field@->Found_0->Object_0;
                proof {
                    JsonValue::Object(*members).lemma_view_object();
                }
                let mut entries: Vec<(String, T)> = Vec::new();
                let mut i: usize = 0;
                while i < members.len()
                    invariant
                        i <= members.len(),
                        entries@.len() == i,
                        field@ == Slot::Found(JsonModel::Object(model)),
                        model.len() == members@.len(),
                        forall|j: int|
                            0 <= j < members@.len() ==> model[j] == (
                                members@[j].0@,
                                members@[j].1@,
                            ),
                        forall|j: int|
                            0 <= j < i ==> T::fits(Slot::Found((#[trigger] model[j]).1)),
                        forall|j: int|
                            0 <= j < i ==> (#[trigger] entries@[j]).0@ == model[j].0
                                && entries@[j].1.reads(Slot::Found(model[j].1)),
                    decreases members.len() - i,
                {
                    let item = Field::Found(&members[i].1);
                    match T::read(&item) {
                        Some(x) => {
                            entries.push((members[i].0.clone(), x));
                        },
                        None => {
                            assert(!T::fits(Slot::Found(model[i as int].1)));
                            assert(field@->Found_0->Object_0 == model);
                            return None;
                        },
                    }
                    i += 1;
                }
                Some(JsonMap { entries })
            },
            _ => None,
        }
    }
}

} // verus!
