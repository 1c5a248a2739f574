//! What a generated accessor does when it is called on a value.
//!
//! A value of an enum is modelled as the name of the variant it holds and the
//! payload of that variant, one entry per field in declared order. An
//! accessor matches on its own variant; on a match it hands out the payload
//! in the shape of its return type, otherwise it returns `None`.
use vstd::prelude::*;

use crate::generate::{Accessor, Shape};

verus! {

/// A value of an enum: the variant it holds and that variant's fields.
#[derive(Debug)]
pub struct Instance<V> {
    /// The name of the variant the value holds.
    pub variant: String,
    /// The variant's fields, in declared order.
    pub fields: Vec<V>,
}

impl<V> Instance<V> {
    /// A value holding the variant `variant` with the given fields.
    pub fn new(variant: &str, fields: Vec<V>) -> (r: Self)
        ensures
            r.variant@ == variant@,
            r.fields@ == fields@,
    {
        Instance { variant: String::from_str(variant), fields }
    }
}

impl Accessor {
    /// Whether this accessor matches the value `value`.
    pub open spec fn matches_value<V>(&self, value: &Instance<V>) -> bool {
        self.variant@ == value.variant@
    }

    /// The field count that a value of this accessor's variant has.
    pub open spec fn arity(&self) -> nat {
        match self.shape {
            Shape::Unit => 0,
            Shape::Single(_) => 1,
            Shape::Tuple(ts) => ts@.len(),
        }
    }

    /// Whether `value`, where it holds this accessor's variant, has the
    /// variant's field count.
    pub open spec fn fits<V>(&self, value: &Instance<V>) -> bool {
        self.matches_value(value) ==> value.fields@.len() == self.arity()
    }

    /// Calls a unit-returning accessor: `Some(())` exactly when the value
    /// holds the accessor's variant.
    pub fn get_unit<V>(&self, value: &Instance<V>) -> (r: Option<()>)
        requires
            self.shape is Unit,
        ensures
            r is Some <==> self.matches_value(value),
    {
        if self.variant == value.variant {
            Some(())
        } else {
            None
        }
    }

    /// Calls a single-field accessor through a shared reference: the field
    /// when the value holds the accessor's variant, `None` otherwise.
    pub fn get_ref<'a, V>(&self, value: &'a Instance<V>) -> (r: Option<&'a V>)
        requires
            self.shape is Single,
            self.fits(value),
        ensures
            r is Some <==> self.matches_value(value),
            r matches Some(x) ==> *x == value.fields@[0],
    {
        if self.variant == value.variant {
            Some(&value.fields[0])
        } else {
            None
        }
    }

    /// Calls a single-field accessor through a mutable reference: a reference
    /// to the field when the value holds the accessor's variant, through which
    /// the field of the value itself is changed; `None` otherwise.
    pub fn get_mut<'a, V>(&self, value: &'a mut Instance<V>) -> (r: Option<&'a mut V>)
        requires
            self.shape is Single,
            self.fits(old(value)),
        ensures
            r is Some <==> self.matches_value(old(value)),
            r matches Some(x) ==> *x == old(value).fields@[0] && final(value).variant
                == old(value).variant && final(value).fields@ == old(value).fields@.update(
                0,
                *final(x),
            ),
            r is None ==> *final(value) == *old(value),
    {
        if self.variant == value.variant {
            Some(&mut value.fields[0])
        } else {
            None
        }
    }

    /// Calls a tuple-returning accessor through a shared reference: all fields
    /// in declared order when the value holds the accessor's variant, `None`
    /// otherwise.
    pub fn get_tuple<'a, V>(&self, value: &'a Instance<V>) -> (r: Option<&'a [V]>)
        requires
            self.shape is Tuple,
            self.fits(value),
        ensures
            r is Some <==> self.matches_value(value),
            r matches Some(xs) ==> xs@ == value.fields@,
    {
        if self.variant == value.variant {
            Some(value.fields.as_slice())
        } else {
            None
        }
    }

    /// Calls a tuple-returning accessor through a mutable reference: one
    /// mutable place per field, in declared order, when the value holds the
    /// accessor's variant; whatever is written there is what the value's
    /// fields hold afterwards. `None` otherwise.
    pub fn get_tuple_mut<'a, V>(&self, value: &'a mut Instance<V>) -> (r: Option<&'a mut [V]>)
        requires
            self.shape is Tuple,
            self.fits(old(value)),
        ensures
            r is Some <==> self.matches_value(old(value)),
            r matches Some(xs) ==> xs@ == old(value).fields@ && final(value).variant
                == old(value).variant && final(value).fields@ == final(xs)@,
            r is None ==> *final(value) == *old(value),
    {
        if self.variant == value.variant {
            Some(value.fields.as_mut_slice())
        } else {
            None
        }
    }
}

} // verus!
