//! The two booleans, `True` and `False`, and their eager truth tables.
//!
//! Each constructed boolean has an identity of its own. What makes two
//! `True` objects the same truth value is value-equality, not identity.

use vstd::prelude::*;
use vstd::string::StringExecFns;
use crate::error::ObjectError;
use crate::identity::{issues_for, IdentityAllocator, ObjectId};
use crate::object::{value_equal, AnyValue, ObjectProtocol, SmalltalkObject};

verus! {

/// Anything that stands for a truth value. This is what a boolean reads of
/// the operand of `and` and `or`.
pub trait TruthValue {
    /// The truth value that the object stands for.
    spec fn truth(&self) -> bool;

    /// Whether the object stands for true.
    fn is_true(&self) -> (t: bool)
        ensures
            t == self.truth(),
    ;
}

/// The logical operations that both booleans answer. The operand is
/// evaluated already: nothing is deferred.
pub trait BooleanObject: TruthValue {
    /// Conjunction of the receiver and `other`.
    fn and(&self, other: &dyn TruthValue) -> (r: bool)
        ensures
            r == (self.truth() && other.truth()),
    ;

    /// Disjunction of the receiver and `other`.
    fn or(&self, other: &dyn TruthValue) -> (r: bool)
        ensures
            r == (self.truth() || other.truth()),
    ;

    /// Negation of the receiver.
    fn not(&self) -> (r: bool)
        ensures
            r == !self.truth(),
    ;
}

/// The boolean `true`.
#[derive(Debug)]
pub struct True {
    id: ObjectId,
}

impl Clone for True {
    /// The copy is the same object: it keeps the identity.
    fn clone(&self) -> (copy: Self)
        ensures
            copy == *self,
    {
        True { id: self.id }
    }
}

impl True {
    /// A new `True` object, with a fresh identity from `ids`.
    pub fn new(ids: &mut IdentityAllocator) -> (r: Result<True, ObjectError>)
        ensures
            final(ids).wf(),
            match r {
                Ok(object) => issues_for(*old(ids), *final(ids), object.identity(), AnyValue::True),
                Err(e) => e == ObjectError::IdentityExhausted && old(ids).exhausted()
                    && *final(ids) == *old(ids),
            },
    {
        match ObjectId::new(ids) {
            Ok(id) => {
                ids.record(id, Ghost(AnyValue::True));
                Ok(True { id })
            },
            Err(e) => Err(e),
        }
    }

    /// Always true.
    pub fn is_true(&self) -> (t: bool)
        ensures
            t,
    {
        true
    }

    /// `true and: x` is `x`.
    pub fn and<B: TruthValue + ?Sized>(&self, other: &B) -> (r: bool)
        ensures
            r == other.truth(),
    {
        other.is_true()
    }

    /// `true or: x` is true, whatever `x` is.
    pub fn or<B: TruthValue + ?Sized>(&self, _other: &B) -> (r: bool)
        ensures
            r,
    {
        true
    }

    /// `true not` is false.
    pub fn not(&self) -> (r: bool)
        ensures
            !r,
    {
        false
    }
}

/// The boolean `false`.
#[derive(Debug)]
pub struct False {
    id: ObjectId,
}

impl Clone for False {
    /// The copy is the same object: it keeps the identity.
    fn clone(&self) -> (copy: Self)
        ensures
            copy == *self,
    {
        False { id: self.id }
    }
}

impl False {
    /// A new `False` object, with a fresh identity from `ids`.
    pub fn new(ids: &mut IdentityAllocator) -> (r: Result<False, ObjectError>)
        ensures
            final(ids).wf(),
            match r {
                Ok(object) => issues_for(
                    *old(ids),
                    *final(ids),
                    object.identity(),
                    AnyValue::False,
                ),
                Err(e) => e == ObjectError::IdentityExhausted && old(ids).exhausted()
                    && *final(ids) == *old(ids),
            },
    {
        match ObjectId::new(ids) {
            Ok(id) => {
                ids.record(id, Ghost(AnyValue::False));
                Ok(False { id })
            },
            Err(e) => Err(e),
        }
    }

    /// Always false.
    pub fn is_true(&self) -> (t: bool)
        ensures
            !t,
    {
        false
    }

    /// `false and: x` is false, whatever `x` is.
    pub fn and<B: TruthValue + ?Sized>(&self, _other: &B) -> (r: bool)
        ensures
            !r,
    {
        false
    }

    /// `false or: x` is `x`.
    pub fn or<B: TruthValue + ?Sized>(&self, other: &B) -> (r: bool)
        ensures
            r == other.truth(),
    {
        other.is_true()
    }

    /// `false not` is true.
    pub fn not(&self) -> (r: bool)
        ensures
            r,
    {
        true
    }
}

impl TruthValue for True {
    open spec fn truth(&self) -> bool {
        true
    }

    fn is_true(&self) -> (t: bool) {
        self.is_true()
    }
}

impl BooleanObject for True {
    fn and(&self, other: &dyn TruthValue) -> (r: bool) {
        self.and(other)
    }

    fn or(&self, other: &dyn TruthValue) -> (r: bool) {
        self.or(other)
    }

    fn not(&self) -> (r: bool) {
        self.not()
    }
}

impl TruthValue for False {
    open spec fn truth(&self) -> bool {
        false
    }

    fn is_true(&self) -> (t: bool) {
        self.is_true()
    }
}

impl BooleanObject for False {
    fn and(&self, other: &dyn TruthValue) -> (r: bool) {
        self.and(other)
    }

    fn or(&self, other: &dyn TruthValue) -> (r: bool) {
        self.or(other)
    }

    fn not(&self) -> (r: bool) {
        self.not()
    }
}

impl SmalltalkObject for True {
    closed spec fn identity(&self) -> ObjectId {
        self.id
    }

    open spec fn any_value(&self) -> AnyValue {
        AnyValue::True
    }

    fn object_id(&self) -> (id: ObjectId) {
        self.id
    }

    fn as_any(&self) -> (any: AnyValue) {
        AnyValue::True
    }
}

impl ObjectProtocol for True {
    open spec fn equal_by_identity(&self) -> bool {
        false
    }

    open spec fn labelled_by_default(&self) -> bool {
        false
    }

    open spec fn kind_name_spec(&self) -> &'static str {
        "True"
    }

    fn kind_name(&self) -> (name: &'static str) {
        "True"
    }

    /// Every `True` equals every other `True`, and nothing else.
    fn equals(&self, other: &dyn SmalltalkObject) -> (equal: bool)
        ensures
            equal == value_equal(self.any_value(), other.any_value()),
            equal == (other.any_value() == AnyValue::True),
    {
        match other.as_any() {
            AnyValue::True => true,
            _ => false,
        }
    }

    /// Renders as `true`.
    fn to_smalltalk_string(&self) -> (s: String)
        ensures
            s@ == "true"@,
    {
        String::from_str("true")
    }
}

impl SmalltalkObject for False {
    closed spec fn identity(&self) -> ObjectId {
        self.id
    }

    open spec fn any_value(&self) -> AnyValue {
        AnyValue::False
    }

    fn object_id(&self) -> (id: ObjectId) {
        self.id
    }

    fn as_any(&self) -> (any: AnyValue) {
        AnyValue::False
    }
}

impl ObjectProtocol for False {
    open spec fn equal_by_identity(&self) -> bool {
        false
    }

    open spec fn labelled_by_default(&self) -> bool {
        false
    }

    open spec fn kind_name_spec(&self) -> &'static str {
        "False"
    }

    fn kind_name(&self) -> (name: &'static str) {
        "False"
    }

    /// Every `False` equals every other `False`, and nothing else.
    fn equals(&self, other: &dyn SmalltalkObject) -> (equal: bool)
        ensures
            equal == value_equal(self.any_value(), other.any_value()),
            equal == (other.any_value() == AnyValue::False),
    {
        match other.as_any() {
            AnyValue::False => true,
            _ => false,
        }
    }

    /// Renders as `false`.
    fn to_smalltalk_string(&self) -> (s: String)
        ensures
            s@ == "false"@,
    {
        String::from_str("false")
    }
}

} // verus!
