//! `SmallInteger`: a 64-bit signed integer as an object.
//!
//! Arithmetic is checked: a result that does not fit is reported, never
//! wrapped. Every result is a new object; the operands stay as they are.

use vstd::prelude::*;
use crate::error::ObjectError;
use crate::identity::{issues_for, IdentityAllocator, ObjectId};
use crate::object::{value_equal, AnyValue, ObjectProtocol, SmalltalkObject};
use crate::text::{decimal, signed_to_decimal};

verus! {

/// Whether `v` can be the payload of a `SmallInteger`.
pub open spec fn fits(v: int) -> bool {
    i64::MIN <= v <= i64::MAX
}

/// An integer object. Its view is the payload.
#[derive(Debug)]
pub struct SmallInteger {
    id: ObjectId,
    value: i64,
}

impl View for SmallInteger {
    type V = i64;

    closed spec fn view(&self) -> i64 {
        self.value
    }
}

impl Clone for SmallInteger {
    /// The copy is the same object: it keeps identity and payload.
    fn clone(&self) -> (copy: Self)
        ensures
            copy == *self,
    {
        SmallInteger { id: self.id, value: self.value }
    }
}

impl SmallInteger {
    /// A new integer object that holds `value`, with a fresh identity from
    /// `ids`.
    pub fn new(value: i64, ids: &mut IdentityAllocator) -> (r: Result<SmallInteger, ObjectError>)
        ensures
            final(ids).wf(),
            match r {
                Ok(object) => object@ == value && issues_for(
                    *old(ids),
                    *final(ids),
                    object.identity(),
                    AnyValue::SmallInteger(value),
                ),
                Err(e) => e == ObjectError::IdentityExhausted && old(ids).exhausted()
                    && *final(ids) == *old(ids),
            },
    {
        match ObjectId::new(ids) {
            Ok(id) => {
                ids.record(id, Ghost(AnyValue::SmallInteger(value)));
                Ok(SmallInteger { id, value })
            },
            Err(e) => Err(e),
        }
    }

    /// The payload.
    pub fn value(&self) -> (v: i64)
        ensures
            v == self@,
    {
        self.value
    }

    /// The sum of the receiver and `other`, as a new object.
    ///
    /// A sum that does not fit in 64 bits is an `ArithmeticOverflow`. A sum
    /// that fits, with no identity left for it, is an `IdentityExhausted`.
    /// In both cases `ids` stays as it was.
    pub fn add(&self, other: &SmallInteger, ids: &mut IdentityAllocator) -> (r: Result<
        SmallInteger,
        ObjectError,
    >)
        ensures
            final(ids).wf(),
            produces(self@ + other@, *old(ids), *final(ids), r),
    {
        proof {
            use_type_invariant(&*ids);
        }
        match self.value.checked_add(other.value) {
            Some(sum) => SmallInteger::new(sum, ids),
            None => Err(ObjectError::ArithmeticOverflow),
        }
    }

    /// The difference of the receiver and `other`, as a new object.
    ///
    /// A difference that does not fit in 64 bits is an `ArithmeticOverflow`.
    /// A difference that fits, with no identity left for it, is an
    /// `IdentityExhausted`. In both cases `ids` stays as it was.
    pub fn subtract(&self, other: &SmallInteger, ids: &mut IdentityAllocator) -> (r: Result<
        SmallInteger,
        ObjectError,
    >)
        ensures
            final(ids).wf(),
            produces(self@ - other@, *old(ids), *final(ids), r),
    {
        proof {
            use_type_invariant(&*ids);
        }
        match self.value.checked_sub(other.value) {
            Some(difference) => SmallInteger::new(difference, ids),
            None => Err(ObjectError::ArithmeticOverflow),
        }
    }

    /// Whether the receiver is strictly less than `other`.
    pub fn less_than(&self, other: &SmallInteger) -> (less: bool)
        ensures
            less == (self@ < other@),
    {
        self.value < other.value
    }
}

/// What an arithmetic operation whose exact result is `exact` hands back,
/// and what it does to the allocator.
///
/// It succeeds if and only if `exact` fits and an identity is left; the new
/// object then holds `exact` under the identity that was next. It reports
/// an overflow if and only if `exact` does not fit, and exhaustion if and
/// only if `exact` fits and no identity is left. The overflow is looked for
/// first. On an error the allocator has not changed.
pub open spec fn produces(
    exact: int,
    before: IdentityAllocator,
    after: IdentityAllocator,
    r: Result<SmallInteger, ObjectError>,
) -> bool {
    match r {
        Ok(object) => {
            &&& fits(exact)
            &&& object@ == exact
            &&& issues_for(before, after, object.identity(), AnyValue::SmallInteger(object@))
        },
        Err(ObjectError::ArithmeticOverflow) => !fits(exact) && after == before,
        Err(ObjectError::IdentityExhausted) => fits(exact) && before.exhausted() && after == before,
    }
}

impl SmalltalkObject for SmallInteger {
    closed spec fn identity(&self) -> ObjectId {
        self.id
    }

    open spec fn any_value(&self) -> AnyValue {
        AnyValue::SmallInteger(self@)
    }

    fn object_id(&self) -> (id: ObjectId) {
        self.id
    }

    fn as_any(&self) -> (any: AnyValue) {
        AnyValue::SmallInteger(self.value)
    }
}

impl ObjectProtocol for SmallInteger {
    open spec fn equal_by_identity(&self) -> bool {
        false
    }

    open spec fn labelled_by_default(&self) -> bool {
        false
    }

    open spec fn kind_name_spec(&self) -> &'static str {
        "SmallInteger"
    }

    fn kind_name(&self) -> (name: &'static str) {
        "SmallInteger"
    }

    /// An integer equals the integers that hold the same payload, and
    /// nothing else.
    fn equals(&self, other: &dyn SmalltalkObject) -> (equal: bool)
        ensures
            equal == value_equal(self.any_value(), other.any_value()),
            equal == (other.any_value() == AnyValue::SmallInteger(self@)),
    {
        match other.as_any() {
            AnyValue::SmallInteger(payload) => self.value == payload,
            _ => false,
        }
    }

    /// Renders the payload in decimal, with a leading minus sign if it is
    /// negative.
    fn to_smalltalk_string(&self) -> (s: String)
        ensures
            s@ == decimal(self@ as int),
    {
        signed_to_decimal(self.value)
    }
}

} // verus!
