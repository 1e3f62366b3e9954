use smalltalkrs::error::ObjectError;
use smalltalkrs::identity::{IdentityAllocator, ObjectId};
use smalltalkrs::object::{AnyValue, ObjectProtocol, SmalltalkObject};
use smalltalkrs::small_integer::SmallInteger;

#[test]
fn test_small_integer_creation() {
    let mut ids = IdentityAllocator::new();
    let num = SmallInteger::new(42, &mut ids).unwrap();
    assert_eq!(num.value(), 42);
}

#[test]
fn test_small_integer_unique_ids() {
    let mut ids = IdentityAllocator::new();
    let num1 = SmallInteger::new(42, &mut ids).unwrap();
    let num2 = SmallInteger::new(42, &mut ids).unwrap();

    // Same values but different object identities
    assert_ne!(num1.object_id(), num2.object_id());
}

#[test]
fn test_small_integer_addition() {
    let mut ids = IdentityAllocator::new();
    let a = SmallInteger::new(3, &mut ids).unwrap();
    let b = SmallInteger::new(4, &mut ids).unwrap();
    let result = a.add(&b, &mut ids).unwrap();

    assert_eq!(result.value(), 7);
}

#[test]
fn test_small_integer_subtraction() {
    let mut ids = IdentityAllocator::new();
    let a = SmallInteger::new(10, &mut ids).unwrap();
    let b = SmallInteger::new(3, &mut ids).unwrap();
    let result = a.subtract(&b, &mut ids).unwrap();

    assert_eq!(result.value(), 7);
}

#[test]
fn test_small_integer_subtraction_negative() {
    let mut ids = IdentityAllocator::new();
    let a = SmallInteger::new(3, &mut ids).unwrap();
    let b = SmallInteger::new(10, &mut ids).unwrap();
    let result = a.subtract(&b, &mut ids).unwrap();

    assert_eq!(result.value(), -7);
}

#[test]
fn test_small_integer_less_than() {
    let mut ids = IdentityAllocator::new();
    let a = SmallInteger::new(3, &mut ids).unwrap();
    let b = SmallInteger::new(5, &mut ids).unwrap();
    let c = SmallInteger::new(3, &mut ids).unwrap();

    assert!(a.less_than(&b));
    assert!(!b.less_than(&a));
    assert!(!a.less_than(&c)); // Equal values
}

#[test]
fn test_small_integer_equality() {
    let mut ids = IdentityAllocator::new();
    let a = SmallInteger::new(42, &mut ids).unwrap();
    let b = SmallInteger::new(42, &mut ids).unwrap();
    let c = SmallInteger::new(24, &mut ids).unwrap();

    // Same values are equal
    assert!(a.equals(&b));
    assert!(b.equals(&a));

    // Different values are not equal
    assert!(!a.equals(&c));

    // Self equality
    assert!(a.equals(&a));
}

#[test]
fn test_small_integer_identity_vs_equality() {
    let mut ids = IdentityAllocator::new();
    let a = SmallInteger::new(42, &mut ids).unwrap();
    let b = SmallInteger::new(42, &mut ids).unwrap();

    // Equal but not identical (different objects)
    assert!(a.equals(&b));
    assert!(!a.is_identical(&b));

    // Identical to self
    assert!(a.is_identical(&a));
}

#[test]
fn test_small_integer_to_string() {
    let mut ids = IdentityAllocator::new();
    let num = SmallInteger::new(42, &mut ids).unwrap();
    assert_eq!(num.to_smalltalk_string(), "42");

    let negative = SmallInteger::new(-17, &mut ids).unwrap();
    assert_eq!(negative.to_smalltalk_string(), "-17");

    let zero = SmallInteger::new(0, &mut ids).unwrap();
    assert_eq!(zero.to_smalltalk_string(), "0");
}

#[test]
fn test_operations_dont_mutate_original() {
    let mut ids = IdentityAllocator::new();
    let original = SmallInteger::new(5, &mut ids).unwrap();
    let other = SmallInteger::new(3, &mut ids).unwrap();

    let sum = original.add(&other, &mut ids).unwrap();
    let diff = original.subtract(&other, &mut ids).unwrap();

    // The operands keep their payloads
    assert_eq!(original.value(), 5);
    assert_eq!(other.value(), 3);

    // New objects created
    assert_eq!(sum.value(), 8);
    assert_eq!(diff.value(), 2);
}

#[derive(Debug)]
struct NotAnInteger {
    id: ObjectId,
}

impl NotAnInteger {
    fn new(ids: &mut IdentityAllocator) -> Self {
        Self { id: ObjectId::new(ids).unwrap() }
    }
}

impl SmalltalkObject for NotAnInteger {
    fn identity(&self) -> ObjectId {
        self.id
    }

    fn any_value(&self) -> AnyValue {
        AnyValue::Other
    }

    fn object_id(&self) -> ObjectId {
        self.id
    }

    fn as_any(&self) -> AnyValue {
        AnyValue::Other
    }
}

impl ObjectProtocol for NotAnInteger {
    fn kind_name_spec(&self) -> &'static str {
        "NotAnInteger"
    }

    fn kind_name(&self) -> &'static str {
        "NotAnInteger"
    }
}

#[test]
fn test_equals_with_non_smallinteger() {
    let mut ids = IdentityAllocator::new();
    let num = SmallInteger::new(42, &mut ids).unwrap();
    let not_num = NotAnInteger::new(&mut ids);

    // SmallInteger should not equal non-SmallInteger objects
    assert!(!num.equals(&not_num));
}

#[test]
fn test_addition_overflow_is_reported() {
    let mut ids = IdentityAllocator::new();
    let max = SmallInteger::new(i64::MAX, &mut ids).unwrap();
    let one = SmallInteger::new(1, &mut ids).unwrap();
    let min = SmallInteger::new(i64::MIN, &mut ids).unwrap();
    let minus_one = SmallInteger::new(-1, &mut ids).unwrap();

    assert_eq!(max.add(&one, &mut ids).unwrap_err(), ObjectError::ArithmeticOverflow);
    assert_eq!(min.add(&minus_one, &mut ids).unwrap_err(), ObjectError::ArithmeticOverflow);
    assert_eq!(max.add(&minus_one, &mut ids).unwrap().value(), i64::MAX - 1);
    assert_eq!(max.add(&min, &mut ids).unwrap().value(), -1);
}

#[test]
fn test_subtraction_overflow_is_reported() {
    let mut ids = IdentityAllocator::new();
    let max = SmallInteger::new(i64::MAX, &mut ids).unwrap();
    let one = SmallInteger::new(1, &mut ids).unwrap();
    let min = SmallInteger::new(i64::MIN, &mut ids).unwrap();
    let zero = SmallInteger::new(0, &mut ids).unwrap();
    let minus_one = SmallInteger::new(-1, &mut ids).unwrap();

    assert_eq!(min.subtract(&one, &mut ids).unwrap_err(), ObjectError::ArithmeticOverflow);
    assert_eq!(max.subtract(&minus_one, &mut ids).unwrap_err(), ObjectError::ArithmeticOverflow);
    assert_eq!(zero.subtract(&min, &mut ids).unwrap_err(), ObjectError::ArithmeticOverflow);
    assert_eq!(min.subtract(&minus_one, &mut ids).unwrap().value(), i64::MIN + 1);
    assert_eq!(minus_one.subtract(&min, &mut ids).unwrap().value(), i64::MAX);
}

#[test]
fn test_failed_arithmetic_leaves_the_allocator_alone() {
    let mut ids = IdentityAllocator::new();
    let max = SmallInteger::new(i64::MAX, &mut ids).unwrap();
    let one = SmallInteger::new(1, &mut ids).unwrap();
    assert!(max.add(&one, &mut ids).is_err());
    // The two objects above took 1 and 2; the failed sum took nothing.
    let next = SmallInteger::new(0, &mut ids).unwrap();
    assert_eq!(next.object_id().value(), 3);
}

#[test]
fn test_result_of_arithmetic_is_a_new_object() {
    let mut ids = IdentityAllocator::new();
    let a = SmallInteger::new(3, &mut ids).unwrap();
    let b = SmallInteger::new(0, &mut ids).unwrap();
    let sum = a.add(&b, &mut ids).unwrap();
    assert!(sum.equals(&a));
    assert!(!sum.is_identical(&a));
    assert!(!sum.is_identical(&b));
    assert_eq!(sum.object_id().value(), 3);
}

#[test]
fn test_small_integer_rendering_matches_std() {
    let mut ids = IdentityAllocator::new();
    let samples: [i64; 13] = [
        0,
        1,
        -1,
        9,
        10,
        -10,
        99,
        100,
        1234567890,
        -987654321,
        i64::MAX,
        i64::MIN,
        i64::MIN + 1,
    ];
    for v in samples {
        let n = SmallInteger::new(v, &mut ids).unwrap();
        assert_eq!(n.to_smalltalk_string(), v.to_string());
    }
    let min = SmallInteger::new(i64::MIN, &mut ids).unwrap();
    assert_eq!(min.to_smalltalk_string(), "-9223372036854775808");
    let max = SmallInteger::new(i64::MAX, &mut ids).unwrap();
    assert_eq!(max.to_smalltalk_string(), "9223372036854775807");
}

#[test]
fn test_small_integer_never_equals_a_boolean() {
    let mut ids = IdentityAllocator::new();
    let one = SmallInteger::new(1, &mut ids).unwrap();
    let zero = SmallInteger::new(0, &mut ids).unwrap();
    let t = smalltalkrs::boolean::True::new(&mut ids).unwrap();
    let f = smalltalkrs::boolean::False::new(&mut ids).unwrap();
    assert!(!t.equals(&one));
    assert!(!one.equals(&t));
    assert!(!f.equals(&zero));
    assert!(!zero.equals(&f));
}

#[test]
fn test_small_integer_clone_is_the_same_object() {
    let mut ids = IdentityAllocator::new();
    let a = SmallInteger::new(-5, &mut ids).unwrap();
    let b = a.clone();
    assert!(a.is_identical(&b));
    assert!(a.equals(&b));
    assert_eq!(b.value(), -5);
}

#[test]
fn test_small_integer_kind_and_any_value() {
    let mut ids = IdentityAllocator::new();
    let a = SmallInteger::new(-5, &mut ids).unwrap();
    assert_eq!(a.as_any(), AnyValue::SmallInteger(-5));
    assert_eq!(a.kind_name(), "SmallInteger");
}

#[test]
fn test_arithmetic_reports_exhaustion_after_overflow() {
    let mut ids = IdentityAllocator::starting_at(u64::MAX - 2).unwrap();
    let max = SmallInteger::new(i64::MAX, &mut ids).unwrap();
    let one = SmallInteger::new(1, &mut ids).unwrap();
    // No identity is left now.
    assert_eq!(one.add(&one, &mut ids).unwrap_err(), ObjectError::IdentityExhausted);
    assert_eq!(one.subtract(&one, &mut ids).unwrap_err(), ObjectError::IdentityExhausted);
    // A result that does not fit is reported as such, exhausted or not.
    assert_eq!(max.add(&one, &mut ids).unwrap_err(), ObjectError::ArithmeticOverflow);
    let min = max.clone();
    assert_eq!(
        one.subtract(&min, &mut ids).unwrap_err(),
        ObjectError::IdentityExhausted
    );
}
