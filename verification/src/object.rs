//! What every object offers: identity, safe discrimination of its kind,
//! equality and a rendering as text.

use vstd::prelude::*;
use vstd::string::StringExecFns;
use crate::identity::{identity_text, IdentityAllocator, ObjectId};

verus! {

/// An object taken as a value of any kind: what it is, together with the
/// payload that value-equality compares.
#[derive(Debug, Clone, Copy, PartialEq, Eq, Structural)]
pub enum AnyValue {
    /// The boolean `true`.
    True,
    /// The boolean `false`.
    False,
    /// An integer, with its payload.
    SmallInteger(i64),
    /// A kind that the kernel does not know.
    Other,
}

impl AnyValue {
    /// One of the two booleans.
    pub open spec fn is_boolean(self) -> bool {
        self == AnyValue::True || self == AnyValue::False
    }

    /// An integer, whatever its payload.
    pub open spec fn is_integer(self) -> bool {
        self is SmallInteger
    }

    /// Both are booleans, or both are integers.
    pub open spec fn same_kind(self, other: AnyValue) -> bool {
        (self.is_boolean() && other.is_boolean()) || (self.is_integer() && other.is_integer())
    }
}

/// Value-equality among the kinds that the kernel knows: the same kind and
/// the same payload. A value of an unknown kind equals nothing by value.
pub open spec fn value_equal(a: AnyValue, b: AnyValue) -> bool {
    a != AnyValue::Other && a == b
}

/// The label of an object that has no rendering of its own: the word `a`,
/// the name of its kind and its identity.
pub open spec fn default_label_text(kind_name: Seq<char>, id: ObjectId) -> Seq<char> {
    seq!['a', ' '] + kind_name + seq![' '] + identity_text(id)
}

/// Builds the label of an object of the kind `kind_name` whose identity is
/// `id`.
pub fn default_label(kind_name: &str, id: ObjectId) -> (s: String)
    ensures
        s@ == default_label_text(kind_name@, id),
{
    proof {
        reveal_strlit("a ");
        reveal_strlit(" ");
    }
    let mut s = String::from_str("a ");
    s.append(kind_name);
    s.append(" ");
    let id_text = id.to_string();
    s.append(id_text.as_str());
    assert(s@ =~= default_label_text(kind_name@, id));
    s
}

/// An object: it has an identity, and it can tell safely of what kind it is.
///
/// This is the part of the capability that another object reads when it
/// compares itself with this one.
pub trait SmalltalkObject {
    /// The identity that the object was constructed with.
    spec fn identity(&self) -> ObjectId;

    /// The object taken as a value of any kind.
    spec fn any_value(&self) -> AnyValue;

    /// The object's own identity.
    fn object_id(&self) -> (id: ObjectId)
        ensures
            id == self.identity(),
    ;

    /// Tells the object's kind and payload. For an object of another kind
    /// than the caller hoped for this is an ordinary answer, not a failure.
    fn as_any(&self) -> (any: AnyValue)
        ensures
            any == self.any_value(),
    ;
}

/// The messages that every object answers. Equality and rendering have
/// defaults that go by identity; a kind may replace them with its own, and
/// says so.
pub trait ObjectProtocol: SmalltalkObject {
    /// Holds of a kind that leaves `equals` to identity, as the default
    /// does. A kind with an equality of its own says `false`.
    open spec fn equal_by_identity(&self) -> bool {
        true
    }

    /// Holds of a kind that keeps the default label as its rendering. A
    /// kind with a rendering of its own says `false`.
    open spec fn labelled_by_default(&self) -> bool {
        true
    }

    /// The name of the object's kind.
    spec fn kind_name_spec(&self) -> &'static str;

    /// The name of the object's kind.
    fn kind_name(&self) -> (name: &'static str)
        ensures
            name == self.kind_name_spec(),
    ;

    /// Identity-equality: both are the same constructed instance.
    fn is_identical(&self, other: &dyn SmalltalkObject) -> (same: bool)
        ensures
            same == (self.identity() == other.identity()),
    {
        self.object_id() == other.object_id()
    }

    /// Value-equality. Unless the kind has its own, it is identity-equality.
    fn equals(&self, other: &dyn SmalltalkObject) -> (equal: bool)
        ensures
            self.equal_by_identity() ==> equal == (self.identity() == other.identity()),
    {
        self.object_id() == other.object_id()
    }

    /// The object as text. Unless the kind renders itself, it is the default
    /// label, made of the name of the kind and the identity.
    fn to_smalltalk_string(&self) -> (s: String)
        ensures
            self.labelled_by_default() ==> s@ == default_label_text(
                self.kind_name_spec()@,
                self.identity(),
            ),
    {
        default_label(self.kind_name(), self.object_id())
    }
}

/// Value-equality is reflexive and symmetric: a kernel object equals
/// itself, and `x` equals `y` exactly when `y` equals `x`.
pub proof fn lemma_equality_reflexive_symmetric<X: SmalltalkObject, Y: SmalltalkObject>(
    x: &X,
    y: &Y,
)
    requires
        x.any_value() != AnyValue::Other,
    ensures
        value_equal(x.any_value(), x.any_value()),
        value_equal(x.any_value(), y.any_value()) == value_equal(y.any_value(), x.any_value()),
{
}

/// Value-equality is transitive.
pub proof fn lemma_equality_transitive<
    X: SmalltalkObject,
    Y: SmalltalkObject,
    Z: SmalltalkObject,
>(x: &X, y: &Y, z: &Z)
    requires
        value_equal(x.any_value(), y.any_value()),
        value_equal(y.any_value(), z.any_value()),
    ensures
        value_equal(x.any_value(), z.any_value()),
{
}

/// Objects of different kinds are never equal by value, in either
/// direction: a boolean never equals an integer, and an object of a kind
/// that the kernel does not know equals no kernel object.
pub proof fn lemma_different_kinds_unequal<X: SmalltalkObject, Y: SmalltalkObject>(x: &X, y: &Y)
    requires
        !x.any_value().same_kind(y.any_value()),
    ensures
        !value_equal(x.any_value(), y.any_value()),
        !value_equal(y.any_value(), x.any_value()),
{
}

/// Identity implies equality: two kernel objects that one allocator has on
/// record, and that carry the same identity, are equal by value. The
/// converse does not hold, since equal objects may carry different
/// identities.
pub proof fn lemma_identical_implies_equal<X: SmalltalkObject, Y: SmalltalkObject>(
    ids: IdentityAllocator,
    x: &X,
    y: &Y,
)
    requires
        x.any_value() != AnyValue::Other,
        ids.registry().contains_pair(x.identity(), x.any_value()),
        ids.registry().contains_pair(y.identity(), y.any_value()),
        x.identity() == y.identity(),
    ensures
        value_equal(x.any_value(), y.any_value()),
{
}

} // verus!
