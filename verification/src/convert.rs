//! The conversion protocol: one capability, [`IntoChild`], that turns a
//! value of any supported type into a [`Child`], given the ambient reactive
//! context. Selection among the rules is by the static type of the input;
//! the only generic rules are the one for optional values and the blanket
//! one for zero-argument callables.

use vstd::prelude::*;

use crate::child::child_eq;
use crate::child::node_views;
use crate::child::Child;
use crate::child::ReactiveCell;
use crate::node::Node;
use crate::text::bool_str;
use crate::text::dec_str;
use crate::text::dec_str_int;
use crate::text::bool_to_string;
use crate::text::char_to_string;
use crate::text::signed_to_string;
use crate::text::unsigned_to_string;

verus! {

/// An opaque handle to the ambient reactive context. Conversions thread it
/// through to nested conversions (in particular into the closure of a
/// `Reactive` child) and never inspect it.
#[derive(Clone, Copy)]
pub struct Scope {
    _private: (),
}

impl Scope {
    /// A context handle for callers outside any reactive system.
    pub fn new() -> Scope {
        Scope { _private: () }
    }
}

/// What a conversion is specified to produce: the shape of the resulting
/// [`Child`], stated over mathematical values. A fresh `Reactive` cell has
/// no describable identity, so the callable rule promises only its variant.
pub enum ChildShape {
    /// The result equals this child (the identity rule).
    Exact(Child),
    /// The result is `Empty`.
    IsEmpty,
    /// The result is `Text` holding exactly these characters.
    TextIs(Seq<char>),
    /// The result is `Node` whose serialization is exactly this.
    NodeIs(Seq<char>),
    /// The result is `NodeList` whose nodes serialize, in order, to exactly
    /// these strings.
    NodeListIs(Seq<Seq<char>>),
    /// The result is `Reactive`.
    IsReactive,
}

/// Whether a child has the given shape.
pub open spec fn shape_fits(r: Child, s: ChildShape) -> bool {
    match s {
        ChildShape::Exact(c) => child_eq(r, c),
        ChildShape::IsEmpty => r is Empty,
        ChildShape::TextIs(t) => r matches Child::Text(x) && x@ == t,
        ChildShape::NodeIs(t) => r matches Child::Node(n) && n@ == t,
        ChildShape::NodeListIs(ts) => r matches Child::NodeList(ns) && node_views(ns@) == ts,
        ChildShape::IsReactive => r is Reactive,
    }
}

/// Converts some type into a [`Child`].
///
/// The conversion is total: it returns a child for every value of every
/// implementing type, and the result always has the shape [`Self::child_shape`]
/// gives for the input.
pub trait IntoChild: Sized {
    /// The shape of the child this value converts to.
    spec fn child_shape(self) -> ChildShape;

    /// Converts the object into a [`Child`].
    fn into_child(self, cx: Scope) -> (r: Child)
        ensures
            shape_fits(r, self.child_shape()),
    ;
}

/// Law: a conversion specified to yield text serializes to exactly that
/// text, so a primitive's conversion serializes to the primitive's
/// canonical string representation.
pub proof fn lemma_text_shape_serializes(r: Child, t: Seq<char>)
    requires
        shape_fits(r, ChildShape::TextIs(t)),
    ensures
        crate::child::terminal(r),
        crate::child::serial_spec(r) == t,
{
}

/// Law: a conversion specified to yield emptiness serializes to the empty
/// string, and any two such results are equal children.
pub proof fn lemma_empty_shape_serializes(r: Child, other: Child)
    requires
        shape_fits(r, ChildShape::IsEmpty),
        shape_fits(other, ChildShape::IsEmpty),
    ensures
        crate::child::terminal(r),
        crate::child::serial_spec(r) == Seq::<char>::empty(),
        child_eq(r, other),
{
}

/// Law: a conversion specified to yield a node list serializes to the
/// nodes' serializations concatenated in the given order.
pub proof fn lemma_node_list_shape_serializes(r: Child, ts: Seq<Seq<char>>)
    requires
        shape_fits(r, ChildShape::NodeListIs(ts)),
    ensures
        crate::child::terminal(r),
        r matches Child::NodeList(ns) && node_views(ns@) == ts && crate::child::serial_spec(r)
            == crate::child::nodes_serial(ns@),
{
}

/// Law: converting a list of nodes is specified to keep the input order
/// exactly: the result's node serializations are the inputs', in order.
pub proof fn lemma_list_conversion_preserves_order(v: Vec<Node>)
    ensures
        v.child_shape() == ChildShape::NodeListIs(node_views(v@)),
{
}

/// Law: converting an optional with a value present is specified exactly as
/// converting the value itself; the optional layer is transparent.
pub proof fn lemma_option_transparent<T: IntoChild>(x: T)
    ensures
        Option::Some(x).child_shape() == x.child_shape(),
{
}

/// Law: converting an optional with no value present is specified as
/// emptiness, whatever the inner type.
pub proof fn lemma_none_is_empty<T: IntoChild>()
    ensures
        Option::<T>::None.child_shape() == ChildShape::IsEmpty,
{
}

/// Law: a nested optional whose inner optional holds no value resolves to
/// emptiness after full recursive resolution.
pub proof fn lemma_nested_option_empty<T: IntoChild>()
    ensures
        Option::<Option<T>>::Some(Option::<T>::None).child_shape() == ChildShape::IsEmpty,
{
}

impl IntoChild for Child {
    open spec fn child_shape(self) -> ChildShape {
        ChildShape::Exact(self)
    }

    fn into_child(self, _cx: Scope) -> (r: Child) {
        proof {
            crate::child::lemma_child_eq_reflexive(self);
        }
        self
    }
}

impl IntoChild for () {
    open spec fn child_shape(self) -> ChildShape {
        ChildShape::IsEmpty
    }

    fn into_child(self, _cx: Scope) -> (r: Child) {
        Child::Empty
    }
}

impl IntoChild for String {
    open spec fn child_shape(self) -> ChildShape {
        ChildShape::TextIs(self@)
    }

    fn into_child(self, _cx: Scope) -> (r: Child) {
        Child::Text(self)
    }
}

impl IntoChild for &String {
    open spec fn child_shape(self) -> ChildShape {
        ChildShape::TextIs(self@)
    }

    fn into_child(self, _cx: Scope) -> (r: Child) {
        Child::Text(self.clone())
    }
}

impl IntoChild for &str {
    open spec fn child_shape(self) -> ChildShape {
        ChildShape::TextIs(self@)
    }

    fn into_child(self, _cx: Scope) -> (r: Child) {
        Child::Text(self.to_owned())
    }
}

impl IntoChild for usize {
    open spec fn child_shape(self) -> ChildShape {
        ChildShape::TextIs(dec_str(self as nat))
    }

    fn into_child(self, _cx: Scope) -> (r: Child) {
        Child::Text(unsigned_to_string(self as u128))
    }
}

impl IntoChild for u8 {
    open spec fn child_shape(self) -> ChildShape {
        ChildShape::TextIs(dec_str(self as nat))
    }

    fn into_child(self, _cx: Scope) -> (r: Child) {
        Child::Text(unsigned_to_string(self as u128))
    }
}

impl IntoChild for u16 {
    open spec fn child_shape(self) -> ChildShape {
        ChildShape::TextIs(dec_str(self as nat))
    }

    fn into_child(self, _cx: Scope) -> (r: Child) {
        Child::Text(unsigned_to_string(self as u128))
    }
}

impl IntoChild for u32 {
    open spec fn child_shape(self) -> ChildShape {
        ChildShape::TextIs(dec_str(self as nat))
    }

    fn into_child(self, _cx: Scope) -> (r: Child) {
        Child::Text(unsigned_to_string(self as u128))
    }
}

impl IntoChild for u64 {
    open spec fn child_shape(self) -> ChildShape {
        ChildShape::TextIs(dec_str(self as nat))
    }

    fn into_child(self, _cx: Scope) -> (r: Child) {
        Child::Text(unsigned_to_string(self as u128))
    }
}

impl IntoChild for u128 {
    open spec fn child_shape(self) -> ChildShape {
        ChildShape::TextIs(dec_str(self as nat))
    }

    fn into_child(self, _cx: Scope) -> (r: Child) {
        Child::Text(unsigned_to_string(self))
    }
}

impl IntoChild for isize {
    open spec fn child_shape(self) -> ChildShape {
        ChildShape::TextIs(dec_str_int(self as int))
    }

    fn into_child(self, _cx: Scope) -> (r: Child) {
        Child::Text(signed_to_string(self as i128))
    }
}

impl IntoChild for i8 {
    open spec fn child_shape(self) -> ChildShape {
        ChildShape::TextIs(dec_str_int(self as int))
    }

    fn into_child(self, _cx: Scope) -> (r: Child) {
        Child::Text(signed_to_string(self as i128))
    }
}

impl IntoChild for i16 {
    open spec fn child_shape(self) -> ChildShape {
        ChildShape::TextIs(dec_str_int(self as int))
    }

    fn into_child(self, _cx: Scope) -> (r: Child) {
        Child::Text(signed_to_string(self as i128))
    }
}

impl IntoChild for i32 {
    open spec fn child_shape(self) -> ChildShape {
        ChildShape::TextIs(dec_str_int(self as int))
    }

    fn into_child(self, _cx: Scope) -> (r: Child) {
        Child::Text(signed_to_string(self as i128))
    }
}

impl IntoChild for i64 {
    open spec fn child_shape(self) -> ChildShape {
        ChildShape::TextIs(dec_str_int(self as int))
    }

    fn into_child(self, _cx: Scope) -> (r: Child) {
        Child::Text(signed_to_string(self as i128))
    }
}

impl IntoChild for i128 {
    open spec fn child_shape(self) -> ChildShape {
        ChildShape::TextIs(dec_str_int(self as int))
    }

    fn into_child(self, _cx: Scope) -> (r: Child) {
        Child::Text(signed_to_string(self))
    }
}

impl IntoChild for char {
    open spec fn child_shape(self) -> ChildShape {
        ChildShape::TextIs(seq![self])
    }

    fn into_child(self, _cx: Scope) -> (r: Child) {
        Child::Text(char_to_string(self))
    }
}

impl IntoChild for bool {
    open spec fn child_shape(self) -> ChildShape {
        ChildShape::TextIs(bool_str(self))
    }

    fn into_child(self, _cx: Scope) -> (r: Child) {
        Child::Text(bool_to_string(self))
    }
}

impl IntoChild for Node {
    open spec fn child_shape(self) -> ChildShape {
        ChildShape::NodeIs(self@)
    }

    fn into_child(self, _cx: Scope) -> (r: Child) {
        Child::Node(self)
    }
}

impl IntoChild for Vec<Node> {
    open spec fn child_shape(self) -> ChildShape {
        ChildShape::NodeListIs(node_views(self@))
    }

    fn into_child(self, _cx: Scope) -> (r: Child) {
        Child::NodeList(self)
    }
}

impl<T: IntoChild> IntoChild for Option<T> {
    open spec fn child_shape(self) -> ChildShape {
        match self {
            Option::Some(v) => v.child_shape(),
            Option::None => ChildShape::IsEmpty,
        }
    }

    fn into_child(self, cx: Scope) -> (r: Child) {
        match self {
            Option::Some(v) => v.into_child(cx),
            Option::None => Child::Empty,
        }
    }
}

impl<T, U> IntoChild for T where T: FnMut() -> U + 'static, U: IntoChild {
    open spec fn child_shape(self) -> ChildShape {
        ChildShape::IsReactive
    }

    fn into_child(self, cx: Scope) -> (r: Child) {
        Child::Reactive(ReactiveCell::from_callable(self, cx))
    }
}

} // verus!
