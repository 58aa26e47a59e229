//! The child-content value model: a closed set of variants for everything
//! that can appear as the child content of a UI element, with structural
//! equality, a debug rendering, and string serialization for the
//! non-interactive render path.

use vstd::prelude::*;
use vstd::string::StringExecFns;

use std::cell::RefCell;
use std::rc::Rc;

use crate::node::Node;

verus! {

/// The identity of the shared closure allocation inside a [`ReactiveCell`].
/// Two cells carry the same identity exactly when they share one underlying
/// closure instance.
pub uninterp spec fn cell_id(c: ReactiveCell) -> int;

/// A shared, repeatedly-invocable, zero-argument computation producing the
/// current child content. The closure is held behind a reference-counted,
/// interior-mutable cell so that the render tree and the reactive dependency
/// tracker can both retain and re-invoke the same instance.
#[verifier::external_body]
pub struct ReactiveCell {
    inner: Rc<RefCell<dyn FnMut() -> Child>>,
}

impl ReactiveCell {
    /// Runs the stored closure once and returns the content it produced.
    /// The closure may capture mutable state, so nothing relates one
    /// invocation's result to another's.
    ///
    /// Relies on `RefCell::borrow_mut` to reach the stored closure.
    #[verifier::external_body]
    pub fn invoke(&self) -> (r: Child) {
        (self.inner.borrow_mut())()
    }

    /// True exactly when the two cells share one underlying closure
    /// instance.
    ///
    /// Relies on `Rc::ptr_eq`: true iff both counted pointers address the
    /// same allocation, which is what [`cell_id`] stands for.
    #[verifier::external_body]
    pub fn same_cell(&self, other: &ReactiveCell) -> (r: bool)
        ensures
            r == (cell_id(*self) == cell_id(*other)),
    {
        Rc::ptr_eq(&self.inner, &other.inner)
    }

    /// Allocates a fresh shared cell whose stored closure calls `f` and
    /// converts whatever it returned, under the same context handle.
    ///
    /// Relies on `Rc::new` and `RefCell::new` to build the shared,
    /// interior-mutable cell; the stored closure only calls the verified
    /// `into_child`.
    #[verifier::external_body]
    pub(crate) fn from_callable<T, U>(mut f: T, cx: crate::convert::Scope) -> (r: ReactiveCell) where
        T: FnMut() -> U + 'static,
        U: crate::convert::IntoChild,
    {
        ReactiveCell {
            inner: Rc::new(RefCell::new(move || crate::convert::IntoChild::into_child(f(), cx))),
        }
    }
}

impl Clone for ReactiveCell {
    /// Relies on `Rc::clone`: the clone shares the original's allocation,
    /// hence its identity.
    #[verifier::external_body]
    fn clone(&self) -> (r: Self)
        ensures
            cell_id(r) == cell_id(*self),
    {
        ReactiveCell { inner: Rc::clone(&self.inner) }
    }
}

/// The different possible values an element child node could have.
pub enum Child {
    /// Renders nothing.
    Empty,
    /// A literal text node.
    Text(String),
    /// An already-materialized node (a text node, comment, or element).
    Node(Node),
    /// An ordered list of sibling nodes.
    NodeList(Vec<Node>),
    /// A deferred computation, re-run (typically inside a reactive effect)
    /// to obtain the current content.
    Reactive(ReactiveCell),
}

/// The string serializations of a sequence of nodes, in order.
pub open spec fn node_views(ns: Seq<Node>) -> Seq<Seq<char>> {
    ns.map_values(|n: Node| n@)
}

/// Equality of child content: structural for the data variants, shared
/// closure identity for `Reactive`, and false across variants.
pub open spec fn child_eq(a: Child, b: Child) -> bool {
    match (a, b) {
        (Child::Empty, Child::Empty) => true,
        (Child::Text(x), Child::Text(y)) => x@ == y@,
        (Child::Node(x), Child::Node(y)) => x@ == y@,
        (Child::NodeList(x), Child::NodeList(y)) => node_views(x@) == node_views(y@),
        (Child::Reactive(x), Child::Reactive(y)) => cell_id(x) == cell_id(y),
        _ => false,
    }
}

/// Law: child equality is reflexive.
pub proof fn lemma_child_eq_reflexive(c: Child)
    ensures
        child_eq(c, c),
{
}

/// Law: two `Reactive` children are equal exactly when they share one
/// underlying closure instance, never by the behaviour of their closures.
pub proof fn lemma_reactive_equality(f: ReactiveCell, g: ReactiveCell)
    ensures
        child_eq(Child::Reactive(f), Child::Reactive(g)) == (cell_id(f) == cell_id(g)),
{
}

/// Law: `Text` children are equal exactly when their underlying strings are
/// equal.
pub proof fn lemma_text_equality(a: String, b: String)
    ensures
        child_eq(Child::Text(a), Child::Text(b)) == (a@ == b@),
{
}

/// A terminal child is any variant other than `Reactive`: one that needs no
/// further invocation to be rendered.
pub open spec fn terminal(c: Child) -> bool {
    !(c is Reactive)
}

/// Serialization of a node list: each node's serialization concatenated in
/// order, with no separator.
pub open spec fn nodes_serial(ns: Seq<Node>) -> Seq<char>
    decreases ns.len(),
{
    if ns.len() == 0 {
        Seq::empty()
    } else {
        nodes_serial(ns.drop_last()) + ns.last()@
    }
}

/// Law: node-list serialization concatenates in list order: laying two
/// lists end to end serializes to the two serializations laid end to end.
pub proof fn lemma_nodes_serial_append(s1: Seq<Node>, s2: Seq<Node>)
    ensures
        nodes_serial(s1 + s2) == nodes_serial(s1) + nodes_serial(s2),
    decreases s2.len(),
{
    if s2.len() == 0 {
        assert(s1 + s2 =~= s1);
        assert(nodes_serial(s1) + Seq::<char>::empty() =~= nodes_serial(s1));
    } else {
        lemma_nodes_serial_append(s1, s2.drop_last());
        assert((s1 + s2).drop_last() =~= s1 + s2.drop_last());
        assert((s1 + s2).last() == s2.last());
        assert((nodes_serial(s1) + nodes_serial(s2.drop_last())) + s2.last()@ =~= nodes_serial(
            s1,
        ) + (nodes_serial(s2.drop_last()) + s2.last()@));
    }
}

/// The string serialization of a terminal child.
pub open spec fn serial_spec(c: Child) -> Seq<char>
    recommends
        terminal(c),
{
    match c {
        Child::Empty => Seq::empty(),
        Child::Text(s) => s@,
        Child::Node(n) => n@,
        Child::NodeList(ns) => nodes_serial(ns@),
        Child::Reactive(_) => Seq::empty(),
    }
}

fn clone_nodes(ns: &Vec<Node>) -> (r: Vec<Node>)
    ensures
        node_views(r@) == node_views(ns@),
{
    let mut r: Vec<Node> = Vec::new();
    let mut i: usize = 0;
    while i < ns.len()
        invariant
            i <= ns@.len(),
            r@.len() == i,
            forall|j: int| 0 <= j < i ==> r@[j]@ == ns@[j]@,
        decreases ns@.len() - i,
    {
        r.push(ns[i].clone());
        i = i + 1;
    }
    proof {
        assert(node_views(r@) =~= node_views(ns@));
    }
    r
}

fn nodes_equal(a: &Vec<Node>, b: &Vec<Node>) -> (r: bool)
    ensures
        r == (node_views(a@) == node_views(b@)),
{
    if a.len() != b.len() {
        proof {
            assert(node_views(a@).len() != node_views(b@).len());
        }
        return false;
    }
    let mut i: usize = 0;
    while i < a.len()
        invariant
            a@.len() == b@.len(),
            i <= a@.len(),
            forall|j: int| 0 <= j < i ==> a@[j]@ == b@[j]@,
        decreases a@.len() - i,
    {
        if !(a[i] == b[i]) {
            proof {
                assert(node_views(a@)[i as int] != node_views(b@)[i as int]);
            }
            return false;
        }
        i = i + 1;
    }
    proof {
        assert(node_views(a@) =~= node_views(b@));
    }
    true
}

impl Clone for Child {
    /// The clone of a data variant equals the original structurally; the
    /// clone of a `Reactive` child shares the original's closure instance.
    fn clone(&self) -> (r: Self)
        ensures
            child_eq(r, *self),
    {
        match self {
            Child::Empty => Child::Empty,
            Child::Text(s) => Child::Text(s.clone()),
            Child::Node(n) => Child::Node(n.clone()),
            Child::NodeList(ns) => Child::NodeList(clone_nodes(ns)),
            Child::Reactive(c) => Child::Reactive(c.clone()),
        }
    }
}

impl PartialEq for Child {
    fn eq(&self, other: &Self) -> (r: bool) {
        match (self, other) {
            (Child::Empty, Child::Empty) => true,
            (Child::Text(x), Child::Text(y)) => *x == *y,
            (Child::Node(x), Child::Node(y)) => *x == *y,
            (Child::NodeList(x), Child::NodeList(y)) => nodes_equal(x, y),
            (Child::Reactive(x), Child::Reactive(y)) => x.same_cell(y),
            _ => false,
        }
    }
}

impl vstd::std_specs::cmp::PartialEqSpecImpl for Child {
    open spec fn obeys_eq_spec() -> bool {
        true
    }

    open spec fn eq_spec(&self, other: &Self) -> bool {
        child_eq(*self, *other)
    }
}

/// Serializes a node list by concatenating each node's serialization in the
/// list's order.
fn nodes_to_string(ns: &Vec<Node>) -> (r: String)
    ensures
        r@ == nodes_serial(ns@),
{
    let mut r = String::new();
    let mut i: usize = 0;
    while i < ns.len()
        invariant
            i <= ns@.len(),
            r@ == nodes_serial(ns@.take(i as int)),
        decreases ns@.len() - i,
    {
        let h = ns[i].to_html();
        r.append(h.as_str());
        proof {
            assert(ns@.take(i + 1).drop_last() =~= ns@.take(i as int));
            assert(ns@.take(i + 1).last() == ns@[i as int]);
        }
        i = i + 1;
    }
    proof {
        assert(ns@.take(ns@.len() as int) =~= ns@);
    }
    r
}

/// Serializes a child that is already terminal.
fn serialize_terminal(c: &Child) -> (r: String)
    requires
        terminal(*c),
    ensures
        r@ == serial_spec(*c),
{
    match c {
        Child::Empty => String::new(),
        Child::Text(text) => text.clone(),
        Child::Node(node) => node.to_html(),
        Child::NodeList(nodes) => nodes_to_string(nodes),
        Child::Reactive(_) => String::new(),
    }
}

/// A string between double quotes, as the debug rendering shows payloads.
pub open spec fn quoted(s: Seq<char>) -> Seq<char> {
    "\""@ + s + "\""@
}

/// The debug rendering of a node list's payloads: each node's serialization
/// quoted, separated by a comma and a space.
pub open spec fn debug_nodes(ns: Seq<Node>) -> Seq<char>
    decreases ns.len(),
{
    if ns.len() == 0 {
        Seq::empty()
    } else if ns.len() == 1 {
        quoted(ns[0]@)
    } else {
        debug_nodes(ns.drop_last()) + ", "@ + quoted(ns.last()@)
    }
}

/// The debug rendering of a child: its variant's tag and, where one exists,
/// its payload; a `Reactive` child shows only its tag, closures being
/// opaque.
pub open spec fn debug_spec(c: Child) -> Seq<char> {
    match c {
        Child::Empty => "Empty"@,
        Child::Text(s) => "Text("@ + quoted(s@) + ")"@,
        Child::Node(n) => "Node("@ + quoted(n@) + ")"@,
        Child::NodeList(ns) => "NodeList(["@ + debug_nodes(ns@) + "])"@,
        Child::Reactive(_) => "Reactive"@,
    }
}

fn quote_into(out: &mut String, s: &str)
    ensures
        final (out)@ == old(out)@ + quoted(s@),
{
    out.append("\"");
    out.append(s);
    out.append("\"");
    proof {
        assert(((old(out)@ + "\""@) + s@) + "\""@ =~= old(out)@ + quoted(s@));
    }
}

impl Child {
    /// The debug rendering of this child. Payloads appear verbatim between
    /// double quotes, with no escaping inside them.
    pub fn debug_string(&self) -> (r: String)
        ensures
            r@ == debug_spec(*self),
    {
        match self {
            Child::Empty => "Empty".to_owned(),
            Child::Text(s) => {
                let mut r = "Text(".to_owned();
                quote_into(&mut r, s.as_str());
                r.append(")");
                r
            },
            Child::Node(n) => {
                let mut r = "Node(".to_owned();
                let h = n.to_html();
                quote_into(&mut r, h.as_str());
                r.append(")");
                r
            },
            Child::NodeList(ns) => {
                let mut r = "NodeList([".to_owned();
                let mut i: usize = 0;
                proof {
                    assert("NodeList(["@ + Seq::<char>::empty() =~= "NodeList(["@);
                }
                while i < ns.len()
                    invariant
                        i <= ns@.len(),
                        r@ == "NodeList(["@ + debug_nodes(ns@.take(i as int)),
                    decreases ns@.len() - i,
                {
                    if i > 0 {
                        r.append(", ");
                    }
                    let h = ns[i].to_html();
                    quote_into(&mut r, h.as_str());
                    proof {
                        assert(ns@.take(i + 1).drop_last() =~= ns@.take(i as int));
                        assert(ns@.take(i + 1).last() == ns@[i as int]);
                        if i == 0 {
                            assert(r@ =~= "NodeList(["@ + debug_nodes(ns@.take(1)));
                        } else {
                            assert(r@ =~= "NodeList(["@ + debug_nodes(ns@.take(i + 1)));
                        }
                    }
                    i = i + 1;
                }
                proof {
                    assert(ns@.take(ns@.len() as int) =~= ns@);
                }
                r.append("])");
                r
            },
            Child::Reactive(_) => "Reactive".to_owned(),
        }
    }

    /// Converts the child to its string value at this moment so it can be
    /// rendered as plain output.
    ///
    /// A `Reactive` child is resolved eagerly: its closure is invoked, and
    /// invoked again while it keeps yielding `Reactive` values, until a
    /// terminal child is produced; that terminal child's serialization is
    /// returned. Callers owe a chain that reaches a terminal value in
    /// finitely many steps; a chain that is still yielding `Reactive`
    /// values after `usize::MAX` resolution steps is treated as a
    /// contract-violating runaway chain and renders as the empty string.
    pub fn as_child_string(&self) -> (r: String)
        ensures
            terminal(*self) ==> r@ == serial_spec(*self),
    {
        match self {
            Child::Reactive(cell) => {
                let mut value: Child = cell.invoke();
                let mut fuel: usize = usize::MAX;
                loop
                    invariant_except_break
                        true,
                    ensures
                        terminal(value) || fuel == 0,
                    decreases fuel,
                {
                    match &value {
                        Child::Reactive(next) => {
                            if fuel == 0 {
                                break;
                            }
                            fuel = fuel - 1;
                            value = next.invoke();
                        }
                        _ => {
                            break;
                        }
                    }
                }
                match &value {
                    Child::Reactive(_) => String::new(),
                    _ => serialize_terminal(&value),
                }
            }
            _ => serialize_terminal(self),
        }
    }
}

} // verus!
