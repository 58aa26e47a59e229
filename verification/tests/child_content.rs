use child_content::Child;
use child_content::IntoChild;
use child_content::Node;
use child_content::Scope;

fn scope() -> Scope {
    Scope::new()
}

fn node(s: &str) -> Node {
    Node::new(String::from(s))
}

#[test]
fn end_to_end_scenario() {
    let cx = scope();

    let n = 42i32.into_child(cx);
    assert!(matches!(n, Child::Text(_)));
    assert_eq!(n.as_child_string(), "42");

    let none = Option::<i32>::None.into_child(cx);
    assert!(matches!(none, Child::Empty));
    assert_eq!(none.as_child_string(), "");

    let r = (|| String::from("hi")).into_child(cx);
    assert!(matches!(r, Child::Reactive(_)));
    match &r {
        Child::Reactive(cell) => {
            let inner = cell.invoke();
            assert!(matches!(inner, Child::Text(_)));
            assert_eq!(inner.as_child_string(), "hi");
        }
        _ => panic!("expected a reactive child"),
    }
    assert_eq!(r.as_child_string(), "hi");
}

#[test]
fn primitives_serialize_to_their_canonical_strings() {
    let cx = scope();
    assert_eq!(0u8.into_child(cx).as_child_string(), 0u8.to_string());
    assert_eq!(255u8.into_child(cx).as_child_string(), "255");
    assert_eq!(9u16.into_child(cx).as_child_string(), 9u16.to_string());
    assert_eq!(70000u32.into_child(cx).as_child_string(), 70000u32.to_string());
    assert_eq!(u64::MAX.into_child(cx).as_child_string(), u64::MAX.to_string());
    assert_eq!(u128::MAX.into_child(cx).as_child_string(), u128::MAX.to_string());
    assert_eq!(usize::MAX.into_child(cx).as_child_string(), usize::MAX.to_string());
    assert_eq!((-1i8).into_child(cx).as_child_string(), "-1");
    assert_eq!(i8::MIN.into_child(cx).as_child_string(), i8::MIN.to_string());
    assert_eq!((-32000i16).into_child(cx).as_child_string(), (-32000i16).to_string());
    assert_eq!(0i32.into_child(cx).as_child_string(), "0");
    assert_eq!(i64::MIN.into_child(cx).as_child_string(), i64::MIN.to_string());
    assert_eq!(i128::MIN.into_child(cx).as_child_string(), i128::MIN.to_string());
    assert_eq!(isize::MIN.into_child(cx).as_child_string(), isize::MIN.to_string());
    assert_eq!(true.into_child(cx).as_child_string(), true.to_string());
    assert_eq!(false.into_child(cx).as_child_string(), "false");
    assert_eq!('x'.into_child(cx).as_child_string(), 'x'.to_string());
    assert_eq!("hello".into_child(cx).as_child_string(), "hello");
    assert_eq!(String::from("world").into_child(cx).as_child_string(), "world");
    let borrowed = String::from("borrowed");
    assert_eq!((&borrowed).into_child(cx).as_child_string(), "borrowed");
}

#[test]
fn none_and_unit_convert_to_equal_empties() {
    let cx = scope();
    let none = Option::<String>::None.into_child(cx);
    assert_eq!(none.as_child_string(), "");
    let unit = ().into_child(cx);
    assert!(none == unit);
    assert!(matches!(none, Child::Empty));
}

#[test]
fn some_is_transparent() {
    let cx = scope();
    assert_eq!(
        Some(7u16).into_child(cx).as_child_string(),
        7u16.into_child(cx).as_child_string()
    );
    assert_eq!(Some(String::from("v")).into_child(cx).as_child_string(), "v");
    assert!(Some(5i32).into_child(cx) == 5i32.into_child(cx));
    assert_eq!(
        Some(vec![node("a"), node("b")]).into_child(cx).as_child_string(),
        "ab"
    );
}

#[test]
fn nested_option_resolves_to_empty() {
    let cx = scope();
    let c = Some(Option::<i32>::None).into_child(cx);
    assert!(matches!(c, Child::Empty));
    assert_eq!(c.as_child_string(), "");
}

#[test]
fn reactive_wrapping_is_transparent() {
    let cx = scope();
    let c = (|| 5i32).into_child(cx);
    match &c {
        Child::Reactive(cell) => {
            let inner = cell.invoke();
            assert_eq!(
                inner.as_child_string(),
                5i32.into_child(cx).as_child_string()
            );
        }
        _ => panic!("expected a reactive child"),
    }
    assert_eq!(c.as_child_string(), "5");
}

#[test]
fn reactive_equality_is_closure_identity() {
    let cx = scope();
    let a = (|| 1u8).into_child(cx);
    let b = a.clone();
    assert!(a == b);
    let c = (|| 1u8).into_child(cx);
    assert!(!(a == c));
    match (&a, &b) {
        (Child::Reactive(x), Child::Reactive(y)) => {
            assert!(x.same_cell(y));
            let shared = Child::Reactive(x.clone());
            assert!(shared == a);
        }
        _ => panic!("expected reactive children"),
    }
}

#[test]
fn text_equality_is_string_equality() {
    let cx = scope();
    let from_str = "5".into_child(cx);
    let from_int = 5i32.into_child(cx);
    assert!(from_str == from_int);
    let other = 6i32.into_child(cx);
    assert!(!(from_str == other));
}

#[test]
fn cross_variant_children_are_not_equal() {
    let cx = scope();
    assert!(!(().into_child(cx) == "".into_child(cx)));
    assert!(!(Child::Empty == Child::NodeList(Vec::new())));
    assert!(!(node("a").into_child(cx) == "a".into_child(cx)));
}

#[test]
fn child_converts_to_itself() {
    let cx = scope();
    let c = Child::Text(String::from("t")).into_child(cx);
    assert!(c == Child::Text(String::from("t")));
}

#[test]
fn node_conversion_keeps_its_serialization() {
    let cx = scope();
    let c = node("x").into_child(cx);
    assert!(matches!(c, Child::Node(_)));
    assert_eq!(c.as_child_string(), "x");
    assert!(node("x").into_child(cx) == c);
    assert!(!(node("y").into_child(cx) == c));
}

#[test]
fn node_list_concatenates_in_order() {
    let cx = scope();
    let c = vec![node("a"), node("b"), node("c")].into_child(cx);
    match &c {
        Child::NodeList(list) => {
            assert_eq!(list.len(), 3);
            assert_eq!(list[0].to_html(), "a");
            assert_eq!(list[1].to_html(), "b");
            assert_eq!(list[2].to_html(), "c");
        }
        _ => panic!("expected a node list"),
    }
    assert_eq!(c.as_child_string(), "abc");
}

#[test]
fn empty_node_list_serializes_to_nothing() {
    let cx = scope();
    let c = Vec::<Node>::new().into_child(cx);
    assert!(matches!(c, Child::NodeList(_)));
    assert_eq!(c.as_child_string(), "");
}

#[test]
fn node_list_equality_is_elementwise() {
    let cx = scope();
    let a = vec![node("a"), node("b")].into_child(cx);
    let b = vec![node("a"), node("b")].into_child(cx);
    let c = vec![node("b"), node("a")].into_child(cx);
    assert!(a == b);
    assert!(!(a == c));
}

#[test]
fn nested_reactive_chains_resolve_to_terminal() {
    let cx = scope();
    let c = (|| (|| 3u8)).into_child(cx);
    assert_eq!(c.as_child_string(), "3");
}

#[test]
fn reactive_closure_may_carry_state() {
    let cx = scope();
    let mut n = 0u32;
    let c = (move || {
        n += 1;
        n
    })
    .into_child(cx);
    match &c {
        Child::Reactive(cell) => {
            assert_eq!(cell.invoke().as_child_string(), "1");
            assert_eq!(cell.invoke().as_child_string(), "2");
        }
        _ => panic!("expected a reactive child"),
    }
    assert_eq!(c.as_child_string(), "3");
}

#[test]
fn reactive_may_yield_a_node_list() {
    let cx = scope();
    let c = (|| vec![Node::new(String::from("a")), Node::new(String::from("b"))])
        .into_child(cx);
    assert_eq!(c.as_child_string(), "ab");
}

#[test]
fn clones_of_data_variants_stay_equal() {
    let cx = scope();
    let t = "text".into_child(cx);
    assert!(t.clone() == t);
    let ns = vec![node("a"), node("b")].into_child(cx);
    assert!(ns.clone() == ns);
    let e = Child::Empty;
    assert!(e.clone() == e);
}

#[test]
fn debug_strings_show_tag_and_payload() {
    let cx = scope();
    assert_eq!(Child::Empty.debug_string(), "Empty");
    assert_eq!(Child::Text(String::from("hi")).debug_string(), "Text(\"hi\")");
    assert_eq!(node("x").into_child(cx).debug_string(), "Node(\"x\")");
    assert_eq!(
        vec![node("a"), node("b")].into_child(cx).debug_string(),
        "NodeList([\"a\", \"b\"])"
    );
    assert_eq!(Child::NodeList(Vec::new()).debug_string(), "NodeList([])");
    assert_eq!((|| 1u8).into_child(cx).debug_string(), "Reactive");
}
