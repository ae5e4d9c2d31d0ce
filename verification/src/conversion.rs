use vstd::prelude::*;

verus! {

/// A JavaScript value as read from the engine, with its children read too.
/// `N` is the representation of numbers chosen by the caller.
#[derive(Debug, PartialEq)]
pub enum JsValueTree<N> {
    String(String),
    Array(Vec<JsValueTree<N>>),
    /// An object's own properties, in the order the engine lists them.
    Object(Vec<(String, JsValueTree<N>)>),
    Boolean(bool),
    Number(N),
    Null,
    Undefined,
    Promise,
    Function,
    Date,
    /// A value of any other kind; the text is its debug description.
    Other(String),
}

/// A Python value to be built in the interpreter.
#[derive(Debug, PartialEq)]
pub enum PyValueTree<N> {
    Str(String),
    List(Vec<PyValueTree<N>>),
    /// A dictionary, with its items in insertion order.
    Dict(Vec<(String, PyValueTree<N>)>),
    Float(N),
    NoneValue,
}

/// The answers of the JavaScript engine to the type tests made on a value.
#[derive(Debug, Clone, Copy, PartialEq, Eq)]
pub struct JsTypeProbe {
    pub is_string: bool,
    pub is_array: bool,
    pub is_object: bool,
    pub is_boolean: bool,
    pub is_number: bool,
    pub is_null: bool,
    pub is_undefined: bool,
    pub is_promise: bool,
    pub is_function: bool,
    pub is_date: bool,
}

/// How a JavaScript value is to be read.
#[derive(Debug, Clone, Copy, PartialEq, Eq)]
pub enum JsValueKind {
    String,
    Array,
    Object,
    Boolean,
    Number,
    Null,
    Undefined,
    Promise,
    Function,
    Date,
    Other,
}

/// The kind that `js_value_kind` gives: the first test that holds, in the order
/// string, array, object, boolean, number, null, undefined, promise, function,
/// date (an array is also an object, so the order matters).
pub open spec fn spec_js_value_kind(probe: JsTypeProbe) -> JsValueKind {
    if probe.is_string {
        JsValueKind::String
    } else if probe.is_array {
        JsValueKind::Array
    } else if probe.is_object {
        JsValueKind::Object
    } else if probe.is_boolean {
        JsValueKind::Boolean
    } else if probe.is_number {
        JsValueKind::Number
    } else if probe.is_null {
        JsValueKind::Null
    } else if probe.is_undefined {
        JsValueKind::Undefined
    } else if probe.is_promise {
        JsValueKind::Promise
    } else if probe.is_function {
        JsValueKind::Function
    } else if probe.is_date {
        JsValueKind::Date
    } else {
        JsValueKind::Other
    }
}

/// Whether the engine's test for `kind` holds on a value; every value is of
/// some other kind.
pub open spec fn js_test_holds(probe: JsTypeProbe, kind: JsValueKind) -> bool {
    match kind {
        JsValueKind::String => probe.is_string,
        JsValueKind::Array => probe.is_array,
        JsValueKind::Object => probe.is_object,
        JsValueKind::Boolean => probe.is_boolean,
        JsValueKind::Number => probe.is_number,
        JsValueKind::Null => probe.is_null,
        JsValueKind::Undefined => probe.is_undefined,
        JsValueKind::Promise => probe.is_promise,
        JsValueKind::Function => probe.is_function,
        JsValueKind::Date => probe.is_date,
        JsValueKind::Other => true,
    }
}

/// The place of a kind in the order in which the tests are made.
pub open spec fn js_precedence(kind: JsValueKind) -> int {
    match kind {
        JsValueKind::String => 0,
        JsValueKind::Array => 1,
        JsValueKind::Object => 2,
        JsValueKind::Boolean => 3,
        JsValueKind::Number => 4,
        JsValueKind::Null => 5,
        JsValueKind::Undefined => 6,
        JsValueKind::Promise => 7,
        JsValueKind::Function => 8,
        JsValueKind::Date => 9,
        JsValueKind::Other => 10,
    }
}

/// A value is read as the kind whose test holds, and where several tests
/// hold, as the first of them in the order string, array, object, boolean,
/// number, null, undefined, promise, function, date; a value for which no
/// test holds is of another kind.
pub proof fn law_js_value_kind_is_first_test_that_holds(probe: JsTypeProbe)
    ensures
        js_test_holds(probe, spec_js_value_kind(probe)),
        forall|earlier: JsValueKind|
            js_precedence(earlier) < js_precedence(spec_js_value_kind(probe)) ==> !js_test_holds(
                probe,
                earlier,
            ),
{
}


/// Decides how a JavaScript value is read from the answers to its type tests.
pub fn js_value_kind(probe: &JsTypeProbe) -> (kind: JsValueKind)
    ensures
        kind == spec_js_value_kind(*probe),
        js_test_holds(*probe, kind),
        forall|earlier: JsValueKind|
            js_precedence(earlier) < js_precedence(kind) ==> !js_test_holds(*probe, earlier),
{
    if probe.is_string {
        JsValueKind::String
    } else if probe.is_array {
        JsValueKind::Array
    } else if probe.is_object {
        JsValueKind::Object
    } else if probe.is_boolean {
        JsValueKind::Boolean
    } else if probe.is_number {
        JsValueKind::Number
    } else if probe.is_null {
        JsValueKind::Null
    } else if probe.is_undefined {
        JsValueKind::Undefined
    } else if probe.is_promise {
        JsValueKind::Promise
    } else if probe.is_function {
        JsValueKind::Function
    } else if probe.is_date {
        JsValueKind::Date
    } else {
        JsValueKind::Other
    }
}

/// The message of the error for a JavaScript value that has no Python form;
/// `kind` names the kind of the value.
pub open spec fn unsupported_conversion_message(kind: Seq<char>) -> Seq<char> {
    "Unsupported conversion from "@ + kind + " to Py"@
}

/// The error met first, depth first and in order, when converting `value`.
pub open spec fn js_conversion_error<N>(value: JsValueTree<N>) -> Option<Seq<char>>
    decreases value,
{
    match value {
        JsValueTree::Array(items) => items_conversion_error(items@),
        JsValueTree::Object(props) => props_conversion_error(props@),
        JsValueTree::Promise => Some(unsupported_conversion_message("JsPromise"@)),
        JsValueTree::Function => Some(unsupported_conversion_message("JsFunction"@)),
        JsValueTree::Date => Some(unsupported_conversion_message("JsDate"@)),
        JsValueTree::Other(description) => Some(unsupported_conversion_message(description@)),
        _ => None,
    }
}

/// The error met first when converting the items of an array, in order.
pub open spec fn items_conversion_error<N>(items: Seq<JsValueTree<N>>) -> Option<Seq<char>>
    decreases items,
{
    if items.len() == 0 {
        None
    } else {
        match js_conversion_error(items[0]) {
            Some(e) => Some(e),
            None => items_conversion_error(items.drop_first()),
        }
    }
}

/// The error met first when converting the values of an object's properties.
pub open spec fn props_conversion_error<N>(props: Seq<(String, JsValueTree<N>)>) -> Option<
    Seq<char>,
>
    decreases props,
{
    if props.len() == 0 {
        None
    } else {
        match js_conversion_error(props[0].1) {
            Some(e) => Some(e),
            None => props_conversion_error(props.drop_first()),
        }
    }
}

/// Whether `py` is the Python form of `value`: strings stay strings, arrays
/// become lists and objects dictionaries (keys kept, in order), numbers become
/// floats, `null` and `undefined` become `None`, and a boolean becomes an empty
/// dictionary.
pub open spec fn converts_to<N>(value: JsValueTree<N>, py: PyValueTree<N>) -> bool
    decreases value,
{
    match value {
        JsValueTree::String(s) => py matches PyValueTree::Str(t) && t@ == s@,
        JsValueTree::Array(items) => py matches PyValueTree::List(out) && items_convert_to(
            items@,
            out@,
        ),
        JsValueTree::Object(props) => py matches PyValueTree::Dict(out) && props_convert_to(
            props@,
            out@,
        ),
        JsValueTree::Boolean(_) => py matches PyValueTree::Dict(out) && out@.len() == 0,
        JsValueTree::Number(n) => py == PyValueTree::<N>::Float(n),
        JsValueTree::Null => py is NoneValue,
        JsValueTree::Undefined => py is NoneValue,
        _ => false,
    }
}

/// Whether `out` holds the Python forms of `items`, one for one.
pub open spec fn items_convert_to<N>(items: Seq<JsValueTree<N>>, out: Seq<PyValueTree<N>>) -> bool
    decreases items,
{
    &&& items.len() == out.len()
    &&& items.len() > 0 ==> {
        &&& converts_to(items[0], out[0])
        &&& items_convert_to(items.drop_first(), out.drop_first())
    }
}

/// Whether `out` holds the keys of `props` with the Python forms of their
/// values, one for one.
pub open spec fn props_convert_to<N>(
    props: Seq<(String, JsValueTree<N>)>,
    out: Seq<(String, PyValueTree<N>)>,
) -> bool
    decreases props,
{
    &&& props.len() == out.len()
    &&& props.len() > 0 ==> {
        &&& out[0].0@ == props[0].0@
        &&& converts_to(props[0].1, out[0].1)
        &&& props_convert_to(props.drop_first(), out.drop_first())
    }
}


proof fn lemma_items_push<N>(
    items: Seq<JsValueTree<N>>,
    out: Seq<PyValueTree<N>>,
    x: JsValueTree<N>,
    y: PyValueTree<N>,
)
    requires
        items_convert_to(items, out),
        converts_to(x, y),
    ensures
        items_convert_to(items.push(x), out.push(y)),
    decreases items.len(),
{
    if items.len() > 0 {
        lemma_items_push(items.drop_first(), out.drop_first(), x, y);
        assert(items.push(x)[0] == items[0]);
        assert(out.push(y)[0] == out[0]);
        assert(items.push(x).drop_first() =~= items.drop_first().push(x));
        assert(out.push(y).drop_first() =~= out.drop_first().push(y));
    } else {
        assert(items.push(x).drop_first() =~= Seq::<JsValueTree<N>>::empty());
        assert(out.push(y).drop_first() =~= Seq::<PyValueTree<N>>::empty());
        assert(items_convert_to(Seq::<JsValueTree<N>>::empty(), Seq::<PyValueTree<N>>::empty()));
        assert(items.push(x)[0] == x);
    }
}

proof fn lemma_items_error_push<N>(items: Seq<JsValueTree<N>>, x: JsValueTree<N>)
    requires
        items_conversion_error(items) is None,
    ensures
        items_conversion_error(items.push(x)) == js_conversion_error(x),
    decreases items.len(),
{
    if items.len() > 0 {
        lemma_items_error_push(items.drop_first(), x);
        assert(items.push(x)[0] == items[0]);
        assert(items.push(x).drop_first() =~= items.drop_first().push(x));
    } else {
        assert(items.push(x).drop_first() =~= Seq::<JsValueTree<N>>::empty());
        assert(items_conversion_error(Seq::<JsValueTree<N>>::empty()) is None);
        assert(items.push(x)[0] == x);
    }
}

proof fn lemma_props_push<N>(
    props: Seq<(String, JsValueTree<N>)>,
    out: Seq<(String, PyValueTree<N>)>,
    x: (String, JsValueTree<N>),
    y: (String, PyValueTree<N>),
)
    requires
        props_convert_to(props, out),
        y.0@ == x.0@,
        converts_to(x.1, y.1),
    ensures
        props_convert_to(props.push(x), out.push(y)),
    decreases props.len(),
{
    if props.len() > 0 {
        lemma_props_push(props.drop_first(), out.drop_first(), x, y);
        assert(props.push(x)[0] == props[0]);
        assert(out.push(y)[0] == out[0]);
        assert(props.push(x).drop_first() =~= props.drop_first().push(x));
        assert(out.push(y).drop_first() =~= out.drop_first().push(y));
    } else {
        assert(props.push(x).drop_first() =~= Seq::<(String, JsValueTree<N>)>::empty());
        assert(out.push(y).drop_first() =~= Seq::<(String, PyValueTree<N>)>::empty());
        assert(props_convert_to(
            Seq::<(String, JsValueTree<N>)>::empty(),
            Seq::<(String, PyValueTree<N>)>::empty(),
        ));
        assert(props.push(x)[0] == x);
        assert(out.push(y)[0] == y);
    }
}

proof fn lemma_props_error_push<N>(props: Seq<(String, JsValueTree<N>)>, x: (String, JsValueTree<N>))
    requires
        props_conversion_error(props) is None,
    ensures
        props_conversion_error(props.push(x)) == js_conversion_error(x.1),
    decreases props.len(),
{
    if props.len() > 0 {
        lemma_props_error_push(props.drop_first(), x);
        assert(props.push(x)[0] == props[0]);
        assert(props.push(x).drop_first() =~= props.drop_first().push(x));
    } else {
        assert(props.push(x).drop_first() =~= Seq::<(String, JsValueTree<N>)>::empty());
        assert(props_conversion_error(Seq::<(String, JsValueTree<N>)>::empty()) is None);
        assert(props.push(x)[0] == x);
    }
}

proof fn lemma_items_error_prefix<N>(items: Seq<JsValueTree<N>>, k: int)
    requires
        0 <= k <= items.len(),
        items_conversion_error(items.take(k)) is Some,
    ensures
        items_conversion_error(items) == items_conversion_error(items.take(k)),
    decreases k,
{
    if k > 0 {
        assert(items.take(k)[0] == items[0]);
        if js_conversion_error(items[0]) is None {
            assert(items.take(k).drop_first() =~= items.drop_first().take(k - 1));
            lemma_items_error_prefix(items.drop_first(), k - 1);
        }
    } else {
        assert(items.take(k).len() == 0);
    }
}

proof fn lemma_props_error_prefix<N>(props: Seq<(String, JsValueTree<N>)>, k: int)
    requires
        0 <= k <= props.len(),
        props_conversion_error(props.take(k)) is Some,
    ensures
        props_conversion_error(props) == props_conversion_error(props.take(k)),
    decreases k,
{
    if k > 0 {
        assert(props.take(k)[0] == props[0]);
        if js_conversion_error(props[0].1) is None {
            assert(props.take(k).drop_first() =~= props.drop_first().take(k - 1));
            lemma_props_error_prefix(props.drop_first(), k - 1);
        }
    } else {
        assert(props.take(k).len() == 0);
    }
}

fn unsupported_conversion(kind: &str) -> (msg: String)
    ensures
        msg@ == unsupported_conversion_message(kind@),
{
    let mut msg = String::from_str("Unsupported conversion from ");
    msg.append(kind);
    msg.append(" to Py");
    msg
}

/// Converts a JavaScript value to its Python form, or gives the error met first
/// (depth first, in order) for a value that has none.
pub fn convert_from_js_to_python<N: Copy>(value: &JsValueTree<N>) -> (res: Result<
    PyValueTree<N>,
    String,
>)
    ensures
        match res {
            Ok(py) => js_conversion_error(*value) is None && converts_to(*value, py),
            Err(e) => js_conversion_error(*value) == Some(e@),
        },
    decreases value,
{
    match value {
        JsValueTree::String(s) => Ok(PyValueTree::Str(s.clone())),
        JsValueTree::Array(items) => {
            let mut out: Vec<PyValueTree<N>> = Vec::new();
            let n = items.len();
            let mut i: usize = 0;
            while i < n
                invariant
                    n == items@.len(),
                    *value == JsValueTree::<N>::Array(*items),
                    0 <= i <= n,
                    items_conversion_error(items@.take(i as int)) is None,
                    items_convert_to(items@.take(i as int), out@),
                decreases n - i,
            {
                proof {
                    assert(decreases_to!(*value => (*value)->Array_0));
                    assert(decreases_to!(*items => items@));
                    assert(decreases_to!(items@ => items@[i as int]));
                }
                let converted = convert_from_js_to_python(&items[i]);
                proof {
                    assert(items@.take(i + 1) =~= items@.take(i as int).push(items@[i as int]));
                    lemma_items_error_push(items@.take(i as int), items@[i as int]);
                }
                match converted {
                    Ok(py) => {
                        proof {
                            lemma_items_push(items@.take(i as int), out@, items@[i as int], py);
                        }
                        out.push(py);
                    },
                    Err(e) => {
                        proof {
                            lemma_items_error_prefix(items@, i + 1);
                        }
                        return Err(e);
                    },
                }
                i = i + 1;
            }
            proof {
                assert(items@.take(n as int) =~= items@);
            }
            Ok(PyValueTree::List(out))
        },
        JsValueTree::Object(props) => {
            let mut out: Vec<(String, PyValueTree<N>)> = Vec::new();
            let n = props.len();
            let mut i: usize = 0;
            while i < n
                invariant
                    n == props@.len(),
                    *value == JsValueTree::<N>::Object(*props),
                    0 <= i <= n,
                    props_conversion_error(props@.take(i as int)) is None,
                    props_convert_to(props@.take(i as int), out@),
                decreases n - i,
            {
                proof {
                    assert(decreases_to!(*value => (*value)->Object_0));
                    assert(decreases_to!(*props => props@));
                    assert(decreases_to!(props@ => props@[i as int]));
                    assert(decreases_to!(props@[i as int] => props@[i as int].1));
                }
                let converted = convert_from_js_to_python(&props[i].1);
                proof {
                    assert(props@.take(i + 1) =~= props@.take(i as int).push(props@[i as int]));
                    lemma_props_error_push(props@.take(i as int), props@[i as int]);
                }
                match converted {
                    Ok(py) => {
                        let key = props[i].0.clone();
                        proof {
                            lemma_props_push(props@.take(i as int), out@, props@[i as int], (key, py));
                        }
                        out.push((key, py));
                    },
                    Err(e) => {
                        proof {
                            lemma_props_error_prefix(props@, i + 1);
                        }
                        return Err(e);
                    },
                }
                i = i + 1;
            }
            proof {
                assert(props@.take(n as int) =~= props@);
            }
            Ok(PyValueTree::Dict(out))
        },
        JsValueTree::Boolean(_) => Ok(PyValueTree::Dict(Vec::new())),
        JsValueTree::Number(n) => Ok(PyValueTree::Float(*n)),
        JsValueTree::Null => Ok(PyValueTree::NoneValue),
        JsValueTree::Undefined => Ok(PyValueTree::NoneValue),
        JsValueTree::Promise => Err(unsupported_conversion("JsPromise")),
        JsValueTree::Function => Err(unsupported_conversion("JsFunction")),
        JsValueTree::Date => Err(unsupported_conversion("JsDate")),
        JsValueTree::Other(description) => Err(unsupported_conversion(description.as_str())),
    }
}

} // verus!
