use convert_case::{Case, Casing};
use vstd::prelude::*;

use crate::error::{CubeError, CubeErrorCauseType};
use crate::properties::{
    entries_map, insert_entry, keys_distinct, lemma_empty_entries,
};

verus! {

/// The camel-case form that `convert_case` gives to a string: the string is
/// split into words at its default boundaries, the first word is written in
/// lower case and every following word capitalised, with no delimiter.
pub uninterp spec fn camel_case(s: Seq<char>) -> Seq<char>;

/// Whether `w` is a non-empty word of the lower-case ASCII letters `a` to `z`.
pub open spec fn is_lower_word(w: Seq<char>) -> bool {
    &&& w.len() > 0
    &&& forall|i: int| 0 <= i < w.len() ==> 97 <= (#[trigger] w[i]) as u32 <= 122
}

/// Whether `words` is a non-empty list of lower-case ASCII words.
pub open spec fn lower_words(words: Seq<Seq<char>>) -> bool {
    &&& words.len() > 0
    &&& forall|i: int| 0 <= i < words.len() ==> is_lower_word(#[trigger] words[i])
}

/// A lower-case ASCII word with its first letter in upper case.
pub open spec fn capitalized(w: Seq<char>) -> Seq<char> {
    seq![((w[0] as u32) - 32) as char] + w.drop_first()
}

/// The words joined by `_`.
pub open spec fn snake_joined(words: Seq<Seq<char>>) -> Seq<char>
    decreases words.len(),
{
    if words.len() == 0 {
        Seq::empty()
    } else if words.len() == 1 {
        words[0]
    } else {
        snake_joined(words.drop_last()) + seq!['_'] + words.last()
    }
}

/// The first word followed by each later word capitalised, with no delimiter.
pub open spec fn camel_joined(words: Seq<Seq<char>>) -> Seq<char>
    decreases words.len(),
{
    if words.len() == 0 {
        Seq::empty()
    } else if words.len() == 1 {
        words[0]
    } else {
        camel_joined(words.drop_last()) + capitalized(words.last())
    }
}

/// The camel-case form of lower-case words holds no `_`: every character of
/// it lies between `A` and `z` and differs from `_`.
pub proof fn law_camel_joined_has_no_underscore(words: Seq<Seq<char>>)
    requires
        lower_words(words),
    ensures
        forall|i: int|
            0 <= i < camel_joined(words).len() ==> 65 <= (#[trigger] camel_joined(words)[i]) as u32
                <= 122 && camel_joined(words)[i] != '_',
    decreases words.len(),
{
    if words.len() > 1 {
        let init = words.drop_last();
        assert(lower_words(init)) by {
            assert forall|i: int| 0 <= i < init.len() implies is_lower_word(#[trigger] init[i]) by {
                assert(init[i] == words[i]);
            }
        }
        law_camel_joined_has_no_underscore(init);
        let last = words.last();
        assert(is_lower_word(words[words.len() - 1]));
        let cap = capitalized(last);
        assert forall|i: int| 0 <= i < cap.len() implies 65 <= (#[trigger] cap[i]) as u32 <= 122
            && cap[i] != '_' by {
            if i > 0 {
                assert(cap[i] == last[i]);
            }
        }
        let whole = camel_joined(words);
        assert(whole == camel_joined(init) + cap);
        assert forall|i: int| 0 <= i < whole.len() implies 65 <= (#[trigger] whole[i]) as u32 <= 122
            && whole[i] != '_' by {
            if i < camel_joined(init).len() {
                assert(whole[i] == camel_joined(init)[i]);
            } else {
                assert(whole[i] == cap[i - camel_joined(init).len()]);
            }
        }
    } else {
        assert(is_lower_word(words[0]));
    }
}


/// Calls `convert_case::Casing::to_case` with `Case::Camel`.
/// The contract claims that the result is `camel_case` of the argument (the
/// conversion depends on the argument alone), and, as the crate's source shows
/// (the key is split at `_` and at case and digit changes, the first word is
/// lower-cased and every later word gets an upper-case first letter), that a
/// key made of lower-case ASCII words joined by `_` becomes the first word
/// followed by each later word capitalised. What the conversion gives on other
/// keys is left unsaid.
#[verifier::external_body]
fn to_camel_case(key: &str) -> (res: String)
    ensures
        res@ == camel_case(key@),
        forall|words: Seq<Seq<char>>|
            #[trigger] snake_joined(words) == key@ && lower_words(words) ==> res@ == camel_joined(
                words,
            ),
{
    key.to_case(Case::Camel)
}

/// A configuration value read from the Python configuration module.
/// `N` is the representation of numbers chosen by the caller.
#[derive(Debug, PartialEq)]
pub enum CubeConfigPyVariableValue<N> {
    String(String),
    Number(N),
    Bool(bool),
}

/// An error while reading an attribute of the configuration module: either an
/// error raised by the host interpreter, or a type error with its message.
#[derive(Debug, PartialEq)]
pub enum ConfigAttrError<E> {
    Raised(E),
    TypeError(String),
}

/// What the configuration module holds under a key that must name a function.
#[derive(Debug, PartialEq)]
pub enum StaticAttr<F, E> {
    /// Reading the attribute raised an error.
    Raised(E),
    /// The attribute is `None`.
    NoneValue,
    /// The attribute is a function.
    Function(F),
    /// The attribute is something else; `type_label` is how its type prints.
    Other { type_label: String },
}

/// What the configuration module holds under a key that names a plain value.
#[derive(Debug, PartialEq)]
pub enum DynamicAttr<N, E> {
    /// Reading or converting the attribute raised an error.
    Raised(E),
    /// The attribute is `None`.
    NoneValue,
    /// The attribute is a string, a boolean or a number.
    Value(CubeConfigPyVariableValue<N>),
    /// The attribute is something else; `type_label` is how its type prints.
    Other { type_label: String },
}

/// The answers of the host interpreter to the type tests made on an attribute.
#[derive(Debug, Clone, Copy, PartialEq, Eq)]
pub struct AttrTypeProbe {
    pub is_none: bool,
    pub is_string: bool,
    pub is_bool: bool,
    pub is_float: bool,
    pub is_int: bool,
    pub is_function: bool,
}

/// How a plain attribute is to be read.
#[derive(Debug, Clone, Copy, PartialEq, Eq)]
pub enum DynamicAttrKind {
    NoneValue,
    String,
    Bool,
    Float,
    Int,
    Unsupported,
}

/// How a function attribute is to be read.
#[derive(Debug, Clone, Copy, PartialEq, Eq)]
pub enum StaticAttrKind {
    NoneValue,
    Function,
    Unsupported,
}

/// The kind that `dynamic_attr_kind` gives: `None` first, then the type tests in
/// the order string, boolean, float, integer (a boolean is also an integer, so
/// the order matters).
pub open spec fn spec_dynamic_attr_kind(probe: AttrTypeProbe) -> DynamicAttrKind {
    if probe.is_none {
        DynamicAttrKind::NoneValue
    } else if probe.is_string {
        DynamicAttrKind::String
    } else if probe.is_bool {
        DynamicAttrKind::Bool
    } else if probe.is_float {
        DynamicAttrKind::Float
    } else if probe.is_int {
        DynamicAttrKind::Int
    } else {
        DynamicAttrKind::Unsupported
    }
}

/// Whether the interpreter's test for `kind` holds on a plain attribute; every
/// attribute is of the unsupported kind.
pub open spec fn dynamic_test_holds(probe: AttrTypeProbe, kind: DynamicAttrKind) -> bool {
    match kind {
        DynamicAttrKind::NoneValue => probe.is_none,
        DynamicAttrKind::String => probe.is_string,
        DynamicAttrKind::Bool => probe.is_bool,
        DynamicAttrKind::Float => probe.is_float,
        DynamicAttrKind::Int => probe.is_int,
        DynamicAttrKind::Unsupported => true,
    }
}

/// The place of a kind in the order in which the tests on a plain attribute
/// are made.
pub open spec fn dynamic_precedence(kind: DynamicAttrKind) -> int {
    match kind {
        DynamicAttrKind::NoneValue => 0,
        DynamicAttrKind::String => 1,
        DynamicAttrKind::Bool => 2,
        DynamicAttrKind::Float => 3,
        DynamicAttrKind::Int => 4,
        DynamicAttrKind::Unsupported => 5,
    }
}

/// Whether the interpreter's test for `kind` holds on a function attribute;
/// every attribute is of the unsupported kind.
pub open spec fn static_test_holds(probe: AttrTypeProbe, kind: StaticAttrKind) -> bool {
    match kind {
        StaticAttrKind::NoneValue => probe.is_none,
        StaticAttrKind::Function => probe.is_function,
        StaticAttrKind::Unsupported => true,
    }
}

/// The place of a kind in the order in which the tests on a function
/// attribute are made.
pub open spec fn static_precedence(kind: StaticAttrKind) -> int {
    match kind {
        StaticAttrKind::NoneValue => 0,
        StaticAttrKind::Function => 1,
        StaticAttrKind::Unsupported => 2,
    }
}

/// A plain attribute is read as the kind whose test holds, and where several
/// hold, as the first in the order `None`, string, boolean, float, integer (a
/// boolean is also an integer and is read as a boolean); an attribute for
/// which no test holds is unsupported. In particular `None` is always skipped.
pub proof fn law_dynamic_attr_kind_is_first_test_that_holds(probe: AttrTypeProbe)
    ensures
        dynamic_test_holds(probe, spec_dynamic_attr_kind(probe)),
        forall|earlier: DynamicAttrKind|
            dynamic_precedence(earlier) < dynamic_precedence(spec_dynamic_attr_kind(probe))
                ==> !dynamic_test_holds(probe, earlier),
        probe.is_none ==> spec_dynamic_attr_kind(probe) == DynamicAttrKind::NoneValue,
{
}


/// Decides how a plain attribute is read from the answers to its type tests.
pub fn dynamic_attr_kind(probe: &AttrTypeProbe) -> (kind: DynamicAttrKind)
    ensures
        kind == spec_dynamic_attr_kind(*probe),
        dynamic_test_holds(*probe, kind),
        forall|earlier: DynamicAttrKind|
            dynamic_precedence(earlier) < dynamic_precedence(kind) ==> !dynamic_test_holds(
                *probe,
                earlier,
            ),
{
    if probe.is_none {
        DynamicAttrKind::NoneValue
    } else if probe.is_string {
        DynamicAttrKind::String
    } else if probe.is_bool {
        DynamicAttrKind::Bool
    } else if probe.is_float {
        DynamicAttrKind::Float
    } else if probe.is_int {
        DynamicAttrKind::Int
    } else {
        DynamicAttrKind::Unsupported
    }
}

/// Decides how a function attribute is read from the answers to its type tests.
pub fn static_attr_kind(probe: &AttrTypeProbe) -> (kind: StaticAttrKind)
    ensures
        static_test_holds(*probe, kind),
        forall|earlier: StaticAttrKind|
            static_precedence(earlier) < static_precedence(kind) ==> !static_test_holds(
                *probe,
                earlier,
            ),
        probe.is_none ==> kind == StaticAttrKind::NoneValue,
        !probe.is_none && probe.is_function ==> kind == StaticAttrKind::Function,
        !probe.is_none && !probe.is_function ==> kind == StaticAttrKind::Unsupported,
{
    if probe.is_none {
        StaticAttrKind::NoneValue
    } else if probe.is_function {
        StaticAttrKind::Function
    } else {
        StaticAttrKind::Unsupported
    }
}

/// The message of the type error for an attribute of an unsupported type.
pub open spec fn unsupported_type_message(type_label: Seq<char>, key: Seq<char>) -> Seq<char> {
    "Unsupported configuration type: "@ + type_label + " for key: "@ + key
}

/// The message of the type error for a function attribute of another type.
pub open spec fn unsupported_function_message(type_label: Seq<char>, key: Seq<char>) -> Seq<char> {
    unsupported_type_message(type_label, key) + ", must be a lambda"@
}

/// The message of the error for a missing `query_rewrite` function.
pub open spec fn missing_query_rewrite_message() -> Seq<char> {
    "Unable to reference query_rewrite, it's empty"@
}

/// The message of the error for a missing `check_auth` function.
pub open spec fn missing_check_auth_message() -> Seq<char> {
    "Unable to reference check_auth, it's empty"@
}

fn build_unsupported_type_message(type_label: &str, key: &str) -> (msg: String)
    ensures
        msg@ == unsupported_type_message(type_label@, key@),
{
    let mut msg = String::from_str("Unsupported configuration type: ");
    msg.append(type_label);
    msg.append(" for key: ");
    msg.append(key);
    msg
}

/// Whether a function attribute is accepted: `None` or a function.
pub open spec fn static_attr_accepted<F, E>(attr: StaticAttr<F, E>) -> bool {
    attr is NoneValue || attr is Function
}

/// The function that an accepted function attribute gives, if any.
pub open spec fn static_attr_value<F, E>(attr: StaticAttr<F, E>) -> Option<F> {
    match attr {
        StaticAttr::Function(f) => Some(f),
        _ => None,
    }
}

/// Whether `err` is the error that reading the refused attribute `attr` under
/// `key` gives.
pub open spec fn static_attr_error<F, E>(
    attr: StaticAttr<F, E>,
    key: Seq<char>,
    err: ConfigAttrError<E>,
) -> bool {
    match attr {
        StaticAttr::Raised(e) => err == ConfigAttrError::<E>::Raised(e),
        StaticAttr::Other { type_label } => match err {
            ConfigAttrError::TypeError(msg) => msg@ == unsupported_function_message(
                type_label@,
                key,
            ),
            _ => false,
        },
        _ => false,
    }
}

/// Whether a plain attribute is accepted: `None` or a plain value.
pub open spec fn dynamic_attr_accepted<N, E>(attr: DynamicAttr<N, E>) -> bool {
    attr is NoneValue || attr is Value
}

/// The plain values after reading `attr` under `key`: a plain value is stored
/// under the camel-case form of `key`; in every other case nothing changes.
pub open spec fn dynamic_update<N, E>(
    props: Map<Seq<char>, CubeConfigPyVariableValue<N>>,
    attr: DynamicAttr<N, E>,
    key: Seq<char>,
) -> Map<Seq<char>, CubeConfigPyVariableValue<N>> {
    match attr {
        DynamicAttr::Value(v) => props.insert(camel_case(key), v),
        _ => props,
    }
}


/// Reading the same plain attribute twice under the same key leaves the same
/// values as reading it once.
pub proof fn law_dynamic_update_idempotent<N, E>(
    props: Map<Seq<char>, CubeConfigPyVariableValue<N>>,
    attr: DynamicAttr<N, E>,
    key: Seq<char>,
)
    ensures
        dynamic_update(dynamic_update(props, attr, key), attr, key) == dynamic_update(
            props,
            attr,
            key,
        ),
{
    if let DynamicAttr::Value(v) = attr {
        assert(props.insert(camel_case(key), v).insert(camel_case(key), v) =~= props.insert(
            camel_case(key),
            v,
        ));
    }
}

/// A plain value read under a key is then found under the key's camel-case
/// form, and every other key keeps what it had.
pub proof fn law_dynamic_read_after_write<N, E>(
    props: Map<Seq<char>, CubeConfigPyVariableValue<N>>,
    value: CubeConfigPyVariableValue<N>,
    key: Seq<char>,
    other: Seq<char>,
)
    ensures
        dynamic_update(props, DynamicAttr::<N, E>::Value(value), key).dom().contains(
            camel_case(key),
        ),
        dynamic_update(props, DynamicAttr::<N, E>::Value(value), key)[camel_case(key)] == value,
        other != camel_case(key) ==> {
            &&& dynamic_update(props, DynamicAttr::<N, E>::Value(value), key).dom().contains(other)
                == props.dom().contains(other)
            &&& dynamic_update(props, DynamicAttr::<N, E>::Value(value), key)[other] == props[other]
        },
{
}

/// Of two plain values read under keys with the same camel-case form, the
/// later one is kept.
pub proof fn law_dynamic_last_write_wins<N, E>(
    props: Map<Seq<char>, CubeConfigPyVariableValue<N>>,
    first: CubeConfigPyVariableValue<N>,
    first_key: Seq<char>,
    second: CubeConfigPyVariableValue<N>,
    second_key: Seq<char>,
)
    requires
        camel_case(first_key) == camel_case(second_key),
    ensures
        dynamic_update(
            dynamic_update(props, DynamicAttr::<N, E>::Value(first), first_key),
            DynamicAttr::<N, E>::Value(second),
            second_key,
        ) == dynamic_update(props, DynamicAttr::<N, E>::Value(second), second_key),
{
    assert(props.insert(camel_case(first_key), first).insert(camel_case(second_key), second)
        =~= props.insert(camel_case(second_key), second));
}

/// Reading attributes under two keys whose camel-case forms differ leaves the
/// same values in either order.
pub proof fn law_dynamic_updates_commute<N, E>(
    props: Map<Seq<char>, CubeConfigPyVariableValue<N>>,
    first: DynamicAttr<N, E>,
    first_key: Seq<char>,
    second: DynamicAttr<N, E>,
    second_key: Seq<char>,
)
    requires
        camel_case(first_key) != camel_case(second_key),
    ensures
        dynamic_update(dynamic_update(props, first, first_key), second, second_key)
            == dynamic_update(dynamic_update(props, second, second_key), first, first_key),
{
    assert(dynamic_update(dynamic_update(props, first, first_key), second, second_key)
        =~= dynamic_update(dynamic_update(props, second, second_key), first, first_key));
}


/// The configuration read from a Python configuration module: plain values by
/// camel-case key, and the optional `query_rewrite` and `check_auth` functions
/// (of the caller's type `F`).
pub struct CubeConfigPy<F, N> {
    dynamic_properties: Vec<(String, CubeConfigPyVariableValue<N>)>,
    query_rewrite: Option<F>,
    check_auth: Option<F>,
}

/// The functions that the configuration module may define, in the order in
/// which they are read.
#[derive(Debug, Clone, Copy, PartialEq, Eq)]
pub enum DynamicFunction {
    QueryRewrite,
    CheckAuth,
}

impl DynamicFunction {
    /// The attribute name of the function in the configuration module.
    pub open spec fn spec_key(self) -> Seq<char> {
        match self {
            DynamicFunction::QueryRewrite => "query_rewrite"@,
            DynamicFunction::CheckAuth => "check_auth"@,
        }
    }

    /// The function read after this one, if any.
    pub open spec fn spec_next(self) -> Option<DynamicFunction> {
        match self {
            DynamicFunction::QueryRewrite => Some(DynamicFunction::CheckAuth),
            DynamicFunction::CheckAuth => None,
        }
    }

    /// The function read first.
    pub fn first() -> (function: DynamicFunction)
        ensures
            function == DynamicFunction::QueryRewrite,
    {
        DynamicFunction::QueryRewrite
    }

    /// The attribute name of the function in the configuration module.
    pub fn key(&self) -> (key: &'static str)
        ensures
            key@ == self.spec_key(),
    {
        match self {
            DynamicFunction::QueryRewrite => "query_rewrite",
            DynamicFunction::CheckAuth => "check_auth",
        }
    }
}

impl<F, N> CubeConfigPy<F, N> {
    /// No key of the plain values occurs twice.
    #[verifier::type_invariant]
    spec fn keys_are_distinct(&self) -> bool {
        keys_distinct(self.dynamic_properties@)
    }

    /// The plain values, by key.
    pub closed spec fn properties(&self) -> Map<Seq<char>, CubeConfigPyVariableValue<N>> {
        entries_map(self.dynamic_properties@)
    }

    /// The `query_rewrite` function, if one was read.
    pub closed spec fn query_rewrite_fn(&self) -> Option<F> {
        self.query_rewrite
    }

    /// The `check_auth` function, if one was read.
    pub closed spec fn check_auth_fn(&self) -> Option<F> {
        self.check_auth
    }

    /// An empty configuration.
    pub fn new() -> (config: Self)
        ensures
            config.properties() == Map::<Seq<char>, CubeConfigPyVariableValue<N>>::empty(),
            config.query_rewrite_fn() is None,
            config.check_auth_fn() is None,
    {
        let dynamic_properties: Vec<(String, CubeConfigPyVariableValue<N>)> = Vec::new();
        proof {
            lemma_empty_entries(dynamic_properties@);
        }
        CubeConfigPy { dynamic_properties, query_rewrite: None, check_auth: None }
    }

    /// The `query_rewrite` function, or an internal error when there is none.
    pub fn get_query_rewrite(&self) -> (res: Result<&F, CubeError>)
        ensures
            match res {
                Ok(f) => self.query_rewrite_fn() == Some(*f),
                Err(e) => {
                    &&& self.query_rewrite_fn() is None
                    &&& e.message@ == missing_query_rewrite_message()
                    &&& e.cause == CubeErrorCauseType::Internal
                },
            },
    {
        if let Some(fun) = self.query_rewrite.as_ref() {
            Ok(fun)
        } else {
            Err(CubeError::internal(String::from_str("Unable to reference query_rewrite, it's empty")))
        }
    }

    /// The `check_auth` function, or an internal error when there is none.
    pub fn get_check_auth(&self) -> (res: Result<&F, CubeError>)
        ensures
            match res {
                Ok(f) => self.check_auth_fn() == Some(*f),
                Err(e) => {
                    &&& self.check_auth_fn() is None
                    &&& e.message@ == missing_check_auth_message()
                    &&& e.cause == CubeErrorCauseType::Internal
                },
            },
    {
        if let Some(fun) = self.check_auth.as_ref() {
            Ok(fun)
        } else {
            Err(CubeError::internal(String::from_str("Unable to reference check_auth, it's empty")))
        }
    }

    /// Reads a function attribute: `None` gives no function, a function gives
    /// itself, anything else gives a type error that names its type and `key`;
    /// an error raised while reading is passed on. The configuration is left
    /// as it is.
    pub fn static_call_attr<E>(&mut self, attr: StaticAttr<F, E>, key: &str) -> (res: Result<
        Option<F>,
        ConfigAttrError<E>,
    >)
        ensures
            *final(self) == *old(self),
            res is Ok <==> static_attr_accepted(attr),
            res matches Ok(v) ==> v == static_attr_value(attr),
            res matches Err(e) ==> static_attr_error(attr, key@, e),
    {
        match attr {
            StaticAttr::Raised(e) => Err(ConfigAttrError::Raised(e)),
            StaticAttr::NoneValue => Ok(None),
            StaticAttr::Function(f) => Ok(Some(f)),
            StaticAttr::Other { type_label } => {
                let mut msg = build_unsupported_type_message(type_label.as_str(), key);
                msg.append(", must be a lambda");
                Err(ConfigAttrError::TypeError(msg))
            },
        }
    }

    /// One step of reading the functions, starting with `DynamicFunction::first()`:
    /// `attr` is what the module holds under `function`'s key. An accepted
    /// attribute is stored as that function and the result names the function
    /// to read next, if any. A refused attribute ends the reading with its
    /// error and leaves the configuration as it is, so no later function is
    /// read.
    pub fn apply_dynamic_functions<E>(
        &mut self,
        function: DynamicFunction,
        attr: StaticAttr<F, E>,
    ) -> (res: Result<Option<DynamicFunction>, ConfigAttrError<E>>)
        ensures
            res is Ok <==> static_attr_accepted(attr),
            res matches Ok(next) ==> {
                &&& next == function.spec_next()
                &&& final(self).properties() == old(self).properties()
                &&& function is QueryRewrite ==> {
                    &&& final(self).query_rewrite_fn() == static_attr_value(attr)
                    &&& final(self).check_auth_fn() == old(self).check_auth_fn()
                }
                &&& function is CheckAuth ==> {
                    &&& final(self).check_auth_fn() == static_attr_value(attr)
                    &&& final(self).query_rewrite_fn() == old(self).query_rewrite_fn()
                }
            },
            res matches Err(e) ==> {
                &&& *final(self) == *old(self)
                &&& static_attr_error(attr, function.spec_key(), e)
            },
    {
        proof {
            use_type_invariant(&*self);
        }
        let value = self.static_call_attr(attr, function.key())?;
        match function {
            DynamicFunction::QueryRewrite => {
                self.query_rewrite = value;
                Ok(Some(DynamicFunction::CheckAuth))
            },
            DynamicFunction::CheckAuth => {
                self.check_auth = value;
                Ok(None)
            },
        }
    }

    /// Stores `value` under `camel_key`, replacing what was stored there.
    pub fn insert_dynamic_property(
        &mut self,
        camel_key: String,
        value: CubeConfigPyVariableValue<N>,
    )
        ensures
            final(self).properties() == old(self).properties().insert(camel_key@, value),
            final(self).query_rewrite_fn() == old(self).query_rewrite_fn(),
            final(self).check_auth_fn() == old(self).check_auth_fn(),
    {
        proof {
            use_type_invariant(&*self);
        }
        let mut entries: Vec<(String, CubeConfigPyVariableValue<N>)> = Vec::new();
        proof {
            lemma_empty_entries(entries@);
        }
        std::mem::swap(&mut entries, &mut self.dynamic_properties);
        insert_entry(&mut entries, camel_key, value);
        self.dynamic_properties = entries;
    }

    /// Reads a plain attribute: `None` changes nothing, a string, boolean or
    /// number is stored under the camel-case form of `key`, anything else
    /// gives a type error that names its type and `key`; an error raised while
    /// reading is passed on. On an error the configuration is left as it is.
    pub fn dynamic_from_attr<E>(&mut self, attr: DynamicAttr<N, E>, key: &str) -> (res: Result<
        (),
        ConfigAttrError<E>,
    >)
        ensures
            final(self).query_rewrite_fn() == old(self).query_rewrite_fn(),
            final(self).check_auth_fn() == old(self).check_auth_fn(),
            final(self).properties() == dynamic_update(old(self).properties(), attr, key@),
            forall|words: Seq<Seq<char>>|
                #[trigger] snake_joined(words) == key@ && lower_words(words) && attr is Value
                    ==> final(self).properties() == old(self).properties().insert(
                    camel_joined(words),
                    attr->Value_0,
                ),
            res is Ok <==> dynamic_attr_accepted(attr),
            match attr {
                DynamicAttr::Raised(e) => res == Err::<(), ConfigAttrError<E>>(
                    ConfigAttrError::Raised(e),
                ),
                DynamicAttr::Other { type_label } => res matches Err(ConfigAttrError::TypeError(msg))
                    && msg@ == unsupported_type_message(type_label@, key@),
                _ => true,
            },
    {
        match attr {
            DynamicAttr::Raised(e) => Err(ConfigAttrError::Raised(e)),
            DynamicAttr::NoneValue => Ok(()),
            DynamicAttr::Value(value) => {
                let camel_key = to_camel_case(key);
                self.insert_dynamic_property(camel_key, value);
                Ok(())
            },
            DynamicAttr::Other { type_label } => {
                Err(ConfigAttrError::TypeError(build_unsupported_type_message(type_label.as_str(), key)))
            },
        }
    }

    /// Hands out all plain values and leaves none: the entries returned carry
    /// distinct keys and stand for exactly the values that were stored.
    pub fn take_dynamic_properties(&mut self) -> (entries: Vec<(String, CubeConfigPyVariableValue<N>)>)
        ensures
            keys_distinct(entries@),
            entries_map(entries@) == old(self).properties(),
            final(self).properties() == Map::<Seq<char>, CubeConfigPyVariableValue<N>>::empty(),
            final(self).query_rewrite_fn() == old(self).query_rewrite_fn(),
            final(self).check_auth_fn() == old(self).check_auth_fn(),
    {
        proof {
            use_type_invariant(&*self);
        }
        let mut entries: Vec<(String, CubeConfigPyVariableValue<N>)> = Vec::new();
        proof {
            lemma_empty_entries(entries@);
        }
        std::mem::swap(&mut entries, &mut self.dynamic_properties);
        entries
    }
}

} // verus!
