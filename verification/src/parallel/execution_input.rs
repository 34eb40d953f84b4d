//! Script inputs given on the command line as `name=value`.

use vstd::prelude::*;
use vstd::string::StrSliceExecFns;

verus! {

/// Whether `serde_json` accepts `text` as one complete JSON document.
pub uninterp spec fn json_parses(text: Seq<char>) -> bool;

/// Calls `serde_json::from_str` with `serde_json::Value` as the target and
/// reports whether it returned `Ok`. The parser reads the text and nothing
/// else, so the answer is a function of the text; what that function is on
/// a given text is left to `serde_json`.
#[verifier::external_body]
fn parses_as_json(text: &str) -> (r: bool)
    ensures
        r == json_parses(text@),
{
    serde_json::from_str::<serde_json::Value>(text).is_ok()
}

/// The value of a script input.
#[derive(Debug, Clone, PartialEq, Eq)]
pub enum InputValue {
    /// Text that is a JSON document, to be passed on as the value it denotes.
    Json(String),
    /// Text that is no JSON document, to be passed on as a JSON string.
    Literal(String),
}

/// An input value as a mathematical value.
pub enum InputValueView {
    Json(Seq<char>),
    Literal(Seq<char>),
}

impl DeepView for InputValue {
    type V = InputValueView;

    open spec fn deep_view(&self) -> InputValueView {
        match self {
            InputValue::Json(text) => InputValueView::Json(text@),
            InputValue::Literal(text) => InputValueView::Literal(text@),
        }
    }
}

/// The value that `raw` denotes: JSON where it parses, a literal string
/// where it does not.
pub open spec fn spec_value(raw: Seq<char>, parses: bool) -> InputValueView {
    if parses {
        InputValueView::Json(raw)
    } else {
        InputValueView::Literal(raw)
    }
}

impl InputValue {
    /// Wrap `raw` according to the parser's answer for it.
    pub fn from_text(raw: String, parses: bool) -> (r: InputValue)
        ensures
            r.deep_view() == spec_value(raw@, parses),
    {
        if parses {
            InputValue::Json(raw)
        } else {
            InputValue::Literal(raw)
        }
    }

    /// Read `raw` as JSON if it parses, or as a literal string otherwise.
    pub fn parse(raw: &str) -> (r: InputValue)
        ensures
            r.deep_view() == spec_value(raw@, json_parses(raw@)),
    {
        let parses = parses_as_json(raw);
        InputValue::from_text(raw.to_owned(), parses)
    }

    /// The text of this value, as it was given.
    pub fn text(&self) -> (r: &str)
        ensures
            self.deep_view() is Json ==> r@ == self.deep_view()->Json_0,
            self.deep_view() is Literal ==> r@ == self.deep_view()->Literal_0,
    {
        match self {
            InputValue::Json(text) => text.as_str(),
            InputValue::Literal(text) => text.as_str(),
        }
    }

    /// Whether this value is to be read as JSON.
    pub fn is_json(&self) -> (r: bool)
        ensures
            r == (self.deep_view() is Json),
    {
        match self {
            InputValue::Json(_) => true,
            InputValue::Literal(_) => false,
        }
    }
}

/// A named input to a script.
#[derive(Debug, Clone, PartialEq, Eq)]
pub struct ExecutionInput {
    /// The name under which the script sees the value.
    pub name: String,
    /// The value.
    pub value: InputValue,
}

/// A named input as a mathematical value.
pub struct ExecutionInputView {
    pub name: Seq<char>,
    pub value: InputValueView,
}

impl DeepView for ExecutionInput {
    type V = ExecutionInputView;

    open spec fn deep_view(&self) -> ExecutionInputView {
        ExecutionInputView { name: self.name@, value: self.value.deep_view() }
    }
}

/// Why a token is no input.
#[derive(Debug, Clone, Copy, PartialEq, Eq, Structural)]
pub enum InputError {
    /// The token holds no `=`.
    MissingSeparator,
}

/// `i` is the position of the first `=` in `token`.
pub open spec fn is_separator(token: Seq<char>, i: int) -> bool {
    &&& 0 <= i < token.len()
    &&& token[i] == '='
    &&& forall|j: int| 0 <= j < i ==> token[j] != '='
}

/// The input that `token` denotes when its first `=` stands at `i`: the
/// name is what stands before it, the value what stands after it.
pub open spec fn spec_input(token: Seq<char>, i: int) -> ExecutionInputView {
    let raw = token.subrange(i + 1, token.len() as int);
    ExecutionInputView { name: token.subrange(0, i), value: spec_value(raw, json_parses(raw)) }
}

/// The position of the first `=` in `token`, if there is one.
fn find_separator(token: &str) -> (r: Option<usize>)
    ensures
        match r {
            Some(i) => is_separator(token@, i as int),
            None => !token@.contains('='),
        },
{
    let n: usize = token.unicode_len();
    let mut i: usize = 0;
    while i < n
        invariant
            n == token@.len(),
            i <= n,
            forall|j: int| 0 <= j < i ==> token@[j] != '=',
        decreases n - i,
    {
        if token.get_char(i) == '=' {
            return Some(i);
        }
        i = i + 1;
    }
    None
}

impl ExecutionInput {
    /// An input assembled from a name and the raw text of its value, given
    /// the parser's answer for that text.
    pub fn from_parts(name: String, raw: String, parses: bool) -> (r: ExecutionInput)
        ensures
            r.deep_view() == (ExecutionInputView { name: name@, value: spec_value(raw@, parses) }),
    {
        ExecutionInput { name, value: InputValue::from_text(raw, parses) }
    }

    /// Parse a token of the form `name=value`. The token is split at its
    /// first `=`; the value may hold further ones. A token without `=` is
    /// refused. The value is read as JSON if it parses, or as a literal
    /// string otherwise.
    pub fn parse(token: &str) -> (r: Result<ExecutionInput, InputError>)
        ensures
            match r {
                Ok(input) => is_separator(token@, input.name@.len() as int) && input.deep_view()
                    == spec_input(token@, input.name@.len() as int),
                Err(e) => e == InputError::MissingSeparator && !token@.contains('='),
            },
    {
        match find_separator(token) {
            None => Err(InputError::MissingSeparator),
            Some(i) => {
                let n: usize = token.unicode_len();
                let name = token.substring_char(0, i).to_owned();
                let raw = token.substring_char(i + 1, n);
                let parses = parses_as_json(raw);
                Ok(ExecutionInput::from_parts(name, raw.to_owned(), parses))
            },
        }
    }
}

/// A token has at most one first `=`, so the input it denotes is unique.
pub proof fn separator_is_unique(token: Seq<char>, i: int, j: int)
    requires
        is_separator(token, i),
        is_separator(token, j),
    ensures
        i == j,
{
    if i < j {
        assert(token[i] != '=');
    } else if j < i {
        assert(token[j] != '=');
    }
}

/// A token holds a first `=` exactly when it holds one at all.
pub proof fn separator_exists(token: Seq<char>)
    ensures
        token.contains('=') <==> exists|i: int| is_separator(token, i),
{
    if token.contains('=') {
        let k = token.index_of_first('=');
        token.index_of_first_ensures('=');
        assert(is_separator(token, k->Some_0));
    }
    if exists|i: int| is_separator(token, i) {
        let i = choose|i: int| is_separator(token, i);
        assert(token[i] == '=');
    }
}

} // verus!
