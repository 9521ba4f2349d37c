//! Coercion of raw parameters into typed values, and the rewriting of
//! `{{name}}` placeholders into a driver's positional markers.

use crate::model::{
    Decimal, NamedValue, NamedValueView, Parameter, ParameterView, Value, ValueKind, ValueView,
};
use crate::numeral::{
    decimal_text, integer_of, is_decimal_literal, parse_integer, render_decimal, IntegerError,
};
use crate::text::{lowered, lowered_eq, replace, replace_all, to_chars};
use vstd::prelude::*;

verus! {

/// Why raw parameters could not be turned into typed values.
#[derive(Clone, Debug, PartialEq, Eq)]
pub enum ParseError {
    /// No raw value carries the parameter's name.
    MissingParameter(String),
    /// The raw value of an integer parameter is no integer.
    Integer(IntegerError),
    /// The raw value of a decimal parameter is empty.
    EmptyDecimal,
    /// The raw value of a decimal parameter is no decimal literal.
    InvalidDecimal,
}

/// What a [`ParseError`] holds.
pub enum ParseErrorView {
    MissingParameter(Seq<char>),
    Integer(IntegerError),
    EmptyDecimal,
    InvalidDecimal,
}

impl View for ParseError {
    type V = ParseErrorView;

    open spec fn view(&self) -> ParseErrorView {
        match self {
            ParseError::MissingParameter(name) => ParseErrorView::MissingParameter(name@),
            ParseError::Integer(e) => ParseErrorView::Integer(*e),
            ParseError::EmptyDecimal => ParseErrorView::EmptyDecimal,
            ParseError::InvalidDecimal => ParseErrorView::InvalidDecimal,
        }
    }
}

impl DeepView for ParseError {
    type V = ParseErrorView;

    open spec fn deep_view(&self) -> ParseErrorView {
        self@
    }
}

impl ParseErrorView {
    /// The sentence that reports the error.
    pub open spec fn message(self) -> Seq<char> {
        match self {
            ParseErrorView::MissingParameter(name) => "no value provided for parameter `"@ + name
                + "`"@,
            ParseErrorView::Integer(IntegerError::Empty) => "cannot parse integer from empty string"@,
            ParseErrorView::Integer(IntegerError::InvalidDigit) => "invalid digit found in string"@,
            ParseErrorView::Integer(IntegerError::PosOverflow) => "number too large to fit in target type"@,
            ParseErrorView::Integer(IntegerError::NegOverflow) => "number too small to fit in target type"@,
            ParseErrorView::EmptyDecimal => "cannot parse float from empty string"@,
            ParseErrorView::InvalidDecimal => "invalid float literal"@,
        }
    }
}

impl ParseError {
    /// The sentence that reports the error.
    pub fn message(&self) -> (s: String)
        ensures
            s@ == self@.message(),
    {
        match self {
            ParseError::MissingParameter(name) => {
                let mut s = String::from_str("no value provided for parameter `");
                s.append(name.as_str());
                s.append("`");
                s
            },
            ParseError::Integer(IntegerError::Empty) => String::from_str(
                "cannot parse integer from empty string",
            ),
            ParseError::Integer(IntegerError::InvalidDigit) => String::from_str(
                "invalid digit found in string",
            ),
            ParseError::Integer(IntegerError::PosOverflow) => String::from_str(
                "number too large to fit in target type",
            ),
            ParseError::Integer(IntegerError::NegOverflow) => String::from_str(
                "number too small to fit in target type",
            ),
            ParseError::EmptyDecimal => String::from_str("cannot parse float from empty string"),
            ParseError::InvalidDecimal => String::from_str("invalid float literal"),
        }
    }
}

/// The typed value that a raw text stands for under a kind. A boolean is true
/// exactly when the text, lowered, reads `true`; an integer and a decimal
/// must be written as such; a string and a timestamp are taken as they are.
pub open spec fn coerced(kind: ValueKind, raw: Seq<char>) -> Result<ValueView, ParseErrorView> {
    match kind {
        ValueKind::Boolean => Ok(ValueView::Boolean(Some(lowered(raw) == "true"@))),
        ValueKind::Decimal => if raw.len() == 0 {
            Err(ParseErrorView::EmptyDecimal)
        } else if is_decimal_literal(raw) {
            Ok(ValueView::Decimal(Some(raw)))
        } else {
            Err(ParseErrorView::InvalidDecimal)
        },
        ValueKind::Integer => match integer_of(raw) {
            Ok(i) => Ok(ValueView::Integer(Some(i))),
            Err(e) => Err(ParseErrorView::Integer(e)),
        },
        ValueKind::String => Ok(ValueView::String(Some(raw))),
        ValueKind::Timestamp => Ok(ValueView::Timestamp(Some(raw))),
    }
}

/// Turns a raw text into a value of the given kind.
pub fn parse_value(typ: &ValueKind, value: &str) -> (r: Result<Value, ParseError>)
    ensures
        match r {
            Ok(v) => coerced(*typ, value@) == Ok::<ValueView, ParseErrorView>(v@),
            Err(e) => coerced(*typ, value@) == Err::<ValueView, ParseErrorView>(e@),
        },
{
    match typ {
        ValueKind::Boolean => {
            let chars = to_chars(value);
            assert(chars@.skip(0) =~= value@);
            Ok(Value::Boolean(Some(lowered_eq(&chars, 0, "true"))))
        },
        ValueKind::Decimal => {
            if value.unicode_len() == 0 {
                return Err(ParseError::EmptyDecimal);
            }
            match Decimal::parse(value) {
                Some(d) => Ok(Value::Decimal(Some(d))),
                None => Err(ParseError::InvalidDecimal),
            }
        },
        ValueKind::Integer => match parse_integer(value) {
            Ok(i) => Ok(Value::Integer(Some(i))),
            Err(e) => Err(ParseError::Integer(e)),
        },
        ValueKind::Timestamp => Ok(Value::Timestamp(Some(String::from_str(value)))),
        ValueKind::String => Ok(Value::String(Some(String::from_str(value)))),
    }
}

/// The text that the raw values give for `name`: that of the last entry
/// under that name, none if there is no such entry.
pub open spec fn lookup(raw: Seq<(Seq<char>, Seq<char>)>, name: Seq<char>) -> Option<Seq<char>>
    decreases raw.len(),
{
    if raw.len() == 0 {
        None
    } else if raw.last().0 == name {
        Some(raw.last().1)
    } else {
        lookup(raw.drop_last(), name)
    }
}

/// The named value that the raw values give for one parameter.
pub open spec fn parsed_parameter(
    parameter: ParameterView,
    raw: Seq<(Seq<char>, Seq<char>)>,
) -> Result<NamedValueView, ParseErrorView> {
    match lookup(raw, parameter.name) {
        None => Err(ParseErrorView::MissingParameter(parameter.name)),
        Some(text) => match coerced(parameter.kind, text) {
            Ok(value) => Ok(NamedValueView { name: parameter.name, value }),
            Err(e) => Err(e),
        },
    }
}

/// The named values that the raw values give for the parameters, in the
/// order of the parameters, or the error of the first parameter that fails.
pub open spec fn parsed_parameters(
    parameters: Seq<ParameterView>,
    raw: Seq<(Seq<char>, Seq<char>)>,
) -> Result<Seq<NamedValueView>, ParseErrorView>
    decreases parameters.len(),
{
    if parameters.len() == 0 {
        Ok(Seq::empty())
    } else {
        match parsed_parameters(parameters.drop_last(), raw) {
            Err(e) => Err(e),
            Ok(values) => match parsed_parameter(parameters.last(), raw) {
                Ok(value) => Ok(values.push(value)),
                Err(e) => Err(e),
            },
        }
    }
}

/// Finds the raw text given for `name`.
fn find<'a>(param_values: &'a Vec<(String, String)>, name: &String) -> (r: Option<&'a String>)
    ensures
        match r {
            Some(text) => lookup(param_values.deep_view(), name@) == Some(text@),
            None => lookup(param_values.deep_view(), name@) is None,
        },
{
    let ghost raw = param_values.deep_view();
    let mut i: usize = param_values.len();
    assert(raw.take(i as int) =~= raw);
    while i > 0
        invariant
            i <= param_values.len(),
            raw == param_values.deep_view(),
            lookup(raw, name@) == lookup(raw.take(i as int), name@),
        decreases i,
    {
        i -= 1;
        let ghost upto = raw.take(i + 1);
        assert(upto.drop_last() =~= raw.take(i as int));
        assert(upto.last() == (param_values@[i as int].0@, param_values@[i as int].1@));
        if param_values[i].0 == *name {
            return Some(&param_values[i].1);
        }
    }
    None
}

/// Parses parameters given as strings: for each parameter, in the order of
/// declaration, the raw value under its name, coerced by its kind.
pub fn parse_parameter_values(
    parameters: &Vec<Parameter>,
    param_values: &Vec<(String, String)>,
) -> (r: Result<Vec<NamedValue>, ParseError>)
    ensures
        match r {
            Ok(values) => parsed_parameters(parameters.deep_view(), param_values.deep_view())
                == Ok::<Seq<NamedValueView>, ParseErrorView>(values.deep_view()),
            Err(e) => parsed_parameters(parameters.deep_view(), param_values.deep_view())
                == Err::<Seq<NamedValueView>, ParseErrorView>(e@),
        },
{
    let ghost declared = parameters.deep_view();
    let ghost raw = param_values.deep_view();
    let mut values: Vec<NamedValue> = Vec::new();
    let mut i: usize = 0;
    assert(values.deep_view() =~= Seq::<NamedValueView>::empty());
    while i < parameters.len()
        invariant
            i <= parameters.len(),
            declared == parameters.deep_view(),
            raw == param_values.deep_view(),
            parsed_parameters(declared.take(i as int), raw) == Ok::<
                Seq<NamedValueView>,
                ParseErrorView,
            >(values.deep_view()),
        decreases parameters.len() - i,
    {
        let param = &parameters[i];
        let ghost upto = declared.take(i + 1);
        assert(upto.drop_last() =~= declared.take(i as int));
        assert(upto.last() == param@);
        let ghost failed = parsed_parameter(param@, raw);
        let text = match find(param_values, &param.name) {
            Some(text) => text,
            None => {
                proof {
                    lemma_first_failure(declared, raw, i + 1, failed->Err_0);
                }
                return Err(ParseError::MissingParameter(param.name.clone()));
            },
        };
        let value = match parse_value(&param.kind, text.as_str()) {
            Ok(value) => value,
            Err(e) => {
                proof {
                    lemma_first_failure(declared, raw, i + 1, e@);
                }
                return Err(e);
            },
        };
        let ghost before = values.deep_view();
        let named = NamedValue { name: param.name.clone(), value };
        values.push(named);
        assert(values.deep_view() =~= before.push(named@));
        i += 1;
    }
    assert(declared.take(i as int) =~= declared);
    Ok(values)
}

/// Once a prefix of the parameters has failed, the whole list fails the same way.
proof fn lemma_first_failure(
    parameters: Seq<ParameterView>,
    raw: Seq<(Seq<char>, Seq<char>)>,
    k: int,
    e: ParseErrorView,
)
    requires
        0 <= k <= parameters.len(),
        parsed_parameters(parameters.take(k), raw) == Err::<Seq<NamedValueView>, ParseErrorView>(e),
    ensures
        parsed_parameters(parameters, raw) == Err::<Seq<NamedValueView>, ParseErrorView>(e),
    decreases parameters.len(),
{
    if k == parameters.len() {
        assert(parameters.take(k) =~= parameters);
    } else {
        assert(parameters.drop_last().take(k) =~= parameters.take(k));
        lemma_first_failure(parameters.drop_last(), raw, k, e);
    }
}

/// The token that stands for a parameter in a query.
pub open spec fn placeholder(name: Seq<char>) -> Seq<char> {
    "{{"@ + name + "}}"@
}

/// `query` after the placeholders of the first `count` parameters have been
/// replaced, one parameter after the other: the parameter at position `i` by
/// `prefix` followed by the decimal numeral of `offset + i`.
pub open spec fn rewritten(
    prefix: Seq<char>,
    offset: nat,
    query: Seq<char>,
    params: Seq<NamedValueView>,
    count: nat,
) -> Seq<char>
    decreases count,
{
    if count == 0 {
        query
    } else {
        let i = (count - 1) as nat;
        replace_all(
            rewritten(prefix, offset, query, params, i),
            placeholder(params[i as int].name),
            prefix + decimal_text(offset + i),
        )
    }
}

/// Replaces each `{{name}}` by the driver's marker for the position that the
/// parameter of that name has in `params`.
pub fn positional(prefix: &str, offset: usize, query: &str, params: &Vec<NamedValue>) -> (out:
    String)
    requires
        params.len() > 0 ==> offset + params.len() - 1 <= usize::MAX,
    ensures
        out@ == rewritten(prefix@, offset as nat, query@, params.deep_view(), params.len() as nat),
{
    let mut replaced = String::from_str(query);
    let mut ix: usize = 0;
    while ix < params.len()
        invariant
            ix <= params.len(),
            params.len() > 0 ==> offset + params.len() - 1 <= usize::MAX,
            replaced@ == rewritten(prefix@, offset as nat, query@, params.deep_view(), ix as nat),
        decreases params.len() - ix,
    {
        let mut token = String::from_str("{{");
        token.append(params[ix].name.as_str());
        token.append("}}");
        let mut marker = String::from_str(prefix);
        let number = render_decimal((ix + offset) as u64);
        marker.append(number.as_str());
        assert(params.deep_view()[ix as int].name == params@[ix as int].name@);
        replaced = replace(replaced.as_str(), token.as_str(), marker.as_str());
        ix += 1;
    }
    replaced
}

/// Splits a raw parameter written as `name=value` at its first `=`. A text
/// without `=` is no such parameter.
pub fn split_assignment(text: &str) -> (r: Option<(String, String)>)
    ensures
        match r {
            Some((name, value)) => text@ == name@ + seq!['='] + value@ && !name@.contains('='),
            None => !text@.contains('='),
        },
{
    let chars = to_chars(text);
    let mut i: usize = 0;
    while i < chars.len()
        invariant
            chars@ == text@,
            i <= chars.len(),
            forall|j: int| 0 <= j < i ==> chars@[j] != '=',
        decreases chars.len() - i,
    {
        if chars[i] == '=' {
            let name = String::from_str(text.substring_char(0, i));
            let value = String::from_str(text.substring_char(i + 1, chars.len()));
            assert(text@ =~= name@ + seq!['='] + value@);
            return Some((name, value));
        }
        i += 1;
    }
    None
}

/// Whether `pat` stands somewhere in `text`.
pub open spec fn occurs(text: Seq<char>, pat: Seq<char>) -> bool {
    exists|k: int|
        0 <= k && k + pat.len() <= text.len() && #[trigger] text.subrange(k, k + pat.len()) == pat
}

/// Whether a text holds no curly bracket.
pub open spec fn brace_free(s: Seq<char>) -> bool {
    forall|i: int| 0 <= i < s.len() ==> #[trigger] s[i] != '{' && s[i] != '}'
}

/// A text in which the pattern does not stand is left as it is.
pub proof fn lemma_replace_absent(text: Seq<char>, pat: Seq<char>, with: Seq<char>)
    requires
        !occurs(text, pat),
    ensures
        replace_all(text, pat, with) == text,
    decreases text.len(),
{
    if pat.len() > 0 && text.len() >= pat.len() {
        assert(text.subrange(0int, 0int + pat.len()) != pat);
        let rest = text.skip(1);
        assert forall|k: int| 0 <= k && k + pat.len() <= rest.len() implies #[trigger] rest.subrange(
            k,
            k + pat.len(),
        ) != pat by {
            assert(rest.subrange(k, k + pat.len()) =~= text.subrange(k + 1, k + 1 + pat.len()));
        }
        lemma_replace_absent(rest, pat, with);
        assert(seq![text[0]] + rest =~= text);
    }
}

/// A text that is the pattern becomes the replacement.
pub proof fn lemma_replace_whole(pat: Seq<char>, with: Seq<char>)
    requires
        pat.len() > 0,
    ensures
        replace_all(pat, pat, with) == with,
{
    assert(pat.subrange(0, pat.len() as int) =~= pat);
    assert(pat.skip(pat.len() as int) =~= Seq::<char>::empty());
    assert(replace_all(Seq::<char>::empty(), pat, with) == Seq::<char>::empty());
    assert(with + Seq::<char>::empty() =~= with);
}

/// The numeral of a number holds digits only.
pub proof fn lemma_decimal_text_digits(n: nat)
    ensures
        forall|i: int| 0 <= i < decimal_text(n).len() ==> '0' <= #[trigger] decimal_text(n)[i] <= '9',
    decreases n,
{
    let text = decimal_text(n);
    if n >= 10 {
        let front = decimal_text(n / 10);
        lemma_decimal_text_digits(n / 10);
        assert forall|i: int| 0 <= i < text.len() implies '0' <= #[trigger] text[i] <= '9' by {
            if i < front.len() {
                assert(text[i] == front[i]);
            }
        }
    }
}

/// The placeholder of one name does not stand in the placeholder of another,
/// if neither name holds a curly bracket.
pub proof fn lemma_placeholders_apart(this: Seq<char>, other: Seq<char>)
    requires
        brace_free(this),
        brace_free(other),
        this != other,
    ensures
        !occurs(placeholder(this), placeholder(other)),
{
    reveal_strlit("{{");
    reveal_strlit("}}");
    let t = placeholder(this);
    let p = placeholder(other);
    assert(t.len() == this.len() + 4 && p.len() == other.len() + 4);
    assert forall|k: int| 0 <= k && k + p.len() <= t.len() implies #[trigger] t.subrange(
        k,
        k + p.len(),
    ) != p by {
        let window = t.subrange(k, k + p.len());
        if window == p {
            assert(window[0] == t[k] && window[1] == t[k + 1]);
            assert(p[0] == '{' && p[1] == '{');
            if 2 <= k < this.len() + 2 {
                assert(t[k] == this[k - 2]);
            }
            if 2 <= k + 1 < this.len() + 2 {
                assert(t[k + 1] == this[k - 1]);
            }
            assert(k == 0);
            let close: int = (other.len() + 2) as int;
            assert(p[close] == '}');
            assert(window[close] == t[close]);
            if other.len() < this.len() {
                assert(t[close] == this[close - 2]);
            }
            assert(other.len() == this.len());
            assert forall|i: int| 0 <= i < this.len() implies this[i] == other[i] by {
                assert(window[i + 2] == t[i + 2]);
                assert(t[i + 2] == this[i]);
                assert(p[i + 2] == other[i]);
            }
            assert(this =~= other);
        }
    }
}

/// The placeholder of a parameter, taken alone, is rewritten to the marker
/// of that parameter's position in the list, whatever else the list holds
/// and in whatever order: `prefix`, then the numeral of `offset` plus the
/// position. This holds where no name holds a curly bracket, no other
/// parameter has the same name, and `prefix` holds no `{`.
pub proof fn lemma_placeholder_gets_its_position(
    prefix: Seq<char>,
    offset: nat,
    params: Seq<NamedValueView>,
    i: int,
    count: nat,
)
    requires
        0 <= i < params.len(),
        count <= params.len(),
        forall|j: int| 0 <= j < params.len() ==> brace_free(#[trigger] params[j].name),
        forall|j: int| 0 <= j < params.len() && j != i ==> (#[trigger] params[j]).name != params[i].name,
        forall|k: int| 0 <= k < prefix.len() ==> #[trigger] prefix[k] != '{',
    ensures
        rewritten(prefix, offset, placeholder(params[i].name), params, count) == if count <= i {
            placeholder(params[i].name)
        } else {
            prefix + decimal_text((offset + i) as nat)
        },
    decreases count,
{
    if count > 0 {
        let j = (count - 1) as int;
        let query = placeholder(params[i].name);
        let marker = prefix + decimal_text((offset + i) as nat);
        let token = placeholder(params[j].name);
        let with = prefix + decimal_text((offset + j) as nat);
        lemma_placeholder_gets_its_position(prefix, offset, params, i, j as nat);
        reveal_strlit("{{");
        reveal_strlit("}}");
        assert(token.len() == params[j].name.len() + 4);
        if j < i {
            lemma_placeholders_apart(params[i].name, params[j].name);
            lemma_replace_absent(query, token, with);
        } else if j == i {
            lemma_replace_whole(token, with);
        } else {
            lemma_decimal_text_digits((offset + i) as nat);
            assert forall|k: int| 0 <= k && k + token.len() <= marker.len() implies #[trigger] marker.subrange(
                k,
                k + token.len(),
            ) != token by {
                let window = marker.subrange(k, k + token.len());
                assert(window[0] == marker[k]);
                assert(token[0] == '{');
                if k >= prefix.len() {
                    assert(marker[k] == decimal_text((offset + i) as nat)[k - prefix.len()]);
                } else {
                    assert(marker[k] == prefix[k]);
                }
            }
            lemma_replace_absent(marker, token, with);
        }
    }
}

/// Where the raw values fit the parameters, every parameter gets its value:
/// as many values as parameters, each under the name of the parameter at
/// its position, and each the raw text under that name, coerced by the
/// parameter's kind.
pub proof fn lemma_parsed_keeps_order(
    parameters: Seq<ParameterView>,
    raw: Seq<(Seq<char>, Seq<char>)>,
)
    requires
        parsed_parameters(parameters, raw) is Ok,
    ensures
        ({
            let values = parsed_parameters(parameters, raw)->Ok_0;
            &&& values.len() == parameters.len()
            &&& forall|i: int|
                0 <= i < parameters.len() ==> parsed_parameter(#[trigger] parameters[i], raw)
                    == Ok::<NamedValueView, ParseErrorView>(values[i]) && values[i].name
                    == parameters[i].name
        }),
    decreases parameters.len(),
{
    if parameters.len() > 0 {
        let front = parameters.drop_last();
        lemma_parsed_keeps_order(front, raw);
        let values = parsed_parameters(parameters, raw)->Ok_0;
        let earlier = parsed_parameters(front, raw)->Ok_0;
        assert forall|i: int| 0 <= i < parameters.len() implies parsed_parameter(
            #[trigger] parameters[i],
            raw,
        ) == Ok::<NamedValueView, ParseErrorView>(values[i]) && values[i].name
            == parameters[i].name by {
            if i < front.len() {
                assert(front[i] == parameters[i]);
                assert(values[i] == earlier[i]);
            }
        }
    }
}

/// A parameter without a raw value fails the parsing with its name in the
/// error, unless an earlier parameter has failed before.
pub proof fn lemma_missing_parameter(
    parameters: Seq<ParameterView>,
    raw: Seq<(Seq<char>, Seq<char>)>,
    i: int,
)
    requires
        0 <= i < parameters.len(),
        lookup(raw, parameters[i].name) is None,
        forall|j: int| 0 <= j < i ==> parsed_parameter(#[trigger] parameters[j], raw) is Ok,
    ensures
        parsed_parameters(parameters, raw) == Err::<Seq<NamedValueView>, ParseErrorView>(
            ParseErrorView::MissingParameter(parameters[i].name),
        ),
        ParseErrorView::MissingParameter(parameters[i].name).message()
            == "no value provided for parameter `"@ + parameters[i].name + "`"@,
{
    lemma_prefix_parses(parameters, raw, i);
    let upto = parameters.take(i + 1);
    assert(upto.drop_last() =~= parameters.take(i));
    assert(upto.last() == parameters[i]);
    lemma_first_failure(parameters, raw, i + 1, ParseErrorView::MissingParameter(parameters[i].name));
}

/// Parameters that parse one by one parse together.
proof fn lemma_prefix_parses(
    parameters: Seq<ParameterView>,
    raw: Seq<(Seq<char>, Seq<char>)>,
    k: int,
)
    requires
        0 <= k <= parameters.len(),
        forall|j: int| 0 <= j < k ==> parsed_parameter(#[trigger] parameters[j], raw) is Ok,
    ensures
        parsed_parameters(parameters.take(k), raw) is Ok,
    decreases k,
{
    if k > 0 {
        lemma_prefix_parses(parameters, raw, k - 1);
        let upto = parameters.take(k);
        assert(upto.drop_last() =~= parameters.take(k - 1));
        assert(upto.last() == parameters[k - 1]);
    }
}

/// A query in which the placeholder of no parameter stands is left as it is.
pub proof fn lemma_rewrite_nothing(
    prefix: Seq<char>,
    offset: nat,
    query: Seq<char>,
    params: Seq<NamedValueView>,
    count: nat,
)
    requires
        count <= params.len(),
        forall|i: int| 0 <= i < count ==> !occurs(query, placeholder(#[trigger] params[i].name)),
    ensures
        rewritten(prefix, offset, query, params, count) == query,
    decreases count,
{
    if count > 0 {
        let i = (count - 1) as nat;
        lemma_rewrite_nothing(prefix, offset, query, params, i);
        assert(!occurs(query, placeholder(params[i as int].name)));
        lemma_replace_absent(query, placeholder(params[i as int].name), prefix + decimal_text(offset + i));
    }
}

} // verus!
