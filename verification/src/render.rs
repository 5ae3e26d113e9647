use vstd::prelude::*;
use vstd::string::*;
use vstd::utf8::*;

verus! {

/// `serde_json::Map`: a JSON object, known by its members alone.
#[verifier::external_type_specification]
#[verifier::external_body]
#[verifier::reject_recursive_types(K)]
#[verifier::reject_recursive_types(V)]
pub struct ExJsonMap<K, V>(serde_json::Map<K, V>);

/// `serde_json::Value`: a JSON value, carried through without a look inside.
#[verifier::external_type_specification]
#[verifier::external_body]
pub struct ExJsonValue(serde_json::Value);

/// `handlebars::RenderError`: why a template did not render. Nothing is
/// read from it.
#[verifier::external_type_specification]
#[verifier::external_body]
pub struct ExRenderError(handlebars::RenderError);

/// A JSON object with its members.
pub type JsonObject = serde_json::Map<String, serde_json::Value>;

/// What a template variable is bound to.
pub enum Scalar {
    Text(String),
    Number(u16),
}

/// A template variable with its value.
pub struct Variable {
    pub name: String,
    pub value: Scalar,
}

/// What a template variable is bound to, as contracts speak of it.
pub enum Binding {
    Text(Seq<char>),
    Number(int),
}

impl View for Scalar {
    type V = Binding;

    open spec fn view(&self) -> Binding {
        match self {
            Scalar::Text(text) => Binding::Text(text@),
            Scalar::Number(number) => Binding::Number(*number as int),
        }
    }
}

impl View for Variable {
    type V = (Seq<char>, Binding);

    open spec fn view(&self) -> (Seq<char>, Binding) {
        (self.name@, self.value@)
    }
}

/// The names and bindings that a list of variables holds, in its order.
pub open spec fn pairs(variables: Seq<Variable>) -> Seq<(Seq<char>, Binding)> {
    Seq::new(variables.len(), |i: int| variables[i]@)
}

impl Variable {
    /// A variable bound to a text.
    pub fn text(name: &str, value: &str) -> (variable: Variable)
        ensures
            variable@ == (name@, Binding::Text(value@)),
    {
        Variable { name: name.to_owned(), value: Scalar::Text(value.to_owned()) }
    }

    /// A variable bound to a number.
    pub fn number(name: &str, value: u16) -> (variable: Variable)
        ensures
            variable@ == (name@, Binding::Number(value as int)),
    {
        Variable { name: name.to_owned(), value: Scalar::Number(value) }
    }
}

/// The members of a JSON object, by name.
pub uninterp spec fn json_members(object: JsonObject) -> Map<Seq<char>, Binding>;

/// What Handlebars, with no helper or partial registered beyond its own,
/// renders from `template` over an object with these members, or `None`
/// where it reports an error.
pub uninterp spec fn rendering(template: Seq<char>, members: Map<Seq<char>, Binding>) -> Option<Seq<char>>;

/// `serde_json::Map::new`: an object without members.
#[verifier::external_body]
pub(crate) fn json_map_new() -> (fresh: JsonObject)
    ensures
        json_members(fresh) =~= Map::empty(),
{
    serde_json::Map::new()
}

/// `serde_json::Map::insert` of a JSON string: the member `name` is bound to
/// `text`, whatever it was bound to before; the others stay.
#[verifier::external_body]
pub(crate) fn json_map_insert_text(
    object: &mut JsonObject,
    name: &str,
    text: &str,
)
    ensures
        json_members(*final(object)) == json_members(*old(object)).insert(
            name@,
            Binding::Text(text@),
        ),
{
    object.insert(name.to_owned(), serde_json::Value::String(text.to_owned()));
}

/// `serde_json::Map::insert` of a JSON number: the member `name` is bound to
/// `number`, whatever it was bound to before; the others stay.
#[verifier::external_body]
pub(crate) fn json_map_insert_number(
    object: &mut JsonObject,
    name: &str,
    number: u16,
)
    ensures
        json_members(*final(object)) == json_members(*old(object)).insert(
            name@,
            Binding::Number(number as int),
        ),
{
    object.insert(name.to_owned(), serde_json::Value::from(number));
}

/// Whether `text` has a `>` at `mark` that follows a `{` at `open` with no
/// `}` in between.
pub open spec fn partial_at(text: Seq<u8>, open: int, mark: int) -> bool {
    &&& 0 <= open < mark < text.len()
    &&& text[open] == 123u8
    &&& text[mark] == 62u8
    &&& forall|k: int| open < k < mark ==> text[k] != 125u8
}

/// Whether a template, given by its UTF-8 bytes, may include a partial:
/// whether somewhere a `>` follows a `{` with no `}` in between. Every tag
/// that includes a partial has this form, and so has the text of some
/// templates that include none.
pub open spec fn partial_included(text: Seq<u8>) -> bool {
    exists|open: int, mark: int| partial_at(text, open, mark)
}

/// `Handlebars::render_template` on a fresh registry: the rendered text, or
/// the crate's error. The outcome depends on the template and the object's
/// members alone. A template that may include a partial is left out: one
/// that includes itself is not known to end.
#[verifier::external_body]
pub(crate) fn render_template(
    template: &str,
    object: &JsonObject,
) -> (text: Result<String, handlebars::RenderError>)
    requires
        !partial_included(encode_utf8(template@)),
    ensures
        match text {
            Ok(t) => rendering(template@, json_members(*object)) == Some(t@),
            Err(_) => rendering(template@, json_members(*object)) is None,
        },
{
    handlebars::Handlebars::new().render_template(template, object)
}

/// Why a template gave no text.
#[derive(Clone, Copy, Debug, PartialEq, Eq, Structural)]
pub enum TemplateError {
    /// The template may include a partial, and was not handed to the
    /// renderer.
    PartialIncluded,
    /// The renderer reported an error.
    NotRendered,
}

/// What a template renders to over the given members: nothing where it may
/// include a partial, and else what the renderer makes of it.
pub open spec fn rendered(template: Seq<char>, members: Map<Seq<char>, Binding>) -> Option<
    Seq<char>,
> {
    if partial_included(encode_utf8(template)) {
        None
    } else {
        rendering(template, members)
    }
}

/// Whether a template may include a partial.
pub fn includes_partial(template: &str) -> (found: bool)
    ensures
        found == partial_included(encode_utf8(template@)),
{
    let text = template.as_bytes();
    let ghost mut last_open: int = -1;
    let ghost mut last_close: int = -1;
    let mut opened = false;
    let mut at: usize = 0;
    while at < text.len()
        invariant
            at <= text@.len(),
            text@ == encode_utf8(template@),
            -1 <= last_open < at,
            -1 <= last_close < at,
            last_open >= 0 ==> text@[last_open] == 123u8,
            last_close >= 0 ==> text@[last_close] == 125u8,
            forall|k: int| last_open < k < at ==> text@[k] != 123u8,
            forall|k: int| last_close < k < at ==> text@[k] != 125u8,
            opened == (last_open > last_close),
            forall|open: int, mark: int| mark < at ==> !partial_at(text@, open, mark),
        decreases text@.len() - at,
    {
        let byte = text[at];
        if byte == 123u8 {
            opened = true;
            proof {
                last_open = at as int;
            }
        } else if byte == 125u8 {
            opened = false;
            proof {
                last_close = at as int;
            }
        } else if byte == 62u8 {
            if opened {
                proof {
                    assert(partial_at(text@, last_open, at as int));
                }
                return true;
            }
            proof {
                assert forall|open: int| !partial_at(text@, open, at as int) by {
                    if 0 <= open < at && text@[open] == 123u8 {
                        assert(open <= last_open);
                        assert(open < last_close < at);
                    }
                }
            }
        }
        at += 1;
    }
    false
}

/// The bindings that a list of names and values gives: of two with one
/// name the later decides.
pub open spec fn bindings(variables: Seq<(Seq<char>, Binding)>) -> Map<Seq<char>, Binding>
    decreases variables.len(),
{
    if variables.len() == 0 {
        Map::empty()
    } else {
        bindings(variables.drop_last()).insert(variables.last().0, variables.last().1)
    }
}

/// Renders `template` with `variables`. A template that may include a
/// partial is refused before the renderer is asked.
pub fn render(template: &str, variables: &Vec<Variable>) -> (text: Result<String, TemplateError>)
    ensures
        match text {
            Ok(t) => rendered(template@, bindings(pairs(variables@))) == Some(t@),
            Err(error) => rendered(template@, bindings(pairs(variables@))) is None && (error
                == TemplateError::PartialIncluded <==> partial_included(
                encode_utf8(template@),
            )),
        },
{
    if includes_partial(template) {
        return Err(TemplateError::PartialIncluded);
    }
    let mut object = json_map_new();
    let mut i: usize = 0;
    while i < variables.len()
        invariant
            i <= variables.len(),
            json_members(object) == bindings(pairs(variables@).take(i as int)),
        decreases variables.len() - i,
    {
        proof {
            let next = pairs(variables@).take(i + 1);
            assert(next.drop_last() =~= pairs(variables@).take(i as int));
            assert(next.last() == variables@[i as int]@);
        }
        match &variables[i].value {
            Scalar::Text(text) => json_map_insert_text(
                &mut object,
                variables[i].name.as_str(),
                text.as_str(),
            ),
            Scalar::Number(number) => json_map_insert_number(
                &mut object,
                variables[i].name.as_str(),
                *number,
            ),
        }
        i += 1;
    }
    proof {
        assert(pairs(variables@).take(variables.len() as int) =~= pairs(variables@));
    }
    match render_template(template, &object) {
        Ok(text) => Ok(text),
        Err(_) => Err(TemplateError::NotRendered),
    }
}

} // verus!
