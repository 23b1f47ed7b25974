use crate::text::{digit_char, joined};
use vstd::prelude::*;
use vstd::string::*;

verus! {

/// A JSON document held as a tree of plain values.
#[derive(Debug, PartialEq)]
pub enum Json {
    Null,
    Bool(bool),
    /// A number, kept as its decimal text so that no digit is lost.
    Number(String),
    Text(String),
    Array(Vec<Json>),
    /// The members of an object, in the order in which they are held.
    Object(Vec<(String, Json)>),
}

/// The mathematical value of a [`Json`] document.
pub ghost enum JsonView {
    Null,
    Bool(bool),
    Number(Seq<char>),
    Text(Seq<char>),
    Array(Seq<JsonView>),
    Object(Seq<(Seq<char>, JsonView)>),
}

impl Clone for Json {
    fn clone(&self) -> (r: Json)
        ensures
            r@ == self@,
    {
        self.deep_clone()
    }
}

impl DeepView for Json {
    type V = JsonView;

    open spec fn deep_view(&self) -> JsonView {
        self@
    }
}

/// The value that a document stands for.
pub open spec fn json_view(doc: Json) -> JsonView
    decreases doc,
{
    match doc {
        Json::Null => JsonView::Null,
        Json::Bool(b) => JsonView::Bool(b),
        Json::Number(n) => JsonView::Number(n@),
        Json::Text(s) => JsonView::Text(s@),
        Json::Array(items) => JsonView::Array(
            Seq::new(
                items@.len(),
                |i: int|
                    if 0 <= i < items@.len() {
                        json_view(items@[i])
                    } else {
                        JsonView::Null
                    },
            ),
        ),
        Json::Object(members) => JsonView::Object(
            Seq::new(
                members@.len(),
                |i: int|
                    if 0 <= i < members@.len() {
                        (members@[i].0@, json_view(members@[i].1))
                    } else {
                        (Seq::empty(), JsonView::Null)
                    },
            ),
        ),
    }
}

impl View for Json {
    type V = JsonView;

    open spec fn view(&self) -> JsonView {
        json_view(*self)
    }
}

/// The value of the first member named `key`, if there is one.
pub open spec fn first_named(members: Seq<(Seq<char>, JsonView)>, key: Seq<char>) -> Option<
    JsonView,
>
    decreases members.len(),
{
    if members.len() == 0 {
        None
    } else if members[0].0 == key {
        Some(members[0].1)
    } else {
        first_named(members.drop_first(), key)
    }
}

/// Where the search of [`first_named`] ends: at the first member named `key`
/// when everything before it bears another name, and at nothing when no
/// member bears the name.
pub proof fn lemma_first_named(members: Seq<(Seq<char>, JsonView)>, key: Seq<char>, upto: int)
    requires
        0 <= upto <= members.len(),
        forall|k: int| 0 <= k < upto ==> members[k].0 != key,
    ensures
        upto < members.len() && members[upto].0 == key ==> first_named(members, key) == Some(
            members[upto].1,
        ),
        upto == members.len() ==> first_named(members, key) is None,
    decreases upto,
{
    if upto > 0 {
        let rest = members.drop_first();
        assert forall|k: int| 0 <= k < upto - 1 implies rest[k].0 != key by {
            assert(rest[k] == members[k + 1]);
        }
        lemma_first_named(rest, key, upto - 1);
        if upto < members.len() {
            assert(rest[upto - 1] == members[upto]);
        }
    }
}

impl JsonView {
    /// The items of an array; no items for any other value.
    pub open spec fn items(self) -> Seq<JsonView> {
        match self {
            JsonView::Array(items) => items,
            _ => Seq::empty(),
        }
    }

    /// The member of an object that is named `key`; nothing where the value is
    /// no object or has no such member.
    pub open spec fn member(self, key: Seq<char>) -> Option<JsonView> {
        match self {
            JsonView::Object(members) => first_named(members, key),
            _ => None,
        }
    }

    /// The text of a string value.
    pub open spec fn text(self) -> Option<Seq<char>> {
        match self {
            JsonView::Text(s) => Some(s),
            _ => None,
        }
    }
}

impl Json {
    /// The view of an array is the views of its items, in order.
    pub proof fn lemma_array_view(self)
        requires
            self is Array,
        ensures
            self@ is Array,
            self@->Array_0.len() == self->Array_0@.len(),
            forall|k: int|
                0 <= k < self->Array_0@.len() ==> (#[trigger] self@->Array_0[k])
                    == self->Array_0@[k]@,
            self@->Array_0 == self->Array_0.deep_view(),
    {
        assert(self@->Array_0 =~= self->Array_0.deep_view());
    }

    /// The view of an object is its members' names and the views of their
    /// values, in order.
    pub proof fn lemma_object_view(self)
        requires
            self is Object,
        ensures
            self@ is Object,
            self@->Object_0.len() == self->Object_0@.len(),
            forall|k: int|
                0 <= k < self->Object_0@.len() ==> (#[trigger] self@->Object_0[k]) == (
                    self->Object_0@[k].0@,
                    self->Object_0@[k].1@,
                ),
    {
    }

    /// Whether the document is `null`.
    pub fn is_null(&self) -> (r: bool)
        ensures
            r == (self@ is Null),
    {
        match self {
            Json::Null => true,
            _ => false,
        }
    }

    /// Looks up the member named `key`.
    pub fn member(&self, key: &str) -> (r: Option<&Json>)
        ensures
            match r {
                Some(value) => self@.member(key@) == Some(value@),
                None => self@.member(key@) is None,
            },
    {
        match self {
            Json::Object(members) => {
                let wanted = String::from_str(key);
                proof {
                    self.lemma_object_view();
                }
                let mut i: usize = 0;
                while i < members.len()
                    invariant
                        i <= members.len(),
                        wanted@ == key@,
                        self@ is Object,
                        self@->Object_0.len() == members@.len(),
                        forall|k: int|
                            0 <= k < members@.len() ==> self@->Object_0[k] == (
                                members@[k].0@,
                                members@[k].1@,
                            ),
                        forall|k: int| 0 <= k < i ==> self@->Object_0[k].0 != key@,
                    decreases members.len() - i,
                {
                    if members[i].0 == wanted {
                        proof {
                            lemma_first_named(self@->Object_0, key@, i as int);
                        }
                        return Some(&members[i].1);
                    }
                    i += 1;
                }
                proof {
                    lemma_first_named(self@->Object_0, key@, i as int);
                }
                None
            },
            _ => None,
        }
    }

    /// The items of an array.
    pub fn items(&self) -> (r: Option<&Vec<Json>>)
        ensures
            r is Some <==> self@ is Array,
            r matches Some(items) ==> items.deep_view() == self@.items(),
    {
        match self {
            Json::Array(items) => {
                assert(items.deep_view() =~= self@.items());
                Some(items)
            },
            _ => None,
        }
    }

    /// The text of a string value.
    pub fn text(&self) -> (r: Option<&String>)
        ensures
            match r {
                Some(s) => self@.text() == Some(s@),
                None => self@.text() is None,
            },
    {
        match self {
            Json::Text(s) => Some(s),
            _ => None,
        }
    }

    /// A copy of the document, node for node.
    pub fn deep_clone(&self) -> (r: Json)
        ensures
            r@ == self@,
        decreases self,
    {
        match self {
            Json::Null => Json::Null,
            Json::Bool(b) => Json::Bool(*b),
            Json::Number(n) => Json::Number(n.clone()),
            Json::Text(s) => Json::Text(s.clone()),
            Json::Array(items) => {
                let mut out: Vec<Json> = Vec::new();
                let mut i: usize = 0;
                while i < items.len()
                    invariant
                        i <= items.len(),
                        out.len() == i,
                        forall|k: int| 0 <= k < i ==> out@[k]@ == items@[k]@,
                        *self is Array,
                        self->Array_0 == *items,
                    decreases items.len() - i,
                {
                    out.push(items[i].deep_clone());
                    i += 1;
                }
                let r = Json::Array(out);
                assert(r@ == self@) by {
                    assert(r@->Array_0 =~= self@->Array_0);
                }
                r
            },
            Json::Object(members) => {
                let mut out: Vec<(String, Json)> = Vec::new();
                let mut i: usize = 0;
                while i < members.len()
                    invariant
                        i <= members.len(),
                        out.len() == i,
                        forall|k: int| 0 <= k < i ==> out@[k].0@ == members@[k].0@ && out@[k].1@ == members@[k].1@,
                        *self is Object,
                        self->Object_0 == *members,
                    decreases members.len() - i,
                {
                    out.push((members[i].0.clone(), members[i].1.deep_clone()));
                    i += 1;
                }
                let r = Json::Object(out);
                assert(r@ == self@) by {
                    assert(r@->Object_0 =~= self@->Object_0);
                }
                r
            },
        }
    }
}

/// Makes `serde_json::Value` known as a type whose inside is not looked at.
#[verifier::external_type_specification]
#[verifier::external_body]
pub struct ExValue(serde_json::Value);

/// What `serde_json::from_str` makes of a text: the document that it reads, or
/// the message of the error with which it refuses the text.
pub uninterp spec fn json_parse(text: Seq<char>) -> Result<JsonView, Seq<char>>;

/// What a `serde_json::Value` holds. A number stands by the text that
/// `serde_json` displays for it, the members of an object in the order in
/// which the value iterates over them.
pub uninterp spec fn value_json(value: serde_json::Value) -> JsonView;

/// Calls `serde_json::from_str` for a `Value` and hands back the value or the
/// error's message. The contract only gives the outcome its name.
#[verifier::external_body]
fn parse_value(text: &str) -> (r: Result<serde_json::Value, String>)
    ensures
        match r {
            Ok(value) => json_parse(text@) == Ok::<JsonView, Seq<char>>(value_json(value)),
            Err(message) => json_parse(text@) == Err::<JsonView, Seq<char>>(message@),
        },
{
    serde_json::from_str::<serde_json::Value>(text).map_err(|error| error.to_string())
}

/// Copies a `serde_json::Value` into a [`Json`], node for node: one arm for
/// each variant of the value, the fields moved over as they are.
#[verifier::external_body]
fn json_of_value(value: &serde_json::Value) -> (r: Json)
    ensures
        r@ == value_json(*value),
{
    match value {
        serde_json::Value::Null => Json::Null,
        serde_json::Value::Bool(b) => Json::Bool(*b),
        serde_json::Value::Number(n) => Json::Number(n.to_string()),
        serde_json::Value::String(s) => Json::Text(s.clone()),
        serde_json::Value::Array(a) => Json::Array(a.iter().map(json_of_value).collect()),
        serde_json::Value::Object(m) => Json::Object(
            m.iter().map(|(k, v)| (k.clone(), json_of_value(v))).collect(),
        ),
    }
}

/// Reads a JSON text with `serde_json`.
pub fn parse_text(text: &str) -> (r: Result<Json, String>)
    ensures
        match r {
            Ok(doc) => json_parse(text@) == Ok::<JsonView, Seq<char>>(doc@),
            Err(message) => json_parse(text@) == Err::<JsonView, Seq<char>>(message@),
        },
{
    match parse_value(text) {
        Ok(value) => Ok(json_of_value(&value)),
        Err(message) => Err(message),
    }
}

/// The character that stands for a hexadecimal digit, in lower case.
pub open spec fn hex_char(digit: int) -> char
    recommends
        0 <= digit < 16,
{
    if digit < 10 {
        digit_char(digit)
    } else if digit == 10 {
        'a'
    } else if digit == 11 {
        'b'
    } else if digit == 12 {
        'c'
    } else if digit == 13 {
        'd'
    } else if digit == 14 {
        'e'
    } else {
        'f'
    }
}

/// How a character is written inside a JSON string: the quotation mark, the
/// backslash and the control characters escaped, every other character as it
/// is.
pub open spec fn escaped_char(c: char) -> Seq<char> {
    if c == '"' {
        seq!['\\', '"']
    } else if c == '\\' {
        seq!['\\', '\\']
    } else if c == '\n' {
        seq!['\\', 'n']
    } else if c == '\r' {
        seq!['\\', 'r']
    } else if c == '\t' {
        seq!['\\', 't']
    } else if c == '\u{8}' {
        seq!['\\', 'b']
    } else if c == '\u{c}' {
        seq!['\\', 'f']
    } else if (c as u32) < 0x20 {
        seq!['\\', 'u', '0', '0', hex_char((c as u32) as int / 16), hex_char((c as u32) as int % 16)]
    } else {
        seq![c]
    }
}

/// The characters of a text, each as it is written inside a JSON string.
pub open spec fn escaped(text: Seq<char>) -> Seq<char>
    decreases text.len(),
{
    if text.len() == 0 {
        Seq::empty()
    } else {
        escaped(text.drop_last()) + escaped_char(text.last())
    }
}

/// A text as a JSON string: escaped, between quotation marks.
pub open spec fn quoted(text: Seq<char>) -> Seq<char> {
    "\""@ + escaped(text) + "\""@
}

/// A document as compact JSON text: no space between its tokens, the members
/// of an object and the items of an array in the order in which they are
/// held, a number as its text.
pub open spec fn rendered(doc: JsonView) -> Seq<char>
    decreases doc,
{
    match doc {
        JsonView::Null => "null"@,
        JsonView::Bool(b) => if b {
            "true"@
        } else {
            "false"@
        },
        JsonView::Number(n) => n,
        JsonView::Text(s) => quoted(s),
        JsonView::Array(items) => "["@ + joined(rendered_items(items), ","@) + "]"@,
        JsonView::Object(members) => "{"@ + joined(rendered_members(members), ","@) + "}"@,
    }
}

/// The text of each item of an array.
pub open spec fn rendered_items(items: Seq<JsonView>) -> Seq<Seq<char>>
    decreases items,
{
    Seq::new(
        items.len(),
        |i: int|
            if 0 <= i < items.len() {
                rendered(items[i])
            } else {
                Seq::empty()
            },
    )
}

/// The text of each member of an object: the name as a string, a colon, the
/// value.
pub open spec fn rendered_members(members: Seq<(Seq<char>, JsonView)>) -> Seq<Seq<char>>
    decreases members,
{
    Seq::new(
        members.len(),
        |i: int|
            if 0 <= i < members.len() {
                quoted(members[i].0) + ":"@ + rendered(members[i].1)
            } else {
                Seq::empty()
            },
    )
}

/// Calls `String::push`: the string grows by the one character at its end.
#[verifier::external_body]
fn push_char(out: &mut String, c: char)
    ensures
        final(out)@ == old(out)@.push(c),
{
    out.push(c);
}

fn hex_char_of(digit: u32) -> (r: char)
    requires
        digit < 16,
    ensures
        r == hex_char(digit as int),
{
    if digit == 0 {
        '0'
    } else if digit == 1 {
        '1'
    } else if digit == 2 {
        '2'
    } else if digit == 3 {
        '3'
    } else if digit == 4 {
        '4'
    } else if digit == 5 {
        '5'
    } else if digit == 6 {
        '6'
    } else if digit == 7 {
        '7'
    } else if digit == 8 {
        '8'
    } else if digit == 9 {
        '9'
    } else if digit == 10 {
        'a'
    } else if digit == 11 {
        'b'
    } else if digit == 12 {
        'c'
    } else if digit == 13 {
        'd'
    } else if digit == 14 {
        'e'
    } else {
        'f'
    }
}

fn push_escaped_char(out: &mut String, c: char)
    ensures
        final(out)@ == old(out)@ + escaped_char(c),
{
    let ghost before = out@;
    if c == '"' {
        push_char(out, '\\');
        push_char(out, '"');
    } else if c == '\\' {
        push_char(out, '\\');
        push_char(out, '\\');
    } else if c == '\n' {
        push_char(out, '\\');
        push_char(out, 'n');
    } else if c == '\r' {
        push_char(out, '\\');
        push_char(out, 'r');
    } else if c == '\t' {
        push_char(out, '\\');
        push_char(out, 't');
    } else if c == '\u{8}' {
        push_char(out, '\\');
        push_char(out, 'b');
    } else if c == '\u{c}' {
        push_char(out, '\\');
        push_char(out, 'f');
    } else if (c as u32) < 0x20 {
        let code = c as u32;
        push_char(out, '\\');
        push_char(out, 'u');
        push_char(out, '0');
        push_char(out, '0');
        push_char(out, hex_char_of(code / 16));
        push_char(out, hex_char_of(code % 16));
    } else {
        push_char(out, c);
    }
    assert(out@ =~= before + escaped_char(c));
}

fn push_quoted(out: &mut String, text: &str)
    ensures
        final(out)@ == old(out)@ + quoted(text@),
{
    let ghost before = out@;
    out.append("\"");
    let ghost opened = out@;
    for c in it: text.chars()
        invariant
            it.seq() == text@,
            out@ == opened + escaped(text@.take(it.index() as int)),
    {
        proof {
            let upto = text@.take(it.index() + 1);
            assert(upto.drop_last() =~= text@.take(it.index() as int));
            assert(upto.last() == c);
        }
        let ghost sofar = out@;
        push_escaped_char(out, c);
        assert(out@ =~= opened + escaped(text@.take(it.index() + 1)));
    }
    proof {
        assert(text@.take(text@.len() as int) =~= text@);
    }
    out.append("\"");
    assert(out@ =~= before + quoted(text@));
}

impl Json {
    /// Writes the document at the end of `out`, as compact JSON text.
    pub fn render_into(&self, out: &mut String)
        ensures
            final(out)@ == old(out)@ + rendered(self@),
        decreases self,
    {
        let ghost before = out@;
        match self {
            Json::Null => {
                out.append("null");
            },
            Json::Bool(b) => {
                if *b {
                    out.append("true");
                } else {
                    out.append("false");
                }
            },
            Json::Number(n) => {
                out.append(n.as_str());
            },
            Json::Text(s) => {
                push_quoted(out, s.as_str());
            },
            Json::Array(items) => {
                proof {
                    self.lemma_array_view();
                }
                let ghost parts = Seq::new(
                    items@.len(),
                    |i: int|
                        if 0 <= i < items@.len() {
                            rendered(items@[i]@)
                        } else {
                            Seq::empty()
                        },
                );
                out.append("[");
                let ghost opened = out@;
                let mut i: usize = 0;
                assert(parts.take(0) =~= Seq::<Seq<char>>::empty());
                assert(opened + joined(parts.take(0), ","@) =~= opened);
                while i < items.len()
                    invariant
                        i <= items.len(),
                        *self is Array,
                        self->Array_0 == *items,
                        opened == before + "["@,
                        parts.len() == items@.len(),
                        forall|k: int| 0 <= k < items@.len() ==> parts[k] == rendered(items@[k]@),
                        out@ == opened + joined(parts.take(i as int), ","@),
                    decreases items.len() - i,
                {
                    proof {
                        let next = parts.take(i + 1);
                        assert(next.drop_last() =~= parts.take(i as int));
                        assert(next.last() == rendered(items@[i as int]@));
                    }
                    let ghost sofar = out@;
                    if i > 0 {
                        out.append(",");
                    }
                    items[i].render_into(out);
                    assert(out@ =~= opened + joined(parts.take(i + 1), ","@));
                    i += 1;
                }
                out.append("]");
                proof {
                    assert(parts.take(items@.len() as int) =~= parts);
                    assert(parts =~= rendered_items(self@->Array_0));
                    assert(out@ =~= before + rendered(self@));
                }
            },
            Json::Object(members) => {
                proof {
                    self.lemma_object_view();
                }
                let ghost parts = Seq::new(
                    members@.len(),
                    |i: int|
                        if 0 <= i < members@.len() {
                            quoted(members@[i].0@) + ":"@ + rendered(members@[i].1@)
                        } else {
                            Seq::empty()
                        },
                );
                out.append("{");
                let ghost opened = out@;
                let mut i: usize = 0;
                assert(parts.take(0) =~= Seq::<Seq<char>>::empty());
                assert(opened + joined(parts.take(0), ","@) =~= opened);
                while i < members.len()
                    invariant
                        i <= members.len(),
                        *self is Object,
                        self->Object_0 == *members,
                        opened == before + "{"@,
                        parts.len() == members@.len(),
                        forall|k: int|
                            0 <= k < members@.len() ==> parts[k] == quoted(members@[k].0@) + ":"@
                                + rendered(members@[k].1@),
                        out@ == opened + joined(parts.take(i as int), ","@),
                    decreases members.len() - i,
                {
                    proof {
                        let next = parts.take(i + 1);
                        assert(next.drop_last() =~= parts.take(i as int));
                        assert(next.last() == quoted(members@[i as int].0@) + ":"@ + rendered(
                            members@[i as int].1@,
                        ));
                    }
                    if i > 0 {
                        out.append(",");
                    }
                    push_quoted(out, members[i].0.as_str());
                    out.append(":");
                    members[i].1.render_into(out);
                    assert(out@ =~= opened + joined(parts.take(i + 1), ","@));
                    i += 1;
                }
                out.append("}");
                proof {
                    assert(parts.take(members@.len() as int) =~= parts);
                    assert(parts =~= rendered_members(self@->Object_0));
                    assert(out@ =~= before + rendered(self@));
                }
            },
        }
    }

    /// The document as compact JSON text.
    pub fn render(&self) -> (r: String)
        ensures
            r@ == rendered(self@),
    {
        let mut out = String::new();
        self.render_into(&mut out);
        assert(out@ =~= rendered(self@));
        out
    }
}

} // verus!
