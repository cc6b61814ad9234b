//! JSON value model.
//!
//! `Json` holds a parsed JSON document as plain values (numbers keep their
//! literal text, objects are key-ordered field lists). Parsing is delegated
//! to serde_json behind a trusted wrapper; serialization back to text is
//! verified against an exact character-level specification.

use vstd::prelude::*;

verus! {

/// A JSON document as plain values.
///
/// A number keeps the literal text serde_json printed for it, so that
/// re-serialization reproduces it and no floating point enters the library.
pub enum Json {
    Null,
    Bool(bool),
    Num(String),
    Str(String),
    Arr(Vec<Json>),
    Obj(Vec<(String, Json)>),
}

/// The mathematical shape of a JSON document.
pub enum JsonView {
    Null,
    Bool(bool),
    Num(Seq<char>),
    Str(Seq<char>),
    Arr(Seq<JsonView>),
    Obj(Seq<(Seq<char>, JsonView)>),
}

/// The view of a `Json` tree.
pub open spec fn json_view(j: Json) -> JsonView
    decreases j,
{
    match j {
        Json::Null => JsonView::Null,
        Json::Bool(b) => JsonView::Bool(b),
        Json::Num(s) => JsonView::Num(s@),
        Json::Str(s) => JsonView::Str(s@),
        Json::Arr(v) => JsonView::Arr(json_view_seq(v@)),
        Json::Obj(v) => JsonView::Obj(json_view_fields(v@)),
    }
}

/// The views of a sequence of JSON values.
pub open spec fn json_view_seq(es: Seq<Json>) -> Seq<JsonView>
    decreases es,
{
    if es.len() == 0 {
        Seq::empty()
    } else {
        seq![json_view(es.first())] + json_view_seq(es.drop_first())
    }
}

/// The views of a sequence of object fields.
pub open spec fn json_view_fields(fs: Seq<(String, Json)>) -> Seq<(Seq<char>, JsonView)>
    decreases fs,
{
    if fs.len() == 0 {
        Seq::empty()
    } else {
        seq![(fs.first().0@, json_view(fs.first().1))] + json_view_fields(fs.drop_first())
    }
}

/// Element-wise reading of `json_view_seq`.
pub proof fn lemma_json_view_seq(es: Seq<Json>)
    ensures
        json_view_seq(es).len() == es.len(),
        forall|i: int| 0 <= i < es.len() ==> json_view_seq(es)[i] == json_view(es[i]),
    decreases es.len(),
{
    if es.len() > 0 {
        lemma_json_view_seq(es.drop_first());
        assert forall|i: int| 0 <= i < es.len() implies json_view_seq(es)[i] == json_view(
            es[i],
        ) by {
            if i > 0 {
                assert(json_view_seq(es)[i] == json_view_seq(es.drop_first())[i - 1]);
                assert(es.drop_first()[i - 1] == es[i]);
            }
        }
    }
}

/// Element-wise reading of `json_view_fields`.
pub proof fn lemma_json_view_fields(fs: Seq<(String, Json)>)
    ensures
        json_view_fields(fs).len() == fs.len(),
        forall|i: int| 0 <= i < fs.len() ==> json_view_fields(fs)[i] == (
            fs[i].0@,
            json_view(fs[i].1),
        ),
    decreases fs.len(),
{
    if fs.len() > 0 {
        lemma_json_view_fields(fs.drop_first());
        assert forall|i: int| 0 <= i < fs.len() implies json_view_fields(fs)[i] == (
            fs[i].0@,
            json_view(fs[i].1),
        ) by {
            if i > 0 {
                assert(json_view_fields(fs)[i] == json_view_fields(fs.drop_first())[i - 1]);
                assert(fs.drop_first()[i - 1] == fs[i]);
            }
        }
    }
}

impl View for Json {
    type V = JsonView;

    open spec fn view(&self) -> JsonView {
        json_view(*self)
    }
}

impl DeepView for Json {
    type V = JsonView;

    open spec fn deep_view(&self) -> JsonView {
        self.view()
    }
}

// ------------------------------------------------------------------
// Object field lookup
// ------------------------------------------------------------------

/// The value of the first field named `key`, if any.
pub open spec fn obj_lookup(fields: Seq<(Seq<char>, JsonView)>, key: Seq<char>) -> Option<
    JsonView,
>
    decreases fields.len(),
{
    if fields.len() == 0 {
        None
    } else if fields[0].0 == key {
        Some(fields[0].1)
    } else {
        obj_lookup(fields.drop_first(), key)
    }
}

/// Field lookup on a JSON value: `None` unless the value is an object
/// with a field named `key`.
pub open spec fn jget(v: JsonView, key: Seq<char>) -> Option<JsonView> {
    match v {
        JsonView::Obj(fs) => obj_lookup(fs, key),
        _ => None,
    }
}

proof fn lemma_obj_lookup_step(fields: Seq<(Seq<char>, JsonView)>, key: Seq<char>, i: int)
    requires
        0 <= i < fields.len(),
        forall|j: int| 0 <= j < i ==> fields[j].0 != key,
    ensures
        obj_lookup(fields, key) == if fields[i].0 == key {
            Some(fields[i].1)
        } else {
            obj_lookup(fields.subrange(i + 1, fields.len() as int), key)
        },
    decreases i,
{
    if i == 0 {
        assert(fields.drop_first() =~= fields.subrange(1, fields.len() as int));
    } else {
        assert(fields[0].0 != key);
        lemma_obj_lookup_step(fields.drop_first(), key, i - 1);
        assert(fields.drop_first()[i - 1] == fields[i]);
        assert(fields.drop_first().subrange(i, fields.len() - 1) =~= fields.subrange(
            i + 1,
            fields.len() as int,
        ));
    }
}

/// Looks up the first field named `key` of an object value.
pub fn obj_get<'a>(v: &'a Json, key: &str) -> (r: Option<&'a Json>)
    ensures
        match r {
            Some(x) => jget(v@, key@) == Some(x@),
            None => jget(v@, key@) is None,
        },
{
    match v {
        Json::Obj(fields) => {
            let ghost fs = v@->Obj_0;
            proof {
                lemma_json_view_fields(fields@);
            }
            let mut i: usize = 0;
            while i < fields.len()
                invariant
                    v@ is Obj,
                    fs == v@->Obj_0,
                    fs == json_view_fields(fields@),
                    fs.len() == fields@.len(),
                    forall|j: int| 0 <= j < fields@.len() ==> fs[j] == (
                        fields@[j].0@,
                        json_view(fields@[j].1),
                    ),
                    i <= fields@.len(),
                    forall|j: int| 0 <= j < i ==> fs[j].0 != key@,
                decreases fields@.len() - i,
            {
                if crate::text::str_eq(fields[i].0.as_str(), key) {
                    proof {
                        lemma_obj_lookup_step(fs, key@, i as int);
                    }
                    return Some(&fields[i].1);
                }
                proof {
                    assert(fs[i as int].0 == fields@[i as int].0@);
                }
                i = i + 1;
            }
            proof {
                if fs.len() > 0 {
                    lemma_obj_lookup_step(fs, key@, fs.len() - 1);
                    assert(fs.subrange(fs.len() as int, fs.len() as int) =~= Seq::empty());
                }
            }
            None
        },
        _ => None,
    }
}

/// The string content of a field, if the field exists and is a string.
pub open spec fn jget_str(v: JsonView, key: Seq<char>) -> Option<Seq<char>> {
    match jget(v, key) {
        Some(JsonView::Str(s)) => Some(s),
        _ => None,
    }
}

/// Looks up a string-valued field.
pub fn obj_get_str<'a>(v: &'a Json, key: &str) -> (r: Option<&'a String>)
    ensures
        match r {
            Some(s) => jget_str(v@, key@) == Some(s@),
            None => jget_str(v@, key@) is None,
        },
{
    match obj_get(v, key) {
        Some(Json::Str(s)) => Some(s),
        _ => None,
    }
}

/// The elements of a field, if the field exists and is an array.
pub open spec fn jget_arr(v: JsonView, key: Seq<char>) -> Option<Seq<JsonView>> {
    match jget(v, key) {
        Some(JsonView::Arr(es)) => Some(es),
        _ => None,
    }
}

/// Looks up an array-valued field.
pub fn obj_get_arr<'a>(v: &'a Json, key: &str) -> (r: Option<&'a Vec<Json>>)
    ensures
        match r {
            Some(es) => {
                &&& jget_arr(v@, key@) is Some
                &&& jget_arr(v@, key@).unwrap().len() == es@.len()
                &&& forall|i: int| 0 <= i < es@.len() ==> jget_arr(v@, key@).unwrap()[i]
                    == es@[i]@
            },
            None => jget_arr(v@, key@) is None,
        },
{
    match obj_get(v, key) {
        Some(Json::Arr(es)) => {
            proof {
                lemma_json_view_seq(es@);
            }
            Some(es)
        },
        _ => None,
    }
}

// ------------------------------------------------------------------
// Tree editing
// ------------------------------------------------------------------

/// Fields with the first `key` entry replaced by `(key, val)`, or with
/// `(key, val)` appended when no entry has that key.
pub open spec fn obj_set_fields(
    fields: Seq<(Seq<char>, JsonView)>,
    key: Seq<char>,
    val: JsonView,
) -> Seq<(Seq<char>, JsonView)>
    decreases fields.len(),
{
    if fields.len() == 0 {
        seq![(key, val)]
    } else if fields.first().0 == key {
        seq![(key, val)] + fields.drop_first()
    } else {
        seq![fields.first()] + obj_set_fields(fields.drop_first(), key, val)
    }
}

/// An object value with a field set; any other value is unchanged.
pub open spec fn jset(v: JsonView, key: Seq<char>, val: JsonView) -> JsonView {
    match v {
        JsonView::Obj(fs) => JsonView::Obj(obj_set_fields(fs, key, val)),
        _ => v,
    }
}

/// Fields with the first `key` entry removed.
pub open spec fn obj_remove_fields(fields: Seq<(Seq<char>, JsonView)>, key: Seq<char>) -> Seq<
    (Seq<char>, JsonView),
>
    decreases fields.len(),
{
    if fields.len() == 0 {
        fields
    } else if fields.first().0 == key {
        fields.drop_first()
    } else {
        seq![fields.first()] + obj_remove_fields(fields.drop_first(), key)
    }
}

/// An object value with a field removed; any other value is unchanged.
pub open spec fn jremove(v: JsonView, key: Seq<char>) -> JsonView {
    match v {
        JsonView::Obj(fs) => JsonView::Obj(obj_remove_fields(fs, key)),
        _ => v,
    }
}

proof fn lemma_obj_set_at(fs: Seq<(Seq<char>, JsonView)>, key: Seq<char>, val: JsonView, i: int)
    requires
        0 <= i < fs.len(),
        fs[i].0 == key,
        forall|j: int| 0 <= j < i ==> fs[j].0 != key,
    ensures
        obj_set_fields(fs, key, val) == fs.update(i, (key, val)),
    decreases i,
{
    if i == 0 {
        assert(obj_set_fields(fs, key, val) =~= fs.update(0, (key, val)));
    } else {
        assert(fs.first().0 != key);
        lemma_obj_set_at(fs.drop_first(), key, val, i - 1);
        assert(seq![fs.first()] + fs.drop_first().update(i - 1, (key, val)) =~= fs.update(
            i,
            (key, val),
        ));
    }
}

proof fn lemma_obj_set_missing(fs: Seq<(Seq<char>, JsonView)>, key: Seq<char>, val: JsonView)
    requires
        forall|j: int| 0 <= j < fs.len() ==> fs[j].0 != key,
    ensures
        obj_set_fields(fs, key, val) == fs.push((key, val)),
    decreases fs.len(),
{
    if fs.len() == 0 {
        assert(obj_set_fields(fs, key, val) =~= fs.push((key, val)));
    } else {
        lemma_obj_set_missing(fs.drop_first(), key, val);
        assert(seq![fs.first()] + fs.drop_first().push((key, val)) =~= fs.push((key, val)));
    }
}

proof fn lemma_obj_remove_at(fs: Seq<(Seq<char>, JsonView)>, key: Seq<char>, i: int)
    requires
        0 <= i < fs.len(),
        fs[i].0 == key,
        forall|j: int| 0 <= j < i ==> fs[j].0 != key,
    ensures
        obj_remove_fields(fs, key) == fs.remove(i),
    decreases i,
{
    if i == 0 {
        assert(obj_remove_fields(fs, key) =~= fs.remove(0));
    } else {
        assert(fs.first().0 != key);
        lemma_obj_remove_at(fs.drop_first(), key, i - 1);
        assert(seq![fs.first()] + fs.drop_first().remove(i - 1) =~= fs.remove(i));
    }
}

proof fn lemma_obj_remove_missing(fs: Seq<(Seq<char>, JsonView)>, key: Seq<char>)
    requires
        forall|j: int| 0 <= j < fs.len() ==> fs[j].0 != key,
    ensures
        obj_remove_fields(fs, key) == fs,
    decreases fs.len(),
{
    if fs.len() > 0 {
        lemma_obj_remove_missing(fs.drop_first(), key);
        assert(seq![fs.first()] + fs.drop_first() =~= fs);
    }
}

/// A deep copy of a JSON value.
pub fn json_clone(v: &Json) -> (r: Json)
    ensures
        r@ == v@,
    decreases v,
{
    match v {
        Json::Null => Json::Null,
        Json::Bool(b) => Json::Bool(*b),
        Json::Num(s) => Json::Num(s.clone()),
        Json::Str(s) => Json::Str(s.clone()),
        Json::Arr(es) => {
            let ghost gs = json_view_seq(es@);
            proof {
                lemma_json_view_seq(es@);
            }
            let mut out: Vec<Json> = Vec::new();
            let mut i: usize = 0;
            while i < es.len()
                invariant
                    gs == json_view_seq(es@),
                    gs.len() == es@.len(),
                    forall|j: int| 0 <= j < es@.len() ==> gs[j] == json_view(es@[j]),
                    i <= es@.len(),
                    json_view_seq(out@) == gs.take(i as int),
                    v == Json::Arr(*es),
                decreases es@.len() - i,
            {
                proof {
                    assert(decreases_to!(*v => (*v)->Arr_0));
                    assert((*v)->Arr_0 == *es);
                    assert(decreases_to!(*es => es@));
                    assert(decreases_to!(es@ => es@[i as int]));
                    assert(decreases_to!(*v => es@[i as int]));
                }
                let c = json_clone(&es[i]);
                let ghost before = out@;
                out.push(c);
                proof {
                    lemma_json_view_seq(out@);
                    lemma_json_view_seq(before);
                    assert(json_view_seq(out@) =~= gs.take(i + 1));
                }
                i = i + 1;
            }
            proof {
                assert(gs.take(gs.len() as int) =~= gs);
            }
            Json::Arr(out)
        },
        Json::Obj(fields) => {
            let ghost gf = json_view_fields(fields@);
            proof {
                lemma_json_view_fields(fields@);
            }
            let mut out: Vec<(String, Json)> = Vec::new();
            let mut i: usize = 0;
            while i < fields.len()
                invariant
                    gf == json_view_fields(fields@),
                    gf.len() == fields@.len(),
                    forall|j: int| 0 <= j < fields@.len() ==> gf[j] == (
                        fields@[j].0@,
                        json_view(fields@[j].1),
                    ),
                    i <= fields@.len(),
                    json_view_fields(out@) == gf.take(i as int),
                    v == Json::Obj(*fields),
                decreases fields@.len() - i,
            {
                proof {
                    assert(decreases_to!(*v => (*v)->Obj_0));
                    assert((*v)->Obj_0 == *fields);
                    assert(decreases_to!(*fields => fields@));
                    assert(decreases_to!(fields@ => fields@[i as int]));
                    assert(decreases_to!(fields@[i as int] => fields@[i as int].1));
                    assert(decreases_to!(*v => fields@[i as int].1));
                }
                let c = json_clone(&fields[i].1);
                let k = fields[i].0.clone();
                let ghost before = out@;
                out.push((k, c));
                proof {
                    lemma_json_view_fields(out@);
                    lemma_json_view_fields(before);
                    assert(json_view_fields(out@) =~= gf.take(i + 1));
                }
                i = i + 1;
            }
            proof {
                assert(gf.take(gf.len() as int) =~= gf);
            }
            Json::Obj(out)
        },
    }
}

/// The index of the first field with the given key, if any.
fn find_field(fields: &Vec<(String, Json)>, key: &str) -> (r: Option<usize>)
    ensures
        match r {
            Some(i) => i < fields@.len() && fields@[i as int].0@ == key@ && forall|j: int|
                0 <= j < i ==> fields@[j].0@ != key@,
            None => forall|j: int| 0 <= j < fields@.len() ==> fields@[j].0@ != key@,
        },
{
    let mut i: usize = 0;
    while i < fields.len()
        invariant
            i <= fields@.len(),
            forall|j: int| 0 <= j < i ==> fields@[j].0@ != key@,
        decreases fields@.len() - i,
    {
        if crate::text::str_eq(fields[i].0.as_str(), key) {
            return Some(i);
        }
        i = i + 1;
    }
    None
}

/// A copy of an object value with one field set; non-objects come back
/// unchanged.
pub fn obj_with_field(v: &Json, key: &str, val: Json) -> (r: Json)
    ensures
        r@ == jset(v@, key@, val@),
{
    match v {
        Json::Obj(fields) => {
            let ghost gf = json_view_fields(fields@);
            proof {
                lemma_json_view_fields(fields@);
            }
            let cloned = json_clone(v);
            let mut nf: Vec<(String, Json)> = match cloned {
                Json::Obj(nf) => nf,
                _ => Vec::new(),
            };
            proof {
                lemma_json_view_fields(nf@);
                assert(json_view_fields(nf@) == gf);
                assert(nf@.len() == gf.len());
                assert forall|j: int| 0 <= j < nf@.len() implies (#[trigger] nf@[j]).0@
                    == gf[j].0 by {}
            }
            match find_field(fields, key) {
                Some(i) => {
                    let ghost before = nf@;
                    nf[i] = (String::from_str(key), val);
                    proof {
                        lemma_json_view_fields(nf@);
                        lemma_obj_set_at(gf, key@, val@, i as int);
                        assert forall|j: int| 0 <= j < gf.len() implies gf[j].0 == fields@[j].0@
                            by {}
                        assert(json_view_fields(nf@) =~= obj_set_fields(gf, key@, val@));
                    }
                    Json::Obj(nf)
                },
                None => {
                    let ghost before = nf@;
                    nf.push((String::from_str(key), val));
                    proof {
                        lemma_json_view_fields(nf@);
                        lemma_obj_set_missing(gf, key@, val@);
                        assert forall|j: int| 0 <= j < gf.len() implies gf[j].0 == fields@[j].0@
                            by {}
                        assert(json_view_fields(nf@) =~= obj_set_fields(gf, key@, val@));
                    }
                    Json::Obj(nf)
                },
            }
        },
        _ => json_clone(v),
    }
}

/// A copy of an object value with its first `key` field removed;
/// non-objects come back unchanged.
pub fn obj_without_field(v: &Json, key: &str) -> (r: Json)
    ensures
        r@ == jremove(v@, key@),
{
    match v {
        Json::Obj(fields) => {
            let ghost gf = json_view_fields(fields@);
            proof {
                lemma_json_view_fields(fields@);
            }
            let cloned = json_clone(v);
            let mut nf: Vec<(String, Json)> = match cloned {
                Json::Obj(nf) => nf,
                _ => Vec::new(),
            };
            proof {
                lemma_json_view_fields(nf@);
                assert(json_view_fields(nf@) == gf);
                assert(nf@.len() == gf.len());
            }
            match find_field(fields, key) {
                Some(i) => {
                    let ghost before = nf@;
                    let _removed = nf.remove(i);
                    proof {
                        lemma_json_view_fields(nf@);
                        lemma_obj_remove_at(gf, key@, i as int);
                        assert forall|j: int| 0 <= j < gf.len() implies gf[j].0 == fields@[j].0@
                            by {}
                        assert(json_view_fields(nf@) =~= obj_remove_fields(gf, key@));
                    }
                    Json::Obj(nf)
                },
                None => {
                    proof {
                        lemma_obj_remove_missing(gf, key@);
                        assert forall|j: int| 0 <= j < gf.len() implies gf[j].0 == fields@[j].0@
                            by {}
                    }
                    Json::Obj(nf)
                },
            }
        },
        _ => json_clone(v),
    }
}

// ------------------------------------------------------------------
// Serialization
// ------------------------------------------------------------------

/// The lower-case hex digit for a value below 16.
pub open spec fn hex_digit(n: int) -> char {
    if n < 10 {
        ((48 + n) as u8) as char
    } else {
        ((87 + n) as u8) as char
    }
}

/// The JSON escape of one string character.
pub open spec fn esc_char(c: char) -> Seq<char> {
    if c == '"' {
        seq!['\\', '"']
    } else if c == '\\' {
        seq!['\\', '\\']
    } else if c == '\n' {
        seq!['\\', 'n']
    } else if c == '\r' {
        seq!['\\', 'r']
    } else if c == '\t' {
        seq!['\\', 't']
    } else if (c as u32) < 32 {
        seq!['\\', 'u', '0', '0', hex_digit((c as u32) as int / 16), hex_digit((c as u32) as int % 16)]
    } else {
        seq![c]
    }
}

/// The JSON escape of a whole string (without the surrounding quotes).
pub open spec fn escape_seq(s: Seq<char>) -> Seq<char>
    decreases s.len(),
{
    if s.len() == 0 {
        Seq::empty()
    } else {
        escape_seq(s.drop_last()) + esc_char(s.last())
    }
}

/// The serialized text of a JSON value.
pub open spec fn ser_json(v: JsonView) -> Seq<char>
    decreases v, 1int,
{
    match v {
        JsonView::Null => seq!['n', 'u', 'l', 'l'],
        JsonView::Bool(b) => if b {
            seq!['t', 'r', 'u', 'e']
        } else {
            seq!['f', 'a', 'l', 's', 'e']
        },
        JsonView::Num(s) => s,
        JsonView::Str(s) => seq!['"'] + escape_seq(s) + seq!['"'],
        JsonView::Arr(es) => seq!['['] + ser_list(es) + seq![']'],
        JsonView::Obj(fs) => seq!['{'] + ser_fields(fs) + seq!['}'],
    }
}

/// The comma-separated serialization of array elements.
pub open spec fn ser_list(es: Seq<JsonView>) -> Seq<char>
    decreases es, 0int,
{
    if es.len() == 0 {
        Seq::empty()
    } else if es.len() == 1 {
        ser_json(es.last())
    } else {
        ser_list(es.drop_last()) + seq![','] + ser_json(es.last())
    }
}

/// The comma-separated serialization of object fields.
pub open spec fn ser_fields(fs: Seq<(Seq<char>, JsonView)>) -> Seq<char>
    decreases fs, 0int,
{
    if fs.len() == 0 {
        Seq::empty()
    } else if fs.len() == 1 {
        ser_field(fs.last())
    } else {
        ser_fields(fs.drop_last()) + seq![','] + ser_field(fs.last())
    }
}

/// The serialization of one object field.
pub open spec fn ser_field(f: (Seq<char>, JsonView)) -> Seq<char>
    decreases f, 0int,
{
    seq!['"'] + escape_seq(f.0) + seq!['"', ':'] + ser_json(f.1)
}

/// Appends the lower-case hex digit of `n` to a string.
fn push_hex_digit(out: &mut String, n: u32)
    requires
        n < 16,
    ensures
        final(out)@ == old(out)@.push(hex_digit(n as int)),
{
    let d: char = if n < 10 {
        ((48 + n) as u8) as char
    } else {
        ((87 + n) as u8) as char
    };
    crate::text::push_char(out, d);
}

/// Appends the JSON escape of `c` to a string.
fn push_escaped_char(out: &mut String, c: char)
    ensures
        final(out)@ == old(out)@ + esc_char(c),
{
    let u = c as u32;
    if c == '"' {
        crate::text::push_char(out, '\\');
        crate::text::push_char(out, '"');
        assert(out@ =~= old(out)@ + esc_char(c));
    } else if c == '\\' {
        crate::text::push_char(out, '\\');
        crate::text::push_char(out, '\\');
        assert(out@ =~= old(out)@ + esc_char(c));
    } else if c == '\n' {
        crate::text::push_char(out, '\\');
        crate::text::push_char(out, 'n');
        assert(out@ =~= old(out)@ + esc_char(c));
    } else if c == '\r' {
        crate::text::push_char(out, '\\');
        crate::text::push_char(out, 'r');
        assert(out@ =~= old(out)@ + esc_char(c));
    } else if c == '\t' {
        crate::text::push_char(out, '\\');
        crate::text::push_char(out, 't');
        assert(out@ =~= old(out)@ + esc_char(c));
    } else if u < 32 {
        crate::text::push_char(out, '\\');
        crate::text::push_char(out, 'u');
        crate::text::push_char(out, '0');
        crate::text::push_char(out, '0');
        push_hex_digit(out, u / 16);
        push_hex_digit(out, u % 16);
        assert(out@ =~= old(out)@ + esc_char(c));
    } else {
        crate::text::push_char(out, c);
        assert(out@ =~= old(out)@ + esc_char(c));
    }
}

/// Appends the JSON escape of a whole string.
fn push_escaped(out: &mut String, s: &str)
    ensures
        final(out)@ == old(out)@ + escape_seq(s@),
{
    let n = s.unicode_len();
    let mut i: usize = 0;
    assert(out@ =~= old(out)@ + escape_seq(s@.take(0)));
    while i < n
        invariant
            n == s@.len(),
            i <= n,
            out@ == old(out)@ + escape_seq(s@.take(i as int)),
        decreases n - i,
    {
        let c = s.get_char(i);
        push_escaped_char(out, c);
        proof {
            assert(s@.take(i + 1).drop_last() =~= s@.take(i as int));
            assert(s@.take(i + 1).last() == s@[i as int]);
        }
        i = i + 1;
    }
    assert(s@.take(n as int) =~= s@);
}

/// Appends a quoted, escaped JSON string.
fn push_quoted(out: &mut String, s: &str)
    ensures
        final(out)@ == old(out)@ + seq!['"'] + escape_seq(s@) + seq!['"'],
{
    crate::text::push_char(out, '"');
    push_escaped(out, s);
    crate::text::push_char(out, '"');
    assert(out@ =~= old(out)@ + seq!['"'] + escape_seq(s@) + seq!['"']);
}

/// Appends the serialization of `v` to a string.
fn push_json(out: &mut String, v: &Json)
    ensures
        final(out)@ == old(out)@ + ser_json(v@),
    decreases v,
{
    match v {
        Json::Null => {
            out.append("null");
            proof {
                reveal_strlit("null");
                assert(out@ =~= old(out)@ + ser_json(v@));
            }
        },
        Json::Bool(b) => {
            if *b {
                out.append("true");
                proof {
                    reveal_strlit("true");
                    assert(out@ =~= old(out)@ + ser_json(v@));
                }
            } else {
                out.append("false");
                proof {
                    reveal_strlit("false");
                    assert(out@ =~= old(out)@ + ser_json(v@));
                }
            }
        },
        Json::Num(s) => {
            out.append(s.as_str());
        },
        Json::Str(s) => {
            push_quoted(out, s.as_str());
        },
        Json::Arr(es) => {
            let ghost gs = json_view_seq(es@);
            proof {
                lemma_json_view_seq(es@);
            }
            crate::text::push_char(out, '[');
            let mut i: usize = 0;
            assert(out@ =~= old(out)@ + seq!['['] + ser_list(gs.take(0)));
            while i < es.len()
                invariant
                    gs == json_view_seq(es@),
                    gs.len() == es@.len(),
                    forall|j: int| 0 <= j < es@.len() ==> gs[j] == json_view(es@[j]),
                    i <= es@.len(),
                    out@ == old(out)@ + seq!['['] + ser_list(gs.take(i as int)),
                    v == Json::Arr(*es),
                decreases es@.len() - i,
            {
                if i > 0 {
                    crate::text::push_char(out, ',');
                }
                proof {
                    assert(decreases_to!(*v => (*v)->Arr_0));
                    assert((*v)->Arr_0 == *es);
                    assert(decreases_to!(*es => es@));
                    assert(decreases_to!(es@ => es@[i as int]));
                    assert(decreases_to!(*v => es@[i as int]));
                }
                push_json(out, &es[i]);
                proof {
                    assert(gs.take(i + 1).drop_last() =~= gs.take(i as int));
                    assert(gs.take(i + 1).last() == gs[i as int]);
                    if i == 0 {
                        assert(out@ =~= old(out)@ + seq!['['] + ser_list(gs.take(1)));
                    } else {
                        assert(out@ =~= old(out)@ + seq!['['] + ser_list(gs.take(i + 1)));
                    }
                }
                i = i + 1;
            }
            crate::text::push_char(out, ']');
            proof {
                assert(gs.take(gs.len() as int) =~= gs);
                assert(out@ =~= old(out)@ + ser_json(v@));
            }
        },
        Json::Obj(fields) => {
            let ghost gf = json_view_fields(fields@);
            proof {
                lemma_json_view_fields(fields@);
            }
            crate::text::push_char(out, '{');
            let mut i: usize = 0;
            assert(out@ =~= old(out)@ + seq!['{'] + ser_fields(gf.take(0)));
            while i < fields.len()
                invariant
                    gf == json_view_fields(fields@),
                    gf.len() == fields@.len(),
                    forall|j: int| 0 <= j < fields@.len() ==> gf[j] == (
                        fields@[j].0@,
                        json_view(fields@[j].1),
                    ),
                    i <= fields@.len(),
                    out@ == old(out)@ + seq!['{'] + ser_fields(gf.take(i as int)),
                    v == Json::Obj(*fields),
                decreases fields@.len() - i,
            {
                if i > 0 {
                    crate::text::push_char(out, ',');
                }
                push_quoted(out, fields[i].0.as_str());
                crate::text::push_char(out, ':');
                proof {
                    assert(decreases_to!(*v => (*v)->Obj_0));
                    assert((*v)->Obj_0 == *fields);
                    assert(decreases_to!(*fields => fields@));
                    assert(decreases_to!(fields@ => fields@[i as int]));
                    assert(decreases_to!(fields@[i as int] => fields@[i as int].1));
                    assert(decreases_to!(*v => fields@[i as int].1));
                }
                push_json(out, &fields[i].1);
                proof {
                    let fi = gf[i as int];
                    assert(gf.take(i + 1).drop_last() =~= gf.take(i as int));
                    assert(gf.take(i + 1).last() == fi);
                    assert(ser_field(fi) == seq!['"'] + escape_seq(fi.0) + seq!['"', ':']
                        + ser_json(fi.1));
                    assert(fi.0 == fields@[i as int].0@);
                    assert(fi.1 == json_view(fields@[i as int].1));
                    if i == 0 {
                        assert(ser_fields(gf.take(1)) == ser_field(fi));
                        assert(out@ =~= old(out)@ + seq!['{'] + ser_fields(gf.take(1)));
                    } else {
                        assert(ser_fields(gf.take(i + 1)) == ser_fields(gf.take(i as int))
                            + seq![','] + ser_field(fi));
                        assert(out@ =~= old(out)@ + seq!['{'] + ser_fields(gf.take(i + 1)));
                    }
                }
                i = i + 1;
            }
            crate::text::push_char(out, '}');
            proof {
                assert(gf.take(gf.len() as int) =~= gf);
                assert(out@ =~= old(out)@ + ser_json(v@));
            }
        },
    }
}

/// Serializes a JSON value to text; the result is exactly `ser_json` of its view.
pub fn json_to_string(v: &Json) -> (r: String)
    ensures
        r@ == ser_json(v@),
{
    let mut out = String::new();
    push_json(&mut out, v);
    out
}

// ------------------------------------------------------------------
// Parsing (trusted)
// ------------------------------------------------------------------

/// Declares serde_json's value type so that the conversion into the
/// library's own `Json` can be stated; values of it are opaque here.
#[verifier::external_type_specification]
#[verifier::external_body]
pub struct ExValue(serde_json::Value);

/// What serde_json's parser yields on a given text: `None` where the text is
/// not valid JSON, otherwise the parsed document. The parse of a text depends
/// on the text alone.
pub uninterp spec fn parsed_json(s: Seq<char>) -> Option<JsonView>;

/// Converts a serde_json tree into the library's value type, variant by
/// variant; numbers keep the text serde_json prints for them.
#[verifier::external_body]
fn json_of_value(v: serde_json::Value) -> Json {
    match v {
        serde_json::Value::Null => Json::Null,
        serde_json::Value::Bool(b) => Json::Bool(b),
        serde_json::Value::Number(n) => Json::Num(n.to_string()),
        serde_json::Value::String(s) => Json::Str(s),
        serde_json::Value::Array(a) => Json::Arr(a.into_iter().map(json_of_value).collect()),
        serde_json::Value::Object(o) => Json::Obj(
            o.into_iter().map(|(k, x)| (k, json_of_value(x))).collect(),
        ),
    }
}

/// Relies on serde_json::from_str::<serde_json::Value>: parses JSON text,
/// returning `None` exactly on invalid input; the body converts the parsed
/// tree into the library's value type through `json_of_value`.
#[verifier::external_body]
pub fn parse_json(s: &str) -> (r: Option<Json>)
    ensures
        r is Some <==> parsed_json(s@) is Some,
        r is Some ==> parsed_json(s@) == Some(r.unwrap()@),
{
    match serde_json::from_str::<serde_json::Value>(s) {
        Ok(v) => Some(json_of_value(v)),
        Err(_) => None,
    }
}

} // verus!
