//! The fields of a payload, and their two wire encodings: one JSON object,
//! or an ordered list of multipart form parts.
use vstd::prelude::*;
use vstd::string::StringExecFns;
use crate::json::{json_quoted, quote};
use crate::text::{append_decimal, decimal, lemma_decimal_start};

verus! {

/// How an operation goes on the wire, fixed when the operation is defined.
#[derive(Debug, Clone, Copy, PartialEq, Eq, Structural)]
pub enum Encoding {
    /// One JSON object as the request body.
    Json,
    /// A multipart form, for operations that may carry files.
    Multipart,
}

/// Where the bytes of a file come from.
#[derive(Debug, Clone, PartialEq, Eq)]
pub enum FileSource {
    /// Bytes already in memory.
    Memory(Vec<u8>),
    /// A path to read when the form is built; reading it may fail.
    Path(String),
}

/// A file to upload as one form part.
#[derive(Debug, Clone, PartialEq, Eq)]
pub struct InputFile {
    pub file_name: String,
    /// The media type that the part is sent with.
    pub content_type: String,
    pub source: FileSource,
}

/// The mathematical value of a [`FileSource`].
pub ghost enum SourceModel {
    Memory(Seq<u8>),
    Path(Seq<char>),
}

/// The mathematical value of an [`InputFile`].
pub ghost struct FileModel {
    pub file_name: Seq<char>,
    pub content_type: Seq<char>,
    pub source: SourceModel,
}

impl View for FileSource {
    type V = SourceModel;

    open spec fn view(&self) -> SourceModel {
        match self {
            FileSource::Memory(d) => SourceModel::Memory(d@),
            FileSource::Path(p) => SourceModel::Path(p@),
        }
    }
}

impl View for InputFile {
    type V = FileModel;

    open spec fn view(&self) -> FileModel {
        FileModel { file_name: self.file_name@, content_type: self.content_type@, source: self.source@ }
    }
}

impl InputFile {
    /// A copy of this file description.
    pub fn copy(&self) -> (r: InputFile)
        ensures
            r@ == self@,
    {
        let source = match &self.source {
            FileSource::Memory(d) => {
                let data = d.clone();
                assert(data@ =~= d@);
                FileSource::Memory(data)
            },
            FileSource::Path(p) => FileSource::Path(p.clone()),
        };
        InputFile { file_name: self.file_name.clone(), content_type: self.content_type.clone(), source }
    }
}

/// The value of one field of a payload.
#[derive(Debug, Clone, PartialEq, Eq)]
pub enum FieldValue {
    Int(i64),
    Bool(bool),
    Text(String),
    /// A structured value, already written as JSON text.
    Json(String),
    File(InputFile),
}

/// The mathematical value of a [`FieldValue`].
pub ghost enum ValueModel {
    Int(i64),
    Bool(bool),
    Text(Seq<char>),
    Json(Seq<char>),
    File(FileModel),
}

impl View for FieldValue {
    type V = ValueModel;

    open spec fn view(&self) -> ValueModel {
        match self {
            FieldValue::Int(i) => ValueModel::Int(*i),
            FieldValue::Bool(b) => ValueModel::Bool(*b),
            FieldValue::Text(s) => ValueModel::Text(s@),
            FieldValue::Json(s) => ValueModel::Json(s@),
            FieldValue::File(f) => ValueModel::File(f@),
        }
    }
}

/// The fields of one call: the operation's wire name, the required fields,
/// then the optional fields, each in declaration order.
#[derive(Debug, Clone, PartialEq, Eq)]
pub struct PayloadFields {
    pub method: String,
    pub required: Vec<(String, FieldValue)>,
    pub optional: Vec<(String, Option<FieldValue>)>,
}

pub open spec fn required_view(s: Seq<(String, FieldValue)>) -> Seq<(Seq<char>, ValueModel)> {
    s.map_values(|f: (String, FieldValue)| (f.0@, f.1@))
}

/// The optional fields that are set, in declaration order.
pub open spec fn set_optionals(s: Seq<(String, Option<FieldValue>)>) -> Seq<(Seq<char>, ValueModel)>
    decreases s.len(),
{
    if s.len() == 0 {
        Seq::empty()
    } else {
        let rest = set_optionals(s.drop_last());
        match s.last().1 {
            Some(v) => rest.push((s.last().0@, v@)),
            None => rest,
        }
    }
}

/// The fields that go on the wire: every required field, then each optional
/// field that is set.
pub open spec fn present(p: PayloadFields) -> Seq<(Seq<char>, ValueModel)> {
    required_view(p.required@) + set_optionals(p.optional@)
}

/// The names of the fields that go on the wire.
pub open spec fn present_names(p: PayloadFields) -> Seq<Seq<char>> {
    present(p).map_values(|f: (Seq<char>, ValueModel)| f.0)
}

/// No field of the payload holds a file.
pub open spec fn file_free(p: PayloadFields) -> bool {
    &&& forall|i: int| 0 <= i < p.required@.len() ==> !(p.required@[i].1 is File)
    &&& forall|i: int| 0 <= i < p.optional@.len() ==> !((#[trigger] p.optional@[i]).1 matches Some(FieldValue::File(_)))
}

pub open spec fn bool_text(b: bool) -> Seq<char> {
    if b { seq!['t', 'r', 'u', 'e'] } else { seq!['f', 'a', 'l', 's', 'e'] }
}

/// The JSON text of a value that is not a file.
pub open spec fn value_json(v: ValueModel) -> Seq<char> {
    match v {
        ValueModel::Int(i) => decimal(i as int),
        ValueModel::Bool(b) => bool_text(b),
        ValueModel::Text(s) => json_quoted(s),
        ValueModel::Json(j) => j,
        ValueModel::File(_) => Seq::empty(),
    }
}

/// One member of the JSON object: the quoted key, a colon, the value.
pub open spec fn member_json(f: (Seq<char>, ValueModel)) -> Seq<char> {
    json_quoted(f.0) + seq![':'] + value_json(f.1)
}

/// The members, separated by commas.
pub open spec fn members_json(fs: Seq<(Seq<char>, ValueModel)>) -> Seq<char>
    decreases fs.len(),
{
    if fs.len() == 0 {
        Seq::empty()
    } else if fs.len() == 1 {
        member_json(fs[0])
    } else {
        members_json(fs.drop_last()) + seq![','] + member_json(fs.last())
    }
}

/// The JSON object of a list of fields.
pub open spec fn object_json(fs: Seq<(Seq<char>, ValueModel)>) -> Seq<char> {
    seq!['{'] + members_json(fs) + seq!['}']
}

fn append_value(out: &mut String, v: &FieldValue)
    requires
        !(v is File),
    ensures
        final(out)@ == old(out)@ + value_json(v@),
{
    proof {
        reveal_strlit("true");
        reveal_strlit("false");
    }
    match v {
        FieldValue::Int(i) => append_decimal(out, *i),
        FieldValue::Bool(b) => {
            if *b {
                out.append("true");
            } else {
                out.append("false");
            }
        },
        FieldValue::Text(s) => {
            let q = quote(s.as_str());
            out.append(q.as_str());
        },
        FieldValue::Json(j) => out.append(j.as_str()),
        FieldValue::File(_) => {},
    }
}

fn append_member(out: &mut String, first: bool, name: &String, v: &FieldValue, Ghost(done): Ghost<Seq<(Seq<char>, ValueModel)>>)
    requires
        !(v is File),
        first == (done.len() == 0),
        old(out)@ == seq!['{'] + members_json(done),
    ensures
        final(out)@ == seq!['{'] + members_json(done.push((name@, v@))),
{
    proof {
        reveal_strlit(",");
        reveal_strlit(":");
    }
    if !first {
        out.append(",");
    }
    let key = quote(name.as_str());
    out.append(key.as_str());
    out.append(":");
    append_value(out, v);
    let ghost next = done.push((name@, v@));
    assert(next.drop_last() =~= done);
    assert(final(out)@ =~= seq!['{'] + members_json(next));
}

/// Writes the payload as one JSON object: required fields, then the set
/// optional fields, in declaration order; an unset optional field has no key
/// at all. `None` when a field holds a file, which JSON cannot carry.
pub fn encode_json(p: &PayloadFields) -> (r: Option<String>)
    ensures
        r is None <==> !file_free(*p),
        r matches Some(s) ==> s@ == object_json(present(*p)),
{
    proof {
        reveal_strlit("{");
        reveal_strlit("}");
    }
    let mut out = <String as StringExecFns>::from_str("{");
    let ghost mut done: Seq<(Seq<char>, ValueModel)> = Seq::empty();
    let mut first = true;
    let mut i: usize = 0;
    while i < p.required.len()
        invariant
            i <= p.required@.len(),
            done == required_view(p.required@.subrange(0, i as int)),
            first == (done.len() == 0),
            out@ == seq!['{'] + members_json(done),
            forall|k: int| 0 <= k < i ==> !(p.required@[k].1 is File),
        decreases p.required.len() - i,
    {
        let f = &p.required[i];
        if let FieldValue::File(_) = &f.1 {
            return None;
        }
        append_member(&mut out, first, &f.0, &f.1, Ghost(done));
        proof {
            done = done.push((f.0@, f.1@));
            assert(done =~= required_view(p.required@.subrange(0, i + 1)));
        }
        first = false;
        i = i + 1;
    }
    assert(p.required@.subrange(0, i as int) =~= p.required@);
    let mut j: usize = 0;
    while j < p.optional.len()
        invariant
            i == p.required@.len(),
            forall|k: int| 0 <= k < i ==> !(p.required@[k].1 is File),
            j <= p.optional@.len(),
            done == required_view(p.required@) + set_optionals(p.optional@.subrange(0, j as int)),
            first == (done.len() == 0),
            out@ == seq!['{'] + members_json(done),
            forall|k: int| 0 <= k < j ==> !((#[trigger] p.optional@[k]).1 matches Some(FieldValue::File(_))),
        decreases p.optional.len() - j,
    {
        let f = &p.optional[j];
        assert(p.optional@.subrange(0, j + 1).drop_last() =~= p.optional@.subrange(0, j as int));
        match &f.1 {
            Some(FieldValue::File(_)) => return None,
            Some(v) => {
                append_member(&mut out, first, &f.0, v, Ghost(done));
                proof {
                    done = done.push((f.0@, v@));
                }
                first = false;
            },
            None => {},
        }
        assert(done =~= required_view(p.required@) + set_optionals(p.optional@.subrange(0, j + 1)));
        j = j + 1;
    }
    assert(p.optional@.subrange(0, j as int) =~= p.optional@);
    out.append("}");
    Some(out)
}

/// The body of one multipart form part.
#[derive(Debug, Clone, PartialEq, Eq)]
pub enum PartBody {
    Text(String),
    File(InputFile),
}

/// One multipart form part: the field's name and its body.
#[derive(Debug, Clone, PartialEq, Eq)]
pub struct Part {
    pub name: String,
    pub body: PartBody,
}

/// The mathematical value of a [`PartBody`].
pub ghost enum PartModel {
    Text(Seq<char>),
    File(FileModel),
}

impl View for PartBody {
    type V = PartModel;

    open spec fn view(&self) -> PartModel {
        match self {
            PartBody::Text(s) => PartModel::Text(s@),
            PartBody::File(f) => PartModel::File(f@),
        }
    }
}

pub open spec fn parts_view(s: Seq<Part>) -> Seq<(Seq<char>, PartModel)> {
    s.map_values(|q: Part| (q.name@, q.body@))
}

/// The part that a value becomes: a scalar as its text, a structured value
/// as its JSON text, a file as a file part with its name, content type
/// and source.
pub open spec fn part_of(v: ValueModel) -> PartModel {
    match v {
        ValueModel::Int(i) => PartModel::Text(decimal(i as int)),
        ValueModel::Bool(b) => PartModel::Text(bool_text(b)),
        ValueModel::Text(s) => PartModel::Text(s),
        ValueModel::Json(j) => PartModel::Text(j),
        ValueModel::File(f) => PartModel::File(f),
    }
}

pub open spec fn to_part(f: (Seq<char>, ValueModel)) -> (Seq<char>, PartModel) {
    (f.0, part_of(f.1))
}

/// The parts of a payload: one for each field that goes on the wire, in the
/// same order.
pub open spec fn multipart_spec(p: PayloadFields) -> Seq<(Seq<char>, PartModel)> {
    parts_of(present(p))
}

pub open spec fn parts_of(fs: Seq<(Seq<char>, ValueModel)>) -> Seq<(Seq<char>, PartModel)> {
    fs.map_values(|f: (Seq<char>, ValueModel)| to_part(f))
}

fn part_body(v: &FieldValue) -> (r: PartBody)
    ensures
        r@ == part_of(v@),
{
    proof {
        reveal_strlit("true");
        reveal_strlit("false");
    }
    match v {
        FieldValue::Int(i) => {
            let mut t = String::new();
            append_decimal(&mut t, *i);
            assert(t@ =~= decimal(*i as int));
            PartBody::Text(t)
        },
        FieldValue::Bool(b) => {
            let t = if *b {
                <String as StringExecFns>::from_str("true")
            } else {
                <String as StringExecFns>::from_str("false")
            };
            assert(t@ =~= bool_text(*b));
            PartBody::Text(t)
        },
        FieldValue::Text(s) => PartBody::Text(s.clone()),
        FieldValue::Json(j) => PartBody::Text(j.clone()),
        FieldValue::File(f) => PartBody::File(f.copy()),
    }
}

/// Lays the payload out as multipart form parts: one part per required
/// field, then one per set optional field, in declaration order.
pub fn multipart_parts(p: &PayloadFields) -> (r: Vec<Part>)
    ensures
        parts_view(r@) == multipart_spec(*p),
{
    let mut out: Vec<Part> = Vec::new();
    let ghost mut done: Seq<(Seq<char>, ValueModel)> = Seq::empty();
    let mut i: usize = 0;
    while i < p.required.len()
        invariant
            i <= p.required@.len(),
            done == required_view(p.required@.subrange(0, i as int)),
            parts_view(out@) == parts_of(done),
        decreases p.required.len() - i,
    {
        let f = &p.required[i];
        let body = part_body(&f.1);
        let ghost before = out@;
        out.push(Part { name: f.0.clone(), body });
        proof {
            assert(out@ == before.push(Part { name: f.0, body }));
            assert(parts_view(out@) =~= parts_view(before).push((f.0@, body@)));
            assert(parts_of(done.push((f.0@, f.1@))) =~= parts_of(done).push(to_part((f.0@, f.1@))));
            done = done.push((f.0@, f.1@));
            assert(done =~= required_view(p.required@.subrange(0, i + 1)));
            assert(parts_view(out@) =~= parts_of(done));
        }
        i = i + 1;
    }
    assert(p.required@.subrange(0, i as int) =~= p.required@);
    let mut j: usize = 0;
    while j < p.optional.len()
        invariant
            j <= p.optional@.len(),
            done == required_view(p.required@) + set_optionals(p.optional@.subrange(0, j as int)),
            parts_view(out@) == parts_of(done),
        decreases p.optional.len() - j,
    {
        let f = &p.optional[j];
        assert(p.optional@.subrange(0, j + 1).drop_last() =~= p.optional@.subrange(0, j as int));
        match &f.1 {
            Some(v) => {
                let body = part_body(v);
                let ghost before = out@;
                out.push(Part { name: f.0.clone(), body });
                proof {
                    assert(out@ == before.push(Part { name: f.0, body }));
                    assert(parts_view(out@) =~= parts_view(before).push((f.0@, body@)));
                    assert(parts_of(done.push((f.0@, v@))) =~= parts_of(done).push(to_part((f.0@, v@))));
                    done = done.push((f.0@, v@));
                    assert(parts_view(out@) =~= parts_of(done));
                }
            },
            None => {},
        }
        assert(done =~= required_view(p.required@) + set_optionals(p.optional@.subrange(0, j + 1)));
        j = j + 1;
    }
    assert(p.optional@.subrange(0, j as int) =~= p.optional@);
    out
}

/// Every name the payload declares: required fields, then optional fields.
pub open spec fn declared_names(p: PayloadFields) -> Seq<Seq<char>> {
    p.required@.map_values(|f: (String, FieldValue)| f.0@) + p.optional@.map_values(
        |f: (String, Option<FieldValue>)| f.0@,
    )
}

pub open spec fn names_of(fs: Seq<(Seq<char>, ValueModel)>) -> Seq<Seq<char>> {
    fs.map_values(|f: (Seq<char>, ValueModel)| f.0)
}

/// The set optional fields are exactly those optional fields whose value is
/// present, each under its own name and value.
proof fn lemma_set_optionals_members(s: Seq<(String, Option<FieldValue>)>)
    ensures
        forall|k: int| 0 <= k < set_optionals(s).len() ==> exists|j: int|
            0 <= j < s.len() && (#[trigger] s[j]).1 is Some && s[j].0@ == (#[trigger] set_optionals(s)[k]).0,
        forall|j: int| 0 <= j < s.len() && (#[trigger] s[j]).1 is Some ==> exists|k: int|
            0 <= k < set_optionals(s).len() && (#[trigger] set_optionals(s)[k]).0 == s[j].0@,
    decreases s.len(),
{
    if s.len() > 0 {
        let init = s.drop_last();
        lemma_set_optionals_members(init);
        let rest = set_optionals(init);
        assert forall|k: int| 0 <= k < set_optionals(s).len() implies exists|j: int|
            0 <= j < s.len() && (#[trigger] s[j]).1 is Some && s[j].0@ == (#[trigger] set_optionals(s)[k]).0 by {
            if k < rest.len() {
                let j = choose|j: int| 0 <= j < init.len() && (#[trigger] init[j]).1 is Some
                    && init[j].0@ == rest[k].0;
                assert(s[j] == init[j]);
            } else {
                assert(s[s.len() - 1] == s.last());
            }
        }
        assert forall|j: int| 0 <= j < s.len() && (#[trigger] s[j]).1 is Some implies exists|k: int|
            0 <= k < set_optionals(s).len() && (#[trigger] set_optionals(s)[k]).0 == s[j].0@ by {
            if j < init.len() {
                assert(init[j] == s[j]);
                let k = choose|k: int| 0 <= k < rest.len() && rest[k].0 == init[j].0@;
                assert(set_optionals(s)[k] == rest[k]);
            } else {
                assert(set_optionals(s)[rest.len() as int].0 == s[j].0@);
            }
        }
    }
}

/// The keys that go on the wire are exactly the payload's field set: when
/// the declared names are distinct, every required name is a key, and an
/// optional name is a key if and only if that field is set. In particular an
/// unset optional field has no key at all (it is never written as `null`).
pub proof fn lemma_keys_are_field_set(p: PayloadFields)
    requires
        declared_names(p).no_duplicates(),
    ensures
        forall|i: int| 0 <= i < p.required@.len() ==> present_names(p).contains(
            (#[trigger] p.required@[i]).0@,
        ),
        forall|j: int| 0 <= j < p.optional@.len() ==> (present_names(p).contains(
            (#[trigger] p.optional@[j]).0@,
        ) <==> p.optional@[j].1 is Some),
{
    let req = required_view(p.required@);
    let opt = set_optionals(p.optional@);
    let n = p.required@.len();
    lemma_set_optionals_members(p.optional@);
    assert(present_names(p) =~= names_of(req) + names_of(opt));
    assert forall|i: int| 0 <= i < p.required@.len() implies present_names(p).contains(
        (#[trigger] p.required@[i]).0@,
    ) by {
        assert(present_names(p)[i] == p.required@[i].0@);
    }
    assert forall|j: int| 0 <= j < p.optional@.len() implies (present_names(p).contains(
        (#[trigger] p.optional@[j]).0@,
    ) <==> p.optional@[j].1 is Some) by {
        assert(declared_names(p)[n + j] == p.optional@[j].0@);
        if p.optional@[j].1 is Some {
            let k = choose|k: int| 0 <= k < opt.len() && opt[k].0 == p.optional@[j].0@;
            assert(present_names(p)[n + k] == p.optional@[j].0@);
        } else if present_names(p).contains(p.optional@[j].0@) {
            let k = choose|k: int| 0 <= k < present_names(p).len() && present_names(p)[k]
                == p.optional@[j].0@;
            if k < n {
                assert(declared_names(p)[k] == p.required@[k].0@);
            } else {
                let j2 = choose|j2: int| 0 <= j2 < p.optional@.len()
                    && (#[trigger] p.optional@[j2]).1 is Some && p.optional@[j2].0@ == opt[k - n].0;
                assert(declared_names(p)[n + j2] == p.optional@[j2].0@);
            }
        }
    }
}

/// The multipart parts stand in declaration order: the required fields
/// first, then the set optional fields, each with its own value.
pub proof fn lemma_part_order(p: PayloadFields, parts: Seq<Part>)
    requires
        parts_view(parts) == multipart_spec(p),
    ensures
        parts.len() == present(p).len(),
        forall|k: int| 0 <= k < parts.len() ==> (#[trigger] parts[k]).name@ == present(p)[k].0
            && parts[k].body@ == part_of(present(p)[k].1),
        forall|i: int| 0 <= i < p.required@.len() ==> (#[trigger] parts[i]).name@ == p.required@[i].0@,
        forall|k: int| p.required@.len() <= k < parts.len() ==> (#[trigger] parts[k]).name@
            == set_optionals(p.optional@)[k - p.required@.len()].0,
{
    assert(parts_view(parts).len() == parts.len());
    assert(multipart_spec(p).len() == present(p).len());
    assert forall|k: int| 0 <= k < parts.len() implies (#[trigger] parts[k]).name@ == present(p)[k].0
        && parts[k].body@ == part_of(present(p)[k].1) by {
        assert(parts_view(parts)[k] == (parts[k].name@, parts[k].body@));
        assert(multipart_spec(p)[k] == to_part(present(p)[k]));
    }
    assert forall|i: int| 0 <= i < p.required@.len() implies (#[trigger] parts[i]).name@ == p.required@[i].0@ by {
        assert(parts[i].name@ == present(p)[i].0);
        assert(present(p)[i] == required_view(p.required@)[i]);
    }
    assert forall|k: int| p.required@.len() <= k < parts.len() implies (#[trigger] parts[k]).name@
        == set_optionals(p.optional@)[k - p.required@.len()].0 by {
        assert(parts[k].name@ == present(p)[k].0);
    }
}

/// An integer or boolean field is never written as `null`.
pub proof fn lemma_scalar_not_null(v: ValueModel)
    requires
        v is Int || v is Bool,
    ensures
        value_json(v) != seq!['n', 'u', 'l', 'l'],
{
    if let ValueModel::Int(i) = v {
        lemma_decimal_start(i as int);
        assert(value_json(v)[0] != seq!['n', 'u', 'l', 'l'][0]);
    } else {
        assert(value_json(v)[0] != seq!['n', 'u', 'l', 'l'][0]);
    }
}

} // verus!
