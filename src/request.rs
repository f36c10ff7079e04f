use vstd::prelude::*;
use vstd::std_specs::convert::TryIntoSpec;
use vstd::string::StringExecFns;

use crate::client::Client;
use crate::encoding::{decimal, encode_path, format_i64, path_segment};
use crate::operation::{
    body_type, body_type_of, method, method_of, params, params_of, template, template_of,
    HttpMethod, Operation, Param, ParamKind, Piece, Placement,
};
use crate::types::{format_name, AcceptDatetimeFormat};

verus! {

/// A parameter value after conversion to its declared type.
#[derive(Clone, Debug)]
pub enum ParamValue {
    Text(String),
    Integer(i64),
    Flag(bool),
    TextList(Vec<String>),
}

/// What a parameter value holds.
pub enum ValueModel {
    Text(Seq<char>),
    Integer(i64),
    Flag(bool),
    TextList(Seq<Seq<char>>),
}

impl View for ParamValue {
    type V = ValueModel;

    open spec fn view(&self) -> ValueModel {
        match self {
            ParamValue::Text(s) => ValueModel::Text(s@),
            ParamValue::Integer(n) => ValueModel::Integer(*n),
            ParamValue::Flag(b) => ValueModel::Flag(*b),
            ParamValue::TextList(v) => ValueModel::TextList(v@.map_values(|s: String| s@)),
        }
    }
}

/// The state of one parameter of a builder: never set, set to a value that
/// could not be converted (or a required one not set yet), or set.
#[derive(Clone, Debug)]
pub enum FieldState {
    Unset,
    Invalid(String),
    Valid(ParamValue),
}

/// What a field state holds.
pub enum FieldModel {
    Unset,
    Invalid(Seq<char>),
    Valid(ValueModel),
}

impl View for FieldState {
    type V = FieldModel;

    open spec fn view(&self) -> FieldModel {
        match self {
            FieldState::Unset => FieldModel::Unset,
            FieldState::Invalid(m) => FieldModel::Invalid(m@),
            FieldState::Valid(v) => FieldModel::Valid(v@),
        }
    }
}

/// What a builder holds: the operation, the client's configuration, the state
/// of each declared parameter in declaration order, and the body, if the
/// operation sends one (a JSON text, or the message of a failed conversion).
pub struct BuilderModel {
    pub op: Operation,
    pub base: Seq<char>,
    pub token: Seq<char>,
    pub format: AcceptDatetimeFormat,
    pub fields: Seq<FieldModel>,
    pub body: Option<Result<Seq<char>, Seq<char>>>,
}

/// A request ready to be sent: method, URL with its path filled in, query
/// pairs in declaration order, headers and JSON body.
pub struct RequestModel {
    pub op: Operation,
    pub method: HttpMethod,
    pub url: Seq<char>,
    pub query: Seq<(Seq<char>, Seq<char>)>,
    pub headers: Seq<(Seq<char>, Seq<char>)>,
    pub body: Option<Seq<char>>,
}

/// The name of the type that a parameter kind converts to.
pub open spec fn kind_name(k: ParamKind) -> Seq<char> {
    match k {
        ParamKind::Text => "String"@,
        ParamKind::Integer => "i64"@,
        ParamKind::Flag => "bool"@,
        ParamKind::TextList => "Vec < String >"@,
    }
}

/// The message that a required parameter holds until it is set.
pub open spec fn uninitialized_message(p: Param) -> Seq<char> {
    p.name@ + " was not initialized"@
}

/// The message that a parameter holds when its value cannot be converted.
pub open spec fn conversion_message(p: Param) -> Seq<char> {
    "conversion to `"@ + kind_name(p.kind) + "` for "@ + p.name@ + " failed"@
}

/// The start of the message that the body holds when a value cannot be
/// converted to it.
pub open spec fn body_conversion_prefix(body_name: Seq<char>) -> Seq<char> {
    "conversion to `"@ + body_name + "` for body failed: "@
}

/// The JSON text of a body that nothing has been set on.
pub open spec fn default_body() -> Seq<char> {
    "{}"@
}

/// A value as it is written into a path segment, a query pair or a header.
/// Of a list, only the first element is sent, and an empty list sends an
/// empty text.
pub open spec fn value_text(v: ValueModel) -> Seq<char> {
    match v {
        ValueModel::Text(s) => s,
        ValueModel::Integer(n) => decimal(n as int),
        ValueModel::Flag(b) => if b {
            "true"@
        } else {
            "false"@
        },
        ValueModel::TextList(l) => if l.len() > 0 {
            l[0]
        } else {
            Seq::empty()
        },
    }
}

/// The text of a field, empty when it holds no value.
pub open spec fn field_text(fields: Seq<FieldModel>, i: int) -> Seq<char> {
    if 0 <= i < fields.len() {
        match fields[i] {
            FieldModel::Valid(v) => value_text(v),
            _ => Seq::empty(),
        }
    } else {
        Seq::empty()
    }
}

/// The path below the base URL made by the first `n` pieces of a template.
pub open spec fn path_upto(t: Seq<Piece>, fields: Seq<FieldModel>, n: int) -> Seq<char>
    decreases n,
{
    if n <= 0 {
        Seq::empty()
    } else {
        path_upto(t, fields, n - 1) + match t[n - 1] {
            Piece::Lit(s) => s@,
            Piece::Segment(i) => path_segment(field_text(fields, i as int)),
        }
    }
}

/// The path below the base URL for a whole template.
pub open spec fn render_path(t: Seq<Piece>, fields: Seq<FieldModel>) -> Seq<char> {
    path_upto(t, fields, t.len() as int)
}

/// The pairs, in declaration order, of the first `n` parameters that go in
/// the given place and hold a value; parameters that hold none are left out.
pub open spec fn pairs_upto(
    ps: Seq<Param>,
    fields: Seq<FieldModel>,
    place: Placement,
    n: int,
) -> Seq<(Seq<char>, Seq<char>)>
    decreases n,
{
    if n <= 0 {
        Seq::empty()
    } else {
        pairs_upto(ps, fields, place, n - 1) + if ps[n - 1].place == place && fields[n - 1] is Valid {
            seq![(ps[n - 1].wire@, field_text(fields, n - 1))]
        } else {
            Seq::empty()
        }
    }
}

pub open spec fn render_pairs(ps: Seq<Param>, fields: Seq<FieldModel>, place: Placement) -> Seq<
    (Seq<char>, Seq<char>),
> {
    pairs_upto(ps, fields, place, ps.len() as int)
}

/// Whether a byte may stand in an HTTP header value: a tab, or any byte from
/// space upwards other than DEL.
pub open spec fn header_byte_ok(b: u8) -> bool {
    (b >= 0x20 && b != 0x7f) || b == 0x09
}

/// Whether a text may be sent as an HTTP header value, judged on its UTF-8
/// bytes.
pub open spec fn header_value_ok(s: Seq<char>) -> bool {
    forall|k: int|
        0 <= k < vstd::utf8::encode_utf8(s).len() ==> header_byte_ok(
            #[trigger] vstd::utf8::encode_utf8(s)[k],
        )
}

/// Whether every header parameter that holds a value may be sent as one.
pub open spec fn header_params_ok(ps: Seq<Param>, fields: Seq<FieldModel>) -> bool {
    forall|i: int|
        0 <= i < ps.len() && ps[i].place == Placement::Header && (#[trigger] fields[i]) is Valid
            ==> header_value_ok(field_text(fields, i))
}

/// The message of a request whose header value cannot be sent.
pub open spec fn invalid_header_message() -> Seq<char> {
    "failed to parse header value"@
}

/// The authorization header's value: the bearer token, or nothing where the
/// token cannot be sent in a header.
pub open spec fn authorization(token: Seq<char>) -> Seq<char> {
    if header_value_ok("Bearer "@ + token) {
        "Bearer "@ + token
    } else {
        Seq::empty()
    }
}

/// The headers that every request carries.
pub open spec fn fixed_headers(token: Seq<char>, format: AcceptDatetimeFormat) -> Seq<
    (Seq<char>, Seq<char>),
> {
    seq![
        ("Accept"@, "application/json"@),
        ("Authorization"@, authorization(token)),
        ("Accept-Datetime-Format"@, format_name(format)),
    ]
}

/// The message of the first field, in declaration order from `i`, that holds
/// an error.
pub open spec fn first_invalid_from(fields: Seq<FieldModel>, i: int) -> Option<Seq<char>>
    decreases fields.len() - i,
{
    if i < 0 || i >= fields.len() {
        None
    } else {
        match fields[i] {
            FieldModel::Invalid(m) => Some(m),
            _ => first_invalid_from(fields, i + 1),
        }
    }
}

pub open spec fn first_invalid(fields: Seq<FieldModel>) -> Option<Seq<char>> {
    first_invalid_from(fields, 0)
}

impl BuilderModel {
    pub open spec fn params(self) -> Seq<Param> {
        params_of(self.op)
    }

    /// One state per declared parameter, required ones never unset, and a
    /// body exactly when the operation sends one.
    pub open spec fn wf(self) -> bool {
        &&& self.fields.len() == self.params().len()
        &&& forall|i: int|
            0 <= i < self.fields.len() && #[trigger] self.params()[i].required ==> !(
            self.fields[i] is Unset)
        &&& (self.body is Some <==> body_type_of(self.op) is Some)
    }

    pub open spec fn with_field(self, i: int, f: FieldModel) -> BuilderModel {
        BuilderModel { fields: self.fields.update(i, f), ..self }
    }

    pub open spec fn with_body(self, b: Result<Seq<char>, Seq<char>>) -> BuilderModel {
        BuilderModel { body: Some(b), ..self }
    }

    /// The request that finalizing yields: the message of the first invalid
    /// field in declaration order, else that of an invalid body, else that of
    /// a header value that cannot be sent, else the request.
    pub open spec fn finalized(self) -> Result<RequestModel, Seq<char>> {
        match first_invalid(self.fields) {
            Some(m) => Err(m),
            None => match self.body {
                Some(Err(m)) => Err(m),
                _ => if !header_params_ok(self.params(), self.fields) {
                    Err(invalid_header_message())
                } else {
                    Ok(
                    RequestModel {
                        op: self.op,
                        method: method_of(self.op),
                        url: self.base + render_path(template_of(self.op), self.fields),
                        query: render_pairs(self.params(), self.fields, Placement::Query),
                        headers: fixed_headers(self.token, self.format) + render_pairs(
                            self.params(),
                            self.fields,
                            Placement::Header,
                        ),
                        body: match self.body {
                            Some(Ok(b)) => Some(b),
                            _ => None,
                        },
                    },
                )
                },
            },
        }
    }
}

/// A fresh builder: each required parameter holds the message that it was
/// not initialized, each optional one is unset, and a body, where the
/// operation sends one, is the empty JSON object.
pub open spec fn initial_model(client: Client, op: Operation) -> BuilderModel {
    BuilderModel {
        op,
        base: client.base(),
        token: client.token(),
        format: client.format(),
        fields: Seq::new(
            params_of(op).len(),
            |i: int|
                if params_of(op)[i].required {
                    FieldModel::Invalid(uninitialized_message(params_of(op)[i]))
                } else {
                    FieldModel::Unset
                },
        ),
        body: match body_type_of(op) {
            Some(_) => Some(Ok(default_body())),
            None => None,
        },
    }
}

/// What setting parameter `i` to `value` makes of `old`, for a setter that
/// converts its argument with `TryInto`: nothing else changes, and the
/// parameter holds the value that the conversion returned, or the conversion
/// message where it failed.
pub open spec fn text_set<V: TryInto<String>>(
    old: BuilderModel,
    i: int,
    value: V,
    new: BuilderModel,
) -> bool {
    &&& new == old.with_field(i, new.fields[i])
    &&& exists|res: Result<String, <V as TryInto<String>>::Error>|
        call_ensures(<V as TryInto<String>>::try_into, (value,), res) && new.fields[i] == match res {
            Ok(s) => FieldModel::Valid(ValueModel::Text(s@)),
            Err(_) => FieldModel::Invalid(conversion_message(old.params()[i])),
        }
}

pub open spec fn integer_set<V: TryInto<i64>>(
    old: BuilderModel,
    i: int,
    value: V,
    new: BuilderModel,
) -> bool {
    &&& new == old.with_field(i, new.fields[i])
    &&& exists|res: Result<i64, <V as TryInto<i64>>::Error>|
        call_ensures(<V as TryInto<i64>>::try_into, (value,), res) && new.fields[i] == match res {
            Ok(n) => FieldModel::Valid(ValueModel::Integer(n)),
            Err(_) => FieldModel::Invalid(conversion_message(old.params()[i])),
        }
}

pub open spec fn flag_set<V: TryInto<bool>>(
    old: BuilderModel,
    i: int,
    value: V,
    new: BuilderModel,
) -> bool {
    &&& new == old.with_field(i, new.fields[i])
    &&& exists|res: Result<bool, <V as TryInto<bool>>::Error>|
        call_ensures(<V as TryInto<bool>>::try_into, (value,), res) && new.fields[i] == match res {
            Ok(b) => FieldModel::Valid(ValueModel::Flag(b)),
            Err(_) => FieldModel::Invalid(conversion_message(old.params()[i])),
        }
}

pub open spec fn text_list_set<V: TryInto<Vec<String>>>(
    old: BuilderModel,
    i: int,
    value: V,
    new: BuilderModel,
) -> bool {
    &&& new == old.with_field(i, new.fields[i])
    &&& exists|res: Result<Vec<String>, <V as TryInto<Vec<String>>>::Error>|
        call_ensures(<V as TryInto<Vec<String>>>::try_into, (value,), res) && new.fields[i] == match res {
            Ok(l) => FieldModel::Valid(ValueModel::TextList(l@.map_values(|s: String| s@))),
            Err(_) => FieldModel::Invalid(conversion_message(old.params()[i])),
        }
}

/// What setting the body to `value` makes of `old`: nothing else changes, and
/// the body holds the JSON text that the conversion returned, or, where it
/// failed, a message that names the body type followed by the error's text.
pub open spec fn body_set<V: TryInto<String>>(old: BuilderModel, value: V, new: BuilderModel) -> bool where
    <V as TryInto<String>>::Error: std::fmt::Display,
 {
    &&& new.body is Some
    &&& new == old.with_body(new.body->Some_0)
    &&& exists|res: Result<String, <V as TryInto<String>>::Error>|
        call_ensures(<V as TryInto<String>>::try_into, (value,), res) && match res {
            Ok(s) => new.body == Some(Ok::<Seq<char>, Seq<char>>(s@)),
            Err(e) => exists|d: String|
                vstd::string::to_string_from_display_ensures::<<V as TryInto<String>>::Error>(
                    &e,
                    d,
                ) && new.body == Some(
                    Err::<Seq<char>, Seq<char>>(
                        body_conversion_prefix(body_type_of(old.op)->Some_0@) + d@,
                    ),
                ),
        }
}

/// What applying `f` to the body makes of `old`: a body that holds JSON text
/// is replaced by what `f` returns for it; an invalid body stays as it was.
pub open spec fn body_mapped<F: FnOnce(String) -> String>(
    old: BuilderModel,
    f: F,
    new: BuilderModel,
) -> bool {
    match old.body {
        Some(Ok(b)) => exists|x: String, y: String|
            x@ == b && f.ensures((x,), y) && new == old.with_body(Ok(y@)),
        _ => new == old,
    }
}

/// A request ready to be sent over HTTP.
#[derive(Clone, Debug)]
pub struct Request {
    pub operation: Operation,
    pub method: HttpMethod,
    pub url: String,
    pub query: Vec<(String, String)>,
    pub headers: Vec<(String, String)>,
    pub body: Option<String>,
}

pub open spec fn pairs_view(v: Seq<(String, String)>) -> Seq<(Seq<char>, Seq<char>)> {
    v.map_values(|p: (String, String)| (p.0@, p.1@))
}

impl View for Request {
    type V = RequestModel;

    open spec fn view(&self) -> RequestModel {
        RequestModel {
            op: self.operation,
            method: self.method,
            url: self.url@,
            query: pairs_view(self.query@),
            headers: pairs_view(self.headers@),
            body: match self.body {
                Some(b) => Some(b@),
                None => None,
            },
        }
    }
}

/// Whether an executable result is the one a model result describes.
pub open spec fn finalized_as(r: Result<Request, String>, m: Result<RequestModel, Seq<char>>) -> bool {
    match m {
        Ok(q) => r is Ok && r->Ok_0@ == q,
        Err(e) => r is Err && r->Err_0@ == e,
    }
}

/// The parameter state and configuration of one call, for any operation.
pub struct RequestBuilder<'a> {
    pub(crate) client: &'a Client,
    pub(crate) op: Operation,
    pub(crate) params: Vec<Param>,
    pub(crate) fields: Vec<FieldState>,
    pub(crate) body: Option<Result<String, String>>,
}

impl<'a> View for RequestBuilder<'a> {
    type V = BuilderModel;

    closed spec fn view(&self) -> BuilderModel {
        BuilderModel {
            op: self.op,
            base: self.client.base(),
            token: self.client.token(),
            format: self.client.format(),
            fields: self.fields@.map_values(|f: FieldState| f@),
            body: match self.body {
                Some(Ok(b)) => Some(Ok(b@)),
                Some(Err(m)) => Some(Err(m@)),
                None => None,
            },
        }
    }
}

fn kind_str(k: ParamKind) -> (r: &'static str)
    ensures
        r@ == kind_name(k),
{
    match k {
        ParamKind::Text => "String",
        ParamKind::Integer => "i64",
        ParamKind::Flag => "bool",
        ParamKind::TextList => "Vec < String >",
    }
}

fn uninitialized_text(p: Param) -> (r: String)
    ensures
        r@ == uninitialized_message(p),
{
    let mut s = String::from_str(p.name);
    s.append(" was not initialized");
    s
}

fn conversion_text(p: Param) -> (r: String)
    ensures
        r@ == conversion_message(p),
{
    let mut s = String::from_str("conversion to `");
    s.append(kind_str(p.kind));
    s.append("` for ");
    s.append(p.name);
    s.append(" failed");
    proof {
        assert(s@ == "conversion to `"@ + kind_name(p.kind) + "` for "@ + p.name@ + " failed"@);
    }
    s
}

fn header_value_valid(s: &str) -> (r: bool)
    ensures
        r == header_value_ok(s@),
{
    let bytes = s.as_bytes();
    let mut i: usize = 0;
    while i < bytes.len()
        invariant
            bytes@ == vstd::utf8::encode_utf8(s@),
            i <= bytes@.len(),
            forall|k: int| 0 <= k < i ==> header_byte_ok(#[trigger] bytes@[k]),
        decreases bytes@.len() - i,
    {
        let b = bytes[i];
        if !((b >= 0x20 && b != 0x7f) || b == 0x09) {
            assert(!header_byte_ok(bytes@[i as int]));
            return false;
        }
        i = i + 1;
    }
    true
}

fn value_string(v: &ParamValue) -> (r: String)
    ensures
        r@ == value_text(v@),
{
    match v {
        ParamValue::Text(s) => s.clone(),
        ParamValue::Integer(n) => format_i64(*n),
        ParamValue::Flag(b) => if *b {
            String::from_str("true")
        } else {
            String::from_str("false")
        },
        ParamValue::TextList(l) => if l.len() > 0 {
            l[0].clone()
        } else {
            String::new()
        },
    }
}

impl<'a> RequestBuilder<'a> {
    pub(crate) open spec fn inv(&self) -> bool {
        &&& self@.wf()
        &&& self.params@ == params_of(self.op)
    }

    pub(crate) fn new(client: &'a Client, op: Operation) -> (r: Self)
        ensures
            r.inv(),
            r@ == initial_model(*client, op),
    {
        let ps = params(op);
        let mut fields: Vec<FieldState> = Vec::new();
        let mut i: usize = 0;
        while i < ps.len()
            invariant
                ps@ == params_of(op),
                i <= ps@.len(),
                fields@.len() == i,
                forall|j: int|
                    0 <= j < i ==> (#[trigger] fields@[j])@ == (if params_of(op)[j].required {
                        FieldModel::Invalid(uninitialized_message(params_of(op)[j]))
                    } else {
                        FieldModel::Unset
                    }),
            decreases ps@.len() - i,
        {
            let p = ps[i];
            if p.required {
                fields.push(FieldState::Invalid(uninitialized_text(p)));
            } else {
                fields.push(FieldState::Unset);
            }
            i = i + 1;
        }
        let body = match body_type(op) {
            Some(_) => Some(Ok(String::from_str("{}"))),
            None => None,
        };
        let r = RequestBuilder {
            client,
            op,
            params: ps,
            fields,
            body,
        };
        assert(r@.fields =~= initial_model(*client, op).fields);
        r
    }

    fn put_field(&mut self, i: usize, f: FieldState)
        requires
            old(self).inv(),
            i < old(self)@.fields.len(),
            old(self).params@[i as int].required ==> !(f is Unset),
        ensures
            final(self).inv(),
            final(self)@ == old(self)@.with_field(i as int, f@),
            final(self).params == old(self).params,
    {
        self.fields.set(i, f);
        assert(self@.fields =~= old(self)@.fields.update(i as int, f@));
    }

    pub(crate) fn set_text<V: TryInto<String>>(self, i: usize, value: V) -> (r: Self)
        requires
            self.inv(),
            i < self@.fields.len(),
        ensures
            r.inv(),
            text_set(self@, i as int, value, r@),
    {
        let mut b = self;
        let res = value.try_into();
        let f = match res {
            Ok(s) => FieldState::Valid(ParamValue::Text(s)),
            Err(_) => FieldState::Invalid(conversion_text(b.params[i])),
        };
        b.put_field(i, f);
        b
    }

    pub(crate) fn set_integer<V: TryInto<i64>>(self, i: usize, value: V) -> (r: Self)
        requires
            self.inv(),
            i < self@.fields.len(),
        ensures
            r.inv(),
            integer_set(self@, i as int, value, r@),
    {
        let mut b = self;
        let res = value.try_into();
        let f = match res {
            Ok(n) => FieldState::Valid(ParamValue::Integer(n)),
            Err(_) => FieldState::Invalid(conversion_text(b.params[i])),
        };
        b.put_field(i, f);
        b
    }

    pub(crate) fn set_flag<V: TryInto<bool>>(self, i: usize, value: V) -> (r: Self)
        requires
            self.inv(),
            i < self@.fields.len(),
        ensures
            r.inv(),
            flag_set(self@, i as int, value, r@),
    {
        let mut b = self;
        let res = value.try_into();
        let f = match res {
            Ok(x) => FieldState::Valid(ParamValue::Flag(x)),
            Err(_) => FieldState::Invalid(conversion_text(b.params[i])),
        };
        b.put_field(i, f);
        b
    }

    pub(crate) fn set_text_list<V: TryInto<Vec<String>>>(self, i: usize, value: V) -> (r: Self)
        requires
            self.inv(),
            i < self@.fields.len(),
        ensures
            r.inv(),
            text_list_set(self@, i as int, value, r@),
    {
        let mut b = self;
        let res = value.try_into();
        let f = match res {
            Ok(l) => FieldState::Valid(ParamValue::TextList(l)),
            Err(_) => FieldState::Invalid(conversion_text(b.params[i])),
        };
        b.put_field(i, f);
        b
    }

    pub(crate) fn set_body<V: TryInto<String>>(self, value: V) -> (r: Self) where
        <V as TryInto<String>>::Error: std::fmt::Display,

        requires
            self.inv(),
            self@.body is Some,
        ensures
            r.inv(),
            body_set(self@, value, r@),
    {
        let RequestBuilder { client, op, params, fields, body } = self;
        let res = value.try_into();
        let new_body = match res {
            Ok(s) => Ok(s),
            Err(e) => {
                let name = match body_type(op) {
                    Some(n) => n,
                    None => "",
                };
                let mut m = String::from_str("conversion to `");
                m.append(name);
                m.append("` for body failed: ");
                let detail = e.to_string();
                m.append(detail.as_str());
                assert(m@ == body_conversion_prefix(body_type_of(op)->Some_0@) + detail@);
                Err(m)
            },
        };
        RequestBuilder { client, op, params, fields, body: Some(new_body) }
    }

    pub(crate) fn map_body<F: FnOnce(String) -> String>(self, f: F) -> (r: Self)
        requires
            self.inv(),
            forall|s: String| f.requires((s,)),
        ensures
            r.inv(),
            body_mapped(self@, f, r@),
    {
        let RequestBuilder { client, op, params, fields, body } = self;
        match body {
            Some(Ok(s)) => {
                let ghost x = s;
                let y = f(s);
                let r = RequestBuilder { client, op, params, fields, body: Some(Ok(y)) };
                assert(x@ == self@.body->Some_0->Ok_0 && f.ensures((x,), y) && r@ == self@.with_body(Ok(y@)));
                r
            },
            other => RequestBuilder { client, op, params, fields, body: other },
        }
    }

    fn field_string(&self, j: usize) -> (r: String)
        requires
            self.inv(),
        ensures
            r@ == field_text(self@.fields, j as int),
    {
        if j < self.fields.len() {
            match &self.fields[j] {
                FieldState::Valid(v) => value_string(v),
                _ => String::new(),
            }
        } else {
            String::new()
        }
    }

    fn push_pairs(&self, place: Placement, out: &mut Vec<(String, String)>)
        requires
            self.inv(),
        ensures
            pairs_view(final(out)@) == pairs_view(old(out)@) + render_pairs(
                self@.params(),
                self@.fields,
                place,
            ),
    {
        let ghost start = pairs_view(out@);
        let mut j: usize = 0;
        while j < self.params.len()
            invariant
                self.inv(),
                j <= self.params@.len(),
                pairs_view(out@) == start + pairs_upto(self@.params(), self@.fields, place, j as int),
            decreases self.params@.len() - j,
        {
            let p = self.params[j];
            if p.place == place {
                match &self.fields[j] {
                    FieldState::Valid(v) => {
                        let pair = (String::from_str(p.wire), value_string(v));
                        let ghost prev = out@;
                        out.push(pair);
                        assert(pairs_view(out@) =~= pairs_view(prev) + seq![(pair.0@, pair.1@)]);
                    },
                    _ => {},
                }
            }
            j = j + 1;
        }
    }

    fn path(&self) -> (r: String)
        requires
            self.inv(),
        ensures
            r@ == self@.base + render_path(template_of(self@.op), self@.fields),
    {
        let t = template(self.op);
        let mut url = self.client.baseurl().clone();
        let mut k: usize = 0;
        while k < t.len()
            invariant
                self.inv(),
                t@ == template_of(self@.op),
                k <= t@.len(),
                url@ == self@.base + path_upto(t@, self@.fields, k as int),
            decreases t@.len() - k,
        {
            match t[k] {
                Piece::Lit(s) => {
                    url.append(s);
                },
                Piece::Segment(j) => {
                    let text = self.field_string(j);
                    let seg = encode_path(text.as_str());
                    url.append(seg.as_str());
                },
            }
            k = k + 1;
            assert(url@ =~= self@.base + path_upto(t@, self@.fields, k as int));
        }
        url
    }

    fn headers(&self) -> (r: Vec<(String, String)>)
        requires
            self.inv(),
        ensures
            pairs_view(r@) == fixed_headers(self@.token, self@.format) + render_pairs(
                self@.params(),
                self@.fields,
                Placement::Header,
            ),
    {
        let mut out: Vec<(String, String)> = Vec::new();
        out.push((String::from_str("Accept"), String::from_str("application/json")));
        let mut auth = String::from_str("Bearer ");
        auth.append(self.client.auth_token().as_str());
        if !header_value_valid(auth.as_str()) {
            auth = String::new();
        }
        out.push((String::from_str("Authorization"), auth));
        out.push((String::from_str("Accept-Datetime-Format"), String::from_str(self.client.accept_datetime_format().as_str())));
        assert(pairs_view(out@) =~= fixed_headers(self@.token, self@.format));
        self.push_pairs(Placement::Header, &mut out);
        out
    }

    pub(crate) fn finalize(self) -> (r: Result<Request, String>)
        requires
            self.inv(),
        ensures
            finalized_as(r, self@.finalized()),
    {
        let mut i: usize = 0;
        while i < self.fields.len()
            invariant
                self.inv(),
                i <= self.fields@.len(),
                first_invalid(self@.fields) == first_invalid_from(self@.fields, i as int),
            decreases self.fields@.len() - i,
        {
            match &self.fields[i] {
                FieldState::Invalid(m) => {
                    return Err(m.clone());
                },
                _ => {},
            }
            i = i + 1;
        }
        match &self.body {
            Some(Err(m)) => {
                return Err(m.clone());
            },
            _ => {},
        }
        assert(first_invalid(self@.fields) is None);
        let mut j: usize = 0;
        while j < self.params.len()
            invariant
                self.inv(),
                first_invalid(self@.fields) is None,
                !(self@.body matches Some(Err(_))),
                j <= self.params@.len(),
                forall|i: int|
                    0 <= i < j && self@.params()[i].place == Placement::Header && (#[trigger] self@.fields[i]) is Valid
                        ==> header_value_ok(field_text(self@.fields, i)),
            decreases self.params@.len() - j,
        {
            if self.params[j].place == Placement::Header {
                match &self.fields[j] {
                    FieldState::Valid(_) => {
                        let text = self.field_string(j);
                        if !header_value_valid(text.as_str()) {
                            assert(self@.fields[j as int] is Valid);
                            assert(!header_params_ok(self@.params(), self@.fields));
                            let msg = String::from_str("failed to parse header value");
                            assert(msg@ == invalid_header_message());
                            return Err(msg);
                        }
                    },
                    _ => {},
                }
            }
            j = j + 1;
        }
        let url = self.path();
        let mut query: Vec<(String, String)> = Vec::new();
        self.push_pairs(Placement::Query, &mut query);
        assert(pairs_view(query@) =~= render_pairs(self@.params(), self@.fields, Placement::Query));
        let headers = self.headers();
        let body = match &self.body {
            Some(Ok(b)) => Some(b.clone()),
            _ => None,
        };
        Ok(Request { operation: self.op, method: method(self.op), url, query, headers, body })
    }
}

} // verus!
