use vstd::prelude::*;

use crate::client::Client;
use crate::encoding::{escape_byte, escape_bytes, path_segment};
use crate::operation::{params_of, template_of, Operation, Param, Placement};
use crate::request::{
    body_mapped,    first_invalid_from, flag_set, header_params_ok, initial_model, integer_set, pairs_upto, render_pairs,
    render_path, text_list_set, text_set, uninitialized_message, BuilderModel, FieldModel,
};

verus! {

/// Whether a key is that of a required parameter among `ps`.
pub open spec fn required_key(ps: Seq<Param>, key: Seq<char>) -> bool {
    exists|i: int| 0 <= i < ps.len() && (#[trigger] ps[i]).required && ps[i].wire@ == key
}

proof fn lemma_escape_bytes_no_slash(bytes: Seq<u8>)
    ensures
        forall|k: int| 0 <= k < escape_bytes(bytes).len() ==> escape_bytes(bytes)[k] != 0x2f,
    decreases bytes.len(),
{
    if bytes.len() > 0 {
        lemma_escape_bytes_no_slash(bytes.drop_last());
        let b = bytes.last();
        let prev = escape_bytes(bytes.drop_last());
        let all = escape_bytes(bytes);
        assert(all == prev + escape_byte(b));
        assert forall|k: int| 0 <= k < all.len() implies all[k] != 0x2f by {
            if k >= prev.len() {
                assert(all[k] == escape_byte(b)[k - prev.len()]);
            } else {
                assert(all[k] == prev[k]);
            }
        }
    }
}

/// A value encoded as a path segment holds no `/`, so it can never add a
/// segment to the path.
pub proof fn lemma_segment_has_no_slash(s: Seq<char>)
    ensures
        forall|k: int| 0 <= k < path_segment(s).len() ==> path_segment(s)[k] != '/',
{
    let bytes = escape_bytes(vstd::utf8::encode_utf8(s));
    lemma_escape_bytes_no_slash(vstd::utf8::encode_utf8(s));
    assert forall|k: int| 0 <= k < path_segment(s).len() implies path_segment(s)[k] != '/' by {
        assert(path_segment(s)[k] == bytes[k] as char);
    }
}

proof fn lemma_no_invalid_from(fields: Seq<FieldModel>, i: int)
    requires
        0 <= i,
        forall|k: int| i <= k < fields.len() ==> !(#[trigger] fields[k] is Invalid),
    ensures
        first_invalid_from(fields, i) is None,
    decreases fields.len() - i,
{
    if i < fields.len() {
        lemma_no_invalid_from(fields, i + 1);
    }
}

proof fn lemma_first_invalid_at(fields: Seq<FieldModel>, i: int, j: int)
    requires
        0 <= i <= j < fields.len(),
        fields[j] is Invalid,
        forall|k: int| i <= k < j ==> !(#[trigger] fields[k] is Invalid),
    ensures
        first_invalid_from(fields, i) == Some(fields[j]->Invalid_0),
    decreases j - i,
{
    if i < j {
        lemma_first_invalid_at(fields, i + 1, j);
    }
}

/// A builder none of whose parameters holds an error, whose body, if any, is
/// valid and whose header values can all be sent finalizes to a request.
pub proof fn lemma_valid_builder_finalizes(m: BuilderModel)
    requires
        m.wf(),
        forall|i: int| 0 <= i < m.fields.len() ==> !(#[trigger] m.fields[i] is Invalid),
        !(m.body matches Some(Err(_))),
        header_params_ok(m.params(), m.fields),
    ensures
        m.finalized() is Ok,
{
    lemma_no_invalid_from(m.fields, 0);
}

/// A builder whose required parameters all hold values, whose optional ones
/// are all unset and whose body, if any, is valid yields a request whose URL is
/// the base URL followed by the operation's path template, each placeholder
/// replaced by its value encoded as a path segment, and whose query holds the
/// required query parameters alone.
pub proof fn lemma_required_only_request(m: BuilderModel)
    requires
        m.wf(),
        forall|i: int|
            0 <= i < m.fields.len() ==> if (#[trigger] m.params()[i]).required {
                m.fields[i] is Valid
            } else {
                m.fields[i] is Unset
            },
        !(m.body matches Some(Err(_))),
    ensures
        m.finalized() is Ok,
        m.finalized()->Ok_0.url == m.base + render_path(template_of(m.op), m.fields),
        forall|k: int|
            0 <= k < m.finalized()->Ok_0.query.len() ==> required_key(
                m.params(),
                (#[trigger] m.finalized()->Ok_0.query[k]).0,
            ),
{
    assert forall|k: int| 0 <= k < m.fields.len() implies !(#[trigger] m.fields[k] is Invalid) by {
        if m.params()[k].required {
        } else {
        }
    }
    lemma_no_invalid_from(m.fields, 0);
    lemma_pairs_from_valid(m.params(), m.fields, Placement::Query, m.params().len() as int);
}

proof fn lemma_pairs_from_valid(ps: Seq<Param>, fields: Seq<FieldModel>, place: Placement, n: int)
    requires
        0 <= n <= ps.len(),
        fields.len() == ps.len(),
        forall|i: int| 0 <= i < ps.len() && (#[trigger] fields[i]) is Valid ==> ps[i].required,
    ensures
        forall|k: int|
            0 <= k < pairs_upto(ps, fields, place, n).len() ==> required_key(
                ps,
                (#[trigger] pairs_upto(ps, fields, place, n)[k]).0,
            ),
    decreases n,
{
    if n > 0 {
        lemma_pairs_from_valid(ps, fields, place, n - 1);
        let prev = pairs_upto(ps, fields, place, n - 1);
        let all = pairs_upto(ps, fields, place, n);
        assert forall|k: int| 0 <= k < all.len() implies required_key(ps, (#[trigger] all[k]).0) by {
            if k < prev.len() {
                assert(all[k] == prev[k]);
            } else {
                assert(fields[n - 1] is Valid);
                assert(ps[n - 1].required && all[k].0 == ps[n - 1].wire@);
                assert(required_key(ps, all[k].0));
            }
        }
    }
}

proof fn lemma_pairs_without(
    ps: Seq<Param>,
    fields: Seq<FieldModel>,
    place: Placement,
    j: int,
    n: int,
)
    requires
        fields.len() == ps.len(),
        0 <= j < ps.len(),
        fields[j] is Unset,
        0 <= n <= ps.len(),
    ensures
        pairs_upto(ps, fields, place, n) == if n <= j {
            pairs_upto(ps.remove(j), fields.remove(j), place, n)
        } else {
            pairs_upto(ps.remove(j), fields.remove(j), place, n - 1)
        },
    decreases n,
{
    if n > 0 {
        lemma_pairs_without(ps, fields, place, j, n - 1);
        if n - 1 > j {
            assert(ps.remove(j)[n - 2] == ps[n - 1]);
            assert(fields.remove(j)[n - 2] == fields[n - 1]);
        } else if n - 1 < j {
            assert(ps.remove(j)[n - 1] == ps[n - 1]);
            assert(fields.remove(j)[n - 1] == fields[n - 1]);
        }
    }
}

/// A parameter that holds no value adds nothing to the query or the headers,
/// neither a key with an empty value nor anything else: the pairs are those
/// of the same declarations without it.
pub proof fn lemma_unset_parameter_omitted(m: BuilderModel, j: int, place: Placement)
    requires
        m.wf(),
        0 <= j < m.fields.len(),
        m.fields[j] is Unset,
    ensures
        render_pairs(m.params(), m.fields, place) == render_pairs(
            m.params().remove(j),
            m.fields.remove(j),
            place,
        ),
        m.finalized() is Ok ==> m.finalized()->Ok_0.query == render_pairs(
            m.params().remove(j),
            m.fields.remove(j),
            Placement::Query,
        ),
{
    lemma_pairs_without(m.params(), m.fields, place, j, m.params().len() as int);
    lemma_pairs_without(m.params(), m.fields, Placement::Query, j, m.params().len() as int);
}

/// A required parameter that still holds the message that it was not
/// initialized, after parameters that hold no error, makes finalizing fail
/// with that message.
pub proof fn lemma_uninitialized_reported(m: BuilderModel, j: int)
    requires
        m.wf(),
        0 <= j < m.fields.len(),
        m.fields[j] == FieldModel::Invalid(uninitialized_message(m.params()[j])),
        forall|k: int| 0 <= k < j ==> !(#[trigger] m.fields[k] is Invalid),
    ensures
        m.finalized() == Err::<crate::request::RequestModel, Seq<char>>(
            uninitialized_message(m.params()[j]),
        ),
{
    lemma_first_invalid_at(m.fields, 0, j);
}

/// A fresh builder fails to finalize with the message that its first required
/// parameter was not initialized.
pub proof fn lemma_fresh_builder_uninitialized(client: Client, op: Operation, j: int)
    requires
        0 <= j < params_of(op).len(),
        params_of(op)[j].required,
        forall|k: int| 0 <= k < j ==> !(#[trigger] params_of(op)[k]).required,
    ensures
        initial_model(client, op).finalized() == Err::<crate::request::RequestModel, Seq<char>>(
            uninitialized_message(params_of(op)[j]),
        ),
{
    let m = initial_model(client, op);
    assert forall|k: int| 0 <= k < j implies !(#[trigger] m.fields[k] is Invalid) by {
        assert(!params_of(op)[k].required);
    }
    lemma_first_invalid_at(m.fields, 0, j);
}

/// Writing a parameter twice leaves what the second write put there, and
/// nothing of the first.
pub proof fn lemma_last_write_wins(m: BuilderModel, i: int, first: FieldModel, second: FieldModel)
    requires
        0 <= i < m.fields.len(),
    ensures
        m.with_field(i, first).with_field(i, second) == m.with_field(i, second),
{
    assert(m.with_field(i, first).with_field(i, second).fields =~= m.with_field(i, second).fields);
}

/// Calling a text setter twice is calling it once with the second value.
pub proof fn lemma_text_set_twice<V: TryInto<String>, W: TryInto<String>>(
    m: BuilderModel,
    i: int,
    first: V,
    mid: BuilderModel,
    second: W,
    last: BuilderModel,
)
    requires
        0 <= i < m.fields.len(),
        text_set(m, i, first, mid),
        text_set(mid, i, second, last),
    ensures
        text_set(m, i, second, last),
{
    lemma_last_write_wins(m, i, mid.fields[i], last.fields[i]);
}

/// Calling an integer setter twice is calling it once with the second value.
pub proof fn lemma_integer_set_twice<V: TryInto<i64>, W: TryInto<i64>>(
    m: BuilderModel,
    i: int,
    first: V,
    mid: BuilderModel,
    second: W,
    last: BuilderModel,
)
    requires
        0 <= i < m.fields.len(),
        integer_set(m, i, first, mid),
        integer_set(mid, i, second, last),
    ensures
        integer_set(m, i, second, last),
{
    lemma_last_write_wins(m, i, mid.fields[i], last.fields[i]);
}

/// Calling a flag setter twice is calling it once with the second value.
pub proof fn lemma_flag_set_twice<V: TryInto<bool>, W: TryInto<bool>>(
    m: BuilderModel,
    i: int,
    first: V,
    mid: BuilderModel,
    second: W,
    last: BuilderModel,
)
    requires
        0 <= i < m.fields.len(),
        flag_set(m, i, first, mid),
        flag_set(mid, i, second, last),
    ensures
        flag_set(m, i, second, last),
{
    lemma_last_write_wins(m, i, mid.fields[i], last.fields[i]);
}

/// Calling a list setter twice is calling it once with the second value.
pub proof fn lemma_text_list_set_twice<V: TryInto<Vec<String>>, W: TryInto<Vec<String>>>(
    m: BuilderModel,
    i: int,
    first: V,
    mid: BuilderModel,
    second: W,
    last: BuilderModel,
)
    requires
        0 <= i < m.fields.len(),
        text_list_set(m, i, first, mid),
        text_list_set(mid, i, second, last),
    ensures
        text_list_set(m, i, second, last),
{
    lemma_last_write_wins(m, i, mid.fields[i], last.fields[i]);
}

/// Rewriting a valid body with `f` and then with `g` leaves what `g` returns
/// for the text that `f` returned; every other part of the builder stays as it was.
pub proof fn lemma_body_map_twice<F: FnOnce(String) -> String, G: FnOnce(String) -> String>(
    m: BuilderModel,
    f: F,
    mid: BuilderModel,
    g: G,
    last: BuilderModel,
)
    requires
        m.body matches Some(Ok(_)),
        body_mapped(m, f, mid),
        body_mapped(mid, g, last),
    ensures
        exists|x: String, y: String, y2: String, z: String|
            #![trigger f.ensures((x,), y), g.ensures((y2,), z)]
            x@ == m.body->Some_0->Ok_0 && f.ensures((x,), y) && y2@ == y@ && g.ensures((y2,), z)
                && last == m.with_body(Ok(z@)),
{
    let (x, y) = choose|x: String, y: String|
        x@ == m.body->Some_0->Ok_0 && f.ensures((x,), y) && mid == m.with_body(Ok(y@));
    let (y2, z) = choose|y2: String, z: String|
        y2@ == mid.body->Some_0->Ok_0 && g.ensures((y2,), z) && last == mid.with_body(Ok(z@));
    assert(y2@ == y@);
    assert(last == m.with_body(Ok(z@)));
    assert(f.ensures((x,), y) && g.ensures((y2,), z));
}

} // verus!
