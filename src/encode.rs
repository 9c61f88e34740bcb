//! The wire encoding of a packet that carries one template and one data
//! flowset laid out by it, and what decoding such a packet gives: the
//! records that fit in the payload, and back the field values that were
//! encoded.
use vstd::prelude::*;
use crate::dataset::{
    dataset_records, field_ids, last_with_id, lemma_dataset_records, lemma_record_map_dom,
    lemma_record_map_value, record_in_payload, record_map, span_sum,
};
use crate::parser::{
    decode_flowsets, decode_packet, flowset_step, tag_records, CacheModel, RecordModel, Step,
};
use crate::template::{template_fields_of, template_id_of, template_ok, TemplateField};
use crate::wire::{
    be16_at, netflow_header_of, tl_header_of, DecodeError, NetflowHeader, TypeLenHeader,
};

verus! {

/// `v` as two bytes, most significant first.
pub open spec fn be16_bytes(v: u16) -> Seq<u8> {
    seq![(v / 256) as u8, (v % 256) as u8]
}

/// `v` as four bytes, most significant first.
pub open spec fn be32_bytes(v: u32) -> Seq<u8> {
    be16_bytes((v / 65536) as u16) + be16_bytes((v % 65536) as u16)
}

/// The 20-byte packet header `h`.
pub open spec fn encode_header(h: NetflowHeader) -> Seq<u8> {
    be16_bytes(h.version) + be16_bytes(h.count) + be32_bytes(h.sys_uptime) + be32_bytes(h.timestamp)
        + be32_bytes(h.sequence) + be32_bytes(h.source_id)
}

/// The field descriptors of a layout, four bytes each.
pub open spec fn encode_fields(fields: Seq<TemplateField>) -> Seq<u8>
    decreases fields.len(),
{
    if fields.len() == 0 {
        Seq::empty()
    } else {
        encode_fields(fields.drop_last()) + be16_bytes(fields.last().field) + be16_bytes(
            fields.last().len,
        )
    }
}

/// A template flowset that declares layout `fields` under id `id`.
pub open spec fn encode_template_flowset(id: u16, fields: Seq<TemplateField>) -> Seq<u8> {
    be16_bytes(0) + be16_bytes((8 + 4 * fields.len()) as u16) + be16_bytes(id) + be16_bytes(
        fields.len() as u16,
    ) + encode_fields(fields)
}

/// The byte strings `values`, one after the other.
pub open spec fn concat_values(values: Seq<Seq<u8>>) -> Seq<u8>
    decreases values.len(),
{
    if values.len() == 0 {
        Seq::empty()
    } else {
        concat_values(values.drop_last()) + values.last()
    }
}

/// A data flowset of template `id` whose payload is `payload`.
pub open spec fn encode_data_flowset(id: u16, payload: Seq<u8>) -> Seq<u8> {
    be16_bytes(id) + be16_bytes((4 + payload.len()) as u16) + payload
}

/// A packet with header `h`, then a template flowset that declares `fields`
/// under id `id`, then a data flowset of that template with payload
/// `payload`.
pub open spec fn encode_packet(
    h: NetflowHeader,
    id: u16,
    fields: Seq<TemplateField>,
    payload: Seq<u8>,
) -> Seq<u8> {
    encode_header(h) + encode_template_flowset(id, fields) + encode_data_flowset(id, payload)
}

proof fn lemma_be16_bytes(v: u16)
    ensures
        be16_bytes(v).len() == 2,
        be16_at(be16_bytes(v), 0) == v,
{
}

proof fn lemma_be32_bytes(v: u32)
    ensures
        be32_bytes(v).len() == 4,
        be16_at(be32_bytes(v), 0) as int * 65536 + be16_at(be32_bytes(v), 2) as int == v,
{
    let a = be16_bytes((v / 65536) as u16);
    let b = be16_bytes((v % 65536) as u16);
    lemma_be16_bytes((v / 65536) as u16);
    lemma_be16_bytes((v % 65536) as u16);
    assert(be16_at(be32_bytes(v), 0) == be16_at(a, 0));
    assert(be16_at(be32_bytes(v), 2) == be16_at(b, 0));
}

proof fn lemma_encode_fields(fields: Seq<TemplateField>)
    ensures
        encode_fields(fields).len() == 4 * fields.len(),
        forall|k: int|
            0 <= k < fields.len() ==> {
                &&& be16_at(encode_fields(fields), 4 * k) == (#[trigger] fields[k]).field
                &&& be16_at(encode_fields(fields), 4 * k + 2) == fields[k].len
            },
    decreases fields.len(),
{
    if fields.len() > 0 {
        let init = fields.drop_last();
        lemma_encode_fields(init);
        lemma_be16_bytes(fields.last().field);
        lemma_be16_bytes(fields.last().len);
        let e = encode_fields(fields);
        let ei = encode_fields(init);
        assert forall|k: int| 0 <= k < fields.len() implies {
            &&& be16_at(e, 4 * k) == (#[trigger] fields[k]).field
            &&& be16_at(e, 4 * k + 2) == fields[k].len
        } by {
            if k < init.len() {
                assert(init[k] == fields[k]);
                assert(e[4 * k] == ei[4 * k]);
                assert(e[4 * k + 1] == ei[4 * k + 1]);
                assert(e[4 * k + 2] == ei[4 * k + 2]);
                assert(e[4 * k + 3] == ei[4 * k + 3]);
            }
        }
    }
}

proof fn lemma_concat_values(fields: Seq<TemplateField>, values: Seq<Seq<u8>>)
    requires
        values.len() == fields.len(),
        forall|i: int| 0 <= i < values.len() ==> (#[trigger] values[i]).len() == fields[i].len,
    ensures
        concat_values(values).len() == span_sum(fields),
        forall|j: int|
            0 <= j < values.len() ==> concat_values(values).subrange(
                span_sum(fields.subrange(0, j)) as int,
                span_sum(fields.subrange(0, j)) + fields[j].len,
            ) == #[trigger] values[j],
    decreases values.len(),
{
    if values.len() > 0 {
        let n = values.len() - 1;
        let vi = values.drop_last();
        let fi = fields.drop_last();
        lemma_concat_values(fi, vi);
        assert forall|j: int| 0 <= j < values.len() implies concat_values(values).subrange(
            span_sum(fields.subrange(0, j)) as int,
            span_sum(fields.subrange(0, j)) + fields[j].len,
        ) == #[trigger] values[j] by {
            if j < n {
                assert(fi.subrange(0, j) =~= fields.subrange(0, j));
                assert(vi[j] == values[j]);
                lemma_field_within_width(fi, j);
                assert(concat_values(values).subrange(
                    span_sum(fields.subrange(0, j)) as int,
                    span_sum(fields.subrange(0, j)) + fields[j].len,
                ) =~= concat_values(vi).subrange(
                    span_sum(fi.subrange(0, j)) as int,
                    span_sum(fi.subrange(0, j)) + fi[j].len,
                ));
            } else {
                assert(fields.subrange(0, j) =~= fi);
                assert(concat_values(values).subrange(
                    span_sum(fields.subrange(0, j)) as int,
                    span_sum(fields.subrange(0, j)) + fields[j].len,
                ) =~= values[j]);
            }
        }
    }
}

proof fn lemma_field_within_width(fields: Seq<TemplateField>, j: int)
    requires
        0 <= j < fields.len(),
    ensures
        span_sum(fields.subrange(0, j)) + fields[j].len <= span_sum(fields),
    decreases fields.len(),
{
    let init = fields.drop_last();
    if j < fields.len() - 1 {
        assert(init.subrange(0, j) =~= fields.subrange(0, j));
        lemma_field_within_width(init, j);
    } else {
        assert(init =~= fields.subrange(0, j));
    }
}

/// A template flowset, read with any cache, teaches the cache its layout and
/// leaves reading right after it.
proof fn lemma_template_flowset_step(
    c: CacheModel,
    id: u16,
    fields: Seq<TemplateField>,
    d: Seq<u8>,
)
    requires
        8 + 4 * fields.len() <= 65535,
    ensures
        flowset_step(c, encode_template_flowset(id, fields) + d) == (Step::Next {
            cache: CacheModel { templates: c.templates.insert(id, fields), options: c.options },
            rest: d,
            records: Seq::empty(),
        }),
{
    let t = encode_template_flowset(id, fields);
    let n = fields.len();
    lemma_encode_fields(fields);
    let ef = encode_fields(fields);
    lemma_be16_bytes(0);
    lemma_be16_bytes((8 + 4 * n) as u16);
    lemma_be16_bytes(id);
    lemma_be16_bytes(n as u16);
    let td = t + d;
    assert(td[0] == t[0] && td[1] == t[1] && td[2] == t[2] && td[3] == t[3]);
    assert(tl_header_of(td) == TypeLenHeader { flowset_id: 0, length: (8 + 4 * n) as u16 });
    let body = td.subrange(4, td.len() as int);
    assert(body =~= be16_bytes(id) + be16_bytes(n as u16) + ef + d);
    assert(template_ok(body, (8 + 4 * n) as u16));
    assert(template_id_of(body) == id);
    assert forall|k: int| 0 <= k < n implies (#[trigger] template_fields_of(body)[k]) == fields[k] by {
        assert(body[4 + 4 * k] == ef[4 * k]);
        assert(body[4 + 4 * k + 1] == ef[4 * k + 1]);
        assert(body[4 + 4 * k + 2] == ef[4 * k + 2]);
        assert(body[4 + 4 * k + 3] == ef[4 * k + 3]);
    }
    assert(template_fields_of(body) =~= fields);
    assert(td.subrange((8 + 4 * n) as int, td.len() as int) =~= d);
}

/// A data flowset of a cached layout yields the records of its payload,
/// tagged with its header, and ends the bytes.
proof fn lemma_data_flowset_step(c: CacheModel, id: u16, fields: Seq<TemplateField>, payload: Seq<u8>)
    requires
        id >= 256,
        c.templates.contains_key(id),
        c.templates[id] == fields,
        4 + payload.len() <= 65535,
    ensures
        ({
            let tl = TypeLenHeader { flowset_id: id, length: (4 + payload.len()) as u16 };
            flowset_step(c, encode_data_flowset(id, payload)) == (Step::Next {
                cache: c,
                rest: Seq::empty(),
                records: tag_records(tl, dataset_records(fields, payload, tl.length)),
            })
        }),
{
    let d = encode_data_flowset(id, payload);
    lemma_be16_bytes(id);
    lemma_be16_bytes((4 + payload.len()) as u16);
    assert(d.subrange(4, d.len() as int) =~= payload);
    assert(d.subrange((4 + payload.len()) as int, d.len() as int) =~= Seq::<u8>::empty());
}

/// Decoding a packet that carries a template and then a data flowset of
/// that template learns the template and gives back the records of the data
/// flowset's payload, tagged with its header.
pub proof fn lemma_template_then_data(
    c: CacheModel,
    h: NetflowHeader,
    id: u16,
    fields: Seq<TemplateField>,
    payload: Seq<u8>,
)
    requires
        h.version == 9,
        h.count == 2,
        id >= 256,
        8 + 4 * fields.len() <= 65535,
        4 + payload.len() <= 65535,
    ensures
        ({
            let tl = TypeLenHeader { flowset_id: id, length: (4 + payload.len()) as u16 };
            decode_packet(c, encode_packet(h, id, fields, payload)) == (
                CacheModel { templates: c.templates.insert(id, fields), options: c.options },
                Ok::<Seq<RecordModel>, DecodeError>(
                    tag_records(tl, dataset_records(fields, payload, tl.length)),
                ),
            )
        }),
{
    let hb = encode_header(h);
    let t = encode_template_flowset(id, fields);
    let d = encode_data_flowset(id, payload);
    let p = encode_packet(h, id, fields, payload);
    lemma_be16_bytes(h.version);
    lemma_be16_bytes(h.count);
    lemma_be32_bytes(h.sys_uptime);
    lemma_be32_bytes(h.timestamp);
    lemma_be32_bytes(h.sequence);
    lemma_be32_bytes(h.source_id);
    assert(hb.len() == 20);
    assert(p[0] == hb[0] && p[1] == hb[1] && p[2] == hb[2] && p[3] == hb[3]);
    assert(netflow_header_of(p).version == 9);
    assert(netflow_header_of(p).count == 2);
    assert(p.subrange(20, p.len() as int) =~= t + d);
    let c1 = CacheModel { templates: c.templates.insert(id, fields), options: c.options };
    lemma_template_flowset_step(c, id, fields, d);
    lemma_data_flowset_step(c1, id, fields, payload);
    let tl = TypeLenHeader { flowset_id: id, length: (4 + payload.len()) as u16 };
    let tagged = tag_records(tl, dataset_records(fields, payload, tl.length));
    assert(tagged + Seq::empty() =~= tagged);
    assert(Seq::empty() + tagged =~= tagged);
    assert(decode_flowsets(c1, Seq::empty(), 0) == (c1, Ok::<Seq<RecordModel>, DecodeError>(
        Seq::empty(),
    )));
    assert(decode_flowsets(c1, d, 1) == (c1, Ok::<Seq<RecordModel>, DecodeError>(tagged)));
    assert(decode_flowsets(c, t + d, 2) == (c1, Ok::<Seq<RecordModel>, DecodeError>(tagged)));
}

/// For a packet of a header, a template of nonzero record width and a data
/// flowset of that template, decoding gives as many records as whole records
/// fit in the payload; each lies inside the payload and holds one entry per
/// field id of the template, with the bytes of the field that last carries
/// that id.
pub proof fn lemma_record_count(
    c: CacheModel,
    h: NetflowHeader,
    id: u16,
    fields: Seq<TemplateField>,
    payload: Seq<u8>,
)
    requires
        h.version == 9,
        h.count == 2,
        id >= 256,
        8 + 4 * fields.len() <= 65535,
        4 + payload.len() <= 65535,
        span_sum(fields) > 0,
    ensures
        ({
            let tl = TypeLenHeader { flowset_id: id, length: (4 + payload.len()) as u16 };
            let r = decode_packet(c, encode_packet(h, id, fields, payload)).1;
            let recs = r->Ok_0;
            &&& r is Ok
            &&& recs.len() == payload.len() / span_sum(fields)
            &&& forall|k: int|
                0 <= k < recs.len() ==> {
                    &&& (#[trigger] recs[k]).0 == tl
                    &&& recs[k].1 == dataset_records(fields, payload, tl.length)[k]
                    &&& record_in_payload(fields, payload, tl.length, k)
                }
        }),
{
    lemma_template_then_data(c, h, id, fields, payload);
    let tl = TypeLenHeader { flowset_id: id, length: (4 + payload.len()) as u16 };
    lemma_dataset_records(fields, payload, tl.length);
}

/// Decoding a packet that carries a template and then one data flowset whose
/// single record holds `values`, one per field, learns the template and
/// gives back that one record, tagged with the data flowset's header, with
/// exactly the encoded values.
pub proof fn lemma_round_trip(
    c: CacheModel,
    h: NetflowHeader,
    id: u16,
    fields: Seq<TemplateField>,
    values: Seq<Seq<u8>>,
)
    requires
        h.version == 9,
        h.count == 2,
        id >= 256,
        8 + 4 * fields.len() <= 65535,
        values.len() == fields.len(),
        forall|i: int| 0 <= i < values.len() ==> (#[trigger] values[i]).len() == fields[i].len,
        span_sum(fields) > 0,
        4 + span_sum(fields) <= 65535,
        forall|i: int, j: int|
            0 <= i < j < fields.len() ==> (#[trigger] fields[i]).field != (#[trigger] fields[j]).field,
    ensures
        ({
            let (c2, r) = decode_packet(c, encode_packet(h, id, fields, concat_values(values)));
            let recs = r->Ok_0;
            &&& c2.templates == c.templates.insert(id, fields)
            &&& c2.options == c.options
            &&& r is Ok
            &&& recs.len() == 1
            &&& recs[0].0 == (TypeLenHeader { flowset_id: id, length: (4 + span_sum(fields)) as u16 })
            &&& recs[0].1.dom() == field_ids(fields)
            &&& forall|j: int| 0 <= j < fields.len() ==> recs[0].1[#[trigger] fields[j].field] == values[j]
        }),
{
    lemma_concat_values(fields, values);
    let cv = concat_values(values);
    let size = span_sum(fields);
    lemma_template_then_data(c, h, id, fields, cv);
    vstd::arithmetic::div_mod::lemma_div_basics(size as int);
    let tl = TypeLenHeader { flowset_id: id, length: (4 + size) as u16 };
    let recs = dataset_records(fields, cv, tl.length);
    assert(recs.len() == 1);
    assert(recs[0] == record_map(fields, cv, 0));
    lemma_record_map_dom(fields, cv, 0);
    assert forall|j: int| 0 <= j < fields.len() implies recs[0][#[trigger] fields[j].field]
        == values[j] by {
        assert(last_with_id(fields, j));
        lemma_record_map_value(fields, cv, 0, j);
    }
}

} // verus!
