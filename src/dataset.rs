//! Data flowsets: slicing a payload into fixed-layout records with a learned
//! template.
use vstd::prelude::*;
use std::collections::HashMap;
use crate::template::{Template, TemplateField};
use crate::wire::{DecodeError, TypeLenHeader};

verus! {

broadcast use vstd::std_specs::hash::group_hash_axioms;

/// Address of the exporter that sent a packet.
#[derive(Debug, Clone, Copy, PartialEq, Eq, Structural)]
pub enum SenderAddr {
    V4(u32),
    V6(u128),
}

/// One decoded data record: each field-type id of its template mapped to the
/// record's raw bytes for that field, with where the record came from.
#[derive(Debug, Clone)]
pub struct DataFlowset<'a> {
    pub source_ip: Option<SenderAddr>,
    pub tl_header: TypeLenHeader,
    pub records: HashMap<u16, &'a [u8]>,
}

/// The byte contents of a field map.
pub open spec fn spans_view<'a>(m: Map<u16, &'a [u8]>) -> Map<u16, Seq<u8>> {
    m.map_values(|v: &'a [u8]| v@)
}

impl<'a> DataFlowset<'a> {
    /// The record's fields, each with the bytes it holds.
    pub open spec fn records_view(&self) -> Map<u16, Seq<u8>> {
        spans_view(self.records@)
    }

    /// Tags the record with the address of its sender.
    pub fn set_source_ip(&mut self, addr: SenderAddr)
        ensures
            final(self).source_ip == Some(addr),
            final(self).tl_header == old(self).tl_header,
            final(self).records@ == old(self).records@,
    {
        self.source_ip = Some(addr);
    }
}

/// Total width in bytes of one record laid out by `fields`.
pub open spec fn span_sum(fields: Seq<TemplateField>) -> nat
    decreases fields.len(),
{
    if fields.len() == 0 {
        0
    } else {
        span_sum(fields.drop_last()) + fields.last().len as nat
    }
}

/// The record laid out by `fields` whose first byte is `s[start]`: each field
/// takes the next `len` bytes, and a field id that occurs twice keeps its
/// last span.
pub open spec fn record_map(fields: Seq<TemplateField>, s: Seq<u8>, start: int) -> Map<u16, Seq<u8>>
    decreases fields.len(),
{
    if fields.len() == 0 {
        Map::empty()
    } else {
        let init = fields.drop_last();
        let f = fields.last();
        let off = start + span_sum(init);
        record_map(init, s, start).insert(f.field, s.subrange(off, off + f.len))
    }
}

/// Number of whole records of `fields` in a payload of `payload` bytes; a
/// layout of width zero holds none.
pub open spec fn record_count(fields: Seq<TemplateField>, payload: nat) -> nat {
    if span_sum(fields) == 0 {
        0
    } else {
        payload / span_sum(fields)
    }
}

/// The records that a data flowset declared `length` bytes long, whose
/// payload starts `s`, holds under `fields`: whole records one after the
/// other, trailing bytes that make no whole record left aside.
pub open spec fn dataset_records(fields: Seq<TemplateField>, s: Seq<u8>, length: u16) -> Seq<
    Map<u16, Seq<u8>>,
> {
    let size = span_sum(fields);
    Seq::new(record_count(fields, (length - 4) as nat), |k: int| record_map(fields, s, k * size))
}

/// Whether a data flowset declared `length` bytes long fits in what is left
/// of the packet, `s`.
pub open spec fn dataset_ok(s: Seq<u8>, length: u16) -> bool {
    length >= 4 && s.len() >= length - 4
}

proof fn lemma_prefix_step(fields: Seq<TemplateField>, s: Seq<u8>, start: int, j: int)
    requires
        0 <= j < fields.len(),
    ensures
        span_sum(fields.subrange(0, j + 1)) == span_sum(fields.subrange(0, j)) + fields[j].len,
        record_map(fields.subrange(0, j + 1), s, start) == record_map(fields.subrange(0, j), s, start).insert(
            fields[j].field,
            s.subrange(
                start + span_sum(fields.subrange(0, j)),
                start + span_sum(fields.subrange(0, j)) + fields[j].len,
            ),
        ),
{
    assert(fields.subrange(0, j + 1).drop_last() =~= fields.subrange(0, j));
}

proof fn lemma_prefix_le(fields: Seq<TemplateField>, j: int)
    requires
        0 <= j <= fields.len(),
    ensures
        span_sum(fields.subrange(0, j)) <= span_sum(fields),
    decreases fields.len() - j,
{
    if j == fields.len() {
        assert(fields.subrange(0, j) =~= fields);
    } else {
        lemma_prefix_step(fields, Seq::empty(), 0, j);
        lemma_prefix_le(fields, j + 1);
    }
}

/// The field ids of a layout.
pub open spec fn field_ids(fields: Seq<TemplateField>) -> Set<u16> {
    Set::new(|id: u16| exists|j: int| 0 <= j < fields.len() && (#[trigger] fields[j]).field == id)
}

/// Whether the `j`-th field of a layout is the last one with its id.
pub open spec fn last_with_id(fields: Seq<TemplateField>, j: int) -> bool {
    forall|i: int| j < i < fields.len() ==> (#[trigger] fields[i]).field != fields[j].field
}

/// A record holds one entry for each field id of its layout.
pub proof fn lemma_record_map_dom(fields: Seq<TemplateField>, s: Seq<u8>, start: int)
    ensures
        record_map(fields, s, start).dom() == field_ids(fields),
    decreases fields.len(),
{
    if fields.len() == 0 {
        assert(record_map(fields, s, start).dom() =~= field_ids(fields));
    } else {
        let init = fields.drop_last();
        let n = fields.len() - 1;
        lemma_record_map_dom(init, s, start);
        assert forall|id: u16|
            record_map(fields, s, start).dom().contains(id) <==> field_ids(fields).contains(id) by {
            if field_ids(fields).contains(id) {
                let j = choose|j: int| 0 <= j < fields.len() && (#[trigger] fields[j]).field == id;
                if j < n {
                    assert(init[j].field == id);
                }
            }
            if field_ids(init).contains(id) {
                let j = choose|j: int| 0 <= j < init.len() && (#[trigger] init[j]).field == id;
                assert(fields[j].field == id);
            }
        }
        assert(record_map(fields, s, start).dom() =~= field_ids(fields));
    }
}

/// The field that last carries an id gives that id's entry in a record its
/// bytes: those that follow the widths of the fields before it.
pub proof fn lemma_record_map_value(fields: Seq<TemplateField>, s: Seq<u8>, start: int, j: int)
    requires
        0 <= j < fields.len(),
        last_with_id(fields, j),
    ensures
        record_map(fields, s, start).contains_key(fields[j].field),
        record_map(fields, s, start)[fields[j].field] == s.subrange(
            start + span_sum(fields.subrange(0, j)),
            start + span_sum(fields.subrange(0, j)) + fields[j].len,
        ),
    decreases fields.len(),
{
    let init = fields.drop_last();
    let n = fields.len() - 1;
    if j < n {
        assert(fields[n].field != fields[j].field);
        assert(init[j] == fields[j]);
        assert(init.subrange(0, j) =~= fields.subrange(0, j));
        assert(last_with_id(init, j));
        lemma_record_map_value(init, s, start, j);
    } else {
        assert(init =~= fields.subrange(0, j));
    }
}

/// The `k`-th record of a data flowset lies inside the payload, and holds
/// one entry for each field id of the layout, with the bytes of the field
/// that last carries that id.
pub open spec fn record_in_payload(
    fields: Seq<TemplateField>,
    s: Seq<u8>,
    length: u16,
    k: int,
) -> bool {
    let size = span_sum(fields);
    let rec = dataset_records(fields, s, length)[k];
    &&& (k + 1) * size <= length - 4
    &&& rec.dom() == field_ids(fields)
    &&& forall|j: int|
        0 <= j < fields.len() && last_with_id(fields, j) ==> rec[#[trigger] fields[j].field]
            == s.subrange(
            k * size + span_sum(fields.subrange(0, j)),
            k * size + span_sum(fields.subrange(0, j)) + fields[j].len,
        )
}

/// A payload of a layout of nonzero width holds as many records as whole
/// widths fit in it; every record lies inside the payload, and holds one
/// entry for each field id of the layout, with the bytes of the field that
/// last carries that id.
pub proof fn lemma_dataset_records(fields: Seq<TemplateField>, s: Seq<u8>, length: u16)
    requires
        span_sum(fields) > 0,
        dataset_ok(s, length),
    ensures
        dataset_records(fields, s, length).len() == (length - 4) as nat / span_sum(fields),
        forall|k: int|
            0 <= k < dataset_records(fields, s, length).len() ==> record_in_payload(
                fields,
                s,
                length,
                k,
            ),
{
    let size = span_sum(fields) as int;
    let payload = (length - 4) as int;
    let recs = dataset_records(fields, s, length);
    assert forall|k: int| 0 <= k < recs.len() implies record_in_payload(fields, s, length, k) by {
        assert(recs[k] == record_map(fields, s, k * size));
        lemma_record_map_dom(fields, s, k * size);
        assert forall|j: int| 0 <= j < fields.len() && last_with_id(fields, j) implies recs[k][
            #[trigger] fields[j].field] == s.subrange(
            k * span_sum(fields) + span_sum(fields.subrange(0, j)),
            k * span_sum(fields) + span_sum(fields.subrange(0, j)) + fields[j].len,
        ) by {
            lemma_record_map_value(fields, s, k * size, j);
        }
        vstd::arithmetic::div_mod::lemma_fundamental_div_mod(payload, size);
        vstd::arithmetic::div_mod::lemma_mod_pos_bound(payload, size);
        assert((k + 1) * size <= size * (payload / size)) by (nonlinear_arith)
            requires
                k < payload / size,
                size > 0,
        ;
    }
}

/// Slices the payload at the start of `buffer` into records of `template`.
/// The flowset header `tl_header` gives the payload's length; the bytes after
/// it are returned with the records.
#[verifier::rlimit(30)]
pub fn parse_dataset<'a>(
    buffer: &'a [u8],
    tl_header: TypeLenHeader,
    template: &Template,
) -> (r: Result<(&'a [u8], Vec<DataFlowset<'a>>), DecodeError>)
    ensures
        r is Ok <==> dataset_ok(buffer@, tl_header.length),
        r matches Err(e) ==> e == DecodeError::TruncatedDataset,
        r matches Ok((rest, flows)) ==> {
            let recs = dataset_records(template.fields@, buffer@, tl_header.length);
            &&& rest@ == buffer@.subrange(tl_header.length - 4, buffer@.len() as int)
            &&& flows@.len() == recs.len()
            &&& forall|i: int|
                0 <= i < flows@.len() ==> {
                    &&& (#[trigger] flows@[i]).source_ip is None
                    &&& flows@[i].tl_header == tl_header
                    &&& flows@[i].records_view() == recs[i]
                }
        },
{
    let n = buffer.len();
    if tl_header.length < 4 {
        return Err(DecodeError::TruncatedDataset);
    }
    let payload = (tl_header.length - 4) as usize;
    if n < payload {
        return Err(DecodeError::TruncatedDataset);
    }
    let fields = &template.fields;
    let ghost fs = fields@;
    // Width of one record; `wide` once it exceeds the payload.
    let mut size: usize = 0;
    let mut wide = false;
    let mut j: usize = 0;
    while j < fields.len() && !wide
        invariant
            j <= fs.len(),
            fs == fields@,
            size <= payload,
            size == span_sum(fs.subrange(0, j as int)),
            wide ==> span_sum(fs) > payload,
        decreases fs.len() - j + (if wide { 0int } else { 1int }),
    {
        proof {
            lemma_prefix_step(fs, Seq::empty(), 0, j as int);
            lemma_prefix_le(fs, j as int + 1);
        }
        let w = fields[j].len as usize;
        if w > payload - size {
            wide = true;
        } else {
            size = size + w;
            j = j + 1;
        }
    }
    let mut flows: Vec<DataFlowset<'a>> = Vec::new();
    let count: usize = if wide || size == 0 { 0 } else { payload / size };
    proof {
        if wide {
            vstd::arithmetic::div_mod::lemma_basic_div(payload as int, span_sum(fs) as int);
        } else {
            assert(fs.subrange(0, j as int) =~= fs);
            if size > 0 {
                vstd::arithmetic::div_mod::lemma_fundamental_div_mod(payload as int, size as int);
                vstd::arithmetic::div_mod::lemma_mod_pos_bound(payload as int, size as int);
                vstd::arithmetic::mul::lemma_mul_is_commutative(size as int, count as int);
            }
        }
    }
    assert(count == record_count(fs, payload as nat));
    let ghost recs = dataset_records(fs, buffer@, tl_header.length);
    let mut k: usize = 0;
    while k < count
        invariant
            k <= count,
            count == recs.len(),
            fs == fields@,
            n == buffer@.len(),
            payload <= n,
            count > 0 ==> size == span_sum(fs) && size > 0 && count * size <= payload,
            recs == dataset_records(fs, buffer@, tl_header.length),
            flows@.len() == k,
            forall|i: int|
                0 <= i < k ==> {
                    &&& (#[trigger] flows@[i]).source_ip is None
                    &&& flows@[i].tl_header == tl_header
                    &&& flows@[i].records_view() == recs[i]
                },
        decreases count - k,
    {
        assert(k * size + size <= payload) by (nonlinear_arith)
            requires
                k < count,
                count * size <= payload,
        ;
        let base = k * size;
        let mut records: HashMap<u16, &'a [u8]> = HashMap::new();
        let mut off = base;
        let mut j: usize = 0;
        while j < fields.len()
            invariant
                j <= fs.len(),
                fs == fields@,
                n == buffer@.len(),
                size == span_sum(fs),
                base + size <= payload,
                payload <= n,
                off == base + span_sum(fs.subrange(0, j as int)),
                spans_view(records@) == record_map(fs.subrange(0, j as int), buffer@, base as int),
            decreases fs.len() - j,
        {
            proof {
                lemma_prefix_step(fs, buffer@, base as int, j as int);
                lemma_prefix_le(fs, j as int + 1);
            }
            let f = fields[j];
            let end = off + f.len as usize;
            let value = &buffer[off..end];
            records.insert(f.field, value);
            assert(spans_view(records@) =~= record_map(
                fs.subrange(0, j as int + 1),
                buffer@,
                base as int,
            ));
            off = end;
            j = j + 1;
        }
        assert(fs.subrange(0, j as int) =~= fs);
        flows.push(DataFlowset { source_ip: None, tl_header, records });
        k = k + 1;
    }
    Ok((&buffer[payload..n], flows))
}

} // verus!
