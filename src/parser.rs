//! The decoder: a template cache that lives as long as the decoder, and the
//! packet-level state machine that routes each flowset to its parser.
use vstd::prelude::*;
use std::collections::HashMap;
use crate::dataset::{dataset_ok, dataset_records, parse_dataset, DataFlowset, SenderAddr};
use crate::template::{
    options_fields_of, options_template_ok, parse_options_template, parse_template,
    template_fields_of, template_id_of, template_ok, OptionsTemplate, Template, TemplateField,
};
use crate::wire::{
    be16_at, netflow_header_of, parse_netflow_header, parse_tl_header, tl_header_of, DecodeError,
    TypeLenHeader,
};

verus! {

broadcast use vstd::std_specs::hash::group_hash_axioms;

/// The version number of the only packet format that is decoded.
pub const NETFLOW_VERSION: u16 = 9;

/// What a decoder has learned: the field list of each template and of each
/// options template, by template id.
pub struct CacheModel {
    pub templates: Map<u16, Seq<TemplateField>>,
    pub options: Map<u16, Seq<TemplateField>>,
}

/// A decoded record as a value: the header of its flowset and its fields.
pub type RecordModel = (TypeLenHeader, Map<u16, Seq<u8>>);

/// The outcome of reading one flowset.
pub enum Step {
    /// The flowset was consumed: the cache after it, the bytes after it and
    /// the records it held.
    Next { cache: CacheModel, rest: Seq<u8>, records: Seq<RecordModel> },
    /// The packet cannot be decoded further.
    Fail { err: DecodeError },
}

/// The bytes after the flowset whose header starts `s`.
pub open spec fn after_flowset(s: Seq<u8>) -> Seq<u8> {
    s.subrange(tl_header_of(s).length as int, s.len() as int)
}

/// The records `ms` of a flowset, each with the flowset's header `tl`.
pub open spec fn tag_records(tl: TypeLenHeader, ms: Seq<Map<u16, Seq<u8>>>) -> Seq<RecordModel> {
    Seq::new(ms.len(), |i: int| (tl, ms[i]))
}

/// Reads the flowset at the start of `s` with cache `c`.
pub open spec fn flowset_step(c: CacheModel, s: Seq<u8>) -> Step {
    if s.len() < 4 {
        Step::Fail { err: DecodeError::TruncatedFlowsetHeader }
    } else {
        let tl = tl_header_of(s);
        let body = s.subrange(4, s.len() as int);
        if tl.flowset_id == 0 {
            if template_ok(body, tl.length) {
                Step::Next {
                    cache: CacheModel {
                        templates: c.templates.insert(
                            template_id_of(body),
                            template_fields_of(body),
                        ),
                        options: c.options,
                    },
                    rest: after_flowset(s),
                    records: Seq::empty(),
                }
            } else {
                Step::Fail { err: DecodeError::MalformedTemplate }
            }
        } else if tl.flowset_id == 1 {
            if options_template_ok(body, tl.length) {
                Step::Next {
                    cache: CacheModel {
                        templates: c.templates,
                        options: c.options.insert(template_id_of(body), options_fields_of(body)),
                    },
                    rest: after_flowset(s),
                    records: Seq::empty(),
                }
            } else {
                Step::Fail { err: DecodeError::MalformedOptionsTemplate }
            }
        } else if tl.flowset_id < 255 {
            Step::Fail { err: DecodeError::InvalidFlowsetId }
        } else if !dataset_ok(body, tl.length) {
            Step::Fail { err: DecodeError::TruncatedDataset }
        } else if c.templates.contains_key(tl.flowset_id) {
            Step::Next {
                cache: c,
                rest: after_flowset(s),
                records: tag_records(
                    tl,
                    dataset_records(c.templates[tl.flowset_id], body, tl.length),
                ),
            }
        } else {
            Step::Next { cache: c, rest: after_flowset(s), records: Seq::empty() }
        }
    }
}

/// Reads `count` flowsets from the start of `s` with cache `c`: the cache
/// afterwards, and all their records or the first error.
pub open spec fn decode_flowsets(c: CacheModel, s: Seq<u8>, count: nat) -> (
    CacheModel,
    Result<Seq<RecordModel>, DecodeError>,
)
    decreases count,
{
    if count == 0 {
        (c, Ok(Seq::empty()))
    } else {
        match flowset_step(c, s) {
            Step::Fail { err } => (c, Err(err)),
            Step::Next { cache, rest, records } => {
                let (c2, r) = decode_flowsets(cache, rest, (count - 1) as nat);
                (
                    c2,
                    match r {
                        Ok(more) => Ok(records + more),
                        Err(e) => Err(e),
                    },
                )
            },
        }
    }
}

/// Decodes the packet `s` with cache `c`: the cache afterwards, and the
/// packet's records or the error that stopped it.
pub open spec fn decode_packet(c: CacheModel, s: Seq<u8>) -> (
    CacheModel,
    Result<Seq<RecordModel>, DecodeError>,
) {
    if s.len() < 20 {
        (c, Err(DecodeError::TruncatedHeader))
    } else if netflow_header_of(s).version != 9 {
        (c, Err(DecodeError::UnsupportedVersion))
    } else {
        decode_flowsets(c, s.subrange(20, s.len() as int), netflow_header_of(s).count as nat)
    }
}

/// The outcome `r` of the rest of a packet, after the records `acc` that
/// came before it.
pub open spec fn after_records(acc: Seq<RecordModel>, r: Result<Seq<RecordModel>, DecodeError>) -> Result<
    Seq<RecordModel>,
    DecodeError,
> {
    match r {
        Ok(more) => Ok(acc + more),
        Err(e) => Err(e),
    }
}

/// Whether `f` is the decoded record `rec`, tagged with `addr`.
pub open spec fn flowset_is(f: DataFlowset, addr: SenderAddr, rec: RecordModel) -> bool {
    &&& f.source_ip == Some(addr)
    &&& f.tl_header == rec.0
    &&& f.records_view() == rec.1
}

proof fn lemma_fail_step(c: CacheModel, s: Seq<u8>, count: nat, e: DecodeError)
    requires
        count > 0,
        flowset_step(c, s) == (Step::Fail { err: e }),
    ensures
        decode_flowsets(c, s, count) == (c, Err::<Seq<RecordModel>, DecodeError>(e)),
{
}

proof fn lemma_next_step(
    c: CacheModel,
    s: Seq<u8>,
    count: nat,
    acc: Seq<RecordModel>,
    cache: CacheModel,
    rest: Seq<u8>,
    records: Seq<RecordModel>,
)
    requires
        count > 0,
        flowset_step(c, s) == (Step::Next { cache, rest, records }),
    ensures
        decode_flowsets(c, s, count).0 == decode_flowsets(cache, rest, (count - 1) as nat).0,
        after_records(acc, decode_flowsets(c, s, count).1) == after_records(
            acc + records,
            decode_flowsets(cache, rest, (count - 1) as nat).1,
        ),
{
    let r = decode_flowsets(cache, rest, (count - 1) as nat).1;
    if let Ok(more) = r {
        assert(acc + (records + more) =~= (acc + records) + more);
    }
}

/// A data flowset whose id names no cached template is skipped: no error, no
/// record, the cache unchanged, and reading goes on right after the flowset's
/// declared length.
pub proof fn lemma_unknown_template_skipped(c: CacheModel, s: Seq<u8>)
    requires
        s.len() >= 4,
        tl_header_of(s).flowset_id >= 255,
        dataset_ok(s.subrange(4, s.len() as int), tl_header_of(s).length),
        !c.templates.contains_key(tl_header_of(s).flowset_id),
    ensures
        flowset_step(c, s) == (Step::Next {
            cache: c,
            rest: s.subrange(tl_header_of(s).length as int, s.len() as int),
            records: Seq::empty(),
        }),
{
}

/// A template flowset whose declared length is not what its field count
/// makes it fails with `MalformedTemplate`, and the packet leaves the cache
/// as it was before that flowset: the template is not learned.
pub proof fn lemma_malformed_template_rejected(c: CacheModel, s: Seq<u8>, count: nat)
    requires
        count > 0,
        s.len() >= 8,
        tl_header_of(s).flowset_id == 0,
        tl_header_of(s).length != 4 * be16_at(s, 6) + 8,
    ensures
        flowset_step(c, s) == (Step::Fail { err: DecodeError::MalformedTemplate }),
        decode_flowsets(c, s, count) == (c, Err::<Seq<RecordModel>, DecodeError>(
            DecodeError::MalformedTemplate,
        )),
{
    let body = s.subrange(4, s.len() as int);
    assert(be16_at(body, 2) == be16_at(s, 6));
}

/// A template re-sent under the same id with another field list replaces
/// the cached one, and a data flowset read afterwards is sliced with the new
/// layout.
pub proof fn lemma_template_redefined(c: CacheModel, s1: Seq<u8>, s2: Seq<u8>, d: Seq<u8>)
    requires
        s1.len() >= 4,
        s2.len() >= 4,
        d.len() >= 4,
        tl_header_of(s1).flowset_id == 0,
        tl_header_of(s2).flowset_id == 0,
        template_ok(s1.subrange(4, s1.len() as int), tl_header_of(s1).length),
        template_ok(s2.subrange(4, s2.len() as int), tl_header_of(s2).length),
        template_id_of(s1.subrange(4, s1.len() as int)) == template_id_of(
            s2.subrange(4, s2.len() as int),
        ),
        tl_header_of(d).flowset_id == template_id_of(s2.subrange(4, s2.len() as int)),
        tl_header_of(d).flowset_id >= 255,
        dataset_ok(d.subrange(4, d.len() as int), tl_header_of(d).length),
    ensures
        ({
            let fields2 = template_fields_of(s2.subrange(4, s2.len() as int));
            let c1 = flowset_step(c, s1)->cache;
            let c2 = flowset_step(c1, s2)->cache;
            &&& c2.templates[tl_header_of(d).flowset_id] == fields2
            &&& flowset_step(c2, d)->records == tag_records(
                tl_header_of(d),
                dataset_records(fields2, d.subrange(4, d.len() as int), tl_header_of(d).length),
            )
        }),
{
}

/// A NetFlow v9 decoder with its own template cache.
#[derive(Debug, Clone)]
pub struct Parser {
    template_cache: HashMap<u16, Template>,
    options_cache: HashMap<u16, OptionsTemplate>,
}

impl Parser {
    /// What the decoder has learned so far.
    pub closed spec fn model(&self) -> CacheModel {
        CacheModel {
            templates: self.template_cache@.map_values(|t: Template| t.fields@),
            options: self.options_cache@.map_values(|t: OptionsTemplate| t.fields@),
        }
    }

    /// A decoder that knows no template yet.
    pub fn new() -> (p: Self)
        ensures
            p.model().templates.is_empty(),
            p.model().options.is_empty(),
    {
        let p = Parser { template_cache: HashMap::new(), options_cache: HashMap::new() };
        assert(p.model().templates =~= Map::empty());
        assert(p.model().options =~= Map::empty());
        p
    }

    /// The cached template with id `id`, if one was learned.
    pub fn template(&self, id: u16) -> (r: Option<&Template>)
        ensures
            r is Some <==> self.model().templates.contains_key(id),
            r matches Some(t) ==> t.fields@ == self.model().templates[id],
    {
        self.template_cache.get(&id)
    }

    /// The cached options template with id `id`, if one was learned.
    pub fn options_template(&self, id: u16) -> (r: Option<&OptionsTemplate>)
        ensures
            r is Some <==> self.model().options.contains_key(id),
            r matches Some(t) ==> t.fields@ == self.model().options[id],
    {
        self.options_cache.get(&id)
    }

    /// Decodes one packet sent by `addr`. Templates in it are learned, also
    /// when a later flowset fails; data flowsets of a known template become
    /// records tagged with `addr`; data flowsets of an unknown template, or of
    /// an options template, are skipped.
    #[verifier::rlimit(30)]
    pub fn parse_netflow_packet<'b>(&mut self, packet: &'b [u8], addr: &SenderAddr) -> (r: Result<
        Vec<DataFlowset<'b>>,
        DecodeError,
    >)
        ensures
            ({
                let (c, res) = decode_packet(old(self).model(), packet@);
                &&& final(self).model() == c
                &&& match r {
                    Ok(v) => res matches Ok(recs) && v@.len() == recs.len() && forall|i: int|
                        0 <= i < v@.len() ==> flowset_is(#[trigger] v@[i], *addr, recs[i]),
                    Err(e) => res == Err::<Seq<RecordModel>, DecodeError>(e),
                }
            }),
    {
        let (mut data, header) = match parse_netflow_header(packet) {
            Ok(x) => x,
            Err(e) => return Err(e),
        };
        if header.version != NETFLOW_VERSION {
            return Err(DecodeError::UnsupportedVersion);
        }
        let ghost target = decode_packet(self.model(), packet@);
        let ghost mut acc: Seq<RecordModel> = Seq::empty();
        let mut out: Vec<DataFlowset<'b>> = Vec::new();
        let mut remaining: u16 = header.count;
        while remaining > 0
            invariant
                target == decode_packet(old(self).model(), packet@),
                target.0 == decode_flowsets(self.model(), data@, remaining as nat).0,
                target.1 == after_records(acc, decode_flowsets(self.model(), data@, remaining as nat).1),
                out@.len() == acc.len(),
                forall|i: int| 0 <= i < out@.len() ==> flowset_is(#[trigger] out@[i], *addr, acc[i]),
            decreases remaining,
        {
            let ghost s = data@;
            let ghost c = self.model();
            let ghost mut step_recs: Seq<RecordModel> = Seq::empty();
            let (buffer, tl) = match parse_tl_header(data) {
                Ok(x) => x,
                Err(e) => {
                    proof {
                        lemma_fail_step(c, s, remaining as nat, e);
                    }
                    return Err(e);
                },
            };
            assert(buffer@ =~= s.subrange(4, s.len() as int));
            if tl.flowset_id == 0 {
                let (rest, t) = match parse_template(buffer, tl) {
                    Ok(x) => x,
                    Err(e) => {
                        proof {
                            lemma_fail_step(c, s, remaining as nat, e);
                        }
                        return Err(e);
                    },
                };
                self.template_cache.insert(t.template_id, t);
                assert(self.model().templates =~= c.templates.insert(
                    template_id_of(buffer@),
                    template_fields_of(buffer@),
                ));
                assert(self.model().options =~= c.options);
                data = rest;
            } else if tl.flowset_id == 1 {
                let (rest, t) = match parse_options_template(buffer, tl) {
                    Ok(x) => x,
                    Err(e) => {
                        proof {
                            lemma_fail_step(c, s, remaining as nat, e);
                        }
                        return Err(e);
                    },
                };
                self.options_cache.insert(t.template_id, t);
                assert(self.model().options =~= c.options.insert(
                    template_id_of(buffer@),
                    options_fields_of(buffer@),
                ));
                assert(self.model().templates =~= c.templates);
                data = rest;
            } else if tl.flowset_id < 255 {
                proof {
                    lemma_fail_step(c, s, remaining as nat, DecodeError::InvalidFlowsetId);
                }
                return Err(DecodeError::InvalidFlowsetId);
            } else {
                let n = buffer.len();
                if tl.length < 4 || n < (tl.length - 4) as usize {
                    proof {
                        lemma_fail_step(c, s, remaining as nat, DecodeError::TruncatedDataset);
                    }
                    return Err(DecodeError::TruncatedDataset);
                }
                match self.template_cache.get(&tl.flowset_id) {
                    Some(t) => {
                        let (rest, flowsets) = match parse_dataset(buffer, tl, t) {
                            Ok(x) => x,
                            Err(e) => return Err(e),
                        };
                        proof {
                            step_recs = tag_records(
                                tl,
                                dataset_records(c.templates[tl.flowset_id], buffer@, tl.length),
                            );
                        }
                        let ghost base = out@.len();
                        for f in it: flowsets
                            invariant
                                base == acc.len(),
                                out@.len() == base + it.index(),
                                it.seq().len() == step_recs.len(),
                                forall|j: int|
                                    0 <= j < step_recs.len() ==> (#[trigger] step_recs[j]).0 == tl,
                                forall|j: int|
                                    0 <= j < it.seq().len() ==> {
                                        &&& (#[trigger] it.seq()[j]).tl_header == tl
                                        &&& it.seq()[j].records_view() == step_recs[j].1
                                    },
                                forall|i: int|
                                    0 <= i < base ==> flowset_is(#[trigger] out@[i], *addr, acc[i]),
                                forall|j: int|
                                    0 <= j < it.index() ==> flowset_is(
                                        #[trigger] out@[base + j],
                                        *addr,
                                        step_recs[j],
                                    ),
                        {
                            let mut g = f;
                            g.set_source_ip(*addr);
                            out.push(g);
                        }
                        data = rest;
                    },
                    None => {
                        data = &buffer[(tl.length - 4) as usize..n];
                    },
                }
            }
            proof {
                assert(data@ =~= after_flowset(s));
                lemma_next_step(c, s, remaining as nat, acc, self.model(), data@, step_recs);
                assert forall|i: int| 0 <= i < out@.len() implies flowset_is(
                    #[trigger] out@[i],
                    *addr,
                    (acc + step_recs)[i],
                ) by {
                    if i >= acc.len() {
                        let j = i - acc.len();
                        assert(flowset_is(out@[acc.len() + j], *addr, step_recs[j]));
                    }
                }
                acc = acc + step_recs;
            }
            remaining = remaining - 1;
        }
        assert(acc + Seq::<RecordModel>::empty() =~= acc);
        Ok(out)
    }
}

} // verus!
