use netflow_v9::dataset::{DataFlowset, SenderAddr};
use netflow_v9::parser::Parser;
use netflow_v9::template::TemplateField;
use netflow_v9::wire::DecodeError;

const SENDER: SenderAddr = SenderAddr::V4(0xC000_0201);

fn be16(v: u16) -> Vec<u8> {
    v.to_be_bytes().to_vec()
}

fn header(version: u16, count: u16) -> Vec<u8> {
    let mut b = Vec::new();
    b.extend(be16(version));
    b.extend(be16(count));
    b.extend(1000u32.to_be_bytes());
    b.extend(1_600_000_000u32.to_be_bytes());
    b.extend(7u32.to_be_bytes());
    b.extend(42u32.to_be_bytes());
    b
}

fn template_flowset(id: u16, fields: &[(u16, u16)]) -> Vec<u8> {
    let mut b = Vec::new();
    b.extend(be16(0));
    b.extend(be16(8 + 4 * fields.len() as u16));
    b.extend(be16(id));
    b.extend(be16(fields.len() as u16));
    for (f, l) in fields {
        b.extend(be16(*f));
        b.extend(be16(*l));
    }
    b
}

fn data_flowset(id: u16, payload: &[u8]) -> Vec<u8> {
    let mut b = Vec::new();
    b.extend(be16(id));
    b.extend(be16(4 + payload.len() as u16));
    b.extend_from_slice(payload);
    b
}

fn packet(count: u16, flowsets: &[Vec<u8>]) -> Vec<u8> {
    let mut b = header(9, count);
    for f in flowsets {
        b.extend_from_slice(f);
    }
    b
}

fn field<'a>(flow: &DataFlowset<'a>, id: u16) -> Vec<u8> {
    flow.records.get(&id).expect("field present").to_vec()
}

#[test]
fn template_then_data_gives_one_record() {
    // Flowset length 4 + 12: one 8-byte record and 4 bytes of padding.
    let mut payload = vec![192, 0, 2, 1];
    payload.extend(1500u32.to_be_bytes());
    payload.extend([0, 0, 0, 0]);
    let pkt = packet(
        2,
        &[template_flowset(256, &[(8, 4), (1, 4)]), data_flowset(256, &payload)],
    );
    let mut parser = Parser::new();
    let flows = parser.parse_netflow_packet(&pkt, &SENDER).unwrap();
    assert_eq!(flows.len(), 1);
    let f = &flows[0];
    assert_eq!(f.records.len(), 2);
    assert_eq!(field(f, 8), vec![192, 0, 2, 1]);
    assert_eq!(field(f, 1), 1500u32.to_be_bytes().to_vec());
    assert_eq!(f.tl_header.flowset_id, 256);
    assert_eq!(f.tl_header.length, 16);
    assert_eq!(f.source_ip, Some(SENDER));
}

#[test]
fn unsupported_version_fails() {
    let mut pkt = header(5, 2);
    pkt.extend(template_flowset(256, &[(8, 4)]));
    let mut parser = Parser::new();
    let r = parser.parse_netflow_packet(&pkt, &SENDER);
    assert!(matches!(r, Err(DecodeError::UnsupportedVersion)));
    // Nothing was learned: data of that id is skipped later.
    let pkt2 = packet(1, &[data_flowset(256, &[1, 2, 3, 4])]);
    assert_eq!(parser.parse_netflow_packet(&pkt2, &SENDER).unwrap().len(), 0);
}

#[test]
fn record_count_is_payload_over_record_size() {
    // Five-byte records, 17 bytes of payload: three records and two bytes of padding.
    let payload: Vec<u8> = (0u8..17).collect();
    let pkt = packet(
        2,
        &[template_flowset(300, &[(4, 1), (7, 2), (11, 2)]), data_flowset(300, &payload)],
    );
    let mut parser = Parser::new();
    let flows = parser.parse_netflow_packet(&pkt, &SENDER).unwrap();
    assert_eq!(flows.len(), 3);
    for (k, f) in flows.iter().enumerate() {
        let base = 5 * k as u8;
        assert_eq!(f.records.len(), 3);
        assert_eq!(field(f, 4), vec![base]);
        assert_eq!(field(f, 7), vec![base + 1, base + 2]);
        assert_eq!(field(f, 11), vec![base + 3, base + 4]);
    }
}

#[test]
fn unknown_template_is_skipped() {
    // The unknown flowset is skipped by its declared length; the template
    // after it is still read at the right place.
    let mut payload = vec![10, 0, 0, 1];
    payload.extend(77u32.to_be_bytes());
    let pkt = packet(
        3,
        &[
            data_flowset(400, &[9, 9, 9, 9, 9, 9]),
            template_flowset(256, &[(8, 4), (1, 4)]),
            data_flowset(256, &payload),
        ],
    );
    let mut parser = Parser::new();
    let flows = parser.parse_netflow_packet(&pkt, &SENDER).unwrap();
    assert_eq!(flows.len(), 1);
    assert_eq!(field(&flows[0], 8), vec![10, 0, 0, 1]);
    assert_eq!(field(&flows[0], 1), vec![0, 0, 0, 77]);
}

#[test]
fn unknown_template_alone_gives_no_record() {
    let pkt = packet(1, &[data_flowset(999, &[1, 2, 3, 4])]);
    let mut parser = Parser::new();
    let flows = parser.parse_netflow_packet(&pkt, &SENDER).unwrap();
    assert!(flows.is_empty());
}

#[test]
fn redefined_template_replaces_layout() {
    let mut parser = Parser::new();
    let first = packet(1, &[template_flowset(256, &[(8, 4), (1, 4)])]);
    assert!(parser.parse_netflow_packet(&first, &SENDER).unwrap().is_empty());
    let second = packet(1, &[template_flowset(256, &[(7, 2), (11, 2)])]);
    assert!(parser.parse_netflow_packet(&second, &SENDER).unwrap().is_empty());
    let cached = parser.template(256).expect("template cached");
    assert_eq!(
        cached.fields,
        vec![TemplateField { field: 7, len: 2 }, TemplateField { field: 11, len: 2 }]
    );
    let data = packet(1, &[data_flowset(256, &[0, 80, 1, 187])]);
    let flows = parser.parse_netflow_packet(&data, &SENDER).unwrap();
    assert_eq!(flows.len(), 1);
    assert_eq!(flows[0].records.len(), 2);
    assert_eq!(field(&flows[0], 7), vec![0, 80]);
    assert_eq!(field(&flows[0], 11), vec![1, 187]);
    assert!(flows[0].records.get(&8).is_none());
}

#[test]
fn malformed_template_is_rejected_and_not_cached() {
    // Declares two fields but its length leaves room for one.
    let mut bad = Vec::new();
    bad.extend(be16(0));
    bad.extend(be16(12));
    bad.extend(be16(256));
    bad.extend(be16(2));
    bad.extend(be16(8));
    bad.extend(be16(4));
    bad.extend(be16(1));
    bad.extend(be16(4));
    let pkt = packet(1, &[bad]);
    let mut parser = Parser::new();
    let r = parser.parse_netflow_packet(&pkt, &SENDER);
    assert!(matches!(r, Err(DecodeError::MalformedTemplate)));
    assert!(parser.template(256).is_none());
    let data = packet(1, &[data_flowset(256, &[1, 2, 3, 4, 5, 6, 7, 8])]);
    assert!(parser.parse_netflow_packet(&data, &SENDER).unwrap().is_empty());
}

#[test]
fn encoded_packet_round_trips() {
    let fields: [(u16, u16); 4] = [(8, 4), (12, 4), (7, 2), (2, 8)];
    let values: [Vec<u8>; 4] = [
        vec![198, 51, 100, 7],
        vec![203, 0, 113, 9],
        vec![0x1F, 0x90],
        vec![0, 0, 0, 0, 0, 1, 0, 2],
    ];
    let payload: Vec<u8> = values.concat();
    let pkt = packet(2, &[template_flowset(1024, &fields), data_flowset(1024, &payload)]);
    let mut parser = Parser::new();
    let flows = parser.parse_netflow_packet(&pkt, &SenderAddr::V6(1)).unwrap();
    assert_eq!(flows.len(), 1);
    assert_eq!(flows[0].records.len(), 4);
    for ((id, _), v) in fields.iter().zip(values.iter()) {
        assert_eq!(&field(&flows[0], *id), v);
    }
    assert_eq!(flows[0].source_ip, Some(SenderAddr::V6(1)));
}

#[test]
fn short_packet_is_truncated_header() {
    let mut parser = Parser::new();
    let r = parser.parse_netflow_packet(&[0, 9, 0, 1], &SENDER);
    assert!(matches!(r, Err(DecodeError::TruncatedHeader)));
}

#[test]
fn missing_flowset_is_truncated_flowset_header() {
    let pkt = packet(2, &[template_flowset(256, &[(8, 4)])]);
    let mut parser = Parser::new();
    let r = parser.parse_netflow_packet(&pkt, &SENDER);
    assert!(matches!(r, Err(DecodeError::TruncatedFlowsetHeader)));
}

#[test]
fn reserved_flowset_id_is_invalid() {
    let pkt = packet(1, &[data_flowset(7, &[0, 0, 0, 0])]);
    let mut parser = Parser::new();
    let r = parser.parse_netflow_packet(&pkt, &SENDER);
    assert!(matches!(r, Err(DecodeError::InvalidFlowsetId)));
}

#[test]
fn data_longer_than_packet_is_truncated_dataset() {
    let mut pkt = packet(2, &[template_flowset(256, &[(8, 4)])]);
    pkt.extend(be16(256));
    pkt.extend(be16(40));
    pkt.extend([1, 2, 3, 4]);
    let mut parser = Parser::new();
    let r = parser.parse_netflow_packet(&pkt, &SENDER);
    assert!(matches!(r, Err(DecodeError::TruncatedDataset)));
}

#[test]
fn zero_count_packet_is_empty() {
    let pkt = header(9, 0);
    let mut parser = Parser::new();
    assert!(parser.parse_netflow_packet(&pkt, &SENDER).unwrap().is_empty());
}

fn options_flowset(id: u16, scope: &[(u16, u16)], option: &[(u16, u16)], padding: usize) -> Vec<u8> {
    let mut b = Vec::new();
    let body = 6 + 4 * (scope.len() + option.len()) + padding;
    b.extend(be16(1));
    b.extend(be16(4 + body as u16));
    b.extend(be16(id));
    b.extend(be16(4 * scope.len() as u16));
    b.extend(be16(4 * option.len() as u16));
    for (f, l) in scope.iter().chain(option.iter()) {
        b.extend(be16(*f));
        b.extend(be16(*l));
    }
    b.extend(vec![0u8; padding]);
    b
}

#[test]
fn options_template_with_padding_then_its_data_is_skipped() {
    let pkt = packet(
        4,
        &[
            options_flowset(260, &[(1, 4)], &[(36, 2), (37, 2)], 2),
            data_flowset(260, &[0, 0, 0, 1, 0, 30, 0, 60]),
            template_flowset(256, &[(4, 1)]),
            data_flowset(256, &[6, 17]),
        ],
    );
    let mut parser = Parser::new();
    let flows = parser.parse_netflow_packet(&pkt, &SENDER).unwrap();
    assert_eq!(flows.len(), 2);
    let options = parser.options_template(260).expect("options template cached");
    assert_eq!(options.scope_len, 4);
    assert_eq!(options.option_len, 8);
    assert_eq!(options.fields.len(), 3);
    assert!(parser.template(260).is_none());
    assert_eq!(field(&flows[0], 4), vec![6]);
    assert_eq!(field(&flows[1], 4), vec![17]);
}

#[test]
fn truncated_options_template_is_malformed() {
    let mut o = options_flowset(260, &[(1, 4)], &[(36, 2)], 0);
    // Declare fewer bytes than the descriptors need.
    o[2] = 0;
    o[3] = 12;
    let pkt = packet(1, &[o]);
    let mut parser = Parser::new();
    let r = parser.parse_netflow_packet(&pkt, &SENDER);
    assert!(matches!(r, Err(DecodeError::MalformedOptionsTemplate)));
}

#[test]
fn decoders_keep_separate_caches() {
    let mut a = Parser::new();
    let mut b = Parser::new();
    let t = packet(1, &[template_flowset(256, &[(4, 1)])]);
    a.parse_netflow_packet(&t, &SENDER).unwrap();
    let d = packet(1, &[data_flowset(256, &[6])]);
    assert_eq!(a.parse_netflow_packet(&d, &SENDER).unwrap().len(), 1);
    assert_eq!(b.parse_netflow_packet(&d, &SENDER).unwrap().len(), 0);
}
