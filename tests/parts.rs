use netflow_v9::dataset::{parse_dataset, SenderAddr};
use netflow_v9::formatters::{fmt_int, fmt_tcp_flags, FmtReturn};
use netflow_v9::registry::{FieldFormat, TemplateFieldType};
use netflow_v9::template::{parse_options_template, parse_template, Template, TemplateField};
use netflow_v9::wire::{parse_netflow_header, parse_tl_header, DecodeError, TypeLenHeader};

fn number(r: FmtReturn) -> u64 {
    match r {
        FmtReturn::Number(n) => n,
        FmtReturn::Text(t) => panic!("expected a number, got {}", t),
    }
}

fn text(r: FmtReturn) -> String {
    match r {
        FmtReturn::Text(t) => t,
        FmtReturn::Number(n) => panic!("expected text, got {}", n),
    }
}

#[test]
fn header_fields_are_big_endian() {
    let b = [0, 9, 0, 3, 0, 0, 1, 0, 0x5F, 0, 0, 1, 0, 0, 0, 2, 0, 0, 0, 0xFF, 0xAA];
    let (rest, h) = parse_netflow_header(&b).unwrap();
    assert_eq!(h.version, 9);
    assert_eq!(h.count, 3);
    assert_eq!(h.sys_uptime, 256);
    assert_eq!(h.timestamp, 0x5F00_0001);
    assert_eq!(h.sequence, 2);
    assert_eq!(h.source_id, 255);
    assert_eq!(rest, &[0xAA]);
    assert!(matches!(parse_netflow_header(&b[..19]), Err(DecodeError::TruncatedHeader)));
}

#[test]
fn flowset_header_reads_id_and_length() {
    let (rest, tl) = parse_tl_header(&[1, 0, 0, 20, 7]).unwrap();
    assert_eq!(tl, TypeLenHeader { flowset_id: 256, length: 20 });
    assert_eq!(rest, &[7]);
    assert!(matches!(parse_tl_header(&[1, 0, 0]), Err(DecodeError::TruncatedFlowsetHeader)));
}

#[test]
fn template_body_is_parsed_exactly() {
    let body = [1, 0, 0, 2, 0, 8, 0, 4, 0, 1, 0, 4, 0xEE];
    let tl = TypeLenHeader { flowset_id: 0, length: 16 };
    let (rest, t) = parse_template(&body, tl).unwrap();
    assert_eq!(t.template_id, 256);
    assert_eq!(t.fields, vec![TemplateField { field: 8, len: 4 }, TemplateField { field: 1, len: 4 }]);
    assert_eq!(rest, &[0xEE]);
    let long = TypeLenHeader { flowset_id: 0, length: 20 };
    assert!(matches!(parse_template(&body, long), Err(DecodeError::MalformedTemplate)));
    let short = TypeLenHeader { flowset_id: 0, length: 12 };
    assert!(matches!(parse_template(&body, short), Err(DecodeError::MalformedTemplate)));
    assert!(matches!(parse_template(&body[..10], tl), Err(DecodeError::MalformedTemplate)));
}

#[test]
fn options_template_skips_padding() {
    let body = [1, 4, 0, 4, 0, 8, 0, 1, 0, 4, 0, 36, 0, 2, 0, 37, 0, 2, 0, 0, 0x55];
    let tl = TypeLenHeader { flowset_id: 1, length: 24 };
    let (rest, t) = parse_options_template(&body, tl).unwrap();
    assert_eq!(t.template_id, 260);
    assert_eq!(t.scope_len, 4);
    assert_eq!(t.option_len, 8);
    assert_eq!(
        t.fields,
        vec![
            TemplateField { field: 1, len: 4 },
            TemplateField { field: 36, len: 2 },
            TemplateField { field: 37, len: 2 },
        ]
    );
    assert_eq!(rest, &[0x55]);
    let tight = TypeLenHeader { flowset_id: 1, length: 20 };
    assert!(matches!(parse_options_template(&body, tight), Err(DecodeError::MalformedOptionsTemplate)));
    assert!(matches!(parse_options_template(&body[..4], tl), Err(DecodeError::MalformedOptionsTemplate)));
}

#[test]
fn dataset_drops_trailing_partial_record() {
    let t = Template {
        template_id: 256,
        fields: vec![TemplateField { field: 4, len: 1 }, TemplateField { field: 7, len: 2 }],
    };
    let buf = [1, 2, 3, 4, 5, 6, 7, 8, 9];
    let tl = TypeLenHeader { flowset_id: 256, length: 12 };
    let (rest, flows) = parse_dataset(&buf, tl, &t).unwrap();
    assert_eq!(flows.len(), 2);
    assert_eq!(flows[0].records.get(&4).unwrap().to_vec(), vec![1]);
    assert_eq!(flows[0].records.get(&7).unwrap().to_vec(), vec![2, 3]);
    assert_eq!(flows[1].records.get(&4).unwrap().to_vec(), vec![4]);
    assert_eq!(flows[1].records.get(&7).unwrap().to_vec(), vec![5, 6]);
    assert_eq!(flows[1].source_ip, None);
    assert_eq!(rest, &[9]);
    let long = TypeLenHeader { flowset_id: 256, length: 14 };
    assert!(matches!(parse_dataset(&buf, long, &t), Err(DecodeError::TruncatedDataset)));
}

#[test]
fn dataset_of_zero_width_layout_has_no_record() {
    let t = Template { template_id: 256, fields: vec![TemplateField { field: 4, len: 0 }] };
    let (rest, flows) = parse_dataset(&[1, 2], TypeLenHeader { flowset_id: 256, length: 6 }, &t).unwrap();
    assert!(flows.is_empty());
    assert!(rest.is_empty());
}

#[test]
fn repeated_field_id_keeps_last_span() {
    let t = Template {
        template_id: 256,
        fields: vec![TemplateField { field: 4, len: 1 }, TemplateField { field: 4, len: 2 }],
    };
    let (_, flows) = parse_dataset(&[1, 2, 3], TypeLenHeader { flowset_id: 256, length: 7 }, &t).unwrap();
    assert_eq!(flows.len(), 1);
    assert_eq!(flows[0].records.len(), 1);
    assert_eq!(flows[0].records.get(&4).unwrap().to_vec(), vec![2, 3]);
}

#[test]
fn set_source_ip_tags_record() {
    let t = Template { template_id: 256, fields: vec![TemplateField { field: 4, len: 1 }] };
    let (_, mut flows) = parse_dataset(&[6], TypeLenHeader { flowset_id: 256, length: 5 }, &t).unwrap();
    flows[0].set_source_ip(SenderAddr::V4(1));
    assert_eq!(flows[0].source_ip, Some(SenderAddr::V4(1)));
}

#[test]
fn fmt_int_reads_big_endian_widths() {
    assert_eq!(number(fmt_int(&[0xAB])), 0xAB);
    assert_eq!(number(fmt_int(&[0x01, 0x02])), 0x0102);
    assert_eq!(number(fmt_int(&[0, 0, 0x05, 0xDC])), 1500);
    assert_eq!(number(fmt_int(&[1, 2, 3, 4, 5, 6, 7, 8])), 0x0102_0304_0506_0708);
    assert_eq!(number(fmt_int(&[1, 2, 3])), 0);
    assert_eq!(number(fmt_int(&[])), 0);
}

#[test]
fn fmt_tcp_flags_names_set_flags() {
    assert_eq!(text(fmt_tcp_flags(&[0x12])), "SYN-ACK");
    assert_eq!(text(fmt_tcp_flags(&[0x01])), "FIN");
    assert_eq!(text(fmt_tcp_flags(&[0x00])), "None");
    assert_eq!(text(fmt_tcp_flags(&[0x08])), "PSH-CWR");
    assert_eq!(text(fmt_tcp_flags(&[0x7F])), "FIN-SYN-RST-PSH-ACK-URG-ECE-CWR");
    assert_eq!(text(fmt_tcp_flags(&[])), "None");
}

#[test]
fn field_types_have_names_and_formats() {
    let src = TemplateFieldType::from(8u16);
    assert_eq!(src, TemplateFieldType::IPv4SrcAddr);
    assert_eq!(src.name(), "IPv4 Src Addr");
    assert_eq!(src.to_string(), "IPv4 Src Addr");
    assert_eq!(src.get_parser(), FieldFormat::Ipv4);
    assert_eq!(TemplateFieldType::from(1u16).get_parser(), FieldFormat::Int);
    assert_eq!(TemplateFieldType::from(6u16).get_parser(), FieldFormat::TcpFlags);
    assert_eq!(TemplateFieldType::from(27u16).get_parser(), FieldFormat::Ipv6);
    assert_eq!(TemplateFieldType::from(99u16).name(), "Multicast replication factor");
    let unknown = TemplateFieldType::from(1000u16);
    assert_eq!(unknown, TemplateFieldType::Unimplemented);
    assert_eq!(unknown.name(), "Unknown Field Type");
    assert_eq!(unknown.get_parser(), FieldFormat::Int);
    assert_eq!(TemplateFieldType::MPLSLabel1.name(), "Unknown value");
    assert_eq!(TemplateFieldType::MPLSLabel1.get_parser(), FieldFormat::Unknown);
}
