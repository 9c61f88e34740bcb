//! Template and options-template bodies: how a sender declares the layout of
//! the data records that follow.
use vstd::prelude::*;
use crate::wire::{be16_at, read_u16_at, DecodeError, TypeLenHeader};

verus! {

/// One column of a record layout: a field-type id and its width in bytes.
#[derive(Debug, Clone, Copy, PartialEq, Eq, Structural)]
pub struct TemplateField {
    pub field: u16,
    pub len: u16,
}

/// A record layout announced by a template flowset.
#[derive(Debug, Clone)]
pub struct Template {
    pub template_id: u16,
    pub fields: Vec<TemplateField>,
}

/// A record layout announced by an options-template flowset. `fields` holds
/// the scope fields first, then the option fields; `scope_len` and
/// `option_len` are the byte sizes of the two groups as they were declared.
#[derive(Debug, Clone)]
pub struct OptionsTemplate {
    pub template_id: u16,
    pub scope_len: u16,
    pub option_len: u16,
    pub fields: Vec<TemplateField>,
}

/// The field descriptor stored at `s[i] .. s[i + 4]`.
pub open spec fn field_at(s: Seq<u8>, i: int) -> TemplateField {
    TemplateField { field: be16_at(s, i), len: be16_at(s, i + 2) }
}

/// The `n` consecutive field descriptors that start at `s[start]`.
pub open spec fn fields_at(s: Seq<u8>, start: int, n: nat) -> Seq<TemplateField> {
    Seq::new(n, |k: int| field_at(s, start + 4 * k))
}

/// Whether the template body at the start of `s`, declared `length` bytes
/// long with its flowset header, is well formed: its id, its field count and
/// exactly that many descriptors fill the declared length, and the buffer
/// holds them all.
pub open spec fn template_ok(s: Seq<u8>, length: u16) -> bool {
    &&& length >= 8
    &&& s.len() >= length - 4
    &&& 4 * be16_at(s, 2) + 8 == length
}

/// The id of the template body at the start of `s`.
pub open spec fn template_id_of(s: Seq<u8>) -> u16 {
    be16_at(s, 0)
}

/// The field list of the template body at the start of `s`.
pub open spec fn template_fields_of(s: Seq<u8>) -> Seq<TemplateField> {
    fields_at(s, 4, be16_at(s, 2) as nat)
}

/// Number of field descriptors that the options-template body at the start
/// of `s` declares: a quarter of each group's byte size.
pub open spec fn options_field_count(s: Seq<u8>) -> nat {
    (be16_at(s, 2) / 4 + be16_at(s, 4) / 4) as nat
}

/// Whether the options-template body at the start of `s` is readable: its
/// 6-byte header and all its descriptors lie inside both the buffer and the
/// declared length. Bytes between the last descriptor and the declared end
/// are padding.
pub open spec fn options_template_ok(s: Seq<u8>, length: u16) -> bool {
    &&& s.len() >= 6
    &&& length >= 10 + 4 * options_field_count(s)
    &&& s.len() >= length - 4
}

/// The field list of the options-template body at the start of `s`.
pub open spec fn options_fields_of(s: Seq<u8>) -> Seq<TemplateField> {
    fields_at(s, 6, options_field_count(s))
}

/// Reads `n` descriptors starting at offset `start` of `buf`.
fn parse_template_fields(buf: &[u8], start: usize, n: usize) -> (r: Vec<TemplateField>)
    requires
        start + 4 * n <= buf@.len(),
    ensures
        r@ == fields_at(buf@, start as int, n as nat),
{
    let len = buf.len();
    let mut fields: Vec<TemplateField> = Vec::new();
    let mut k: usize = 0;
    while k < n
        invariant
            k <= n,
            len == buf@.len(),
            start + 4 * n <= buf@.len(),
            fields@ =~= fields_at(buf@, start as int, k as nat),
        decreases n - k,
    {
        assert(4 * k + 4 <= 4 * n) by (nonlinear_arith)
            requires
                k < n,
        ;
        let at = start + 4 * k;
        let f = TemplateField { field: read_u16_at(buf, at), len: read_u16_at(buf, at + 2) };
        fields.push(f);
        k = k + 1;
    }
    fields
}

/// Parses the template body at the start of `buffer`, whose flowset header
/// is `tl_header`, and returns the bytes after the declared end with the
/// template. The body must be filled exactly by its descriptors.
pub fn parse_template(buffer: &[u8], tl_header: TypeLenHeader) -> (r: Result<
    (&[u8], Template),
    DecodeError,
>)
    ensures
        r is Ok <==> template_ok(buffer@, tl_header.length),
        r matches Err(e) ==> e == DecodeError::MalformedTemplate,
        r matches Ok((rest, t)) ==> {
            &&& rest@ == buffer@.subrange(tl_header.length - 4, buffer@.len() as int)
            &&& t.template_id == template_id_of(buffer@)
            &&& t.fields@ == template_fields_of(buffer@)
        },
{
    let n = buffer.len();
    if tl_header.length < 8 {
        return Err(DecodeError::MalformedTemplate);
    }
    let body = (tl_header.length - 4) as usize;
    if n < body {
        return Err(DecodeError::MalformedTemplate);
    }
    let template_id = read_u16_at(buffer, 0);
    let field_count = read_u16_at(buffer, 2) as usize;
    if 4 * field_count + 8 != tl_header.length as usize {
        return Err(DecodeError::MalformedTemplate);
    }
    let fields = parse_template_fields(buffer, 4, field_count);
    Ok((&buffer[body..n], Template { template_id, fields }))
}

/// Parses the options-template body at the start of `buffer`, whose flowset
/// header is `tl_header`, and returns the bytes after the declared end, past
/// any padding, with the template.
pub fn parse_options_template(buffer: &[u8], tl_header: TypeLenHeader) -> (r: Result<
    (&[u8], OptionsTemplate),
    DecodeError,
>)
    ensures
        r is Ok <==> options_template_ok(buffer@, tl_header.length),
        r matches Err(e) ==> e == DecodeError::MalformedOptionsTemplate,
        r matches Ok((rest, t)) ==> {
            &&& rest@ == buffer@.subrange(tl_header.length - 4, buffer@.len() as int)
            &&& t.template_id == template_id_of(buffer@)
            &&& t.scope_len == be16_at(buffer@, 2)
            &&& t.option_len == be16_at(buffer@, 4)
            &&& t.fields@ == options_fields_of(buffer@)
        },
{
    let n = buffer.len();
    if n < 6 {
        return Err(DecodeError::MalformedOptionsTemplate);
    }
    let template_id = read_u16_at(buffer, 0);
    let scope_len = read_u16_at(buffer, 2);
    let option_len = read_u16_at(buffer, 4);
    let count = (scope_len / 4) as usize + (option_len / 4) as usize;
    if (tl_header.length as usize) < 10 + 4 * count {
        return Err(DecodeError::MalformedOptionsTemplate);
    }
    let body = (tl_header.length - 4) as usize;
    if n < body {
        return Err(DecodeError::MalformedOptionsTemplate);
    }
    let fields = parse_template_fields(buffer, 6, count);
    Ok((&buffer[body..n], OptionsTemplate { template_id, scope_len, option_len, fields }))
}

} // verus!
