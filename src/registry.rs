//! The field registry: what a field-type id is called and how its bytes are
//! shown.
use vstd::prelude::*;

verus! {

/// The kind of a NetFlow v9 field, by field-type id.
#[derive(Debug, Clone, Copy, PartialEq, Eq, Structural)]
pub enum TemplateFieldType {
    InBytes,
    InPkts,
    Flows,
    Protocol,
    SrcTos,
    TCPFlags,
    L4SrcPort,
    IPv4SrcAddr,
    SrcMask,
    InputSNMP,
    L4DstPort,
    IPv4DstAddr,
    DstMask,
    OutputSNMP,
    IPv4NextHop,
    SrcAS,
    DstAS,
    BgpIPv4NextHop,
    MulDstPkts,
    MulDstBytes,
    LastSwitched,
    FirstSwitched,
    OutBytes,
    OutPkts,
    MinPktLength,
    MaxPktLength,
    IPv6SrcAddr,
    IPv6DstAddr,
    IPv6SrcMask,
    IPv6DstMask,
    IPv6FlowLabel,
    ICMPType,
    MulIGMPType,
    SamplingInterval,
    SamplingAlgorithm,
    FlowActiveTimeout,
    FlowInactiveTimeout,
    EngineType,
    EngineID,
    TotalBytesExp,
    TotalPktsExp,
    TotalFlowsExp,
    IPv4SrcPrefix,
    IPv4DstPrefix,
    MPLSTopLabelType,
    MPLSTopLabelIPAddr,
    FlowSamplerID,
    FlowSamplerMode,
    FlowSamplerRandomInterval,
    MinTTL,
    MaxTTL,
    IPv4Ident,
    InSrcMac,
    OutDstMac,
    SrcVLAN,
    DstVLAN,
    IPProtocolVersion,
    Direction,
    IPv6NextHop,
    BgpIPv6NextHop,
    IPv6OptionHeaders,
    MPLSLabel1,
    MPLSLabel2,
    MPLSLabel3,
    MPLSLabel4,
    MPLSLabel5,
    MPLSLabel6,
    MPLSLabel7,
    MPLSLabel8,
    MPLSLabel9,
    MPLSLabel10,
    InDstMAC,
    OutSrcMAC,
    IfName,
    IfDesc,
    ForwardingStatus,
    ReplicationFactor,
    Unimplemented,
}

/// How the bytes of a field are turned into a display value.
#[derive(Debug, Clone, Copy, PartialEq, Eq, Structural)]
pub enum FieldFormat {
    /// An unsigned big-endian integer.
    Int,
    /// An IPv4 address in dotted notation.
    Ipv4,
    /// An IPv6 address in colon notation.
    Ipv6,
    /// The names of the TCP flags that are set.
    TcpFlags,
    /// No decoder: the value shows as unknown.
    Unknown,
}

/// The kind of field that the field-type id `id` names; ids without an
/// entry are `Unimplemented`.
pub open spec fn field_type_of(id: u16) -> TemplateFieldType {
    match id {
        1 => TemplateFieldType::InBytes,
        2 => TemplateFieldType::InPkts,
        3 => TemplateFieldType::Flows,
        4 => TemplateFieldType::Protocol,
        5 => TemplateFieldType::SrcTos,
        6 => TemplateFieldType::TCPFlags,
        7 => TemplateFieldType::L4SrcPort,
        8 => TemplateFieldType::IPv4SrcAddr,
        9 => TemplateFieldType::SrcMask,
        10 => TemplateFieldType::InputSNMP,
        11 => TemplateFieldType::L4DstPort,
        12 => TemplateFieldType::IPv4DstAddr,
        13 => TemplateFieldType::DstMask,
        14 => TemplateFieldType::OutputSNMP,
        15 => TemplateFieldType::IPv4NextHop,
        16 => TemplateFieldType::SrcAS,
        17 => TemplateFieldType::DstAS,
        18 => TemplateFieldType::BgpIPv4NextHop,
        19 => TemplateFieldType::MulDstPkts,
        20 => TemplateFieldType::MulDstBytes,
        21 => TemplateFieldType::LastSwitched,
        22 => TemplateFieldType::FirstSwitched,
        23 => TemplateFieldType::OutBytes,
        24 => TemplateFieldType::OutPkts,
        25 => TemplateFieldType::MinPktLength,
        26 => TemplateFieldType::MaxPktLength,
        27 => TemplateFieldType::IPv6SrcAddr,
        28 => TemplateFieldType::IPv6DstAddr,
        29 => TemplateFieldType::IPv6SrcMask,
        30 => TemplateFieldType::IPv6DstMask,
        31 => TemplateFieldType::IPv6FlowLabel,
        32 => TemplateFieldType::ICMPType,
        33 => TemplateFieldType::MulIGMPType,
        34 => TemplateFieldType::SamplingInterval,
        35 => TemplateFieldType::SamplingAlgorithm,
        36 => TemplateFieldType::FlowActiveTimeout,
        37 => TemplateFieldType::FlowInactiveTimeout,
        38 => TemplateFieldType::EngineType,
        39 => TemplateFieldType::EngineID,
        52 => TemplateFieldType::MinTTL,
        53 => TemplateFieldType::MaxTTL,
        60 => TemplateFieldType::IPProtocolVersion,
        61 => TemplateFieldType::Direction,
        62 => TemplateFieldType::IPv6NextHop,
        63 => TemplateFieldType::BgpIPv6NextHop,
        64 => TemplateFieldType::IPv6OptionHeaders,
        89 => TemplateFieldType::ForwardingStatus,
        99 => TemplateFieldType::ReplicationFactor,
        _ => TemplateFieldType::Unimplemented,
    }
}

/// The display name of a field kind; a kind that no field-type id maps to
/// has none of its own.
pub open spec fn field_type_name(t: TemplateFieldType) -> Seq<char> {
    match t {
        TemplateFieldType::InBytes => "InBytes"@,
        TemplateFieldType::InPkts => "InPackets"@,
        TemplateFieldType::Flows => "Flows"@,
        TemplateFieldType::Protocol => "Protocol"@,
        TemplateFieldType::SrcTos => "Src Tos"@,
        TemplateFieldType::TCPFlags => "TCP Flags"@,
        TemplateFieldType::L4SrcPort => "L4 Src port"@,
        TemplateFieldType::IPv4SrcAddr => "IPv4 Src Addr"@,
        TemplateFieldType::SrcMask => "Src Mask"@,
        TemplateFieldType::InputSNMP => "Input SNMP"@,
        TemplateFieldType::L4DstPort => "L4 Dst port"@,
        TemplateFieldType::IPv4DstAddr => "IPv4 Dest Addr"@,
        TemplateFieldType::DstMask => "Dest Mask"@,
        TemplateFieldType::OutputSNMP => "Output SNMP"@,
        TemplateFieldType::IPv4NextHop => "IPv4 Next Hop"@,
        TemplateFieldType::SrcAS => "Src AS"@,
        TemplateFieldType::DstAS => "Dst AS"@,
        TemplateFieldType::BgpIPv4NextHop => "BGP IPv4 Next Hop"@,
        TemplateFieldType::MulDstPkts => "Multicast Dest Packets"@,
        TemplateFieldType::MulDstBytes => "Multicast Dest Bytes"@,
        TemplateFieldType::LastSwitched => "Last Switched"@,
        TemplateFieldType::FirstSwitched => "First switched"@,
        TemplateFieldType::OutBytes => "Outgoing bytes"@,
        TemplateFieldType::OutPkts => "Outgoing packets"@,
        TemplateFieldType::MinPktLength => "Min packet length"@,
        TemplateFieldType::MaxPktLength => "Max packet length"@,
        TemplateFieldType::IPv6SrcAddr => "IPv6 Src Addr"@,
        TemplateFieldType::IPv6DstAddr => "IPv6 Dst Addr"@,
        TemplateFieldType::IPv6SrcMask => "IPv6 Src Mask"@,
        TemplateFieldType::IPv6DstMask => "IPv6 Dst Mask"@,
        TemplateFieldType::IPv6FlowLabel => "IPv6 Flow Label"@,
        TemplateFieldType::ICMPType => "ICMP type"@,
        TemplateFieldType::MulIGMPType => "Multicast IGMP type"@,
        TemplateFieldType::SamplingInterval => "Sampling interval"@,
        TemplateFieldType::SamplingAlgorithm => "Sampling algorithm"@,
        TemplateFieldType::FlowActiveTimeout => "Flow active timeout"@,
        TemplateFieldType::FlowInactiveTimeout => "Flow inactive timeout"@,
        TemplateFieldType::EngineType => "Engine type"@,
        TemplateFieldType::EngineID => "Engine Id"@,
        TemplateFieldType::MinTTL => "Min TTL"@,
        TemplateFieldType::MaxTTL => "Max TTL"@,
        TemplateFieldType::IPProtocolVersion => "IP Proto version"@,
        TemplateFieldType::Direction => "Direction"@,
        TemplateFieldType::IPv6NextHop => "IPv6 Next Hop"@,
        TemplateFieldType::BgpIPv6NextHop => "BGP IPv6 Next Hop"@,
        TemplateFieldType::IPv6OptionHeaders => "IPv6 Options header"@,
        TemplateFieldType::ForwardingStatus => "Forwarding Status"@,
        TemplateFieldType::ReplicationFactor => "Multicast replication factor"@,
        TemplateFieldType::Unimplemented => "Unknown Field Type"@,
        _ => "Unknown value"@,
    }
}

/// How the bytes of a field of kind `t` are shown.
pub open spec fn field_format(t: TemplateFieldType) -> FieldFormat {
    match t {
        TemplateFieldType::TCPFlags => FieldFormat::TcpFlags,
        TemplateFieldType::IPv4SrcAddr
            | TemplateFieldType::IPv4DstAddr
            | TemplateFieldType::IPv4NextHop
            | TemplateFieldType::BgpIPv4NextHop => FieldFormat::Ipv4,
        TemplateFieldType::IPv6SrcAddr
            | TemplateFieldType::IPv6DstAddr
            | TemplateFieldType::IPv6NextHop
            | TemplateFieldType::BgpIPv6NextHop => FieldFormat::Ipv6,
        TemplateFieldType::TotalBytesExp
            | TemplateFieldType::TotalPktsExp
            | TemplateFieldType::TotalFlowsExp
            | TemplateFieldType::IPv4SrcPrefix
            | TemplateFieldType::IPv4DstPrefix
            | TemplateFieldType::MPLSTopLabelType
            | TemplateFieldType::MPLSTopLabelIPAddr
            | TemplateFieldType::FlowSamplerID
            | TemplateFieldType::FlowSamplerMode
            | TemplateFieldType::FlowSamplerRandomInterval
            | TemplateFieldType::IPv4Ident
            | TemplateFieldType::InSrcMac
            | TemplateFieldType::OutDstMac
            | TemplateFieldType::SrcVLAN
            | TemplateFieldType::DstVLAN
            | TemplateFieldType::MPLSLabel1
            | TemplateFieldType::MPLSLabel2
            | TemplateFieldType::MPLSLabel3
            | TemplateFieldType::MPLSLabel4
            | TemplateFieldType::MPLSLabel5
            | TemplateFieldType::MPLSLabel6
            | TemplateFieldType::MPLSLabel7
            | TemplateFieldType::MPLSLabel8
            | TemplateFieldType::MPLSLabel9
            | TemplateFieldType::MPLSLabel10
            | TemplateFieldType::InDstMAC
            | TemplateFieldType::OutSrcMAC
            | TemplateFieldType::IfName
            | TemplateFieldType::IfDesc => FieldFormat::Unknown,
        _ => FieldFormat::Int,
    }
}

impl From<u16> for TemplateFieldType {
    fn from(field: u16) -> Self {
        match field {
            1 => TemplateFieldType::InBytes,
            2 => TemplateFieldType::InPkts,
            3 => TemplateFieldType::Flows,
            4 => TemplateFieldType::Protocol,
            5 => TemplateFieldType::SrcTos,
            6 => TemplateFieldType::TCPFlags,
            7 => TemplateFieldType::L4SrcPort,
            8 => TemplateFieldType::IPv4SrcAddr,
            9 => TemplateFieldType::SrcMask,
            10 => TemplateFieldType::InputSNMP,
            11 => TemplateFieldType::L4DstPort,
            12 => TemplateFieldType::IPv4DstAddr,
            13 => TemplateFieldType::DstMask,
            14 => TemplateFieldType::OutputSNMP,
            15 => TemplateFieldType::IPv4NextHop,
            16 => TemplateFieldType::SrcAS,
            17 => TemplateFieldType::DstAS,
            18 => TemplateFieldType::BgpIPv4NextHop,
            19 => TemplateFieldType::MulDstPkts,
            20 => TemplateFieldType::MulDstBytes,
            21 => TemplateFieldType::LastSwitched,
            22 => TemplateFieldType::FirstSwitched,
            23 => TemplateFieldType::OutBytes,
            24 => TemplateFieldType::OutPkts,
            25 => TemplateFieldType::MinPktLength,
            26 => TemplateFieldType::MaxPktLength,
            27 => TemplateFieldType::IPv6SrcAddr,
            28 => TemplateFieldType::IPv6DstAddr,
            29 => TemplateFieldType::IPv6SrcMask,
            30 => TemplateFieldType::IPv6DstMask,
            31 => TemplateFieldType::IPv6FlowLabel,
            32 => TemplateFieldType::ICMPType,
            33 => TemplateFieldType::MulIGMPType,
            34 => TemplateFieldType::SamplingInterval,
            35 => TemplateFieldType::SamplingAlgorithm,
            36 => TemplateFieldType::FlowActiveTimeout,
            37 => TemplateFieldType::FlowInactiveTimeout,
            38 => TemplateFieldType::EngineType,
            39 => TemplateFieldType::EngineID,
            52 => TemplateFieldType::MinTTL,
            53 => TemplateFieldType::MaxTTL,
            60 => TemplateFieldType::IPProtocolVersion,
            61 => TemplateFieldType::Direction,
            62 => TemplateFieldType::IPv6NextHop,
            63 => TemplateFieldType::BgpIPv6NextHop,
            64 => TemplateFieldType::IPv6OptionHeaders,
            89 => TemplateFieldType::ForwardingStatus,
            99 => TemplateFieldType::ReplicationFactor,
            _ => TemplateFieldType::Unimplemented,
        }
    }
}

impl vstd::std_specs::convert::FromSpecImpl<u16> for TemplateFieldType {
    open spec fn obeys_from_spec() -> bool {
        true
    }

    open spec fn from_spec(v: u16) -> Self {
        field_type_of(v)
    }
}

impl TemplateFieldType {
    /// The display name of this kind of field.
    pub fn name(&self) -> (r: &'static str)
        ensures
            r@ == field_type_name(*self),
    {
        match self {
            TemplateFieldType::InBytes => "InBytes",
            TemplateFieldType::InPkts => "InPackets",
            TemplateFieldType::Flows => "Flows",
            TemplateFieldType::Protocol => "Protocol",
            TemplateFieldType::SrcTos => "Src Tos",
            TemplateFieldType::TCPFlags => "TCP Flags",
            TemplateFieldType::L4SrcPort => "L4 Src port",
            TemplateFieldType::IPv4SrcAddr => "IPv4 Src Addr",
            TemplateFieldType::SrcMask => "Src Mask",
            TemplateFieldType::InputSNMP => "Input SNMP",
            TemplateFieldType::L4DstPort => "L4 Dst port",
            TemplateFieldType::IPv4DstAddr => "IPv4 Dest Addr",
            TemplateFieldType::DstMask => "Dest Mask",
            TemplateFieldType::OutputSNMP => "Output SNMP",
            TemplateFieldType::IPv4NextHop => "IPv4 Next Hop",
            TemplateFieldType::SrcAS => "Src AS",
            TemplateFieldType::DstAS => "Dst AS",
            TemplateFieldType::BgpIPv4NextHop => "BGP IPv4 Next Hop",
            TemplateFieldType::MulDstPkts => "Multicast Dest Packets",
            TemplateFieldType::MulDstBytes => "Multicast Dest Bytes",
            TemplateFieldType::LastSwitched => "Last Switched",
            TemplateFieldType::FirstSwitched => "First switched",
            TemplateFieldType::OutBytes => "Outgoing bytes",
            TemplateFieldType::OutPkts => "Outgoing packets",
            TemplateFieldType::MinPktLength => "Min packet length",
            TemplateFieldType::MaxPktLength => "Max packet length",
            TemplateFieldType::IPv6SrcAddr => "IPv6 Src Addr",
            TemplateFieldType::IPv6DstAddr => "IPv6 Dst Addr",
            TemplateFieldType::IPv6SrcMask => "IPv6 Src Mask",
            TemplateFieldType::IPv6DstMask => "IPv6 Dst Mask",
            TemplateFieldType::IPv6FlowLabel => "IPv6 Flow Label",
            TemplateFieldType::ICMPType => "ICMP type",
            TemplateFieldType::MulIGMPType => "Multicast IGMP type",
            TemplateFieldType::SamplingInterval => "Sampling interval",
            TemplateFieldType::SamplingAlgorithm => "Sampling algorithm",
            TemplateFieldType::FlowActiveTimeout => "Flow active timeout",
            TemplateFieldType::FlowInactiveTimeout => "Flow inactive timeout",
            TemplateFieldType::EngineType => "Engine type",
            TemplateFieldType::EngineID => "Engine Id",
            TemplateFieldType::MinTTL => "Min TTL",
            TemplateFieldType::MaxTTL => "Max TTL",
            TemplateFieldType::IPProtocolVersion => "IP Proto version",
            TemplateFieldType::Direction => "Direction",
            TemplateFieldType::IPv6NextHop => "IPv6 Next Hop",
            TemplateFieldType::BgpIPv6NextHop => "BGP IPv6 Next Hop",
            TemplateFieldType::IPv6OptionHeaders => "IPv6 Options header",
            TemplateFieldType::ForwardingStatus => "Forwarding Status",
            TemplateFieldType::ReplicationFactor => "Multicast replication factor",
            TemplateFieldType::Unimplemented => "Unknown Field Type",
            _ => "Unknown value",
        }
    }

    /// The display name of this kind of field, as an owned string.
    pub fn to_string(&self) -> (r: String)
        ensures
            r@ == field_type_name(*self),
    {
        String::from_str(self.name())
    }

    /// How the bytes of a field of this kind are shown.
    pub fn get_parser(&self) -> (r: FieldFormat)
        ensures
            r == field_format(*self),
    {
        match self {
            TemplateFieldType::TCPFlags => FieldFormat::TcpFlags,
            TemplateFieldType::IPv4SrcAddr
                | TemplateFieldType::IPv4DstAddr
                | TemplateFieldType::IPv4NextHop
                | TemplateFieldType::BgpIPv4NextHop => FieldFormat::Ipv4,
            TemplateFieldType::IPv6SrcAddr
                | TemplateFieldType::IPv6DstAddr
                | TemplateFieldType::IPv6NextHop
                | TemplateFieldType::BgpIPv6NextHop => FieldFormat::Ipv6,
            TemplateFieldType::TotalBytesExp
                | TemplateFieldType::TotalPktsExp
                | TemplateFieldType::TotalFlowsExp
                | TemplateFieldType::IPv4SrcPrefix
                | TemplateFieldType::IPv4DstPrefix
                | TemplateFieldType::MPLSTopLabelType
                | TemplateFieldType::MPLSTopLabelIPAddr
                | TemplateFieldType::FlowSamplerID
                | TemplateFieldType::FlowSamplerMode
                | TemplateFieldType::FlowSamplerRandomInterval
                | TemplateFieldType::IPv4Ident
                | TemplateFieldType::InSrcMac
                | TemplateFieldType::OutDstMac
                | TemplateFieldType::SrcVLAN
                | TemplateFieldType::DstVLAN
                | TemplateFieldType::MPLSLabel1
                | TemplateFieldType::MPLSLabel2
                | TemplateFieldType::MPLSLabel3
                | TemplateFieldType::MPLSLabel4
                | TemplateFieldType::MPLSLabel5
                | TemplateFieldType::MPLSLabel6
                | TemplateFieldType::MPLSLabel7
                | TemplateFieldType::MPLSLabel8
                | TemplateFieldType::MPLSLabel9
                | TemplateFieldType::MPLSLabel10
                | TemplateFieldType::InDstMAC
                | TemplateFieldType::OutSrcMAC
                | TemplateFieldType::IfName
                | TemplateFieldType::IfDesc => FieldFormat::Unknown,
            _ => FieldFormat::Int,
        }
    }
}

} // verus!
