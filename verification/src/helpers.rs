use vstd::prelude::*;

verus! {

/// The kinds of BPF program that the kernel tells apart.
#[derive(Clone, Copy, Debug, PartialEq, Eq, Structural)]
pub enum ProgramType {
    Unspec,
    SocketFilter,
    Kprobe,
    SchedCls,
    SchedAct,
    Tracepoint,
    Xdp,
    PerfEvent,
    CgroupSkb,
    CgroupSock,
    LwtIn,
    LwtOut,
    LwtXmit,
    SockOps,
    SkSkb,
    CgroupDevice,
    SkMsg,
    RawTracepoint,
    CgroupSockAddr,
    LwtSeg6local,
    LircMode2,
    SkReuseport,
    FlowDissector,
    CgroupSysctl,
    RawTracepointWritable,
    CgroupSockopt,
    Tracing,
    StructOps,
    Ext,
    Lsm,
    SkLookup,
    Syscall,
    Unknown,
}

/// The name under which a program type is shown.
pub open spec fn program_type_name(program_type: ProgramType) -> Seq<char> {
    match program_type {
        ProgramType::Unspec => "Unspec"@,
        ProgramType::SocketFilter => "SocketFilter"@,
        ProgramType::Kprobe => "Kprobe"@,
        ProgramType::SchedCls => "SchedCls"@,
        ProgramType::SchedAct => "SchedAct"@,
        ProgramType::Tracepoint => "Tracepoint"@,
        ProgramType::Xdp => "Xdp"@,
        ProgramType::PerfEvent => "PerfEvent"@,
        ProgramType::CgroupSkb => "CgroupSkb"@,
        ProgramType::CgroupSock => "CgroupSock"@,
        ProgramType::LwtIn => "LwtIn"@,
        ProgramType::LwtOut => "LwtOut"@,
        ProgramType::LwtXmit => "LwtXmit"@,
        ProgramType::SockOps => "SockOps"@,
        ProgramType::SkSkb => "SkSkb"@,
        ProgramType::CgroupDevice => "CgroupDevice"@,
        ProgramType::SkMsg => "SkMsg"@,
        ProgramType::RawTracepoint => "RawTracepoint"@,
        ProgramType::CgroupSockAddr => "CgroupSockAddr"@,
        ProgramType::LwtSeg6local => "LwtSeg6local"@,
        ProgramType::LircMode2 => "LircMode2"@,
        ProgramType::SkReuseport => "SkReuseport"@,
        ProgramType::FlowDissector => "FlowDissector"@,
        ProgramType::CgroupSysctl => "CgroupSysctl"@,
        ProgramType::RawTracepointWritable => "RawTracepointWritable"@,
        ProgramType::CgroupSockopt => "CgroupSockopt"@,
        ProgramType::Tracing => "Tracing"@,
        ProgramType::StructOps => "StructOps"@,
        ProgramType::Ext => "Ext"@,
        ProgramType::Lsm => "Lsm"@,
        ProgramType::SkLookup => "SkLookup"@,
        ProgramType::Syscall => "Syscall"@,
        ProgramType::Unknown => "Unknown"@,
    }
}

/// The name of a program type, borrowed.
pub fn program_type_as_str(program_type: ProgramType) -> (r: &'static str)
    ensures
        r@ == program_type_name(program_type),
{
    match program_type {
        ProgramType::Unspec => "Unspec",
        ProgramType::SocketFilter => "SocketFilter",
        ProgramType::Kprobe => "Kprobe",
        ProgramType::SchedCls => "SchedCls",
        ProgramType::SchedAct => "SchedAct",
        ProgramType::Tracepoint => "Tracepoint",
        ProgramType::Xdp => "Xdp",
        ProgramType::PerfEvent => "PerfEvent",
        ProgramType::CgroupSkb => "CgroupSkb",
        ProgramType::CgroupSock => "CgroupSock",
        ProgramType::LwtIn => "LwtIn",
        ProgramType::LwtOut => "LwtOut",
        ProgramType::LwtXmit => "LwtXmit",
        ProgramType::SockOps => "SockOps",
        ProgramType::SkSkb => "SkSkb",
        ProgramType::CgroupDevice => "CgroupDevice",
        ProgramType::SkMsg => "SkMsg",
        ProgramType::RawTracepoint => "RawTracepoint",
        ProgramType::CgroupSockAddr => "CgroupSockAddr",
        ProgramType::LwtSeg6local => "LwtSeg6local",
        ProgramType::LircMode2 => "LircMode2",
        ProgramType::SkReuseport => "SkReuseport",
        ProgramType::FlowDissector => "FlowDissector",
        ProgramType::CgroupSysctl => "CgroupSysctl",
        ProgramType::RawTracepointWritable => "RawTracepointWritable",
        ProgramType::CgroupSockopt => "CgroupSockopt",
        ProgramType::Tracing => "Tracing",
        ProgramType::StructOps => "StructOps",
        ProgramType::Ext => "Ext",
        ProgramType::Lsm => "Lsm",
        ProgramType::SkLookup => "SkLookup",
        ProgramType::Syscall => "Syscall",
        ProgramType::Unknown => "Unknown",
    }
}

/// The name of a program type, owned.
pub fn program_type_to_string(program_type: ProgramType) -> (r: String)
    ensures
        r@ == program_type_name(program_type),
{
    program_type_as_str(program_type).to_owned()
}

} // verus!
