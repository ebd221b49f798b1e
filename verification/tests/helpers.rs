use bpftop::helpers::{program_type_as_str, program_type_to_string, ProgramType};

#[test]
fn test_program_type_to_string() {
    let str = program_type_to_string(ProgramType::CgroupSkb);
    assert_eq!(str, "CgroupSkb");
}

#[test]
fn test_program_type_names() {
    assert_eq!(program_type_to_string(ProgramType::Unspec), "Unspec");
    assert_eq!(program_type_to_string(ProgramType::Kprobe), "Kprobe");
    assert_eq!(program_type_to_string(ProgramType::SchedCls), "SchedCls");
    assert_eq!(program_type_to_string(ProgramType::SchedAct), "SchedAct");
    assert_eq!(program_type_to_string(ProgramType::RawTracepointWritable), "RawTracepointWritable");
    assert_eq!(program_type_to_string(ProgramType::Syscall), "Syscall");
    assert_eq!(program_type_to_string(ProgramType::Unknown), "Unknown");
    assert_eq!(program_type_as_str(ProgramType::Xdp), "Xdp");
    assert_eq!(program_type_as_str(ProgramType::LwtSeg6local), "LwtSeg6local");
}
