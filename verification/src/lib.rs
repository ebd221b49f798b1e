pub mod app;
pub mod bpf_attachment;
pub mod bpf_program;
pub mod helpers;
pub mod keys;
pub mod netlink;
pub mod percent;
pub mod pid_iter;
pub mod ring;
pub mod sampler;
pub mod sort;
pub mod text;
