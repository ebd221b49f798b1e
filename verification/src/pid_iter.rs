use crate::bpf_program::{Process, ProcessView};
use crate::sampler::owners;
use crate::text::{from_utf8_lossy, lossy_utf8};
use std::collections::HashMap;
use vstd::prelude::*;

verus! {

/// The order of the bytes of a number.
#[derive(Clone, Copy, Debug, PartialEq, Eq, Structural)]
pub enum ByteOrder {
    /// The least significant byte first.
    Little,
    /// The most significant byte first.
    Big,
}

/// The number of bytes of one entry of the process iterator.
pub const ENTRY_SIZE: usize = 24;

/// One entry of the kernel's process iterator: a program, a process that
/// holds it, and the name of that process's command as the kernel has it.
#[derive(Clone, Copy, Debug, PartialEq, Eq)]
pub struct PidIterEntry {
    pub id: u32,
    pub pid: i32,
    pub comm: [u8; 16],
}

/// The unsigned number in the four bytes from `at` on.
pub open spec fn u32_at(bytes: Seq<u8>, at: int, order: ByteOrder) -> u32 {
    match order {
        ByteOrder::Little => (bytes[at] + bytes[at + 1] * 0x100 + bytes[at + 2] * 0x1_0000 + bytes[at
            + 3] * 0x100_0000) as u32,
        ByteOrder::Big => (bytes[at + 3] + bytes[at + 2] * 0x100 + bytes[at + 1] * 0x1_0000
            + bytes[at] * 0x100_0000) as u32,
    }
}

/// The number that thirty-two bits stand for in two's complement.
pub open spec fn signed(bits: u32) -> i32 {
    if bits < 0x8000_0000 {
        bits as i32
    } else {
        (bits - 0x1_0000_0000) as i32
    }
}

/// The id of the program in an entry's bytes.
pub open spec fn entry_id(bytes: Seq<u8>, order: ByteOrder) -> u32 {
    u32_at(bytes, 0, order)
}

/// The process in an entry's bytes.
pub open spec fn entry_process(bytes: Seq<u8>, order: ByteOrder) -> ProcessView {
    ProcessView {
        pid: signed(u32_at(bytes, 4, order)),
        comm: lossy_utf8(bytes.subrange(8, ENTRY_SIZE as int)),
    }
}

/// The processes that one pass of the iterator gives for a program, in
/// the order read. A pass is what was read at each turn; it ends at the
/// first turn that brought no whole entry: nothing, at the end of the
/// stream, or less than an entry, which breaks the pass off.
pub open spec fn pass_owners(reads: Seq<Vec<u8>>, order: ByteOrder, id: u32) -> Seq<ProcessView>
    decreases reads.len(),
{
    if reads.len() == 0 || reads[0]@.len() != ENTRY_SIZE {
        Seq::empty()
    } else {
        let rest = pass_owners(reads.drop_first(), order, id);
        if entry_id(reads[0]@, order) == id {
            seq![entry_process(reads[0]@, order)] + rest
        } else {
            rest
        }
    }
}

/// Reads four bytes as an unsigned number.
pub fn read_u32(bytes: &[u8], at: usize, order: ByteOrder) -> (r: u32)
    requires
        at + 4 <= bytes.len(),
    ensures
        r == u32_at(bytes@, at as int, order),
{
    let (b0, b1, b2, b3) = match order {
        ByteOrder::Little => (bytes[at], bytes[at + 1], bytes[at + 2], bytes[at + 3]),
        ByteOrder::Big => (bytes[at + 3], bytes[at + 2], bytes[at + 1], bytes[at]),
    };
    b0 as u32 + b1 as u32 * 0x100 + b2 as u32 * 0x1_0000 + b3 as u32 * 0x100_0000
}

/// Reads thirty-two bits as a number in two's complement.
pub fn to_signed(bits: u32) -> (r: i32)
    ensures
        r == signed(bits),
{
    if bits < 0x8000_0000 {
        bits as i32
    } else {
        (bits - 0x8000_0000) as i32 + i32::MIN
    }
}

impl PidIterEntry {
    /// Reads an entry out of bytes: the id in the first four, the process
    /// id in the next four, the command's name in the last sixteen. Bytes
    /// of any other length than an entry's hold none.
    pub fn decode(bytes: &[u8], order: ByteOrder) -> (r: Option<PidIterEntry>)
        ensures
            r is Some <==> bytes@.len() == ENTRY_SIZE,
            r is Some ==> {
                &&& r->0.id == entry_id(bytes@, order)
                &&& r->0.pid == signed(u32_at(bytes@, 4, order))
                &&& r->0.comm@ == bytes@.subrange(8, ENTRY_SIZE as int)
            },
    {
        if bytes.len() != ENTRY_SIZE {
            return None;
        }
        let mut comm = [0u8; 16];
        let mut k: usize = 0;
        while k < 16
            invariant
                k <= 16,
                bytes.len() == ENTRY_SIZE,
                forall|j: int| 0 <= j < k ==> comm[j] == bytes[8 + j],
            decreases 16 - k,
        {
            comm[k] = bytes[8 + k];
            k += 1;
        }
        Some(
            PidIterEntry {
                id: read_u32(bytes, 0, order),
                pid: to_signed(read_u32(bytes, 4, order)),
                comm,
            },
        )
    }

    /// The process that the entry names. The command's name is read as
    /// UTF-8, with the replacement character for what is none.
    pub fn process(&self) -> (r: Process)
        ensures
            r@ == (ProcessView { pid: self.pid, comm: lossy_utf8(self.comm@) }),
    {
        Process { pid: self.pid, comm: from_utf8_lossy(self.comm.as_slice()) }
    }
}

/// Takes in what one turn of reading brought. A whole entry adds its
/// process to the program's list, and reading goes on; anything else
/// changes nothing and ends the pass.
pub fn absorb_read(pid_map: &mut HashMap<u32, Vec<Process>>, chunk: &[u8], order: ByteOrder) -> (more:
    bool)
    ensures
        more == (chunk@.len() == ENTRY_SIZE),
        !more ==> final(pid_map)@ == old(pid_map)@,
        more ==> {
            &&& final(pid_map)@.dom() == old(pid_map)@.dom().insert(entry_id(chunk@, order))
            &&& owners(final(pid_map)@, entry_id(chunk@, order)) == owners(
                old(pid_map)@,
                entry_id(chunk@, order),
            ).push(entry_process(chunk@, order))
            &&& forall|id: u32|
                id != entry_id(chunk@, order) ==> #[trigger] final(pid_map)@.contains_key(id)
                    ==> final(pid_map)@[id] == old(pid_map)@[id]
        },
{
    broadcast use vstd::std_specs::hash::group_hash_axioms;

    match PidIterEntry::decode(chunk, order) {
        Some(entry) => {
            let process = entry.process();
            let mut list = match pid_map.remove(&entry.id) {
                Some(list) => list,
                None => Vec::new(),
            };
            list.push(process);
            pid_map.insert(entry.id, list);
            true
        },
        None => false,
    }
}

/// One pass of the process iterator: the processes of each program, from
/// what was read at each turn. The map holds the programs that the pass
/// named, and no other.
pub fn get_pid_map(reads: &Vec<Vec<u8>>, order: ByteOrder) -> (pid_map: HashMap<u32, Vec<Process>>)
    ensures
        forall|id: u32| #[trigger] owners(pid_map@, id) == pass_owners(reads@, order, id),
        forall|id: u32| #[trigger]
            pid_map@.contains_key(id) <==> pass_owners(reads@, order, id).len() > 0,
{
    let mut pid_map: HashMap<u32, Vec<Process>> = HashMap::new();
    let mut i: usize = 0;
    assert(reads@.subrange(0, reads.len() as int) =~= reads@);
    assert forall|id: u32|
        #[trigger] owners(pid_map@, id) + pass_owners(reads@, order, id) == pass_owners(
            reads@,
            order,
            id,
        ) by {
        assert(owners(pid_map@, id) + pass_owners(reads@, order, id) =~= pass_owners(
            reads@,
            order,
            id,
        ));
    }
    while i < reads.len()
        invariant
            i <= reads.len(),
            forall|id: u32| #[trigger]
                pid_map@.contains_key(id) <==> owners(pid_map@, id).len() > 0,
            forall|id: u32|
                #[trigger] owners(pid_map@, id) + pass_owners(
                    reads@.subrange(i as int, reads.len() as int),
                    order,
                    id,
                ) == pass_owners(reads@, order, id),
        decreases reads.len() - i,
    {
        let ghost rest = reads@.subrange(i as int, reads.len() as int);
        let ghost before = pid_map@;
        assert(rest.drop_first() =~= reads@.subrange(i + 1, reads.len() as int));
        let more = absorb_read(&mut pid_map, reads[i].as_slice(), order);
        if !more {
            assert forall|id: u32| #[trigger] owners(pid_map@, id) == pass_owners(
                reads@,
                order,
                id,
            ) by {}
            return pid_map;
        }
        proof {
            let chunk = reads[i as int]@;
            let key = entry_id(chunk, order);
            assert forall|id: u32|
                #[trigger] owners(pid_map@, id) + pass_owners(rest.drop_first(), order, id)
                    == pass_owners(reads@, order, id) by {
                let tail = pass_owners(rest.drop_first(), order, id);
                if id == key {
                    assert(owners(before, id).push(entry_process(chunk, order)) + tail =~= owners(
                        before,
                        id,
                    ) + (seq![entry_process(chunk, order)] + tail));
                }
                assert(owners(before, id) + pass_owners(rest, order, id) == pass_owners(
                    reads@,
                    order,
                    id,
                ));
            }
        }
        i += 1;
    }
    assert forall|id: u32| #[trigger] owners(pid_map@, id) == pass_owners(reads@, order, id) by {}
    pid_map
}

} // verus!
