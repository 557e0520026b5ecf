use vstd::prelude::*;
use vstd::string::StringExecFns;

use crate::error::{AffinityError, ProcessNotFoundError};

verus! {

/// One entry of a process snapshot: the identifier and the raw, NUL-padded
/// UTF-16 image file name buffer.
pub struct ProcessEntry {
    pub process_id: u32,
    pub exe_file: Vec<u16>,
}

/// A process whose image file name has been decoded.
pub struct NamedProcess {
    pub process_id: u32,
    pub name: String,
}

/// Index of the first NUL code unit at or after `i`, or the length when there is none.
pub open spec fn nul_index(units: Seq<u16>, i: nat) -> nat
    decreases units.len() - i,
{
    if i >= units.len() {
        units.len()
    } else if units[i as int] == 0 {
        i
    } else {
        nul_index(units, i + 1)
    }
}

/// The code units of a NUL-terminated buffer that precede its terminator.
pub open spec fn exe_units(units: Seq<u16>) -> Seq<u16> {
    units.take(nul_index(units, 0) as int)
}

/// The characters that lossy UTF-16 decoding yields for a run of code units.
pub uninterp spec fn utf16_lossy(units: Seq<u16>) -> Seq<char>;

/// The decoded image file name of a snapshot entry.
pub open spec fn entry_name(entry: ProcessEntry) -> Seq<char> {
    utf16_lossy(exe_units(entry.exe_file@))
}

/// `i` is the first position of `processes` whose name is `name`.
pub open spec fn first_named_at(processes: Seq<NamedProcess>, name: Seq<char>, i: int) -> bool {
    &&& 0 <= i < processes.len()
    &&& processes[i].name@ == name
    &&& forall|j: int| 0 <= j < i ==> processes[j].name@ != name
}

/// `i` is the first position of `snapshot` whose decoded name is `name`.
pub open spec fn first_entry_named_at(snapshot: Seq<ProcessEntry>, name: Seq<char>, i: int) -> bool {
    &&& 0 <= i < snapshot.len()
    &&& entry_name(snapshot[i]) == name
    &&& forall|j: int| 0 <= j < i ==> entry_name(snapshot[j]) != name
}

/// `e` reports that no process is named `name`.
pub open spec fn is_not_found(e: AffinityError, name: Seq<char>) -> bool {
    e matches AffinityError::ProcessNotFoundError(p) && p.process_name@ == name
}

/// Relies on widestring::U16Str::to_string_lossy (String::from_utf16_lossy):
/// decodes UTF-16, replacing invalid sequences; the result depends on the code units alone.
#[verifier::external_body]
fn decode_utf16_lossy(units: &[u16]) -> (r: String)
    ensures
        r@ == utf16_lossy(units@),
{
    widestring::U16Str::from_slice(units).to_string_lossy()
}

/// Decodes the part of a NUL-terminated UTF-16 buffer before its terminator.
pub fn exe_name(exe_file: &Vec<u16>) -> (r: String)
    ensures
        r@ == utf16_lossy(exe_units(exe_file@)),
{
    let mut units: Vec<u16> = Vec::new();
    let mut i: usize = 0;
    while i < exe_file.len()
        invariant
            i <= exe_file@.len(),
            nul_index(exe_file@, i as nat) == nul_index(exe_file@, 0),
            units@ == exe_file@.take(i as int),
        ensures
            i == exe_file@.len() || exe_file@[i as int] == 0,
            nul_index(exe_file@, i as nat) == nul_index(exe_file@, 0),
            units@ == exe_file@.take(i as int),
        decreases exe_file@.len() - i,
    {
        if exe_file[i] == 0 {
            break;
        }
        units.push(exe_file[i]);
        i = i + 1;
        assert(units@ == exe_file@.take(i as int));
    }
    assert(nul_index(exe_file@, i as nat) == i as nat);
    assert(units@ == exe_units(exe_file@));
    decode_utf16_lossy(units.as_slice())
}

/// Resolves a name to the identifier of the first process that bears it.
pub fn find_process_id(processes: &Vec<NamedProcess>, process_name: &str) -> (r: Result<u32, AffinityError>)
    ensures
        match r {
            Ok(pid) => exists|i: int|
                first_named_at(processes@, process_name@, i) && pid == processes@[i].process_id,
            Err(e) => is_not_found(e, process_name@) && forall|i: int|
                0 <= i < processes@.len() ==> processes@[i].name@ != process_name@,
        },
{
    let target = String::from_str(process_name);
    let mut i: usize = 0;
    while i < processes.len()
        invariant
            i <= processes@.len(),
            target@ == process_name@,
            forall|j: int| 0 <= j < i ==> processes@[j].name@ != process_name@,
        decreases processes@.len() - i,
    {
        if processes[i].name == target {
            assert(first_named_at(processes@, process_name@, i as int));
            return Ok(processes[i].process_id);
        }
        i = i + 1;
    }
    Err(AffinityError::ProcessNotFoundError(ProcessNotFoundError::new(process_name)))
}

/// Resolves a name against a process snapshot, in the snapshot's order:
/// the identifier of the first entry whose decoded image name equals it.
pub fn get_process_pid_by_name(snapshot: &Vec<ProcessEntry>, process_name: &str) -> (r: Result<u32, AffinityError>)
    ensures
        match r {
            Ok(pid) => exists|i: int|
                first_entry_named_at(snapshot@, process_name@, i) && pid == snapshot@[i].process_id,
            Err(e) => is_not_found(e, process_name@) && forall|i: int|
                0 <= i < snapshot@.len() ==> entry_name(snapshot@[i]) != process_name@,
        },
{
    let mut processes: Vec<NamedProcess> = Vec::new();
    let mut k: usize = 0;
    while k < snapshot.len()
        invariant
            k <= snapshot@.len(),
            processes@.len() == k,
            forall|j: int| 0 <= j < k ==> {
                &&& processes@[j].name@ == entry_name(snapshot@[j])
                &&& processes@[j].process_id == snapshot@[j].process_id
            },
        decreases snapshot@.len() - k,
    {
        let name = exe_name(&snapshot[k].exe_file);
        processes.push(NamedProcess { process_id: snapshot[k].process_id, name });
        k = k + 1;
    }
    let r = find_process_id(&processes, process_name);
    proof {
        if let Ok(pid) = r {
            let i = choose|i: int| first_named_at(processes@, process_name@, i) && pid == processes@[i].process_id;
            assert(first_entry_named_at(snapshot@, process_name@, i));
        }
    }
    r
}

} // verus!
