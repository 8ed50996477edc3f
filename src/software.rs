use crate::command::Command;
use crate::context::ResourceError;
use crate::resource::NULL_HANDLE;
use std::collections::HashMap;
use vstd::prelude::*;

verus! {

broadcast use vstd::std_specs::hash::group_hash_axioms;

/// `s` with its first `size` bytes set to `value`.
pub open spec fn fill_spec(s: Seq<u8>, size: nat, value: u8) -> Seq<u8> {
    Seq::new(s.len(), |i: int| if i < size { value } else { s[i] })
}

/// The memory after one command, or `None` if the command cannot run on it.
pub open spec fn apply_command(mem: Map<u64, Seq<u8>>, c: Command) -> Option<Map<u64, Seq<u8>>> {
    match c {
        Command::FillBuffer { buffer, size, value } => if mem.contains_key(buffer) && size
            <= mem[buffer].len() {
            Some(mem.insert(buffer, fill_spec(mem[buffer], size as nat, value)))
        } else {
            None
        },
        _ => Some(mem),
    }
}

/// The memory after running `cmds` in order, or `None` if one of them cannot run.
pub open spec fn run_commands(mem: Map<u64, Seq<u8>>, cmds: Seq<Command>) -> Option<Map<u64, Seq<u8>>>
    decreases cmds.len(),
{
    if cmds.len() == 0 {
        Some(mem)
    } else {
        match run_commands(mem, cmds.drop_last()) {
            Some(m) => apply_command(m, cmds.last()),
            None => None,
        }
    }
}

/// A command could not run on the software device.
#[derive(Clone, Copy, Debug, PartialEq, Eq, Structural)]
pub struct ExecError;

/// A backend that keeps buffer contents in host memory and runs the transfer
/// commands of a submission; compute and draw commands leave memory as it is.
pub struct SoftwareDevice {
    memory: HashMap<u64, Vec<u8>>,
}

impl SoftwareDevice {
    pub closed spec fn memory_spec(&self) -> Map<u64, Seq<u8>> {
        self.memory@.map_values(|v: Vec<u8>| v@)
    }

    pub fn new() -> (r: SoftwareDevice)
        ensures
            r.memory_spec().is_empty(),
    {
        let r = SoftwareDevice { memory: HashMap::new() };
        assert(r.memory_spec() =~= Map::empty());
        r
    }

    /// Backs the buffer `raw` with `contents`.
    pub fn allocate(&mut self, raw: u64, contents: Vec<u8>) -> (r: Result<(), ResourceError>)
        ensures
            raw == NULL_HANDLE ==> r == Err::<(), ResourceError>(ResourceError::NullHandle),
            raw != NULL_HANDLE && old(self).memory_spec().contains_key(raw)
                ==> r == Err::<(), ResourceError>(ResourceError::AlreadyRegistered),
            r is Err ==> final(self).memory_spec() == old(self).memory_spec(),
            raw != NULL_HANDLE && !old(self).memory_spec().contains_key(raw) ==> r is Ok
                && final(self).memory_spec() == old(self).memory_spec().insert(raw, contents@),
    {
        if raw == NULL_HANDLE {
            return Err(ResourceError::NullHandle);
        }
        if self.memory.contains_key(&raw) {
            return Err(ResourceError::AlreadyRegistered);
        }
        let ghost c = contents@;
        self.memory.insert(raw, contents);
        assert(self.memory_spec() =~= old(self).memory_spec().insert(raw, c));
        Ok(())
    }

    /// Reads back the contents of the buffer `raw`.
    pub fn read(&self, raw: u64) -> (r: Option<Vec<u8>>)
        ensures
            r is Some <==> self.memory_spec().contains_key(raw),
            r matches Some(v) ==> v@ == self.memory_spec()[raw],
    {
        match self.memory.get(&raw) {
            Some(v) => {
                let mut out: Vec<u8> = Vec::new();
                let mut i: usize = 0;
                while i < v.len()
                    invariant
                        0 <= i <= v@.len(),
                        out@ == v@.subrange(0, i as int),
                    decreases v@.len() - i,
                {
                    out.push(v[i]);
                    i = i + 1;
                    assert(out@ =~= v@.subrange(0, i as int));
                }
                assert(out@ =~= v@);
                Some(out)
            },
            None => None,
        }
    }

    /// Runs one command.
    pub fn execute_command(&mut self, c: &Command) -> (r: Result<(), ExecError>)
        ensures
            r is Ok <==> apply_command(old(self).memory_spec(), *c) is Some,
            r is Ok ==> Some(final(self).memory_spec()) == apply_command(old(self).memory_spec(), *c),
            r is Err ==> final(self).memory_spec() == old(self).memory_spec(),
    {
        match c {
            Command::FillBuffer { buffer, size, value } => {
                let buffer = *buffer;
                let size = *size;
                let value = *value;
                let mut v = match self.memory.remove(&buffer) {
                    Some(v) => v,
                    None => {
                        return Err(ExecError);
                    },
                };
                let ghost orig = v@;
                if size > v.len() as u64 {
                    self.memory.insert(buffer, v);
                    assert(self.memory_spec() =~= old(self).memory_spec());
                    return Err(ExecError);
                }
                let n = size as usize;
                let mut j: usize = 0;
                while j < n
                    invariant
                        0 <= j <= n,
                        n == size,
                        n <= orig.len(),
                        v@ == Seq::new(orig.len(), |i: int| if i < j { value } else { orig[i] }),
                    decreases n - j,
                {
                    v.set(j, value);
                    j = j + 1;
                    assert(v@ =~= Seq::new(orig.len(), |i: int| if i < j { value } else { orig[i] }));
                }
                assert(v@ =~= fill_spec(orig, size as nat, value));
                assert(orig == old(self).memory_spec()[buffer]);
                self.memory.insert(buffer, v);
                assert(self.memory_spec() =~= old(self).memory_spec().insert(
                    buffer,
                    fill_spec(orig, size as nat, value),
                ));
                Ok(())
            },
            _ => Ok(()),
        }
    }

    /// Runs `cmds` in order; fails when one of them cannot run.
    pub fn execute(&mut self, cmds: &[Command]) -> (r: Result<(), ExecError>)
        ensures
            r is Ok <==> run_commands(old(self).memory_spec(), cmds@) is Some,
            r is Ok ==> Some(final(self).memory_spec()) == run_commands(old(self).memory_spec(), cmds@),
    {
        let mut i: usize = 0;
        while i < cmds.len()
            invariant
                0 <= i <= cmds@.len(),
                Some(self.memory_spec()) == run_commands(old(self).memory_spec(), cmds@.subrange(0, i as int)),
            decreases cmds@.len() - i,
        {
            let ghost before = self.memory_spec();
            proof {
                assert(cmds@.subrange(0, i + 1).drop_last() =~= cmds@.subrange(0, i as int));
            }
            match self.execute_command(&cmds[i]) {
                Ok(()) => {},
                Err(e) => {
                    proof {
                        lemma_run_stays_failed(old(self).memory_spec(), cmds@, i as int + 1);
                    }
                    return Err(e);
                },
            }
            i = i + 1;
        }
        assert(cmds@.subrange(0, cmds@.len() as int) =~= cmds@);
        Ok(())
    }
}

/// Once a prefix of the commands fails, every longer prefix fails too.
proof fn lemma_run_stays_failed(mem: Map<u64, Seq<u8>>, cmds: Seq<Command>, k: int)
    requires
        0 <= k <= cmds.len(),
        run_commands(mem, cmds.subrange(0, k)) is None,
    ensures
        run_commands(mem, cmds) is None,
    decreases cmds.len() - k,
{
    if k < cmds.len() {
        assert(cmds.subrange(0, k + 1).drop_last() =~= cmds.subrange(0, k));
        lemma_run_stays_failed(mem, cmds, k + 1);
    } else {
        assert(cmds.subrange(0, k) =~= cmds);
    }
}

} // verus!
