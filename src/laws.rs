//! Properties that relate several operations of the library.
use crate::command::{Command, CommandEncoder, EncoderError, EncoderState};
use crate::context::{submit_outcome, BufferInfo, SubmitError};
use crate::pipeline::ceil_div;
use crate::resource::NULL_HANDLE;
use crate::software::{apply_command, run_commands};
use vstd::prelude::*;

verus! {

/// Creating a buffer and destroying it right away leaves the context's live
/// buffers exactly as they were, so nothing leaks, and the handle is then no
/// longer live, so destroying it a second time is refused.
pub proof fn law_create_then_destroy(live: Map<u64, BufferInfo>, raw: u64, info: BufferInfo)
    requires
        raw != NULL_HANDLE,
        !live.contains_key(raw),
    ensures
        live.insert(raw, info).contains_key(raw),
        live.insert(raw, info).remove(raw) == live,
        !live.insert(raw, info).remove(raw).contains_key(raw),
{
    assert(live.insert(raw, info).remove(raw) =~= live);
}

/// For any domain and workgroup width, the dispatch count is the ceiling of
/// their quotient: its groups cover the domain, and one group fewer would not.
pub proof fn law_dispatch_covers(capacity: nat, width: nat)
    requires
        capacity > 0,
        width > 0,
    ensures
        ceil_div(capacity, width) * width >= capacity,
        (ceil_div(capacity, width) - 1) * width < capacity,
        ceil_div(capacity, width) > 0,
{
    let q = capacity / width;
    let r = capacity % width;
    assert(q * width + r == capacity) by (nonlinear_arith)
        requires
            q == capacity / width,
            r == capacity % width,
            width > 0,
    ;
    assert((q + 1) * width == q * width + width) by (nonlinear_arith);
    assert((q - 1) * width == q * width - width) by (nonlinear_arith);
    if r == 0 {
        assert(q > 0) by (nonlinear_arith)
            requires
                q * width == capacity,
                capacity > 0,
                width > 0,
                q >= 0,
        ;
    }
}

/// Submitting an encoder that never began recording is refused; one that
/// began recording but opened no pass is accepted and submits no commands.
pub proof fn law_submit_without_passes(e: CommandEncoder, buffers: Map<u64, BufferInfo>)
    requires
        e.wf(),
        e.commands_spec().len() == 0,
        !e.pass_open_spec(),
    ensures
        e.state_spec() == EncoderState::Empty ==> submit_outcome(e, buffers) == Some(
            SubmitError::Encoder(EncoderError::NotRecording),
        ),
        e.state_spec() == EncoderState::Recording ==> submit_outcome(e, buffers) is None,
{
}

/// Filling the first `size` bytes of a buffer with zero and reading it back
/// gives zero bytes there and leaves the rest of the buffer as it was.
pub proof fn law_fill_zero_reads_back(mem: Map<u64, Seq<u8>>, buffer: u64, size: u64)
    requires
        mem.contains_key(buffer),
        size <= mem[buffer].len(),
    ensures
        ({
            let fill = Command::FillBuffer { buffer, size, value: 0 };
            &&& run_commands(mem, seq![fill]) is Some
            &&& run_commands(mem, seq![fill]) == apply_command(mem, fill)
            &&& forall|i: int|
                0 <= i < size ==> #[trigger] run_commands(mem, seq![fill])->Some_0[buffer][i] == 0u8
            &&& forall|i: int|
                size <= i < mem[buffer].len() ==> #[trigger] run_commands(mem, seq![fill])->Some_0[buffer][i]
                    == mem[buffer][i]
            &&& run_commands(mem, seq![fill])->Some_0[buffer].len() == mem[buffer].len()
        }),
{
    let fill = Command::FillBuffer { buffer, size, value: 0 };
    assert(seq![fill].drop_last() =~= Seq::<Command>::empty());
    assert(run_commands(mem, Seq::<Command>::empty()) == Some(mem));
    assert(run_commands(mem, seq![fill]) == apply_command(mem, fill));
}

} // verus!
