use crate::desc::CommandEncoderDesc;
use crate::pipeline::{ComputePipeline, PrimitiveTopology, RenderPipeline};
use crate::resource::{Buffer, NULL_HANDLE};
use vstd::prelude::*;

verus! {

/// One recorded GPU operation, in the order it was issued.
#[derive(Clone, Copy, Debug)]
pub enum Command {
    /// Set `size` bytes from the start of `buffer` to `value`.
    FillBuffer { buffer: u64, size: u64, value: u8 },
    /// Run `groups` workgroups of the compute pipeline `pipeline`.
    Dispatch { pipeline: u64, groups: [u32; 3] },
    /// Draw with the render pipeline `pipeline`.
    Draw {
        pipeline: u64,
        topology: PrimitiveTopology,
        start_vertex: u32,
        vertex_count: u32,
        instance_count: u32,
    },
}

/// The lifecycle of a command encoder.
#[derive(Clone, Copy, Debug, PartialEq, Eq, Structural)]
pub enum EncoderState {
    /// Created, no native command buffer yet.
    Empty,
    /// Holding a native command buffer; passes may be opened in sequence.
    Recording,
    /// The command buffer was handed to the queue; nothing more may be done.
    Submitted,
}

/// Why an encoder operation was refused.
#[derive(Clone, Copy, Debug, PartialEq, Eq, Structural)]
pub enum EncoderError {
    /// The encoder has no command buffer: recording never began.
    NotRecording,
    /// Recording already began.
    AlreadyRecording,
    /// The encoder was submitted before.
    AlreadySubmitted,
    /// A pass is still open on the encoder.
    PassOpen,
    /// No pass is open on the encoder.
    NoPassOpen,
    /// A null handle was given where a live one is needed.
    NullHandle,
    /// No pipeline is bound in the pass.
    NoPipeline,
    /// The pass was not opened on this encoder, or is of another kind than
    /// the pass open on it.
    ForeignPass,
}

/// The kinds of pass an encoder can open.
#[derive(Clone, Copy, Debug, PartialEq, Eq, Structural)]
pub enum PassKind {
    Transfer,
    Compute,
    Render,
}

/// Records commands into one native command buffer, then hands it over once.
pub struct CommandEncoder {
    name: String,
    raw: Option<u64>,
    state: EncoderState,
    open_pass: Option<PassKind>,
    commands: Vec<Command>,
}

impl CommandEncoder {
    pub closed spec fn state_spec(&self) -> EncoderState {
        self.state
    }

    pub closed spec fn raw_spec(&self) -> Option<u64> {
        self.raw
    }

    /// The kind of the pass open on the encoder, if any.
    pub closed spec fn open_kind_spec(&self) -> Option<PassKind> {
        self.open_pass
    }

    pub open spec fn pass_open_spec(&self) -> bool {
        self.open_kind_spec() is Some
    }

    /// What closing a pass of `kind` opened on the command buffer `owner` answers.
    pub open spec fn close_pass_result(&self, owner: u64, kind: PassKind) -> Result<(), EncoderError> {
        match self.open_kind_spec() {
            None => Err(EncoderError::NoPassOpen),
            Some(k) => if self.raw_spec() == Some(owner) && k == kind {
                Ok(())
            } else {
                Err(EncoderError::ForeignPass)
            },
        }
    }

    pub closed spec fn commands_spec(&self) -> Seq<Command> {
        self.commands@
    }

    pub closed spec fn name_spec(&self) -> Seq<char> {
        self.name@
    }

    /// The command buffer is present exactly while recording, and is never null.
    pub open spec fn wf(&self) -> bool {
        &&& (self.state_spec() == EncoderState::Recording) <==> self.raw_spec() is Some
        &&& self.raw_spec() matches Some(r) ==> r != NULL_HANDLE
        &&& self.state_spec() == EncoderState::Empty ==> {
            &&& self.commands_spec().len() == 0
            &&& !self.pass_open_spec()
        }
        &&& self.state_spec() == EncoderState::Submitted ==> !self.pass_open_spec()
    }

    pub fn new(desc: CommandEncoderDesc) -> (r: CommandEncoder)
        ensures
            r.wf(),
            r.state_spec() == EncoderState::Empty,
            r.name_spec() == desc.name@,
    {
        CommandEncoder {
            name: desc.name,
            raw: None,
            state: EncoderState::Empty,
            open_pass: None,
            commands: Vec::new(),
        }
    }

    pub fn state(&self) -> (r: EncoderState)
        ensures
            r == self.state_spec(),
    {
        self.state
    }

    pub fn pass_open(&self) -> (r: bool)
        ensures
            r == self.pass_open_spec(),
    {
        match self.open_pass {
            Some(_) => true,
            None => false,
        }
    }

    pub fn raw(&self) -> (r: Option<u64>)
        ensures
            r == self.raw_spec(),
    {
        self.raw
    }

    pub fn name(&self) -> (r: &str)
        ensures
            r@ == self.name_spec(),
    {
        self.name.as_str()
    }

    /// The commands recorded so far by closed passes.
    pub fn commands(&self) -> (r: &[Command])
        ensures
            r@ == self.commands_spec(),
    {
        self.commands.as_slice()
    }

    /// Starts recording into the native command buffer `raw`.
    pub fn begin(&mut self, raw: u64) -> (r: Result<(), EncoderError>)
        requires
            old(self).wf(),
        ensures
            final(self).wf(),
            final(self).name_spec() == old(self).name_spec(),
            final(self).commands_spec() == old(self).commands_spec(),
            r == (match old(self).state_spec() {
                EncoderState::Empty => if raw == NULL_HANDLE {
                    Err(EncoderError::NullHandle)
                } else {
                    Ok(())
                },
                EncoderState::Recording => Err(EncoderError::AlreadyRecording),
                EncoderState::Submitted => Err(EncoderError::AlreadySubmitted),
            }),
            r is Ok ==> final(self).state_spec() == EncoderState::Recording && final(self).raw_spec()
                == Some(raw) && !final(self).pass_open_spec(),
            r is Err ==> *final(self) == *old(self),
    {
        match self.state {
            EncoderState::Empty => {
                if raw == NULL_HANDLE {
                    return Err(EncoderError::NullHandle);
                }
                self.raw = Some(raw);
                self.state = EncoderState::Recording;
                Ok(())
            },
            EncoderState::Recording => Err(EncoderError::AlreadyRecording),
            EncoderState::Submitted => Err(EncoderError::AlreadySubmitted),
        }
    }

    pub open spec fn open_pass_result(&self) -> Result<(), EncoderError> {
        match self.state_spec() {
            EncoderState::Empty => Err(EncoderError::NotRecording),
            EncoderState::Submitted => Err(EncoderError::AlreadySubmitted),
            EncoderState::Recording => if self.pass_open_spec() {
                Err(EncoderError::PassOpen)
            } else {
                Ok(())
            },
        }
    }

    fn open_pass(&mut self, kind: PassKind) -> (r: Result<u64, EncoderError>)
        requires
            old(self).wf(),
        ensures
            final(self).wf(),
            r is Ok <==> old(self).open_pass_result() is Ok,
            r matches Err(e) ==> old(self).open_pass_result() == Err::<(), EncoderError>(e),
            r matches Ok(owner) ==> final(self).open_kind_spec() == Some(kind) && old(self).raw_spec()
                == Some(owner),
            final(self).state_spec() == old(self).state_spec(),
            final(self).raw_spec() == old(self).raw_spec(),
            final(self).name_spec() == old(self).name_spec(),
            final(self).commands_spec() == old(self).commands_spec(),
            r is Err ==> *final(self) == *old(self),
    {
        match self.state {
            EncoderState::Empty => Err(EncoderError::NotRecording),
            EncoderState::Submitted => Err(EncoderError::AlreadySubmitted),
            EncoderState::Recording => {
                match self.open_pass {
                    Some(_) => Err(EncoderError::PassOpen),
                    None => match self.raw {
                        Some(owner) => {
                            self.open_pass = Some(kind);
                            Ok(owner)
                        },
                        None => Err(EncoderError::NotRecording),
                    },
                }
            },
        }
    }

    /// Closes the open pass and appends what it recorded, in order.
    fn close_pass(&mut self, recorded: Vec<Command>, owner: u64, kind: PassKind) -> (r: Result<(), EncoderError>)
        requires
            old(self).wf(),
        ensures
            final(self).wf(),
            r == old(self).close_pass_result(owner, kind),
            final(self).state_spec() == old(self).state_spec(),
            final(self).raw_spec() == old(self).raw_spec(),
            final(self).name_spec() == old(self).name_spec(),
            r is Ok ==> !final(self).pass_open_spec() && final(self).commands_spec()
                == old(self).commands_spec() + recorded@,
            r is Err ==> *final(self) == *old(self),
    {
        match self.open_pass {
            None => {
                return Err(EncoderError::NoPassOpen);
            },
            Some(k) => {
                let same_owner = match self.raw {
                    Some(raw) => raw == owner,
                    None => false,
                };
                if !same_owner || k != kind {
                    return Err(EncoderError::ForeignPass);
                }
            },
        }
        let mut recorded = recorded;
        self.commands.append(&mut recorded);
        self.open_pass = None;
        Ok(())
    }

    /// Opens a transfer pass; passes are sequential, so none may be open.
    pub fn transfer(&mut self) -> (r: Result<TransferCommandEncoder, EncoderError>)
        requires
            old(self).wf(),
        ensures
            final(self).wf(),
            old(self).open_pass_result() is Ok <==> r is Ok,
            r matches Err(e) ==> old(self).open_pass_result() == Err::<(), EncoderError>(e)
                && *final(self) == *old(self),
            r matches Ok(p) ==> p.commands_spec().len() == 0 && final(self).open_kind_spec() == Some(
                PassKind::Transfer,
            ) && old(self).raw_spec() == Some(p.owner_spec()),
            final(self).state_spec() == old(self).state_spec(),
            final(self).raw_spec() == old(self).raw_spec(),
            final(self).commands_spec() == old(self).commands_spec(),
    {
        match self.open_pass(PassKind::Transfer) {
            Ok(owner) => Ok(TransferCommandEncoder { owner, commands: Vec::new() }),
            Err(e) => Err(e),
        }
    }

    pub fn end_transfer(&mut self, pass: TransferCommandEncoder) -> (r: Result<(), EncoderError>)
        requires
            old(self).wf(),
        ensures
            final(self).wf(),
            r == old(self).close_pass_result(pass.owner_spec(), PassKind::Transfer),
            r is Err ==> *final(self) == *old(self),
            r is Ok ==> !final(self).pass_open_spec() && final(self).commands_spec()
                == old(self).commands_spec() + pass.commands_spec(),
            final(self).state_spec() == old(self).state_spec(),
            final(self).raw_spec() == old(self).raw_spec(),
    {
        self.close_pass(pass.commands, pass.owner, PassKind::Transfer)
    }

    /// Opens a compute pass; passes are sequential, so none may be open.
    pub fn compute(&mut self) -> (r: Result<ComputeCommandEncoder, EncoderError>)
        requires
            old(self).wf(),
        ensures
            final(self).wf(),
            old(self).open_pass_result() is Ok <==> r is Ok,
            r matches Err(e) ==> old(self).open_pass_result() == Err::<(), EncoderError>(e)
                && *final(self) == *old(self),
            r matches Ok(p) ==> p.commands_spec().len() == 0 && p.bound_spec() is None
                && final(self).open_kind_spec() == Some(PassKind::Compute) && old(self).raw_spec() == Some(
                p.owner_spec(),
            ),
            final(self).state_spec() == old(self).state_spec(),
            final(self).raw_spec() == old(self).raw_spec(),
            final(self).commands_spec() == old(self).commands_spec(),
    {
        match self.open_pass(PassKind::Compute) {
            Ok(owner) => Ok(ComputeCommandEncoder { owner, commands: Vec::new(), bound: None }),
            Err(e) => Err(e),
        }
    }

    pub fn end_compute(&mut self, pass: ComputeCommandEncoder) -> (r: Result<(), EncoderError>)
        requires
            old(self).wf(),
        ensures
            final(self).wf(),
            r == old(self).close_pass_result(pass.owner_spec(), PassKind::Compute),
            r is Err ==> *final(self) == *old(self),
            r is Ok ==> !final(self).pass_open_spec() && final(self).commands_spec()
                == old(self).commands_spec() + pass.commands_spec(),
            final(self).state_spec() == old(self).state_spec(),
            final(self).raw_spec() == old(self).raw_spec(),
    {
        self.close_pass(pass.commands, pass.owner, PassKind::Compute)
    }

    /// Opens a render pass; passes are sequential, so none may be open.
    pub fn render(&mut self) -> (r: Result<RenderCommandEncoder, EncoderError>)
        requires
            old(self).wf(),
        ensures
            final(self).wf(),
            old(self).open_pass_result() is Ok <==> r is Ok,
            r matches Err(e) ==> old(self).open_pass_result() == Err::<(), EncoderError>(e)
                && *final(self) == *old(self),
            r matches Ok(p) ==> p.commands_spec().len() == 0 && p.bound_spec() is None
                && final(self).open_kind_spec() == Some(PassKind::Render) && old(self).raw_spec() == Some(
                p.owner_spec(),
            ),
            final(self).state_spec() == old(self).state_spec(),
            final(self).raw_spec() == old(self).raw_spec(),
            final(self).commands_spec() == old(self).commands_spec(),
    {
        match self.open_pass(PassKind::Render) {
            Ok(owner) => Ok(RenderCommandEncoder { owner, commands: Vec::new(), bound: None }),
            Err(e) => Err(e),
        }
    }

    pub fn end_render(&mut self, pass: RenderCommandEncoder) -> (r: Result<(), EncoderError>)
        requires
            old(self).wf(),
        ensures
            final(self).wf(),
            r == old(self).close_pass_result(pass.owner_spec(), PassKind::Render),
            r is Err ==> *final(self) == *old(self),
            r is Ok ==> !final(self).pass_open_spec() && final(self).commands_spec()
                == old(self).commands_spec() + pass.commands_spec(),
            final(self).state_spec() == old(self).state_spec(),
            final(self).raw_spec() == old(self).raw_spec(),
    {
        self.close_pass(pass.commands, pass.owner, PassKind::Render)
    }

    /// Takes the command buffer and the recorded commands out of a recording
    /// encoder with no open pass, leaving it submitted.
    pub(crate) fn take_for_submit(&mut self) -> (r: Result<Submission, EncoderError>)
        requires
            old(self).wf(),
        ensures
            final(self).wf(),
            r == Err::<Submission, EncoderError>(EncoderError::NotRecording) <==> old(self).state_spec()
                == EncoderState::Empty,
            r == Err::<Submission, EncoderError>(EncoderError::AlreadySubmitted) <==> old(self).state_spec()
                == EncoderState::Submitted,
            r == Err::<Submission, EncoderError>(EncoderError::PassOpen) <==> (old(self).state_spec()
                == EncoderState::Recording && old(self).pass_open_spec()),
            r is Err ==> *final(self) == *old(self),
            r is Ok <==> (old(self).state_spec() == EncoderState::Recording && !old(self).pass_open_spec()),
            r matches Ok(s) ==> {
                &&& old(self).state_spec() == EncoderState::Recording
                &&& old(self).raw_spec() == Some(s.raw)
                &&& s.commands@ == old(self).commands_spec()
                &&& final(self).state_spec() == EncoderState::Submitted
                &&& final(self).raw_spec() is None
                &&& final(self).commands_spec().len() == 0
            },
    {
        match self.state {
            EncoderState::Empty => Err(EncoderError::NotRecording),
            EncoderState::Submitted => Err(EncoderError::AlreadySubmitted),
            EncoderState::Recording => {
                if self.open_pass.is_some() {
                    return Err(EncoderError::PassOpen);
                }
                let raw = match self.raw.take() {
                    Some(raw) => raw,
                    None => {
                        return Err(EncoderError::NotRecording);
                    },
                };
                let mut commands: Vec<Command> = Vec::new();
                std::mem::swap(&mut commands, &mut self.commands);
                self.state = EncoderState::Submitted;
                Ok(Submission { raw, commands })
            },
        }
    }
}

/// A submitted command buffer and the commands recorded into it, in order.
pub struct Submission {
    pub raw: u64,
    pub commands: Vec<Command>,
}

/// A pass that fills buffers.
pub struct TransferCommandEncoder {
    owner: u64,
    commands: Vec<Command>,
}

impl TransferCommandEncoder {
    /// The command buffer of the encoder the pass was opened on.
    pub closed spec fn owner_spec(&self) -> u64 {
        self.owner
    }

    pub closed spec fn commands_spec(&self) -> Seq<Command> {
        self.commands@
    }

    /// Schedules setting the first `size` bytes of `buffer` to `value`.
    /// The null handle is refused before anything is recorded.
    pub fn fill_buffer(&mut self, buffer: Buffer, size: u64, value: u8) -> (r: Result<(), EncoderError>)
        ensures
            final(self).owner_spec() == old(self).owner_spec(),
            buffer.is_null_spec() <==> r is Err,
            r is Err ==> r == Err::<(), EncoderError>(EncoderError::NullHandle)
                && final(self).commands_spec() == old(self).commands_spec(),
            r is Ok ==> final(self).commands_spec() == old(self).commands_spec().push(
                Command::FillBuffer { buffer: buffer.id(), size, value },
            ),
    {
        if buffer.is_null() {
            return Err(EncoderError::NullHandle);
        }
        self.commands.push(Command::FillBuffer { buffer: buffer.raw(), size, value });
        Ok(())
    }
}

/// A pass that runs compute pipelines.
pub struct ComputeCommandEncoder {
    owner: u64,
    commands: Vec<Command>,
    bound: Option<u64>,
}

impl ComputeCommandEncoder {
    /// The command buffer of the encoder the pass was opened on.
    pub closed spec fn owner_spec(&self) -> u64 {
        self.owner
    }

    pub closed spec fn commands_spec(&self) -> Seq<Command> {
        self.commands@
    }

    /// The compute pipeline that dispatches go to.
    pub closed spec fn bound_spec(&self) -> Option<u64> {
        self.bound
    }

    pub fn with(&mut self, pipeline: &ComputePipeline)
        ensures
            final(self).owner_spec() == old(self).owner_spec(),
            final(self).bound_spec() == Some(pipeline.id()),
            final(self).commands_spec() == old(self).commands_spec(),
    {
        self.bound = Some(pipeline.raw());
    }

    /// Schedules `groups` workgroups of the bound pipeline.
    pub fn dispatch(&mut self, groups: [u32; 3]) -> (r: Result<(), EncoderError>)
        ensures
            final(self).owner_spec() == old(self).owner_spec(),
            final(self).bound_spec() == old(self).bound_spec(),
            old(self).bound_spec() is None <==> r is Err,
            r is Err ==> r == Err::<(), EncoderError>(EncoderError::NoPipeline)
                && final(self).commands_spec() == old(self).commands_spec(),
            old(self).bound_spec() matches Some(p) ==> final(self).commands_spec()
                == old(self).commands_spec().push(Command::Dispatch { pipeline: p, groups }),
    {
        match self.bound {
            None => Err(EncoderError::NoPipeline),
            Some(p) => {
                self.commands.push(Command::Dispatch { pipeline: p, groups });
                Ok(())
            },
        }
    }
}

/// The render pipeline bound in a render pass, with what draws need of it.
#[derive(Clone, Copy, Debug, PartialEq, Eq, Structural)]
pub struct RenderPipelineContext {
    pub pipeline: u64,
    pub topology: PrimitiveTopology,
}

/// A pass that draws with render pipelines.
pub struct RenderCommandEncoder {
    owner: u64,
    commands: Vec<Command>,
    bound: Option<RenderPipelineContext>,
}

impl RenderCommandEncoder {
    /// The command buffer of the encoder the pass was opened on.
    pub closed spec fn owner_spec(&self) -> u64 {
        self.owner
    }

    pub closed spec fn commands_spec(&self) -> Seq<Command> {
        self.commands@
    }

    pub closed spec fn bound_spec(&self) -> Option<RenderPipelineContext> {
        self.bound
    }

    pub fn with(&mut self, pipeline: &RenderPipeline)
        ensures
            final(self).owner_spec() == old(self).owner_spec(),
            final(self).bound_spec() == Some(
                RenderPipelineContext { pipeline: pipeline.id(), topology: pipeline.primitive_spec().topology },
            ),
            final(self).commands_spec() == old(self).commands_spec(),
    {
        self.bound = Some(
            RenderPipelineContext { pipeline: pipeline.raw(), topology: pipeline.primitive().topology },
        );
    }

    /// Draws `vertex_count` vertices from `start_vertex`, `instance_count` times,
    /// with the bound pipeline's topology.
    pub fn draw(&mut self, start_vertex: u32, vertex_count: u32, instance_count: u32) -> (r: Result<(), EncoderError>)
        ensures
            final(self).owner_spec() == old(self).owner_spec(),
            final(self).bound_spec() == old(self).bound_spec(),
            old(self).bound_spec() is None <==> r is Err,
            r is Err ==> r == Err::<(), EncoderError>(EncoderError::NoPipeline)
                && final(self).commands_spec() == old(self).commands_spec(),
            old(self).bound_spec() matches Some(b) ==> final(self).commands_spec()
                == old(self).commands_spec().push(
                Command::Draw {
                    pipeline: b.pipeline,
                    topology: b.topology,
                    start_vertex,
                    vertex_count,
                    instance_count,
                },
            ),
    {
        match self.bound {
            None => Err(EncoderError::NoPipeline),
            Some(b) => {
                self.commands.push(
                    Command::Draw {
                        pipeline: b.pipeline,
                        topology: b.topology,
                        start_vertex,
                        vertex_count,
                        instance_count,
                    },
                );
                Ok(())
            },
        }
    }
}

} // verus!
