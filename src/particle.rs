use crate::command::{Command, CommandEncoder, EncoderError, EncoderState, TransferCommandEncoder};
use crate::context::{BufferInfo, Context, ResourceError};
use crate::desc::{BufferDesc, Memory};
use crate::pipeline::{ceil_div, dispatch_count, ComputePipeline, RenderPipeline};
use crate::resource::{Buffer, NULL_HANDLE};
use vstd::prelude::*;

verus! {

/// Bytes in one particle record: position, velocity, rotation and its
/// velocity (two 4-byte lanes each), scale and its velocity, color and age.
pub const PARTICLE_SIZE: u64 = 48;

pub struct SystemDesc {
    pub name: String,
    pub capacity: usize,
}

/// The three pipelines a particle system runs, built from one shader module.
pub struct ParticlePipelines {
    pub emit: ComputePipeline,
    pub update: ComputePipeline,
    pub draw: RenderPipeline,
}

/// A particle system: one buffer of `capacity` records and its pipelines.
pub struct System {
    capacity: usize,
    particle_buf: Buffer,
    emit_pipeline: ComputePipeline,
    update_pipeline: ComputePipeline,
    draw_pipeline: RenderPipeline,
}

pub open spec fn particle_bytes(capacity: nat) -> nat {
    capacity * PARTICLE_SIZE as nat
}

impl System {
    pub closed spec fn capacity_spec(&self) -> nat {
        self.capacity as nat
    }

    pub closed spec fn buffer_spec(&self) -> Buffer {
        self.particle_buf
    }

    pub closed spec fn update_pipeline_spec(&self) -> ComputePipeline {
        self.update_pipeline
    }

    pub closed spec fn emit_pipeline_spec(&self) -> ComputePipeline {
        self.emit_pipeline
    }

    pub closed spec fn draw_pipeline_spec(&self) -> RenderPipeline {
        self.draw_pipeline
    }

    /// The update pipeline's workgroup width.
    pub open spec fn group_width(&self) -> nat {
        self.update_pipeline_spec().workgroup_size_spec()[0] as nat
    }

    pub open spec fn wf(&self) -> bool {
        &&& !self.buffer_spec().is_null_spec()
        &&& self.group_width() > 0
        &&& self.capacity_spec() <= u32::MAX
        &&& particle_bytes(self.capacity_spec()) <= u64::MAX
    }

    /// The descriptor of the particle buffer.
    pub fn buffer_desc(desc: &SystemDesc) -> (r: BufferDesc)
        requires
            particle_bytes(desc.capacity as nat) <= u64::MAX,
        ensures
            r.name@ == desc.name@,
            r.size as nat == particle_bytes(desc.capacity as nat),
            r.memory == Memory::Device,
    {
        BufferDesc {
            name: desc.name.clone(),
            size: desc.capacity as u64 * PARTICLE_SIZE,
            memory: Memory::Device,
        }
    }

    /// Registers the particle buffer `buffer_raw` with the context and keeps
    /// the pipelines. The update pipeline needs a non-zero workgroup width.
    pub fn new(context: &mut Context, desc: SystemDesc, buffer_raw: u64, pipelines: ParticlePipelines) -> (r:
        Result<System, ResourceError>)
        requires
            old(context).wf(),
            desc.capacity <= u32::MAX,
            particle_bytes(desc.capacity as nat) <= u64::MAX,
        ensures
            final(context).wf(),
            pipelines.update.workgroup_size_spec()[0] == 0 ==> r == Err::<System, ResourceError>(
                ResourceError::InvalidDescriptor,
            ) && *final(context) == *old(context),
            pipelines.update.workgroup_size_spec()[0] != 0 && buffer_raw == NULL_HANDLE ==> r
                == Err::<System, ResourceError>(ResourceError::DeviceError),
            pipelines.update.workgroup_size_spec()[0] != 0 && buffer_raw != NULL_HANDLE
                && old(context).buffers_spec().contains_key(buffer_raw) ==> r == Err::<System, ResourceError>(
                ResourceError::AlreadyRegistered,
            ),
            r is Err ==> final(context).buffers_spec() == old(context).buffers_spec(),
            pipelines.update.workgroup_size_spec()[0] != 0 && buffer_raw != NULL_HANDLE
                && !old(context).buffers_spec().contains_key(buffer_raw) ==> r is Ok,
            r matches Ok(s) ==> {
                &&& s.wf()
                &&& s.capacity_spec() == desc.capacity
                &&& s.buffer_spec().id() == buffer_raw
                &&& s.update_pipeline_spec() == pipelines.update
                &&& s.emit_pipeline_spec() == pipelines.emit
                &&& s.draw_pipeline_spec() == pipelines.draw
                &&& final(context).buffers_spec() == old(context).buffers_spec().insert(
                    buffer_raw,
                    BufferInfo { size: (desc.capacity * PARTICLE_SIZE) as u64, memory: Memory::Device },
                )
            },
    {
        let wg = pipelines.update.get_workgroup_size();
        if wg[0] == 0 {
            return Err(ResourceError::InvalidDescriptor);
        }
        let bdesc = Self::buffer_desc(&desc);
        let particle_buf = match context.create_buffer(&bdesc, buffer_raw) {
            Ok(b) => b,
            Err(e) => {
                return Err(e);
            },
        };
        Ok(System {
            capacity: desc.capacity,
            particle_buf,
            emit_pipeline: pipelines.emit,
            update_pipeline: pipelines.update,
            draw_pipeline: pipelines.draw,
        })
    }

    pub fn capacity(&self) -> (r: usize)
        ensures
            r == self.capacity_spec(),
    {
        self.capacity
    }

    pub fn buffer(&self) -> (r: Buffer)
        ensures
            r == self.buffer_spec(),
    {
        self.particle_buf
    }

    pub fn emit_pipeline(&self) -> (r: &ComputePipeline)
        ensures
            *r == self.emit_pipeline_spec(),
    {
        &self.emit_pipeline
    }

    pub fn update_pipeline(&self) -> (r: &ComputePipeline)
        ensures
            *r == self.update_pipeline_spec(),
    {
        &self.update_pipeline
    }

    pub fn draw_pipeline(&self) -> (r: &RenderPipeline)
        ensures
            *r == self.draw_pipeline_spec(),
    {
        &self.draw_pipeline
    }

    /// Records zeroing the whole particle buffer.
    pub fn reset(&self, encoder: &mut TransferCommandEncoder) -> (r: Result<(), EncoderError>)
        requires
            self.wf(),
        ensures
            r is Ok,
            final(encoder).owner_spec() == old(encoder).owner_spec(),
            final(encoder).commands_spec() == old(encoder).commands_spec().push(
                Command::FillBuffer {
                    buffer: self.buffer_spec().id(),
                    size: particle_bytes(self.capacity_spec()) as u64,
                    value: 0,
                },
            ),
    {
        encoder.fill_buffer(self.particle_buf, self.capacity as u64 * PARTICLE_SIZE, 0)
    }

    /// The number of update workgroups: enough to cover every particle.
    pub fn update_group_count(&self) -> (r: u32)
        requires
            self.wf(),
        ensures
            r as nat == ceil_div(self.capacity_spec(), self.group_width()),
            r as nat * self.group_width() >= self.capacity_spec(),
    {
        let wg = self.update_pipeline.get_workgroup_size();
        dispatch_count(self.capacity as u32, wg[0])
    }

    /// Records one compute pass that dispatches the update pipeline over all
    /// particles.
    pub fn update(&self, encoder: &mut CommandEncoder) -> (r: Result<(), EncoderError>)
        requires
            self.wf(),
            old(encoder).wf(),
        ensures
            final(encoder).wf(),
            r == old(encoder).open_pass_result(),
            r is Err ==> *final(encoder) == *old(encoder),
            r is Ok ==> {
                &&& final(encoder).state_spec() == EncoderState::Recording
                &&& !final(encoder).pass_open_spec()
                &&& final(encoder).raw_spec() == old(encoder).raw_spec()
                &&& final(encoder).commands_spec() == old(encoder).commands_spec().push(
                    Command::Dispatch {
                        pipeline: self.update_pipeline_spec().id(),
                        groups: [ceil_div(self.capacity_spec(), self.group_width()) as u32, 1u32, 1u32],
                    },
                )
            },
    {
        let mut pass = match encoder.compute() {
            Ok(p) => p,
            Err(e) => {
                return Err(e);
            },
        };
        pass.with(&self.update_pipeline);
        let count = self.update_group_count();
        let _ = pass.dispatch([count, 1, 1]);
        let ghost recorded = pass.commands_spec();
        let ended = encoder.end_compute(pass);
        assert(ended is Ok);
        assert(recorded =~= seq![
            Command::Dispatch {
                pipeline: self.update_pipeline_spec().id(),
                groups: [ceil_div(self.capacity_spec(), self.group_width()) as u32, 1u32, 1u32],
            },
        ]);
        Ok(())
    }

    /// Returns the particle buffer to the context.
    pub fn delete(self, context: &mut Context) -> (r: Result<(), ResourceError>)
        requires
            old(context).wf(),
        ensures
            final(context).wf(),
            old(context).buffers_spec().contains_key(self.buffer_spec().id()) <==> r is Ok,
            r is Ok ==> final(context).buffers_spec() == old(context).buffers_spec().remove(
                self.buffer_spec().id(),
            ),
            r is Err ==> final(context).buffers_spec() == old(context).buffers_spec(),
            r is Err ==> r == Err::<(), ResourceError>(
                if self.buffer_spec().is_null_spec() {
                    ResourceError::NullHandle
                } else {
                    ResourceError::NotLive
                },
            ),
    {
        context.destroy_buffer(self.particle_buf)
    }
}

} // verus!
