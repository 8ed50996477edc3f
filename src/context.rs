
use crate::desc::{BufferDesc, CommandEncoderDesc, ContextDesc, Memory, NotSupportedError, TextureDesc, TextureFormat, TextureViewDesc};
use crate::resource::{Buffer, ResourceOptions, Texture, TextureView, NULL_HANDLE};
use std::collections::HashMap;
use crate::command::{Command, CommandEncoder, EncoderError, EncoderState, Submission};
use vstd::prelude::*;

verus! {

broadcast use vstd::std_specs::hash::group_hash_axioms;

/// What the context knows of a live buffer.
#[derive(Clone, Copy, Debug, PartialEq, Eq, Structural)]
pub struct BufferInfo {
    pub size: u64,
    pub memory: Memory,
}

/// What the context knows of a live texture.
#[derive(Clone, Copy, Debug, PartialEq, Eq, Structural)]
pub struct TextureInfo {
    pub format: TextureFormat,
    pub width: u32,
    pub height: u32,
    pub mip_level_count: u32,
}

/// Why a resource operation was refused.
#[derive(Clone, Copy, Debug, PartialEq, Eq, Structural)]
pub enum ResourceError {
    /// The handle is the null handle.
    NullHandle,
    /// The handle names no live resource of this context (never created, or destroyed).
    NotLive,
    /// The native object handed in is already registered.
    AlreadyRegistered,
    /// The driver returned no object.
    DeviceError,
    /// The descriptor is not valid.
    InvalidDescriptor,
}

/// The length of the full mip chain of an image whose largest side is `n`.
pub open spec fn max_mip_levels(n: nat) -> nat
    decreases n,
{
    if n <= 1 {
        1
    } else {
        1 + max_mip_levels(n / 2)
    }
}

pub open spec fn texture_desc_valid(d: TextureDesc) -> bool {
    let side: nat = if d.width >= d.height { d.width as nat } else { d.height as nat };
    &&& d.width > 0
    &&& d.height > 0
    &&& 1 <= d.mip_level_count <= max_mip_levels(side)
}

/// Computes `max_mip_levels(n)`.
pub fn mip_chain_length(n: u32) -> (r: u64)
    ensures
        r as nat == max_mip_levels(n as nat),
{
    let mut m: u32 = n;
    let mut count: u64 = 1;
    while m > 1
        invariant
            count as nat + max_mip_levels(m as nat) == max_mip_levels(n as nat) + 1,
            count as nat + m as nat <= n as nat + 1,
            count >= 1,
        decreases m,
    {
        m = m / 2;
        count = count + 1;
    }
    count
}

/// Why a submission was refused.
#[derive(Clone, Copy, Debug, PartialEq, Eq, Structural)]
pub enum SubmitError {
    /// The encoder is not in a state that can be submitted.
    Encoder(EncoderError),
    /// A recorded command names a buffer that is not live, or reaches past its end.
    InvalidCommand,
}

/// A command can run against the live buffers `buffers`.
pub open spec fn command_valid(c: Command, buffers: Map<u64, BufferInfo>) -> bool {
    match c {
        Command::FillBuffer { buffer, size, value } => buffers.contains_key(buffer) && size
            <= buffers[buffer].size,
        _ => true,
    }
}

pub open spec fn all_commands_valid(cmds: Seq<Command>, buffers: Map<u64, BufferInfo>) -> bool {
    forall|i: int| 0 <= i < cmds.len() ==> #[trigger] command_valid(cmds[i], buffers)
}

/// What `submit` answers for an encoder, against the live buffers.
pub open spec fn submit_outcome(e: CommandEncoder, buffers: Map<u64, BufferInfo>) -> Option<SubmitError> {
    match e.state_spec() {
        EncoderState::Empty => Some(SubmitError::Encoder(EncoderError::NotRecording)),
        EncoderState::Submitted => Some(SubmitError::Encoder(EncoderError::AlreadySubmitted)),
        EncoderState::Recording => if e.pass_open_spec() {
            Some(SubmitError::Encoder(EncoderError::PassOpen))
        } else if !all_commands_valid(e.commands_spec(), buffers) {
            Some(SubmitError::InvalidCommand)
        } else {
            None
        },
    }
}

/// What the driver is asked to allocate for a buffer.
pub struct BufferPlan {
    pub size: u64,
    pub options: ResourceOptions,
    /// The debug label, present only for a non-empty name.
    pub label: Option<String>,
}

/// The root object: the single authority for creating and destroying
/// resources, which it tracks by native handle.
pub struct Context {
    validation: bool,
    buffers: HashMap<u64, BufferInfo>,
    textures: HashMap<u64, TextureInfo>,
    views: HashMap<u64, u64>,
}

impl Context {
    pub closed spec fn buffers_spec(&self) -> Map<u64, BufferInfo> {
        self.buffers@
    }

    pub closed spec fn textures_spec(&self) -> Map<u64, TextureInfo> {
        self.textures@
    }

    /// Live texture views, each with the texture it reads.
    pub closed spec fn views_spec(&self) -> Map<u64, u64> {
        self.views@
    }

    pub closed spec fn validation_spec(&self) -> bool {
        self.validation
    }

    /// The null handle is never registered.
    pub open spec fn wf(&self) -> bool {
        &&& !self.buffers_spec().contains_key(NULL_HANDLE)
        &&& !self.textures_spec().contains_key(NULL_HANDLE)
        &&& !self.views_spec().contains_key(NULL_HANDLE)
    }

    /// Builds a context once the native device lookup has been made;
    /// `device_found` is its outcome.
    pub fn init(desc: ContextDesc, device_found: bool) -> (r: Result<Context, NotSupportedError>)
        ensures
            r is Err <==> !device_found,
            r matches Ok(c) ==> {
                &&& c.wf()
                &&& c.validation_spec() == desc.validation
                &&& c.buffers_spec().is_empty()
                &&& c.textures_spec().is_empty()
                &&& c.views_spec().is_empty()
            },
    {
        if !device_found {
            return Err(NotSupportedError);
        }
        let c = Context {
            validation: desc.validation,
            buffers: HashMap::new(),
            textures: HashMap::new(),
            views: HashMap::new(),
        };
        assert(c.buffers_spec() =~= Map::empty());
        assert(c.textures_spec() =~= Map::empty());
        assert(c.views_spec() =~= Map::empty());
        Ok(c)
    }

    pub fn validation(&self) -> (r: bool)
        ensures
            r == self.validation_spec(),
    {
        self.validation
    }

    /// What the driver must allocate for `desc`.
    pub fn plan_buffer(desc: &BufferDesc) -> (r: BufferPlan)
        ensures
            r.size == desc.size,
            r.options == crate::resource::options_for(desc.memory),
            desc.name@.len() == 0 ==> r.label is None,
            desc.name@.len() != 0 ==> (r.label matches Some(l) && l@ == desc.name@),
    {
        let label = if desc.name.as_str().is_empty() {
            None
        } else {
            Some(desc.name.clone())
        };
        BufferPlan { size: desc.size, options: ResourceOptions::for_memory(desc.memory), label }
    }

    pub fn is_live_buffer(&self, buffer: Buffer) -> (r: bool)
        ensures
            r == self.buffers_spec().contains_key(buffer.id()),
    {
        self.buffers.contains_key(&buffer.raw())
    }

    pub fn buffer_info(&self, buffer: Buffer) -> (r: Option<BufferInfo>)
        ensures
            r == (if self.buffers_spec().contains_key(buffer.id()) {
                Some(self.buffers_spec()[buffer.id()])
            } else {
                None::<BufferInfo>
            }),
    {
        match self.buffers.get(&buffer.raw()) {
            Some(info) => Some(*info),
            None => None,
        }
    }

    /// Registers the native buffer `raw` that the driver allocated for `desc`.
    pub fn create_buffer(&mut self, desc: &BufferDesc, raw: u64) -> (r: Result<Buffer, ResourceError>)
        requires
            old(self).wf(),
        ensures
            final(self).wf(),
            final(self).validation_spec() == old(self).validation_spec(),
            final(self).textures_spec() == old(self).textures_spec(),
            final(self).views_spec() == old(self).views_spec(),
            raw == NULL_HANDLE ==> r == Err::<Buffer, ResourceError>(ResourceError::DeviceError),
            raw != NULL_HANDLE && old(self).buffers_spec().contains_key(raw)
                ==> r == Err::<Buffer, ResourceError>(ResourceError::AlreadyRegistered),
            r is Err ==> final(self).buffers_spec() == old(self).buffers_spec(),
            raw != NULL_HANDLE && !old(self).buffers_spec().contains_key(raw) ==> {
                &&& (r matches Ok(b) && b.id() == raw)
                &&& final(self).buffers_spec() == old(self).buffers_spec().insert(
                    raw,
                    BufferInfo { size: desc.size, memory: desc.memory },
                )
            },
    {
        if raw == NULL_HANDLE {
            return Err(ResourceError::DeviceError);
        }
        if self.buffers.contains_key(&raw) {
            return Err(ResourceError::AlreadyRegistered);
        }
        self.buffers.insert(raw, BufferInfo { size: desc.size, memory: desc.memory });
        Ok(Buffer::from_raw(raw))
    }

    /// Releases a live buffer. The null handle and a handle that is not live
    /// (never created here, or already destroyed) are refused, and nothing changes.
    pub fn destroy_buffer(&mut self, buffer: Buffer) -> (r: Result<(), ResourceError>)
        requires
            old(self).wf(),
        ensures
            final(self).wf(),
            final(self).validation_spec() == old(self).validation_spec(),
            final(self).textures_spec() == old(self).textures_spec(),
            final(self).views_spec() == old(self).views_spec(),
            buffer.is_null_spec() ==> r == Err::<(), ResourceError>(ResourceError::NullHandle),
            !buffer.is_null_spec() && !old(self).buffers_spec().contains_key(buffer.id())
                ==> r == Err::<(), ResourceError>(ResourceError::NotLive),
            r is Err ==> final(self).buffers_spec() == old(self).buffers_spec(),
            old(self).buffers_spec().contains_key(buffer.id()) ==> {
                &&& r is Ok
                &&& final(self).buffers_spec() == old(self).buffers_spec().remove(buffer.id())
            },
    {
        if buffer.is_null() {
            return Err(ResourceError::NullHandle);
        }
        let raw = buffer.raw();
        match self.buffers.remove(&raw) {
            Some(_) => Ok(()),
            None => Err(ResourceError::NotLive),
        }
    }

    pub fn command_is_valid(&self, c: &Command) -> (r: bool)
        ensures
            r == command_valid(*c, self.buffers_spec()),
    {
        match c {
            Command::FillBuffer { buffer, size, value: _ } => match self.buffers.get(buffer) {
                Some(info) => *size <= info.size,
                None => false,
            },
            _ => true,
        }
    }

    pub fn create_command_encoder(&self, desc: CommandEncoderDesc) -> (r: CommandEncoder)
        ensures
            r.wf(),
            r.state_spec() == EncoderState::Empty,
            r.name_spec() == desc.name@,
    {
        CommandEncoder::new(desc)
    }

    /// Hands the encoder's command buffer to the queue. The encoder must be
    /// recording with no open pass, and every command must fit the live
    /// buffers; on success it is left submitted and can never be submitted again.
    /// An encoder that began recording but opened no pass submits nothing.
    pub fn submit(&self, encoder: &mut CommandEncoder) -> (r: Result<Submission, SubmitError>)
        requires
            old(encoder).wf(),
        ensures
            final(encoder).wf(),
            r matches Err(e) ==> submit_outcome(*old(encoder), self.buffers_spec()) == Some(e)
                && *final(encoder) == *old(encoder),
            r matches Ok(s) ==> {
                &&& submit_outcome(*old(encoder), self.buffers_spec()) is None
                &&& old(encoder).raw_spec() == Some(s.raw)
                &&& s.commands@ == old(encoder).commands_spec()
                &&& final(encoder).state_spec() == EncoderState::Submitted
                &&& final(encoder).raw_spec() is None
            },
            submit_outcome(*old(encoder), self.buffers_spec()) is None ==> r is Ok,
    {
        match encoder.state() {
            EncoderState::Empty => {
                return Err(SubmitError::Encoder(EncoderError::NotRecording));
            },
            EncoderState::Submitted => {
                return Err(SubmitError::Encoder(EncoderError::AlreadySubmitted));
            },
            EncoderState::Recording => {},
        }
        if encoder.pass_open() {
            return Err(SubmitError::Encoder(EncoderError::PassOpen));
        }
        let cmds = encoder.commands();
        let mut i: usize = 0;
        while i < cmds.len()
            invariant
                0 <= i <= cmds@.len(),
                cmds@ == encoder.commands_spec(),
                *encoder == *old(encoder),
                encoder.wf(),
                encoder.state_spec() == EncoderState::Recording,
                !encoder.pass_open_spec(),
                forall|j: int| 0 <= j < i ==> #[trigger] command_valid(cmds@[j], self.buffers_spec()),
            decreases cmds@.len() - i,
        {
            if !self.command_is_valid(&cmds[i]) {
                assert(!command_valid(encoder.commands_spec()[i as int], self.buffers_spec()));
                return Err(SubmitError::InvalidCommand);
            }
            i = i + 1;
        }
        match encoder.take_for_submit() {
            Ok(s) => Ok(s),
            Err(e) => Err(SubmitError::Encoder(e)),
        }
    }

    pub fn is_live_texture(&self, texture: Texture) -> (r: bool)
        ensures
            r == self.textures_spec().contains_key(texture.id()),
    {
        self.textures.contains_key(&texture.raw())
    }

    /// Checks a texture descriptor: non-empty extent and a mip count between
    /// one and the full chain.
    pub fn validate_texture_desc(desc: &TextureDesc) -> (r: bool)
        ensures
            r == texture_desc_valid(*desc),
    {
        let side = if desc.width >= desc.height { desc.width } else { desc.height };
        desc.width > 0 && desc.height > 0 && desc.mip_level_count >= 1
            && desc.mip_level_count as u64 <= mip_chain_length(side)
    }

    /// Registers the native texture `raw` that the driver created for `desc`.
    pub fn create_texture(&mut self, desc: &TextureDesc, raw: u64) -> (r: Result<Texture, ResourceError>)
        requires
            old(self).wf(),
        ensures
            final(self).wf(),
            final(self).validation_spec() == old(self).validation_spec(),
            final(self).buffers_spec() == old(self).buffers_spec(),
            final(self).views_spec() == old(self).views_spec(),
            !texture_desc_valid(*desc) ==> r == Err::<Texture, ResourceError>(ResourceError::InvalidDescriptor),
            texture_desc_valid(*desc) && raw == NULL_HANDLE ==> r == Err::<Texture, ResourceError>(ResourceError::DeviceError),
            texture_desc_valid(*desc) && raw != NULL_HANDLE && old(self).textures_spec().contains_key(raw)
                ==> r == Err::<Texture, ResourceError>(ResourceError::AlreadyRegistered),
            r is Err ==> final(self).textures_spec() == old(self).textures_spec(),
            texture_desc_valid(*desc) && raw != NULL_HANDLE && !old(self).textures_spec().contains_key(raw) ==> {
                &&& (r matches Ok(t) && t.id() == raw)
                &&& final(self).textures_spec() == old(self).textures_spec().insert(
                    raw,
                    TextureInfo {
                        format: desc.format,
                        width: desc.width,
                        height: desc.height,
                        mip_level_count: desc.mip_level_count,
                    },
                )
            },
    {
        if !Self::validate_texture_desc(desc) {
            return Err(ResourceError::InvalidDescriptor);
        }
        if raw == NULL_HANDLE {
            return Err(ResourceError::DeviceError);
        }
        if self.textures.contains_key(&raw) {
            return Err(ResourceError::AlreadyRegistered);
        }
        self.textures.insert(
            raw,
            TextureInfo {
                format: desc.format,
                width: desc.width,
                height: desc.height,
                mip_level_count: desc.mip_level_count,
            },
        );
        Ok(Texture::from_raw(raw))
    }

    /// Registers the native view `raw` of a live texture. The view must use
    /// the texture's own format.
    pub fn create_texture_view(&mut self, desc: &TextureViewDesc, raw: u64) -> (r: Result<TextureView, ResourceError>)
        requires
            old(self).wf(),
        ensures
            final(self).wf(),
            final(self).validation_spec() == old(self).validation_spec(),
            final(self).buffers_spec() == old(self).buffers_spec(),
            final(self).textures_spec() == old(self).textures_spec(),
            desc.texture.is_null_spec() ==> r == Err::<TextureView, ResourceError>(ResourceError::NullHandle),
            !desc.texture.is_null_spec() && !old(self).textures_spec().contains_key(desc.texture.id())
                ==> r == Err::<TextureView, ResourceError>(ResourceError::NotLive),
            old(self).textures_spec().contains_key(desc.texture.id())
                && old(self).textures_spec()[desc.texture.id()].format != desc.format
                ==> r == Err::<TextureView, ResourceError>(ResourceError::InvalidDescriptor),
            old(self).textures_spec().contains_key(desc.texture.id())
                && old(self).textures_spec()[desc.texture.id()].format == desc.format && raw == NULL_HANDLE
                ==> r == Err::<TextureView, ResourceError>(ResourceError::DeviceError),
            old(self).textures_spec().contains_key(desc.texture.id())
                && old(self).textures_spec()[desc.texture.id()].format == desc.format && raw != NULL_HANDLE
                && old(self).views_spec().contains_key(raw)
                ==> r == Err::<TextureView, ResourceError>(ResourceError::AlreadyRegistered),
            r is Err ==> final(self).views_spec() == old(self).views_spec(),
            old(self).textures_spec().contains_key(desc.texture.id())
                && old(self).textures_spec()[desc.texture.id()].format == desc.format && raw != NULL_HANDLE
                && !old(self).views_spec().contains_key(raw) ==> {
                &&& (r matches Ok(v) && v.id() == raw)
                &&& final(self).views_spec() == old(self).views_spec().insert(raw, desc.texture.id())
            },
    {
        if desc.texture.is_null() {
            return Err(ResourceError::NullHandle);
        }
        let texture = desc.texture.raw();
        let info = match self.textures.get(&texture) {
            Some(info) => *info,
            None => {
                return Err(ResourceError::NotLive);
            },
        };
        if info.format != desc.format {
            return Err(ResourceError::InvalidDescriptor);
        }
        if raw == NULL_HANDLE {
            return Err(ResourceError::DeviceError);
        }
        if self.views.contains_key(&raw) {
            return Err(ResourceError::AlreadyRegistered);
        }
        self.views.insert(raw, texture);
        Ok(TextureView::from_raw(raw))
    }

    /// Releases a live texture; refused for the null handle or a handle that
    /// is not live, and then nothing changes.
    pub fn destroy_texture(&mut self, texture: Texture) -> (r: Result<(), ResourceError>)
        requires
            old(self).wf(),
        ensures
            final(self).wf(),
            final(self).validation_spec() == old(self).validation_spec(),
            final(self).buffers_spec() == old(self).buffers_spec(),
            final(self).views_spec() == old(self).views_spec(),
            texture.is_null_spec() ==> r == Err::<(), ResourceError>(ResourceError::NullHandle),
            !texture.is_null_spec() && !old(self).textures_spec().contains_key(texture.id())
                ==> r == Err::<(), ResourceError>(ResourceError::NotLive),
            r is Err ==> final(self).textures_spec() == old(self).textures_spec(),
            old(self).textures_spec().contains_key(texture.id()) ==> {
                &&& r is Ok
                &&& final(self).textures_spec() == old(self).textures_spec().remove(texture.id())
            },
    {
        if texture.is_null() {
            return Err(ResourceError::NullHandle);
        }
        let raw = texture.raw();
        match self.textures.remove(&raw) {
            Some(_) => Ok(()),
            None => Err(ResourceError::NotLive),
        }
    }

    /// Releases a live texture view; refused for the null handle or a handle
    /// that is not live, and then nothing changes.
    pub fn destroy_texture_view(&mut self, view: TextureView) -> (r: Result<(), ResourceError>)
        requires
            old(self).wf(),
        ensures
            final(self).wf(),
            final(self).validation_spec() == old(self).validation_spec(),
            final(self).buffers_spec() == old(self).buffers_spec(),
            final(self).textures_spec() == old(self).textures_spec(),
            view.is_null_spec() ==> r == Err::<(), ResourceError>(ResourceError::NullHandle),
            !view.is_null_spec() && !old(self).views_spec().contains_key(view.id())
                ==> r == Err::<(), ResourceError>(ResourceError::NotLive),
            r is Err ==> final(self).views_spec() == old(self).views_spec(),
            old(self).views_spec().contains_key(view.id()) ==> {
                &&& r is Ok
                &&& final(self).views_spec() == old(self).views_spec().remove(view.id())
            },
    {
        if view.is_null() {
            return Err(ResourceError::NullHandle);
        }
        let raw = view.raw();
        match self.views.remove(&raw) {
            Some(_) => Ok(()),
            None => Err(ResourceError::NotLive),
        }
    }
}

} // verus!
