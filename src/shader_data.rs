use crate::resource::TextureView;
use vstd::prelude::*;

verus! {

/// What a pipeline declares at one binding index.
#[derive(Clone, Copy, Debug, PartialEq, Eq, Structural)]
pub enum BindingLayout {
    Texture,
    /// A plain value of exactly `size` bytes and alignment `align`.
    Plain { size: u32, align: u32 },
}

/// What a binding currently holds.
#[derive(Debug)]
pub enum BindingValue {
    Unset,
    Texture(u64),
    Plain(Vec<u8>),
}

/// Why a binding write was refused.
#[derive(Clone, Copy, Debug, PartialEq, Eq, Structural)]
pub enum BindingError {
    /// No binding has this index.
    BadIndex,
    /// The binding at this index is of the other kind.
    WrongKind,
    /// The value's size differs from the declared size.
    SizeMismatch,
    /// The value's alignment differs from the declared alignment.
    AlignmentMismatch,
    /// The texture view is the null handle.
    NullHandle,
}

/// The spec view of a binding value.
pub enum BoundValue {
    Unset,
    Texture(u64),
    Plain(Seq<u8>),
}

pub open spec fn bound_value(v: BindingValue) -> BoundValue {
    match v {
        BindingValue::Unset => BoundValue::Unset,
        BindingValue::Texture(t) => BoundValue::Texture(t),
        BindingValue::Plain(b) => BoundValue::Plain(b@),
    }
}

pub open spec fn set_plain_outcome(layout: Seq<BindingLayout>, index: u32, len: nat, align: u32) -> Option<
    BindingError,
> {
    if index >= layout.len() {
        Some(BindingError::BadIndex)
    } else {
        match layout[index as int] {
            BindingLayout::Texture => Some(BindingError::WrongKind),
            BindingLayout::Plain { size, align: declared } => if len != size {
                Some(BindingError::SizeMismatch)
            } else if align != declared {
                Some(BindingError::AlignmentMismatch)
            } else {
                None
            },
        }
    }
}

pub open spec fn set_texture_outcome(layout: Seq<BindingLayout>, index: u32, view: TextureView) -> Option<
    BindingError,
> {
    if index >= layout.len() {
        Some(BindingError::BadIndex)
    } else if layout[index as int] != BindingLayout::Texture {
        Some(BindingError::WrongKind)
    } else if view.is_null_spec() {
        Some(BindingError::NullHandle)
    } else {
        None
    }
}

/// Writes texture and plain-value bindings into a pipeline's argument table,
/// checking each write against the declared layout.
pub struct ShaderDataEncoder {
    layout: Vec<BindingLayout>,
    values: Vec<BindingValue>,
}

impl ShaderDataEncoder {
    pub closed spec fn layout_spec(&self) -> Seq<BindingLayout> {
        self.layout@
    }

    pub closed spec fn values_spec(&self) -> Seq<BoundValue> {
        self.values@.map_values(|v: BindingValue| bound_value(v))
    }

    pub open spec fn wf(&self) -> bool {
        self.values_spec().len() == self.layout_spec().len()
    }

    /// An argument table for `layout` with every binding unset.
    pub fn new(layout: Vec<BindingLayout>) -> (r: ShaderDataEncoder)
        ensures
            r.wf(),
            r.layout_spec() == layout@,
            forall|i: int| 0 <= i < layout@.len() ==> #[trigger] r.values_spec()[i] == BoundValue::Unset,
    {
        let mut values: Vec<BindingValue> = Vec::new();
        let mut i: usize = 0;
        while i < layout.len()
            invariant
                0 <= i <= layout@.len(),
                values@.len() == i,
                forall|j: int| 0 <= j < i ==> #[trigger] values@[j] == BindingValue::Unset,
            decreases layout@.len() - i,
        {
            values.push(BindingValue::Unset);
            i = i + 1;
        }
        ShaderDataEncoder { layout, values }
    }

    pub fn layout(&self) -> (r: &[BindingLayout])
        ensures
            r@ == self.layout_spec(),
    {
        self.layout.as_slice()
    }

    pub fn values(&self) -> (r: &[BindingValue])
        ensures
            r@.map_values(|v: BindingValue| bound_value(v)) == self.values_spec(),
    {
        self.values.as_slice()
    }

    /// Binds a texture view at `index`, which must be a texture binding.
    pub fn set_texture(&mut self, index: u32, view: TextureView) -> (r: Result<(), BindingError>)
        requires
            old(self).wf(),
        ensures
            final(self).wf(),
            final(self).layout_spec() == old(self).layout_spec(),
            r matches Err(e) ==> set_texture_outcome(old(self).layout_spec(), index, view) == Some(e)
                && final(self).values_spec() == old(self).values_spec(),
            r is Ok ==> set_texture_outcome(old(self).layout_spec(), index, view) is None
                && final(self).values_spec() == old(self).values_spec().update(
                index as int,
                BoundValue::Texture(view.id()),
            ),
            set_texture_outcome(old(self).layout_spec(), index, view) is None ==> r is Ok,
    {
        let i = index as usize;
        if i >= self.layout.len() {
            return Err(BindingError::BadIndex);
        }
        match self.layout[i] {
            BindingLayout::Texture => {},
            BindingLayout::Plain { .. } => {
                return Err(BindingError::WrongKind);
            },
        }
        if view.is_null() {
            return Err(BindingError::NullHandle);
        }
        self.values.set(i, BindingValue::Texture(view.raw()));
        assert(self.values_spec() =~= old(self).values_spec().update(
            index as int,
            BoundValue::Texture(view.id()),
        ));
        Ok(())
    }

    /// Writes the bytes of a plain value of alignment `align` at `index`,
    /// which must be a plain binding declared with exactly `data.len()` bytes
    /// and that alignment. A refused write leaves the table unchanged.
    pub fn set_plain(&mut self, index: u32, data: Vec<u8>, align: u32) -> (r: Result<(), BindingError>)
        requires
            old(self).wf(),
        ensures
            final(self).wf(),
            final(self).layout_spec() == old(self).layout_spec(),
            r matches Err(e) ==> set_plain_outcome(old(self).layout_spec(), index, data@.len(), align) == Some(e)
                && final(self).values_spec() == old(self).values_spec(),
            r is Ok ==> set_plain_outcome(old(self).layout_spec(), index, data@.len(), align) is None
                && final(self).values_spec() == old(self).values_spec().update(
                index as int,
                BoundValue::Plain(data@),
            ),
            set_plain_outcome(old(self).layout_spec(), index, data@.len(), align) is None ==> r is Ok,
    {
        let i = index as usize;
        if i >= self.layout.len() {
            return Err(BindingError::BadIndex);
        }
        let (size, declared) = match self.layout[i] {
            BindingLayout::Texture => {
                return Err(BindingError::WrongKind);
            },
            BindingLayout::Plain { size, align } => (size, align),
        };
        if data.len() != size as usize {
            return Err(BindingError::SizeMismatch);
        }
        if align != declared {
            return Err(BindingError::AlignmentMismatch);
        }
        let ghost bytes = data@;
        self.values.set(i, BindingValue::Plain(data));
        assert(self.values_spec() =~= old(self).values_spec().update(index as int, BoundValue::Plain(bytes)));
        Ok(())
    }
}

} // verus!
