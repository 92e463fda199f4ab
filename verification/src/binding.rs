//! The image and texture binding table.
//!
//! Binding associates a texture resource with a numbered unit so the active
//! program's shader code can read or write it. A binding is a side effect
//! on the context, not owned state: it persists until the unit is
//! explicitly rebound, which the contracts state as a point update that
//! leaves every other unit as it was.
use vstd::prelude::*;

verus! {

/// The declared access mode of an image binding.
#[derive(Clone, Copy, PartialEq, Eq, Structural, Debug)]
pub enum AccessMode {
    ReadOnly,
    WriteOnly,
    ReadWrite,
}

/// The declared pixel format of an image binding. The generation images
/// are single-channel 8-bit. A mismatch between the declared format and
/// the texture's actual storage is undefined behavior at the driver
/// boundary and is not detected here; callers must keep them consistent.
#[derive(Clone, Copy, PartialEq, Eq, Structural, Debug)]
pub enum PixelFormat {
    R8,
}

/// One image-unit binding: which texture, with what declared access and
/// format.
#[derive(Clone, Copy, PartialEq, Eq, Structural, Debug)]
pub struct ImageBinding {
    pub texture: u32,
    pub access: AccessMode,
    pub format: PixelFormat,
}

/// The bindings visible to the active program: image units for compute
/// image loads and stores, texture units for sampling.
pub struct ImageBindingTable {
    pub image_units: Vec<Option<ImageBinding>>,
    pub texture_units: Vec<Option<u32>>,
}

impl ImageBindingTable {
    /// A table with the given numbers of units, all unbound.
    pub fn new(image_units: usize, texture_units: usize) -> (r: ImageBindingTable)
        ensures
            r.image_units@.len() == image_units,
            r.texture_units@.len() == texture_units,
            forall|i: int| 0 <= i < image_units ==> r.image_units@[i] is None,
            forall|i: int| 0 <= i < texture_units ==> r.texture_units@[i] is None,
    {
        let mut iu: Vec<Option<ImageBinding>> = Vec::new();
        let mut i: usize = 0;
        while i < image_units
            invariant
                i <= image_units,
                iu@.len() == i,
                forall|j: int| 0 <= j < i ==> iu@[j] is None,
            decreases image_units - i,
        {
            iu.push(None);
            i = i + 1;
        }
        let mut tu: Vec<Option<u32>> = Vec::new();
        let mut t: usize = 0;
        while t < texture_units
            invariant
                t <= texture_units,
                tu@.len() == t,
                forall|j: int| 0 <= j < t ==> tu@[j] is None,
            decreases texture_units - t,
        {
            tu.push(None);
            t = t + 1;
        }
        ImageBindingTable { image_units: iu, texture_units: tu }
    }

    /// Binds a texture to an image unit with the declared access mode and
    /// pixel format. Only that unit changes; the binding persists until
    /// the unit is rebound.
    pub fn bind_image(&mut self, unit: usize, texture: u32, access: AccessMode, format: PixelFormat)
        requires
            unit < old(self).image_units@.len(),
        ensures
            final(self).image_units@ == old(self).image_units@.update(
                unit as int,
                Some(ImageBinding { texture, access, format }),
            ),
            final(self).texture_units@ == old(self).texture_units@,
    {
        let binding = ImageBinding { texture, access, format };
        self.image_units.set(unit, Some(binding));
    }

    /// Binds a texture to a sampling texture unit. Only that unit changes;
    /// the binding persists until the unit is rebound.
    pub fn bind_texture(&mut self, unit: usize, texture: u32)
        requires
            unit < old(self).texture_units@.len(),
        ensures
            final(self).texture_units@ == old(self).texture_units@.update(
                unit as int,
                Some(texture),
            ),
            final(self).image_units@ == old(self).image_units@,
    {
        self.texture_units.set(unit, Some(texture));
    }
}

} // verus!
