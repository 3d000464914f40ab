//! Builder for bind-group-layout entries.
//!
//! The GPU object is created by the caller from the entries this builder
//! collects; what is verified is the bookkeeping: every entry's binding
//! number is its position in the list, and building hands the entries out
//! and resets the builder.

use vstd::prelude::*;

verus! {

/// What a layout entry declares to the fragment shader stage: a filterable
/// two-dimensional float texture, or a filtering sampler.
#[derive(Clone, Copy, Debug, PartialEq, Eq, Structural)]
pub enum LayoutBindingType {
    FilterableTexture2d,
    FilteringSampler,
}

/// One bind-group-layout entry, visible to the fragment stage.
#[derive(Clone, Copy, Debug, PartialEq, Eq, Structural)]
pub struct LayoutEntry {
    pub binding: u32,
    pub binding_type: LayoutBindingType,
}

/// Collects bind-group-layout entries, numbering bindings consecutively.
pub struct Builder {
    entries: Vec<LayoutEntry>,
}

impl View for Builder {
    type V = Seq<LayoutEntry>;

    closed spec fn view(&self) -> Seq<LayoutEntry> {
        self.entries@
    }
}

impl Builder {
    /// Every entry's binding number is its position in the list.
    pub open spec fn wf(&self) -> bool {
        forall|i: int| 0 <= i < self@.len() ==> (#[trigger] self@[i]).binding == i
    }

    /// A builder with no entries.
    pub fn new() -> (b: Builder)
        ensures
            b@.len() == 0,
            b.wf(),
    {
        Builder { entries: Vec::new() }
    }

    /// How many entries the builder holds.
    pub fn len(&self) -> (n: usize)
        ensures
            n == self@.len(),
    {
        self.entries.len()
    }

    /// Adds the two entries a material needs, in order: its texture, then
    /// its sampler, each at the next free binding number.
    pub fn add_material(&mut self)
        requires
            old(self)@.len() + 2 <= u32::MAX,
        ensures
            final(self)@ == old(self)@.push(
                LayoutEntry {
                    binding: old(self)@.len() as u32,
                    binding_type: LayoutBindingType::FilterableTexture2d,
                },
            ).push(
                LayoutEntry {
                    binding: (old(self)@.len() + 1) as u32,
                    binding_type: LayoutBindingType::FilteringSampler,
                },
            ),
            old(self).wf() ==> final(self).wf(),
    {
        let texture_binding = self.entries.len() as u32;
        self.entries.push(
            LayoutEntry {
                binding: texture_binding,
                binding_type: LayoutBindingType::FilterableTexture2d,
            },
        );
        let sampler_binding = self.entries.len() as u32;
        self.entries.push(
            LayoutEntry { binding: sampler_binding, binding_type: LayoutBindingType::FilteringSampler },
        );
    }

    /// Hands the collected entries out and resets the builder, so that it
    /// can be reused for the next layout.
    pub fn build(&mut self) -> (entries: Vec<LayoutEntry>)
        ensures
            entries@ == old(self)@,
            final(self)@.len() == 0,
    {
        let mut out: Vec<LayoutEntry> = Vec::new();
        core::mem::swap(&mut out, &mut self.entries);
        out
    }
}

} // verus!
