//! Builder for bind-group entries.
//!
//! The texture view and sampler objects stay with the caller, which knows
//! them by position: the entries collected here say, for each binding
//! number, which kind of resource is bound there. The layout the bind group
//! is built against is likewise the caller's object, recorded by a handle
//! the caller chose for it.

use vstd::prelude::*;

verus! {

/// The kind of resource bound at one binding: a texture view or a sampler.
#[derive(Clone, Copy, Debug, PartialEq, Eq, Structural)]
pub enum BindingResourceKind {
    TextureView,
    Sampler,
}

/// One bind-group entry.
#[derive(Clone, Copy, Debug, PartialEq, Eq, Structural)]
pub struct BindGroupEntry {
    pub binding: u32,
    pub resource: BindingResourceKind,
}

/// Collects bind-group entries, numbering bindings consecutively, against a
/// layout the caller picked.
pub struct Builder {
    entries: Vec<BindGroupEntry>,
    layout: Option<u64>,
}

impl Builder {
    /// The entries collected so far.
    pub closed spec fn entries_view(&self) -> Seq<BindGroupEntry> {
        self.entries@
    }

    /// The caller's handle for the layout, once one was set.
    pub closed spec fn layout_handle(&self) -> Option<u64> {
        self.layout
    }

    /// Every entry's binding number is its position in the list.
    pub open spec fn wf(&self) -> bool {
        forall|i: int|
            0 <= i < self.entries_view().len() ==> (#[trigger] self.entries_view()[i]).binding == i
    }

    /// A builder with no entries and no layout.
    pub fn new() -> (b: Builder)
        ensures
            b.entries_view().len() == 0,
            b.layout_handle() is None,
            b.wf(),
    {
        Builder { entries: Vec::new(), layout: None }
    }

    /// How many entries the builder holds.
    pub fn len(&self) -> (n: usize)
        ensures
            n == self.entries_view().len(),
    {
        self.entries.len()
    }

    /// Whether a layout was set.
    pub fn has_layout(&self) -> (r: bool)
        ensures
            r == (self.layout_handle() is Some),
    {
        self.layout.is_some()
    }

    /// Records which layout the bind group will be built against.
    pub fn set_layout(&mut self, layout: u64)
        ensures
            final(self).layout_handle() == Some(layout),
            final(self).entries_view() == old(self).entries_view(),
    {
        self.layout = Some(layout);
    }

    fn get_layout(&self) -> (r: u64)
        requires
            self.layout_handle() is Some,
        ensures
            r == self.layout_handle().unwrap(),
    {
        self.layout.unwrap()
    }

    /// Adds the two entries a material binds, in order: its texture view,
    /// then its sampler, each at the next free binding number.
    pub fn add_material(&mut self)
        requires
            old(self).entries_view().len() + 2 <= u32::MAX,
        ensures
            final(self).entries_view() == old(self).entries_view().push(
                BindGroupEntry {
                    binding: old(self).entries_view().len() as u32,
                    resource: BindingResourceKind::TextureView,
                },
            ).push(
                BindGroupEntry {
                    binding: (old(self).entries_view().len() + 1) as u32,
                    resource: BindingResourceKind::Sampler,
                },
            ),
            final(self).layout_handle() == old(self).layout_handle(),
            old(self).wf() ==> final(self).wf(),
    {
        let view_binding = self.entries.len() as u32;
        self.entries.push(
            BindGroupEntry { binding: view_binding, resource: BindingResourceKind::TextureView },
        );
        let sampler_binding = self.entries.len() as u32;
        self.entries.push(
            BindGroupEntry { binding: sampler_binding, resource: BindingResourceKind::Sampler },
        );
    }

    /// Hands out the layout handle and the collected entries, and resets
    /// the entries; the layout stays set for the next bind group.
    pub fn build(&mut self) -> (r: (u64, Vec<BindGroupEntry>))
        requires
            old(self).layout_handle() is Some,
        ensures
            r.0 == old(self).layout_handle().unwrap(),
            r.1@ == old(self).entries_view(),
            final(self).entries_view().len() == 0,
            final(self).layout_handle() == old(self).layout_handle(),
    {
        let layout = self.get_layout();
        let mut out: Vec<BindGroupEntry> = Vec::new();
        core::mem::swap(&mut out, &mut self.entries);
        (layout, out)
    }
}

} // verus!
