use renderer_backend::bind_group;
use renderer_backend::bind_group_layout;
use renderer_backend::bind_group::BindingResourceKind;
use renderer_backend::bind_group_layout::LayoutBindingType;

#[test]
fn layout_builder_numbers_bindings() {
    let mut b = bind_group_layout::Builder::new();
    assert_eq!(b.len(), 0);
    b.add_material();
    let entries = b.build();
    assert_eq!(entries.len(), 2);
    assert_eq!(entries[0].binding, 0);
    assert_eq!(entries[0].binding_type, LayoutBindingType::FilterableTexture2d);
    assert_eq!(entries[1].binding, 1);
    assert_eq!(entries[1].binding_type, LayoutBindingType::FilteringSampler);
}

#[test]
fn layout_builder_two_materials() {
    let mut b = bind_group_layout::Builder::new();
    b.add_material();
    b.add_material();
    let entries = b.build();
    assert_eq!(entries.len(), 4);
    for (i, e) in entries.iter().enumerate() {
        assert_eq!(e.binding as usize, i);
    }
    assert_eq!(entries[2].binding_type, LayoutBindingType::FilterableTexture2d);
    assert_eq!(entries[3].binding_type, LayoutBindingType::FilteringSampler);
}

#[test]
fn layout_builder_resets_after_build() {
    let mut b = bind_group_layout::Builder::new();
    b.add_material();
    let first = b.build();
    assert_eq!(first.len(), 2);
    assert_eq!(b.len(), 0);
    let second = b.build();
    assert_eq!(second.len(), 0);
}

#[test]
fn bind_group_builder_collects_entries() {
    let mut b = bind_group::Builder::new();
    assert!(!b.has_layout());
    b.set_layout(7);
    assert!(b.has_layout());
    b.add_material();
    let (layout, entries) = b.build();
    assert_eq!(layout, 7);
    assert_eq!(entries.len(), 2);
    assert_eq!(entries[0].binding, 0);
    assert_eq!(entries[0].resource, BindingResourceKind::TextureView);
    assert_eq!(entries[1].binding, 1);
    assert_eq!(entries[1].resource, BindingResourceKind::Sampler);
}

#[test]
fn bind_group_builder_keeps_layout_after_build() {
    let mut b = bind_group::Builder::new();
    b.set_layout(3);
    b.add_material();
    let _ = b.build();
    assert_eq!(b.len(), 0);
    assert!(b.has_layout());
    let (layout, entries) = b.build();
    assert_eq!(layout, 3);
    assert_eq!(entries.len(), 0);
}
