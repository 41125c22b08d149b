use gloom::vao::{
    vao_buffers, BufferSource, BufferTarget, BufferUpload, BufferUsage, ComponentType, VertexAttribute,
};

fn packed(index: u32, components: i32) -> VertexAttribute {
    VertexAttribute {
        index,
        components,
        component_type: ComponentType::Float,
        normalized: false,
        stride: 0,
        offset: 0,
    }
}

#[test]
fn vao_buffers_for_a_triangle() {
    let vertices: Vec<f32> = vec![0.0; 9];
    let indices: Vec<u32> = vec![0, 1, 2];
    let colors: Vec<f32> = vec![1.0; 12];
    let normals: Vec<f32> = vec![0.5; 9];
    let b = vao_buffers(&vertices, &indices, &colors, &normals);
    assert_eq!(
        b,
        vec![
            BufferUpload {
                target: BufferTarget::Array,
                source: BufferSource::Vertices,
                byte_size: 36,
                usage: BufferUsage::StaticDraw,
                attribute: Some(packed(0, 3)),
            },
            BufferUpload {
                target: BufferTarget::ElementArray,
                source: BufferSource::Indices,
                byte_size: 12,
                usage: BufferUsage::StaticDraw,
                attribute: None,
            },
            BufferUpload {
                target: BufferTarget::Array,
                source: BufferSource::Colors,
                byte_size: 48,
                usage: BufferUsage::StaticDraw,
                attribute: Some(packed(1, 4)),
            },
            BufferUpload {
                target: BufferTarget::Array,
                source: BufferSource::Normals,
                byte_size: 36,
                usage: BufferUsage::StaticDraw,
                attribute: Some(packed(2, 3)),
            },
            BufferUpload {
                target: BufferTarget::Array,
                source: BufferSource::Normals,
                byte_size: 36,
                usage: BufferUsage::StaticDraw,
                attribute: Some(packed(3, 3)),
            },
        ]
    );
}

#[test]
fn vao_buffers_attribute_locations_distinct() {
    let v: Vec<f32> = Vec::new();
    let i: Vec<u32> = Vec::new();
    let b = vao_buffers(&v, &i, &v, &v);
    let mut locations: Vec<u32> = b.iter().filter_map(|u| u.attribute.map(|a| a.index)).collect();
    locations.sort();
    assert_eq!(locations, vec![0, 1, 2, 3]);
    assert_eq!(b.iter().filter(|u| u.target == BufferTarget::ElementArray).count(), 1);
    assert!(b.iter().all(|u| u.byte_size == 0));
}

#[test]
fn vao_attributes_are_packed_static_floats() {
    let v: Vec<f32> = vec![0.0; 3];
    let i: Vec<u32> = vec![0];
    let b = vao_buffers(&v, &i, &v, &v);
    assert!(b.iter().all(|u| u.usage == BufferUsage::StaticDraw));
    for a in b.iter().filter_map(|u| u.attribute) {
        assert_eq!(a.component_type, ComponentType::Float);
        assert!(!a.normalized);
        assert_eq!(a.stride, 0);
        assert_eq!(a.offset, 0);
    }
}
