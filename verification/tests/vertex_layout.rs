use hello_wgpu::vertex::{
    colored_vertex_layout, format_size, textured_vertex_layout, AttributeFormat,
};

#[test]
fn format_sizes_are_four_bytes_per_float() {
    assert_eq!(format_size(AttributeFormat::Float32x2), 8);
    assert_eq!(format_size(AttributeFormat::Float32x3), 12);
    assert_eq!(format_size(AttributeFormat::Float32x4), 16);
}

#[test]
fn colored_vertex_layout_matches_position_then_color() {
    let l = colored_vertex_layout();
    assert_eq!(l.array_stride, 28);
    assert_eq!(l.attributes.len(), 2);
    assert_eq!(l.attributes[0].shader_location, 0);
    assert_eq!(l.attributes[0].offset, 0);
    assert_eq!(l.attributes[0].format, AttributeFormat::Float32x3);
    assert_eq!(l.attributes[1].shader_location, 1);
    assert_eq!(l.attributes[1].offset, 12);
    assert_eq!(l.attributes[1].format, AttributeFormat::Float32x4);
    // no padding: the stride is exactly the bytes the two attributes cover
    assert_eq!(l.array_stride, 12 + 16);
}

#[test]
fn textured_vertex_layout_matches_position_then_texcoord() {
    let l = textured_vertex_layout();
    assert_eq!(l.array_stride, 20);
    assert_eq!(l.attributes.len(), 2);
    assert_eq!(l.attributes[0].offset, 0);
    assert_eq!(l.attributes[0].format, AttributeFormat::Float32x3);
    assert_eq!(l.attributes[1].offset, 12);
    assert_eq!(l.attributes[1].format, AttributeFormat::Float32x2);
    assert_eq!(l.array_stride, 12 + 8);
}
