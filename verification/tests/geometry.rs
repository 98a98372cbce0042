use scene_viewer::assets::{
    fits_draw_range, from_gltf, get_primitive_mode, interleave, upload_primitive, ImportError,
    MeshData, Mode, PrimitiveData,
};
use scene_viewer::bytes::words_to_bytes;
use scene_viewer::gpu::PrimitiveTopology;

fn vec3(x: f32, y: f32, z: f32) -> [u32; 3] {
    [x.to_bits(), y.to_bits(), z.to_bits()]
}

fn float_bytes(values: &[f32]) -> Vec<u8> {
    let mut bytes = Vec::new();
    for value in values {
        bytes.extend_from_slice(&value.to_ne_bytes());
    }
    bytes
}

fn triangle(normals: Option<Vec<[u32; 3]>>) -> PrimitiveData {
    PrimitiveData {
        positions: Some(vec![vec3(0.0, 0.0, 0.0), vec3(1.0, 0.0, 0.0), vec3(0.0, 1.0, 0.0)]),
        normals,
        indices: Some(vec![0, 1, 2]),
        mode: Mode::Triangles,
    }
}

#[test]
fn words_lie_in_machine_byte_order() {
    let bytes = words_to_bytes(&vec![1, 0x0102_0304]);
    let mut expected = Vec::new();
    expected.extend_from_slice(&1u32.to_ne_bytes());
    expected.extend_from_slice(&0x0102_0304u32.to_ne_bytes());
    assert_eq!(bytes, expected);
    assert_eq!(bytes.len(), 8);
}

#[test]
fn no_words_give_no_bytes() {
    assert_eq!(words_to_bytes(&Vec::new()), Vec::<u8>::new());
}

#[test]
fn interleave_pairs_positions_with_normals() {
    let positions = vec![[1, 2, 3], [4, 5, 6]];
    let normals = Some(vec![[7, 8, 9], [10, 11, 12]]);
    assert_eq!(interleave(&positions, &normals), vec![1, 2, 3, 7, 8, 9, 4, 5, 6, 10, 11, 12]);
}

#[test]
fn interleave_without_normals_fills_zero() {
    let positions = vec![[1, 2, 3], [4, 5, 6]];
    assert_eq!(interleave(&positions, &None), vec![1, 2, 3, 0, 0, 0, 4, 5, 6, 0, 0, 0]);
}

#[test]
fn interleave_with_too_few_normals_fills_the_rest_with_zero() {
    let positions = vec![[1, 2, 3], [4, 5, 6]];
    let normals = Some(vec![[7, 8, 9]]);
    assert_eq!(interleave(&positions, &normals), vec![1, 2, 3, 7, 8, 9, 4, 5, 6, 0, 0, 0]);
}

#[test]
fn interleave_ignores_normals_beyond_the_positions() {
    let positions = vec![[1, 2, 3]];
    let normals = Some(vec![[7, 8, 9], [10, 11, 12]]);
    assert_eq!(interleave(&positions, &normals), vec![1, 2, 3, 7, 8, 9]);
}

#[test]
fn vertex_buffer_without_normals_has_zero_normals() {
    let sub = upload_primitive(&triangle(None)).unwrap();
    assert_eq!(sub.vertex_buffer.len(), 3 * 24);
    for v in 0..3 {
        assert_eq!(&sub.vertex_buffer[v * 24 + 12..v * 24 + 24], &[0u8; 12]);
    }
    assert_eq!(&sub.vertex_buffer[24..36], float_bytes(&[1.0, 0.0, 0.0]).as_slice());
    assert_eq!(&sub.vertex_buffer[48..60], float_bytes(&[0.0, 1.0, 0.0]).as_slice());
}

#[test]
fn vertex_buffer_keeps_each_normal_with_its_position() {
    let normals = vec![vec3(0.0, 0.0, 1.0), vec3(0.5, 0.5, 0.0), vec3(-1.0, 2.0, 3.5)];
    let sub = upload_primitive(&triangle(Some(normals))).unwrap();
    assert_eq!(sub.vertex_buffer.len(), 72);
    let expected = float_bytes(&[
        0.0, 0.0, 0.0, 0.0, 0.0, 1.0, //
        1.0, 0.0, 0.0, 0.5, 0.5, 0.0, //
        0.0, 1.0, 0.0, -1.0, 2.0, 3.5,
    ]);
    assert_eq!(sub.vertex_buffer, expected);
    assert_eq!(&sub.vertex_buffer[60..72], float_bytes(&[-1.0, 2.0, 3.5]).as_slice());
}

#[test]
fn index_buffer_holds_32_bit_indices() {
    let mut primitive = triangle(None);
    primitive.indices = Some(vec![2, 1, 0, 0, 1, 2]);
    let sub = upload_primitive(&primitive).unwrap();
    assert_eq!(sub.count, 6);
    assert_eq!(sub.index_buffer.len(), 24);
    let mut expected = Vec::new();
    for index in [2u32, 1, 0, 0, 1, 2] {
        expected.extend_from_slice(&index.to_ne_bytes());
    }
    assert_eq!(sub.index_buffer, expected);
    assert_eq!(sub.mode, PrimitiveTopology::TriangleList);
}

#[test]
fn empty_arrays_upload_to_empty_buffers() {
    let primitive = PrimitiveData {
        positions: Some(Vec::new()),
        normals: None,
        indices: Some(Vec::new()),
        mode: Mode::Points,
    };
    let sub = upload_primitive(&primitive).unwrap();
    assert_eq!(sub.count, 0);
    assert!(sub.vertex_buffer.is_empty());
    assert!(sub.index_buffer.is_empty());
    assert_eq!(sub.mode, PrimitiveTopology::PointList);
}

#[test]
fn missing_positions_are_a_missing_attribute() {
    let mut primitive = triangle(None);
    primitive.positions = None;
    assert_eq!(upload_primitive(&primitive), Err(ImportError::MissingAttribute));
}

#[test]
fn missing_indices_are_reported() {
    let mut primitive = triangle(None);
    primitive.indices = None;
    assert_eq!(upload_primitive(&primitive), Err(ImportError::MissingIndices));
}

#[test]
fn missing_positions_are_reported_before_missing_indices() {
    let primitive =
        PrimitiveData { positions: None, normals: None, indices: None, mode: Mode::TriangleFan };
    assert_eq!(upload_primitive(&primitive), Err(ImportError::MissingAttribute));
}

#[test]
fn missing_indices_are_reported_before_the_topology() {
    let mut primitive = triangle(None);
    primitive.indices = None;
    primitive.mode = Mode::LineLoop;
    assert_eq!(upload_primitive(&primitive), Err(ImportError::MissingIndices));
}

#[test]
fn triangle_fan_is_unsupported() {
    let mut primitive = triangle(None);
    primitive.mode = Mode::TriangleFan;
    assert_eq!(upload_primitive(&primitive), Err(ImportError::UnsupportedTopology));
}

#[test]
fn every_mode_maps_to_its_topology() {
    assert_eq!(get_primitive_mode(Mode::Points), Ok(PrimitiveTopology::PointList));
    assert_eq!(get_primitive_mode(Mode::Lines), Ok(PrimitiveTopology::LineList));
    assert_eq!(get_primitive_mode(Mode::LineStrip), Ok(PrimitiveTopology::LineStrip));
    assert_eq!(get_primitive_mode(Mode::Triangles), Ok(PrimitiveTopology::TriangleList));
    assert_eq!(get_primitive_mode(Mode::TriangleStrip), Ok(PrimitiveTopology::TriangleStrip));
    assert_eq!(get_primitive_mode(Mode::LineLoop), Err(ImportError::UnsupportedTopology));
    assert_eq!(get_primitive_mode(Mode::TriangleFan), Err(ImportError::UnsupportedTopology));
}

#[test]
fn scene_keeps_meshes_and_primitives_in_order() {
    let mut second = triangle(None);
    second.indices = Some(vec![0, 1]);
    second.mode = Mode::Lines;
    let meshes = vec![
        MeshData { name: "first".to_string(), primitives: vec![triangle(None), second] },
        MeshData { name: "empty".to_string(), primitives: Vec::new() },
        MeshData { name: "last".to_string(), primitives: vec![triangle(None)] },
    ];
    assert!(fits_draw_range(&meshes));
    let scene = from_gltf(&meshes).unwrap();
    assert_eq!(scene.meshes.len(), 3);
    assert_eq!(scene.meshes[0].name, "first");
    assert_eq!(scene.meshes[1].name, "empty");
    assert_eq!(scene.meshes[2].name, "last");
    assert_eq!(scene.meshes[0].subs.len(), 2);
    assert_eq!(scene.meshes[1].subs.len(), 0);
    assert_eq!(scene.meshes[2].subs.len(), 1);
    assert_eq!(scene.meshes[0].subs[0].count, 3);
    assert_eq!(scene.meshes[0].subs[1].count, 2);
    assert_eq!(scene.meshes[0].subs[1].mode, PrimitiveTopology::LineList);
    assert_eq!(scene.meshes[2].subs[0].mode, PrimitiveTopology::TriangleList);
}

#[test]
fn scene_without_meshes_imports_empty() {
    let scene = from_gltf(&Vec::new()).unwrap();
    assert!(scene.meshes.is_empty());
}

#[test]
fn scene_fails_with_the_first_error_in_declaration_order() {
    let mut no_indices = triangle(None);
    no_indices.indices = None;
    let mut no_positions = triangle(None);
    no_positions.positions = None;
    let mut fan = triangle(None);
    fan.mode = Mode::TriangleFan;

    let meshes = vec![
        MeshData { name: "a".to_string(), primitives: vec![triangle(None), fan] },
        MeshData { name: "b".to_string(), primitives: vec![no_indices, no_positions] },
    ];
    assert_eq!(from_gltf(&meshes), Err(ImportError::UnsupportedTopology));

    let mut no_indices = triangle(None);
    no_indices.indices = None;
    let mut no_positions = triangle(None);
    no_positions.positions = None;
    let meshes = vec![
        MeshData { name: "a".to_string(), primitives: vec![triangle(None)] },
        MeshData { name: "b".to_string(), primitives: vec![no_indices, no_positions] },
    ];
    assert_eq!(from_gltf(&meshes), Err(ImportError::MissingIndices));
}

#[test]
fn scene_with_a_mesh_missing_positions_fails() {
    let mut no_positions = triangle(None);
    no_positions.positions = None;
    let meshes = vec![MeshData { name: "a".to_string(), primitives: vec![no_positions] }];
    assert_eq!(from_gltf(&meshes), Err(ImportError::MissingAttribute));
}
