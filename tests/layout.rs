use arm_viz::layout::{
    describe_instance, describe_model_vertex, InstanceRaw, LightRaw, INSTANCE_RAW_SIZE, StepMode, UniformsRaw, VertexAttribute,
    VertexFormat,
};

fn bits(v: &[f32]) -> Vec<u32> {
    v.iter().map(|x| x.to_bits()).collect()
}

#[test]
fn light_record_is_padded_to_sixteen_bytes() {
    let mut vp = [0u32; 16];
    for i in 0..16 {
        vp[i] = 100 + i as u32;
    }
    let raw = LightRaw::new([1, 2, 3], [4, 5, 6], vp);
    let w = raw.words();
    assert_eq!(w.len() * 4, LightRaw::SIZE as usize);
    assert_eq!(&w[0..8], &[1, 2, 3, 0, 4, 5, 6, 0]);
    assert_eq!(&w[8..24], &vp[..]);
}

#[test]
fn light_record_of_floats() {
    let p = bits(&[5.0, 10.0, 5.0]);
    let c = bits(&[1.0, 1.0, 1.0]);
    let raw = LightRaw::new([p[0], p[1], p[2]], [c[0], c[1], c[2]], [0; 16]);
    let w = raw.words();
    assert_eq!(f32::from_bits(w[1]), 10.0);
    assert_eq!(f32::from_bits(w[3]), 0.0);
    assert_eq!(f32::from_bits(w[4]), 1.0);
    assert_eq!(f32::from_bits(w[7]), 0.0);
}

#[test]
fn uniforms_record_is_eighty_bytes() {
    let raw = UniformsRaw { view_position: [1, 2, 3, 4], view_projection: [9; 16] };
    let w = raw.words();
    assert_eq!(w.len() * 4, UniformsRaw::SIZE as usize);
    assert_eq!(UniformsRaw::SIZE, 80);
    assert_eq!(&w[0..4], &[1, 2, 3, 4]);
    assert!(w[4..].iter().all(|x| *x == 9));
}

#[test]
fn model_vertex_layout() {
    let l = describe_model_vertex();
    assert_eq!(l.stride, 32);
    assert_eq!(l.step_mode, StepMode::Vertex);
    assert_eq!(
        l.attributes,
        vec![
            VertexAttribute { offset: 0, format: VertexFormat::Float3, shader_location: 0 },
            VertexAttribute { offset: 12, format: VertexFormat::Float2, shader_location: 1 },
            VertexAttribute { offset: 20, format: VertexFormat::Float3, shader_location: 2 },
        ]
    );
}

#[test]
fn instance_layout() {
    let l = describe_instance();
    assert_eq!(l.stride, 100);
    assert_eq!(l.step_mode, StepMode::Instance);
    let offsets: Vec<u64> = l.attributes.iter().map(|a| a.offset).collect();
    assert_eq!(offsets, vec![0, 16, 32, 48, 64, 76, 88]);
    let locations: Vec<u32> = l.attributes.iter().map(|a| a.shader_location).collect();
    assert_eq!(locations, vec![3, 4, 5, 6, 7, 8, 9]);
    assert_eq!(l.attributes[3].format, VertexFormat::Float4);
    assert_eq!(l.attributes[4].format, VertexFormat::Float3);
}

#[test]
fn instance_record_is_model_then_normal() {
    let mut model = [0u32; 16];
    for i in 0..16 {
        model[i] = i as u32 + 1;
    }
    let raw = InstanceRaw { model, normal: [77; 9] };
    let w = raw.words();
    assert_eq!(w.len() as u64 * 4, INSTANCE_RAW_SIZE);
    assert_eq!(&w[0..16], &model[..]);
    assert_eq!(&w[16..25], &[77; 9]);
}
