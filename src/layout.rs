use vstd::prelude::*;

verus! {

/// Bytes of one 32-bit word of a GPU record.
pub const WORD_SIZE: u64 = 4;

/// Appends `words` to `out`.
fn extend_words(out: &mut Vec<u32>, words: &[u32])
    ensures
        final(out)@ == old(out)@ + words@,
{
    let mut i: usize = 0;
    while i < words.len()
        invariant
            i <= words@.len(),
            out@ == old(out)@ + words@.take(i as int),
        decreases words@.len() - i,
    {
        out.push(words[i]);
        assert(words@.take(i + 1) == words@.take(i as int).push(words@[i as int]));
        i = i + 1;
    }
    assert(words@.take(words@.len() as int) == words@);
}

/// The GPU record of one light, each value given by the bits of its 32-bit
/// float: position, color, and the light's view-projection matrix in
/// column-major order.
#[derive(Clone, Copy, Debug)]
pub struct LightRaw {
    pub position: [u32; 3],
    pub color: [u32; 3],
    pub view_projection: [u32; 16],
}

/// The words of a light record: position, a zero pad, color, a zero pad,
/// then the view-projection matrix, so that every field starts on 16 bytes.
pub open spec fn light_record(position: Seq<u32>, color: Seq<u32>, view_projection: Seq<u32>) -> Seq<
    u32,
> {
    position + seq![0u32] + color + seq![0u32] + view_projection
}

impl LightRaw {
    /// Bytes of the record.
    pub const SIZE: u64 = 96;

    pub fn new(position: [u32; 3], color: [u32; 3], view_projection: [u32; 16]) -> (r: Self)
        ensures
            r.position == position,
            r.color == color,
            r.view_projection == view_projection,
    {
        LightRaw { position, color, view_projection }
    }

    /// The record as it is laid out in GPU memory, one word per 4 bytes.
    pub fn words(&self) -> (r: Vec<u32>)
        ensures
            r@ == light_record(self.position@, self.color@, self.view_projection@),
            r@.len() * WORD_SIZE == Self::SIZE,
    {
        let mut r: Vec<u32> = Vec::new();
        extend_words(&mut r, &self.position);
        r.push(0);
        extend_words(&mut r, &self.color);
        r.push(0);
        extend_words(&mut r, &self.view_projection);
        assert(r@ =~= light_record(self.position@, self.color@, self.view_projection@));
        r
    }
}

/// The camera values handed to the shaders, as bits of 32-bit floats: the
/// viewer's homogeneous position and the view-projection matrix in
/// column-major order.
#[derive(Clone, Copy, Debug)]
pub struct UniformsRaw {
    pub view_position: [u32; 4],
    pub view_projection: [u32; 16],
}

impl UniformsRaw {
    /// Bytes of the record.
    pub const SIZE: u64 = 80;

    /// The record as it is laid out in GPU memory: position, then matrix.
    pub fn words(&self) -> (r: Vec<u32>)
        ensures
            r@ == self.view_position@ + self.view_projection@,
            r@.len() * WORD_SIZE == Self::SIZE,
    {
        let mut r: Vec<u32> = Vec::new();
        extend_words(&mut r, &self.view_position);
        extend_words(&mut r, &self.view_projection);
        assert(r@ =~= self.view_position@ + self.view_projection@);
        r
    }
}

/// The GPU record of one drawn instance, as bits of 32-bit floats: the 4x4
/// model matrix and the 3x3 normal matrix (the inverse-transpose of the
/// model matrix's upper-left 3x3), both column-major.
#[derive(Clone, Copy, Debug)]
pub struct InstanceRaw {
    pub model: [u32; 16],
    pub normal: [u32; 9],
}

impl InstanceRaw {
    /// The record as it is laid out in the instance buffer: model matrix,
    /// then normal matrix, with no padding between them.
    pub fn words(&self) -> (r: Vec<u32>)
        ensures
            r@ == self.model@ + self.normal@,
            r@.len() * WORD_SIZE == INSTANCE_RAW_SIZE,
    {
        let mut r: Vec<u32> = Vec::new();
        extend_words(&mut r, &self.model);
        extend_words(&mut r, &self.normal);
        assert(r@ =~= self.model@ + self.normal@);
        r
    }
}

/// The shape of one vertex attribute.
#[derive(Clone, Copy, Debug, PartialEq, Eq, Structural)]
pub enum VertexFormat {
    Float2,
    Float3,
    Float4,
}

/// Bytes taken by an attribute of the given shape.
pub open spec fn format_size(format: VertexFormat) -> u64 {
    match format {
        VertexFormat::Float2 => 8,
        VertexFormat::Float3 => 12,
        VertexFormat::Float4 => 16,
    }
}

/// Whether a buffer advances once per vertex or once per instance.
#[derive(Clone, Copy, Debug, PartialEq, Eq, Structural)]
pub enum StepMode {
    Vertex,
    Instance,
}

/// Where one attribute lies in a vertex buffer, and the shader input it feeds.
#[derive(Clone, Copy, Debug, PartialEq, Eq, Structural)]
pub struct VertexAttribute {
    pub offset: u64,
    pub format: VertexFormat,
    pub shader_location: u32,
}

/// How a vertex buffer is read by the vertex stage.
pub struct VertexLayout {
    pub stride: u64,
    pub step_mode: StepMode,
    pub attributes: Vec<VertexAttribute>,
}

/// Whether the attributes lie one after another from offset zero and fill
/// exactly `stride` bytes.
pub open spec fn packed(attributes: Seq<VertexAttribute>, stride: u64) -> bool {
    &&& attributes.len() > 0
    &&& attributes[0].offset == 0
    &&& forall|i: int|
        0 <= i < attributes.len() - 1 ==> #[trigger] attributes[i + 1].offset == attributes[i].offset
            + format_size(attributes[i].format)
    &&& attributes.last().offset + format_size(attributes.last().format) == stride
}

/// Bytes of one mesh vertex: position (3 floats), texture coordinates (2),
/// normal (3).
pub const MODEL_VERTEX_SIZE: u64 = 32;

/// Bytes of one instance record: the 4x4 model matrix, then the 3x3 normal
/// matrix.
pub const INSTANCE_RAW_SIZE: u64 = 100;

/// The layout of the mesh vertex buffer: position at location 0, texture
/// coordinates at 1, normal at 2.
pub fn describe_model_vertex() -> (r: VertexLayout)
    ensures
        r.stride == MODEL_VERTEX_SIZE,
        r.step_mode == StepMode::Vertex,
        r.attributes@ == seq![
            VertexAttribute { offset: 0, format: VertexFormat::Float3, shader_location: 0 },
            VertexAttribute { offset: 12, format: VertexFormat::Float2, shader_location: 1 },
            VertexAttribute { offset: 20, format: VertexFormat::Float3, shader_location: 2 },
        ],
        packed(r.attributes@, r.stride),
{
    let attributes = vec![
        VertexAttribute { offset: 0, format: VertexFormat::Float3, shader_location: 0 },
        VertexAttribute { offset: 12, format: VertexFormat::Float2, shader_location: 1 },
        VertexAttribute { offset: 20, format: VertexFormat::Float3, shader_location: 2 },
    ];
    let r = VertexLayout { stride: MODEL_VERTEX_SIZE, step_mode: StepMode::Vertex, attributes };
    assert(r.attributes@ =~= seq![
        VertexAttribute { offset: 0, format: VertexFormat::Float3, shader_location: 0 },
        VertexAttribute { offset: 12, format: VertexFormat::Float2, shader_location: 1 },
        VertexAttribute { offset: 20, format: VertexFormat::Float3, shader_location: 2 },
    ]);
    r
}

/// The layout of the instance buffer: the model matrix as four columns at
/// locations 3 to 6, then the normal matrix as three columns at 7 to 9.
pub fn describe_instance() -> (r: VertexLayout)
    ensures
        r.stride == INSTANCE_RAW_SIZE,
        r.step_mode == StepMode::Instance,
        r.attributes@.len() == 7,
        forall|i: int|
            0 <= i < 4 ==> #[trigger] r.attributes@[i] == (VertexAttribute {
                offset: (16 * i) as u64,
                format: VertexFormat::Float4,
                shader_location: (3 + i) as u32,
            }),
        forall|i: int|
            4 <= i < 7 ==> #[trigger] r.attributes@[i] == (VertexAttribute {
                offset: (64 + 12 * (i - 4)) as u64,
                format: VertexFormat::Float3,
                shader_location: (3 + i) as u32,
            }),
        packed(r.attributes@, r.stride),
{
    let mut attributes: Vec<VertexAttribute> = Vec::new();
    let mut i: u32 = 0;
    while i < 4
        invariant
            i <= 4,
            attributes@.len() == i,
            forall|j: int|
                0 <= j < i ==> #[trigger] attributes@[j] == (VertexAttribute {
                    offset: (16 * j) as u64,
                    format: VertexFormat::Float4,
                    shader_location: (3 + j) as u32,
                }),
        decreases 4 - i,
    {
        attributes.push(
            VertexAttribute { offset: 16 * i as u64, format: VertexFormat::Float4, shader_location: 3 + i },
        );
        i = i + 1;
    }
    let mut k: u32 = 0;
    while k < 3
        invariant
            k <= 3,
            attributes@.len() == 4 + k,
            forall|j: int|
                0 <= j < 4 ==> #[trigger] attributes@[j] == (VertexAttribute {
                    offset: (16 * j) as u64,
                    format: VertexFormat::Float4,
                    shader_location: (3 + j) as u32,
                }),
            forall|j: int|
                4 <= j < 4 + k ==> #[trigger] attributes@[j] == (VertexAttribute {
                    offset: (64 + 12 * (j - 4)) as u64,
                    format: VertexFormat::Float3,
                    shader_location: (3 + j) as u32,
                }),
        decreases 3 - k,
    {
        attributes.push(
            VertexAttribute {
                offset: 64 + 12 * k as u64,
                format: VertexFormat::Float3,
                shader_location: 7 + k,
            },
        );
        k = k + 1;
    }
    let r = VertexLayout { stride: INSTANCE_RAW_SIZE, step_mode: StepMode::Instance, attributes };
    assert forall|i: int| 0 <= i < r.attributes@.len() - 1 implies #[trigger] r.attributes@[i
        + 1].offset == r.attributes@[i].offset + format_size(r.attributes@[i].format) by {
        if i < 3 {
        } else if i == 3 {
        } else {
        }
    }
    r
}

} // verus!
