//! The per-frame encoder: from the frame's clipped primitives to the plan of
//! geometry writes and commands that draw them.
use vstd::prelude::*;
use crate::geometry::{
    ByteRange, INDEX_BUFFER_SIZE, INDEX_SIZE, StreamCursor, VERTEX_BUFFER_SIZE, VERTEX_STRIDE,
};
use crate::registry::{RegistryView, TextureRegistry};
use crate::scissor::{PixelRect, ScissorRect, scissor_of, scissor_rect};
use crate::texture::TextureHandle;

verus! {

/// What the encoder needs of one clipped primitive: its clip rectangle in
/// physical pixels, the sizes of its vertex and index lists, and its
/// texture.
#[derive(Clone, Copy, Debug, PartialEq, Eq, Structural)]
pub struct PrimitiveInfo {
    pub clip: PixelRect,
    pub vertex_count: usize,
    pub index_count: usize,
    pub texture: TextureHandle,
}

/// One entry of a frame's plan, carried out in order. The geometry writes
/// are host writes into the slot's mapped buffers; the rest are recorded
/// into the command buffer.
#[derive(Clone, Copy, Debug, PartialEq, Eq, Structural)]
pub enum DrawCommand {
    /// Begin the render pass on the slot's framebuffer, over the whole
    /// surface, with no clear values.
    BeginRenderPass { width: u32, height: u32 },
    BindPipeline,
    /// Bind the slot's vertex buffer at offset 0.
    BindVertexBuffer,
    /// Bind the slot's index buffer at offset 0, with 32-bit indices.
    BindIndexBuffer,
    /// Set the viewport to the whole surface.
    SetViewport { width: u32, height: u32 },
    /// Push the surface size in logical units to the vertex stage.
    PushScreenSize,
    BindDescriptorSet { set: u64 },
    /// Copy the vertices of primitive `primitive` into `range` of the
    /// vertex buffer.
    WriteVertices { primitive: usize, range: ByteRange },
    /// Copy the indices of primitive `primitive` into `range` of the index
    /// buffer.
    WriteIndices { primitive: usize, range: ByteRange },
    SetScissor { rect: ScissorRect },
    DrawIndexed { index_count: u32, first_index: u32, vertex_offset: i32 },
    EndRenderPass,
}

/// Why a frame could not be encoded. Each is fatal for the frame.
#[derive(Clone, Copy, Debug, PartialEq, Eq, Structural)]
pub enum EncodeError {
    /// A primitive names a texture that is not registered.
    UnboundTexture(TextureHandle),
    /// The vertices of primitive `primitive` would run past the vertex
    /// buffer.
    VertexBufferFull { primitive: usize },
    /// The indices of primitive `primitive` would run past the index
    /// buffer.
    IndexBufferFull { primitive: usize },
}

/// Where the encoder stands after a prefix of the primitives.
pub struct EncodeState {
    pub commands: Seq<DrawCommand>,
    /// Vertices written so far.
    pub vertices: nat,
    /// Indices written so far.
    pub indices: nat,
    /// The descriptor set bound last, if any.
    pub bound: Option<u64>,
}

/// The commands that open every frame.
pub open spec fn prologue(width: u32, height: u32) -> Seq<DrawCommand> {
    seq![
        DrawCommand::BeginRenderPass { width, height },
        DrawCommand::BindPipeline,
        DrawCommand::BindVertexBuffer,
        DrawCommand::BindIndexBuffer,
        DrawCommand::SetViewport { width, height },
        DrawCommand::PushScreenSize,
    ]
}

/// Whether a primitive is drawn at all: one with no vertices or no indices
/// is skipped.
pub open spec fn is_drawn(p: PrimitiveInfo) -> bool {
    p.vertex_count > 0 && p.index_count > 0
}

/// Encodes primitive `i`, `p`, after state `s`. A drawn primitive binds its
/// texture's descriptor set unless that set is bound already, appends its
/// vertices and indices after those written so far, sets its scissor and
/// draws with the accumulated base offsets.
pub open spec fn encode_step(
    reg: RegistryView,
    width: u32,
    height: u32,
    s: EncodeState,
    i: int,
    p: PrimitiveInfo,
) -> Result<EncodeState, EncodeError> {
    if !is_drawn(p) {
        Ok(s)
    } else if !reg.textures.contains_key(p.texture) {
        Err(EncodeError::UnboundTexture(p.texture))
    } else if VERTEX_STRIDE * (s.vertices + p.vertex_count) > VERTEX_BUFFER_SIZE {
        Err(EncodeError::VertexBufferFull { primitive: i as usize })
    } else if INDEX_SIZE * (s.indices + p.index_count) > INDEX_BUFFER_SIZE {
        Err(EncodeError::IndexBufferFull { primitive: i as usize })
    } else {
        let set = reg.textures[p.texture].descriptor_set;
        let bind = if s.bound == Some(set) {
            Seq::<DrawCommand>::empty()
        } else {
            seq![DrawCommand::BindDescriptorSet { set }]
        };
        let draw = seq![
            DrawCommand::WriteVertices {
                primitive: i as usize,
                range: ByteRange {
                    start: (VERTEX_STRIDE * s.vertices) as u64,
                    end: (VERTEX_STRIDE * (s.vertices + p.vertex_count)) as u64,
                },
            },
            DrawCommand::WriteIndices {
                primitive: i as usize,
                range: ByteRange {
                    start: (INDEX_SIZE * s.indices) as u64,
                    end: (INDEX_SIZE * (s.indices + p.index_count)) as u64,
                },
            },
            DrawCommand::SetScissor { rect: scissor_of(p.clip, width, height) },
            DrawCommand::DrawIndexed {
                index_count: p.index_count as u32,
                first_index: s.indices as u32,
                vertex_offset: s.vertices as i32,
            },
        ];
        Ok(
            EncodeState {
                commands: s.commands + bind + draw,
                vertices: (s.vertices + p.vertex_count) as nat,
                indices: (s.indices + p.index_count) as nat,
                bound: Some(set),
            },
        )
    }
}

/// The state after the first `n` primitives, or the first error met.
pub open spec fn encode_upto(
    reg: RegistryView,
    prims: Seq<PrimitiveInfo>,
    width: u32,
    height: u32,
    n: nat,
) -> Result<EncodeState, EncodeError>
    decreases n,
{
    if n == 0 {
        Ok(EncodeState { commands: prologue(width, height), vertices: 0, indices: 0, bound: None })
    } else {
        match encode_upto(reg, prims, width, height, (n - 1) as nat) {
            Err(e) => Err(e),
            Ok(s) => encode_step(reg, width, height, s, n - 1, prims[n - 1]),
        }
    }
}

/// The whole frame: the prologue, every primitive in order, and the end of
/// the render pass.
pub open spec fn encode_spec(
    reg: RegistryView,
    prims: Seq<PrimitiveInfo>,
    width: u32,
    height: u32,
) -> Result<Seq<DrawCommand>, EncodeError> {
    match encode_upto(reg, prims, width, height, prims.len()) {
        Err(e) => Err(e),
        Ok(s) => Ok(s.commands.push(DrawCommand::EndRenderPass)),
    }
}

proof fn lemma_error_persists(
    reg: RegistryView,
    prims: Seq<PrimitiveInfo>,
    width: u32,
    height: u32,
    k: nat,
    n: nat,
)
    requires
        k <= n,
        encode_upto(reg, prims, width, height, k) is Err,
    ensures
        encode_upto(reg, prims, width, height, n) == encode_upto(reg, prims, width, height, k),
    decreases n - k,
{
    if k < n {
        lemma_error_persists(reg, prims, width, height, k, (n - 1) as nat);
    }
}

/// Vertices of the drawn primitives among the first `n`.
pub open spec fn drawn_vertices(prims: Seq<PrimitiveInfo>, n: nat) -> nat
    decreases n,
{
    if n == 0 {
        0
    } else {
        drawn_vertices(prims, (n - 1) as nat) + if is_drawn(prims[n - 1]) {
            prims[n - 1].vertex_count as nat
        } else {
            0
        }
    }
}

/// Indices of the drawn primitives among the first `n`.
pub open spec fn drawn_indices(prims: Seq<PrimitiveInfo>, n: nat) -> nat
    decreases n,
{
    if n == 0 {
        0
    } else {
        drawn_indices(prims, (n - 1) as nat) + if is_drawn(prims[n - 1]) {
            prims[n - 1].index_count as nat
        } else {
            0
        }
    }
}

/// A geometry write lies inside the first `vertex_limit` bytes of the
/// vertex buffer, or the first `index_limit` bytes of the index buffer;
/// other commands write nothing.
pub open spec fn writes_within(c: DrawCommand, vertex_limit: int, index_limit: int) -> bool {
    match c {
        DrawCommand::WriteVertices { range, .. } => range.start <= range.end && range.end <= vertex_limit,
        DrawCommand::WriteIndices { range, .. } => range.start <= range.end && range.end <= index_limit,
        _ => true,
    }
}

proof fn lemma_upto_facts(reg: RegistryView, prims: Seq<PrimitiveInfo>, width: u32, height: u32, n: nat)
    requires
        n <= prims.len(),
    ensures
        encode_upto(reg, prims, width, height, n) is Ok ==> {
            let s = encode_upto(reg, prims, width, height, n).unwrap();
            &&& s.vertices == drawn_vertices(prims, n)
            &&& s.indices == drawn_indices(prims, n)
            &&& VERTEX_STRIDE * s.vertices <= VERTEX_BUFFER_SIZE
            &&& INDEX_SIZE * s.indices <= INDEX_BUFFER_SIZE
            &&& forall|k: int|
                0 <= k < s.commands.len() ==> writes_within(
                    #[trigger] s.commands[k],
                    VERTEX_STRIDE * s.vertices,
                    INDEX_SIZE * s.indices,
                )
        },
    decreases n,
{
    if n > 0 {
        lemma_upto_facts(reg, prims, width, height, (n - 1) as nat);
        let prev = encode_upto(reg, prims, width, height, (n - 1) as nat);
        if prev is Ok && encode_upto(reg, prims, width, height, n) is Ok {
            let s = prev.unwrap();
            let t = encode_upto(reg, prims, width, height, n).unwrap();
            assert forall|k: int| 0 <= k < t.commands.len() implies writes_within(
                #[trigger] t.commands[k],
                VERTEX_STRIDE * t.vertices,
                INDEX_SIZE * t.indices,
            ) by {
                if k < s.commands.len() {
                    assert(t.commands[k] == s.commands[k]);
                }
            }
        }
    } else {
        assert forall|k: int| 0 <= k < prologue(width, height).len() implies writes_within(
            #[trigger] prologue(width, height)[k],
            0,
            0,
        ) by {}
    }
}

/// Geometry never runs past its buffers: when the drawn primitives'
/// vertices, or their indices, need more bytes than their buffer holds,
/// the frame fails before any write; and every write of a frame that
/// succeeds lies inside its buffer.
pub proof fn lemma_geometry_overflow_fails(
    reg: RegistryView,
    prims: Seq<PrimitiveInfo>,
    width: u32,
    height: u32,
)
    ensures
        VERTEX_STRIDE * drawn_vertices(prims, prims.len()) > VERTEX_BUFFER_SIZE ==> encode_spec(
            reg,
            prims,
            width,
            height,
        ) is Err,
        INDEX_SIZE * drawn_indices(prims, prims.len()) > INDEX_BUFFER_SIZE ==> encode_spec(
            reg,
            prims,
            width,
            height,
        ) is Err,
        encode_spec(reg, prims, width, height) is Ok ==> forall|k: int|
            0 <= k < encode_spec(reg, prims, width, height).unwrap().len() ==> writes_within(
                #[trigger] encode_spec(reg, prims, width, height).unwrap()[k],
                VERTEX_BUFFER_SIZE as int,
                INDEX_BUFFER_SIZE as int,
            ),
{
    lemma_upto_facts(reg, prims, width, height, prims.len());
    if encode_spec(reg, prims, width, height) is Ok {
        let s = encode_upto(reg, prims, width, height, prims.len()).unwrap();
        let c = encode_spec(reg, prims, width, height).unwrap();
        assert forall|k: int| 0 <= k < c.len() implies writes_within(
            #[trigger] c[k],
            VERTEX_BUFFER_SIZE as int,
            INDEX_BUFFER_SIZE as int,
        ) by {
            if k < s.commands.len() {
                assert(c[k] == s.commands[k]);
                assert(writes_within(s.commands[k], VERTEX_STRIDE * s.vertices, INDEX_SIZE * s.indices));
            }
        }
    }
}

proof fn lemma_drawn_monotone(prims: Seq<PrimitiveInfo>, m: nat, n: nat)
    requires
        m <= n,
    ensures
        drawn_vertices(prims, m) <= drawn_vertices(prims, n),
        drawn_indices(prims, m) <= drawn_indices(prims, n),
    decreases n - m,
{
    if m < n {
        lemma_drawn_monotone(prims, m, (n - 1) as nat);
    }
}

proof fn lemma_prefix_ok(reg: RegistryView, prims: Seq<PrimitiveInfo>, width: u32, height: u32, n: nat)
    requires
        n <= prims.len(),
        forall|i: int| 0 <= i < prims.len() && is_drawn(#[trigger] prims[i]) ==> reg.textures.contains_key(prims[i].texture),
        VERTEX_STRIDE * drawn_vertices(prims, n) <= VERTEX_BUFFER_SIZE,
        INDEX_SIZE * drawn_indices(prims, n) <= INDEX_BUFFER_SIZE,
    ensures
        encode_upto(reg, prims, width, height, n) is Ok,
    decreases n,
{
    if n > 0 {
        lemma_drawn_monotone(prims, (n - 1) as nat, n);
        lemma_prefix_ok(reg, prims, width, height, (n - 1) as nat);
        lemma_upto_facts(reg, prims, width, height, (n - 1) as nat);
    }
}

/// Encoding fails deterministically at the first primitive whose vertices
/// would run past the vertex buffer: when every drawn primitive's texture
/// is registered and the indices fit, and the drawn vertices of the first
/// `k` primitives fit while those of the first `k + 1` do not, the frame
/// fails with `VertexBufferFull` naming primitive `k`.
pub proof fn lemma_overflow_names_first_primitive(
    reg: RegistryView,
    prims: Seq<PrimitiveInfo>,
    width: u32,
    height: u32,
    k: nat,
)
    requires
        k < prims.len(),
        forall|i: int| 0 <= i < prims.len() && is_drawn(#[trigger] prims[i]) ==> reg.textures.contains_key(prims[i].texture),
        INDEX_SIZE * drawn_indices(prims, prims.len()) <= INDEX_BUFFER_SIZE,
        VERTEX_STRIDE * drawn_vertices(prims, k) <= VERTEX_BUFFER_SIZE,
        VERTEX_STRIDE * drawn_vertices(prims, k + 1) > VERTEX_BUFFER_SIZE,
    ensures
        encode_spec(reg, prims, width, height) == Err::<Seq<DrawCommand>, EncodeError>(
            EncodeError::VertexBufferFull { primitive: k as usize },
        ),
{
    lemma_drawn_monotone(prims, k, prims.len());
    lemma_prefix_ok(reg, prims, width, height, k);
    lemma_upto_facts(reg, prims, width, height, k);
    assert(encode_upto(reg, prims, width, height, k + 1) == Err::<EncodeState, EncodeError>(
        EncodeError::VertexBufferFull { primitive: k as usize },
    ));
    lemma_error_persists(reg, prims, width, height, k + 1, prims.len());
}

/// Two drawn primitives on the same registered texture, whose geometry
/// fits, give one descriptor-set bind, not two: the frame is the prologue,
/// the bind, each primitive's writes, scissor and draw, and the end of the
/// render pass, and no other command binds a set.
pub proof fn lemma_shared_texture_binds_once(
    reg: RegistryView,
    a: PrimitiveInfo,
    b: PrimitiveInfo,
    width: u32,
    height: u32,
)
    requires
        reg.textures.contains_key(a.texture),
        b.texture == a.texture,
        is_drawn(a),
        is_drawn(b),
        VERTEX_STRIDE * (a.vertex_count + b.vertex_count) <= VERTEX_BUFFER_SIZE,
        INDEX_SIZE * (a.index_count + b.index_count) <= INDEX_BUFFER_SIZE,
    ensures
        ({
            let set = reg.textures[a.texture].descriptor_set;
            let va = VERTEX_STRIDE * a.vertex_count;
            let ia = INDEX_SIZE * a.index_count;
            let cmds = prologue(width, height) + seq![
                DrawCommand::BindDescriptorSet { set },
                DrawCommand::WriteVertices { primitive: 0, range: ByteRange { start: 0, end: va as u64 } },
                DrawCommand::WriteIndices { primitive: 0, range: ByteRange { start: 0, end: ia as u64 } },
                DrawCommand::SetScissor { rect: scissor_of(a.clip, width, height) },
                DrawCommand::DrawIndexed { index_count: a.index_count as u32, first_index: 0, vertex_offset: 0 },
                DrawCommand::WriteVertices {
                    primitive: 1,
                    range: ByteRange { start: va as u64, end: (va + VERTEX_STRIDE * b.vertex_count) as u64 },
                },
                DrawCommand::WriteIndices {
                    primitive: 1,
                    range: ByteRange { start: ia as u64, end: (ia + INDEX_SIZE * b.index_count) as u64 },
                },
                DrawCommand::SetScissor { rect: scissor_of(b.clip, width, height) },
                DrawCommand::DrawIndexed {
                    index_count: b.index_count as u32,
                    first_index: a.index_count as u32,
                    vertex_offset: a.vertex_count as i32,
                },
                DrawCommand::EndRenderPass,
            ];
            &&& encode_spec(reg, seq![a, b], width, height) == Ok::<Seq<DrawCommand>, EncodeError>(cmds)
            &&& forall|k: int| 0 <= k < cmds.len() && (#[trigger] cmds[k]) is BindDescriptorSet ==> k == 6
        }),
{
    let prims = seq![a, b];
    let set = reg.textures[a.texture].descriptor_set;
    let s0 = encode_upto(reg, prims, width, height, 0);
    let s1 = encode_upto(reg, prims, width, height, 1);
    let s2 = encode_upto(reg, prims, width, height, 2);
    assert(prims[0] == a);
    assert(prims[1] == b);
    assert(s1 is Ok);
    assert(s1.unwrap().bound == Some(set));
    assert(s2 is Ok);
    let va = VERTEX_STRIDE * a.vertex_count;
    let ia = INDEX_SIZE * a.index_count;
    let cmds = prologue(width, height) + seq![
        DrawCommand::BindDescriptorSet { set },
        DrawCommand::WriteVertices { primitive: 0, range: ByteRange { start: 0, end: va as u64 } },
        DrawCommand::WriteIndices { primitive: 0, range: ByteRange { start: 0, end: ia as u64 } },
        DrawCommand::SetScissor { rect: scissor_of(a.clip, width, height) },
        DrawCommand::DrawIndexed { index_count: a.index_count as u32, first_index: 0, vertex_offset: 0 },
        DrawCommand::WriteVertices {
            primitive: 1,
            range: ByteRange { start: va as u64, end: (va + VERTEX_STRIDE * b.vertex_count) as u64 },
        },
        DrawCommand::WriteIndices {
            primitive: 1,
            range: ByteRange { start: ia as u64, end: (ia + INDEX_SIZE * b.index_count) as u64 },
        },
        DrawCommand::SetScissor { rect: scissor_of(b.clip, width, height) },
        DrawCommand::DrawIndexed {
            index_count: b.index_count as u32,
            first_index: a.index_count as u32,
            vertex_offset: a.vertex_count as i32,
        },
        DrawCommand::EndRenderPass,
    ];
    assert(s2.unwrap().commands.push(DrawCommand::EndRenderPass) =~= cmds);
}

fn prologue_exec(width: u32, height: u32) -> (r: Vec<DrawCommand>)
    ensures
        r@ == prologue(width, height),
{
    let mut c: Vec<DrawCommand> = Vec::new();
    c.push(DrawCommand::BeginRenderPass { width, height });
    c.push(DrawCommand::BindPipeline);
    c.push(DrawCommand::BindVertexBuffer);
    c.push(DrawCommand::BindIndexBuffer);
    c.push(DrawCommand::SetViewport { width, height });
    c.push(DrawCommand::PushScreenSize);
    assert(c@ =~= prologue(width, height));
    c
}

/// Encodes one frame for a `surface_width` by `surface_height` surface.
///
/// The result is exactly `encode_spec`: on success the plan of writes and
/// commands, on failure the first error met, found before any write is
/// carried out, since nothing of the plan runs until it is complete.
pub fn encode_frame<T>(
    registry: &TextureRegistry<T>,
    prims: &Vec<PrimitiveInfo>,
    surface_width: u32,
    surface_height: u32,
) -> (r: Result<Vec<DrawCommand>, EncodeError>)
    ensures
        r is Ok ==> encode_spec(registry@, prims@, surface_width, surface_height) == Ok::<
            Seq<DrawCommand>,
            EncodeError,
        >(r.unwrap()@),
        r is Err ==> encode_spec(registry@, prims@, surface_width, surface_height) == Err::<
            Seq<DrawCommand>,
            EncodeError,
        >(r->Err_0),
{
    let ghost reg = registry@;
    let mut commands = prologue_exec(surface_width, surface_height);
    let mut vertices = StreamCursor::new(VERTEX_BUFFER_SIZE);
    let mut indices = StreamCursor::new(INDEX_BUFFER_SIZE);
    let mut vertex_base: u64 = 0;
    let mut index_base: u64 = 0;
    let mut bound: Option<u64> = None;
    let mut i: usize = 0;
    while i < prims.len()
        invariant
            i <= prims@.len(),
            reg == registry@,
            vertices.wf(),
            indices.wf(),
            vertices.spec_capacity() == VERTEX_BUFFER_SIZE,
            indices.spec_capacity() == INDEX_BUFFER_SIZE,
            vertices.spec_offset() == VERTEX_STRIDE * vertex_base,
            indices.spec_offset() == INDEX_SIZE * index_base,
            encode_upto(reg, prims@, surface_width, surface_height, i as nat) == Ok::<
                EncodeState,
                EncodeError,
            >(
                EncodeState {
                    commands: commands@,
                    vertices: vertex_base as nat,
                    indices: index_base as nat,
                    bound,
                },
            ),
        decreases prims@.len() - i,
    {
        let p = prims[i];
        let ghost s = EncodeState {
            commands: commands@,
            vertices: vertex_base as nat,
            indices: index_base as nat,
            bound,
        };
        assert(encode_upto(reg, prims@, surface_width, surface_height, (i + 1) as nat) == encode_step(
            reg,
            surface_width,
            surface_height,
            s,
            i as int,
            p,
        ));
        if p.vertex_count > 0 && p.index_count > 0 {
            let set = match registry.descriptor_set(p.texture) {
                Some(set) => set,
                None => {
                    proof {
                        lemma_error_persists(reg, prims@, surface_width, surface_height, (i + 1) as nat, prims@.len());
                    }
                    return Err(EncodeError::UnboundTexture(p.texture));
                },
            };
            if p.vertex_count as u64 > VERTEX_BUFFER_SIZE / VERTEX_STRIDE {
                proof {
                    lemma_error_persists(reg, prims@, surface_width, surface_height, (i + 1) as nat, prims@.len());
                }
                return Err(EncodeError::VertexBufferFull { primitive: i });
            }
            let vrange = match vertices.append(p.vertex_count as u64 * VERTEX_STRIDE) {
                Ok(range) => range,
                Err(_) => {
                    proof {
                        lemma_error_persists(reg, prims@, surface_width, surface_height, (i + 1) as nat, prims@.len());
                    }
                    return Err(EncodeError::VertexBufferFull { primitive: i });
                },
            };
            if p.index_count as u64 > INDEX_BUFFER_SIZE / INDEX_SIZE {
                proof {
                    lemma_error_persists(reg, prims@, surface_width, surface_height, (i + 1) as nat, prims@.len());
                }
                return Err(EncodeError::IndexBufferFull { primitive: i });
            }
            let irange = match indices.append(p.index_count as u64 * INDEX_SIZE) {
                Ok(range) => range,
                Err(_) => {
                    proof {
                        lemma_error_persists(reg, prims@, surface_width, surface_height, (i + 1) as nat, prims@.len());
                    }
                    return Err(EncodeError::IndexBufferFull { primitive: i });
                },
            };
            let needs_bind = match bound {
                Some(b) => b != set,
                None => true,
            };
            if needs_bind {
                commands.push(DrawCommand::BindDescriptorSet { set });
            }
            commands.push(DrawCommand::WriteVertices { primitive: i, range: vrange });
            commands.push(DrawCommand::WriteIndices { primitive: i, range: irange });
            commands.push(
                DrawCommand::SetScissor { rect: scissor_rect(&p.clip, surface_width, surface_height) },
            );
            commands.push(
                DrawCommand::DrawIndexed {
                    index_count: p.index_count as u32,
                    first_index: index_base as u32,
                    vertex_offset: vertex_base as i32,
                },
            );
            vertex_base = vertex_base + p.vertex_count as u64;
            index_base = index_base + p.index_count as u64;
            bound = Some(set);
            proof {
                let next = encode_step(reg, surface_width, surface_height, s, i as int, p);
                assert(next is Ok);
                assert(commands@ =~= next.unwrap().commands);
            }
        }
        i = i + 1;
    }
    commands.push(DrawCommand::EndRenderPass);
    Ok(commands)
}

} // verus!
