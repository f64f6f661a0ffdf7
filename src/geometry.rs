use vstd::prelude::*;

use crate::device::{BufferTarget, Command};
use crate::error::{LayoutError, SetupError};
use crate::layout::{valid_layout, VertexAttribute, VertexLayout, COMPONENT_BYTES};
use crate::shader::diagnostic;
use crate::texture::{decode_rgb, rgb_decoding, uploadable, DecodeOutcome, Texture, TextureView, texture_upload_plan};

verus! {

/// Most indices one draw call takes.
pub const MAX_INDICES: usize = 0x7fff_ffff;

/// Most vertex words one upload takes: their bytes must fit a signed size.
pub const MAX_VERTEX_WORDS: u64 = 0x1fff_ffff_ffff_ffff;

/// The two commands that describe and enable each attribute, in order.
pub open spec fn attribute_commands(attrs: Seq<VertexAttribute>) -> Seq<Command>
    decreases attrs.len(),
{
    if attrs.len() == 0 {
        seq![]
    } else {
        attribute_commands(attrs.drop_last()) + seq![
            Command::AttribPointer { attribute: attrs.last() },
            Command::EnableAttrib { location: attrs.last().location },
        ]
    }
}

/// The upload order: vertex array first, then the vertex buffer and its data,
/// then each attribute through that buffer, then the index buffer and its data.
pub open spec fn upload_plan(vao: u32, vbo: u32, ebo: u32, attrs: Seq<VertexAttribute>) -> Seq<Command> {
    seq![
        Command::BindVertexArray { array: vao },
        Command::BindBuffer { target: BufferTarget::Array, buffer: vbo },
        Command::UploadVertices,
    ] + attribute_commands(attrs) + seq![
        Command::BindBuffer { target: BufferTarget::Element, buffer: ebo },
        Command::UploadIndices,
    ]
}

/// Why geometry is refused, checked in this order, or `None` when it is
/// accepted: a zero handle or one buffer handle given twice, an invalid layout, sizes the device cannot take,
/// indices that do not form whole triangles, vertex words that do not form
/// whole records.
pub open spec fn geometry_fault(
    vertices: Seq<u32>,
    indices: Seq<u32>,
    stride: int,
    attrs: Seq<VertexAttribute>,
    vao: u32,
    vbo: u32,
    ebo: u32,
) -> Option<SetupError> {
    if vao == 0 || vbo == 0 || ebo == 0 || vbo == ebo {
        Some(SetupError::DeviceAllocation)
    } else if !valid_layout(stride, attrs) {
        Some(SetupError::Layout(LayoutError::InvalidAttributes))
    } else if vertices.len() as u64 > MAX_VERTEX_WORDS || indices.len() > MAX_INDICES {
        Some(SetupError::Layout(LayoutError::TooLarge))
    } else if indices.len() % 3 != 0 {
        Some(SetupError::Layout(LayoutError::PartialTriangle))
    } else if (vertices.len() * COMPONENT_BYTES) % stride != 0 {
        Some(SetupError::Layout(LayoutError::PartialVertex))
    } else {
        None
    }
}

/// Releases the texture a new one replaces, if any.
pub open spec fn replaced_texture(t: Option<TextureView>) -> Seq<Command> {
    match t {
        Some(t) => seq![Command::DeleteTexture { texture: t.handle }],
        None => seq![],
    }
}

/// What a graphics object is: its device handles, data, layout and texture.
pub struct GeometryView {
    pub vao: u32,
    pub vbo: u32,
    pub ebo: u32,
    pub vertices: Seq<u32>,
    pub indices: Seq<u32>,
    pub stride: int,
    pub attributes: Seq<VertexAttribute>,
    pub texture: Option<TextureView>,
}

/// The commands of one draw: bind the vertex array, bind the texture on unit 0
/// if there is one, then one indexed triangle-list draw of every index.
pub open spec fn draw_plan(g: GeometryView) -> Seq<Command> {
    let bind_texture = match g.texture {
        Some(t) => seq![Command::ActiveTexture { unit: 0 }, Command::BindTexture { texture: t.handle }],
        None => seq![],
    };
    seq![Command::BindVertexArray { array: g.vao }] + bind_texture + seq![
        Command::DrawTriangles { count: g.indices.len() as u32 },
    ]
}

/// The commands that release every handle the object owns, each once.
pub open spec fn release_plan(g: GeometryView) -> Seq<Command> {
    let buffers = seq![
        Command::DeleteVertexArray { array: g.vao },
        Command::DeleteBuffer { buffer: g.vbo },
        Command::DeleteBuffer { buffer: g.ebo },
    ];
    match g.texture {
        Some(t) => buffers.push(Command::DeleteTexture { texture: t.handle }),
        None => buffers,
    }
}

/// Interleaved vertex data and triangle indices on the device, with an
/// optional texture.
#[derive(Debug)]
pub struct GraphicsObject {
    vao: u32,
    vbo: u32,
    ebo: u32,
    vertices: Vec<u32>,
    indices: Vec<u32>,
    layout: VertexLayout,
    texture: Option<Texture>,
}

impl View for GraphicsObject {
    type V = GeometryView;

    closed spec fn view(&self) -> GeometryView {
        GeometryView {
            vao: self.vao,
            vbo: self.vbo,
            ebo: self.ebo,
            vertices: self.vertices@,
            indices: self.indices@,
            stride: self.layout.stride as int,
            attributes: self.layout.attributes@,
            texture: match self.texture {
                Some(t) => Some(t@),
                None => None,
            },
        }
    }
}

impl GraphicsObject {
    #[verifier::type_invariant]
    spec fn wf(&self) -> bool {
        geometry_fault(
            self.vertices@,
            self.indices@,
            self.layout.stride as int,
            self.layout.attributes@,
            self.vao,
            self.vbo,
            self.ebo,
        ) is None
    }

    /// Takes vertex words (the bits of each float), triangle indices and
    /// their layout into the vertex array `vao`, vertex buffer `vbo` and index
    /// buffer `ebo` that the device allocated. Everything is checked before the
    /// returned plan uploads anything.
    pub fn new(vertices: Vec<u32>, indices: Vec<u32>, layout: VertexLayout, vao: u32, vbo: u32, ebo: u32) -> (r:
        Result<(GraphicsObject, Vec<Command>), SetupError>)
        ensures
            ({
                let fault = geometry_fault(
                    vertices@,
                    indices@,
                    layout.stride as int,
                    layout.attributes@,
                    vao,
                    vbo,
                    ebo,
                );
                match fault {
                    Some(e) => r is Err && r->Err_0 == e,
                    None => r matches Ok((g, plan)) && g@ == (GeometryView {
                        vao,
                        vbo,
                        ebo,
                        vertices: vertices@,
                        indices: indices@,
                        stride: layout.stride as int,
                        attributes: layout.attributes@,
                        texture: None,
                    }) && plan@ == upload_plan(vao, vbo, ebo, layout.attributes@),
                }
            }),
    {
        if vao == 0 || vbo == 0 || ebo == 0 || vbo == ebo {
            return Err(SetupError::DeviceAllocation);
        }
        if !layout.validate() {
            return Err(SetupError::Layout(LayoutError::InvalidAttributes));
        }
        if vertices.len() as u64 > MAX_VERTEX_WORDS || indices.len() > MAX_INDICES {
            return Err(SetupError::Layout(LayoutError::TooLarge));
        }
        if indices.len() % 3 != 0 {
            return Err(SetupError::Layout(LayoutError::PartialTriangle));
        }
        if (vertices.len() as u64 * 4) % layout.stride as u64 != 0 {
            return Err(SetupError::Layout(LayoutError::PartialVertex));
        }
        let mut plan = vec![
            Command::BindVertexArray { array: vao },
            Command::BindBuffer { target: BufferTarget::Array, buffer: vbo },
            Command::UploadVertices,
        ];
        let ghost head = plan@;
        let attrs = &layout.attributes;
        let mut i: usize = 0;
        while i < attrs.len()
            invariant
                0 <= i <= attrs.len(),
                plan@ == head + attribute_commands(attrs@.take(i as int)),
            decreases attrs.len() - i,
        {
            let a = attrs[i];
            plan.push(Command::AttribPointer { attribute: a });
            plan.push(Command::EnableAttrib { location: a.location });
            proof {
                assert(attrs@.take(i + 1).drop_last() =~= attrs@.take(i as int));
                assert(plan@ =~= head + attribute_commands(attrs@.take(i + 1)));
            }
            i = i + 1;
        }
        assert(attrs@.take(i as int) =~= attrs@);
        plan.push(Command::BindBuffer { target: BufferTarget::Element, buffer: ebo });
        plan.push(Command::UploadIndices);
        assert(plan@ =~= upload_plan(vao, vbo, ebo, layout.attributes@));
        Ok((GraphicsObject { vao, vbo, ebo, vertices, indices, layout, texture: None }, plan))
    }

    /// The commands of one draw of the whole index list.
    pub fn draw(&self) -> (r: Vec<Command>)
        ensures
            r@ == draw_plan(self@),
    {
        let mut plan = vec![Command::BindVertexArray { array: self.vao }];
        match &self.texture {
            Some(t) => {
                plan.push(Command::ActiveTexture { unit: 0 });
                plan.push(Command::BindTexture { texture: t.handle() });
            },
            None => {},
        }
        plan.push(Command::DrawTriangles { count: self.indices.len() as u32 });
        assert(plan@ =~= draw_plan(self@));
        plan
    }

    /// Decodes `encoded` and makes it this object's texture, in the device
    /// texture `handle`; the plan releases the texture it replaces, if any, and
    /// uploads the new one. On any error the object is left as it was.
    pub fn load_texture(&mut self, encoded: &Vec<u8>, handle: u32) -> (r: Result<Vec<Command>, SetupError>)
        ensures
            rgb_decoding(encoded@) is None ==> (r matches Err(SetupError::AssetLoad { diagnostic })
                && diagnostic@.len() > 0),
            rgb_decoding(encoded@) matches Some((w, h, d, px)) ==> {
                &&& handle == 0 ==> (r matches Err(SetupError::DeviceAllocation))
                &&& handle != 0 && !uploadable(w as int, h as int, d as int, px) ==> (r matches Err(
                    SetupError::ImageSize,
                ))
                &&& handle != 0 && uploadable(w as int, h as int, d as int, px) ==> (r matches Ok(plan)
                    && plan@ == replaced_texture(old(self)@.texture) + texture_upload_plan(handle, w as u32, h as u32)
                    && final(self)@.texture == Some(
                    TextureView { width: w as u32, height: h as u32, handle, pixels: px },
                ))
            },
            r is Err ==> final(self)@ == old(self)@,
            r is Ok ==> final(self)@ == (GeometryView { texture: final(self)@.texture, ..old(self)@ }),
    {
        proof {
            use_type_invariant(&*self);
        }
        match decode_rgb(encoded) {
            DecodeOutcome::Pixels(image) => {
                match Texture::load(image, handle) {
                    Ok((t, upload)) => {
                        let mut plan = match &self.texture {
                            Some(old) => vec![Command::DeleteTexture { texture: old.handle() }],
                            None => Vec::new(),
                        };
                        let ghost released = plan@;
                        let mut upload = upload;
                        plan.append(&mut upload);
                        assert(released =~= replaced_texture(old(self)@.texture));
                        self.texture = Some(t);
                        Ok(plan)
                    },
                    Err(e) => Err(e),
                }
            },
            DecodeOutcome::Failed(message) => Err(SetupError::AssetLoad { diagnostic: diagnostic(message) }),
            DecodeOutcome::Float => Err(SetupError::AssetLoad { diagnostic: diagnostic(String::new()) }),
        }
    }

    /// The commands that release the vertex array, both buffers and the
    /// texture, if any.
    pub fn release(&self) -> (r: Vec<Command>)
        ensures
            r@ == release_plan(self@),
    {
        let mut plan = vec![
            Command::DeleteVertexArray { array: self.vao },
            Command::DeleteBuffer { buffer: self.vbo },
            Command::DeleteBuffer { buffer: self.ebo },
        ];
        match &self.texture {
            Some(t) => plan.push(Command::DeleteTexture { texture: t.handle() }),
            None => {},
        }
        assert(plan@ =~= release_plan(self@));
        plan
    }

    /// The vertex words, for the upload of `Command::UploadVertices`.
    pub fn vertices(&self) -> (r: &Vec<u32>)
        ensures
            r@ == self@.vertices,
    {
        &self.vertices
    }

    /// The indices, for the upload of `Command::UploadIndices`.
    pub fn indices(&self) -> (r: &Vec<u32>)
        ensures
            r@ == self@.indices,
    {
        &self.indices
    }

    /// The texture, for the upload of `Command::UploadPixels`.
    pub fn texture(&self) -> (r: &Option<Texture>)
        ensures
            r is Some <==> self@.texture is Some,
            r matches Some(t) ==> self@.texture == Some(t@),
    {
        &self.texture
    }
}

} // verus!
