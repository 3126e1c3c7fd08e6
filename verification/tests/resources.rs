use rx_engine::api::image::Kind as ImageKind;
use rx_engine::api::{
    BufferDescriptor, Descriptor, DescriptorSetLayoutBinding, DescriptorSetWrite, DescriptorType,
    ShaderModDescriptor, ShaderType, Usage,
};
use rx_engine::asset::{AssetHolder, AssetStorage};
use rx_engine::buffer::{to_gl_buffer_type, OpenGlBuffer};
use rx_engine::buffer_layout::{to_gl_type, BufferLayout};
use rx_engine::context::GlCall;
use rx_engine::device::{OpenGLRendererApi, OpenGLRendererDevice};
use rx_engine::gl_buffer::{GLBuffer, OpenGLIndexBuffer, OpenGLVertexBuffer};
use rx_engine::glenum;
use rx_engine::image::{ImageError, OpenGlImage, OpenGlSampler};
use rx_engine::layout::OpenGlDescriptorSet;
use rx_engine::material::Material;
use rx_engine::memory::{Kind, MemoryError, OpenGlMemory};
use rx_engine::pipeline::ExecuteError;
use rx_engine::shader::OpenGLShader;
use rx_engine::shader_mod::{shader_kind, validate_program, validate_shader, OpenGlShaderMod};
use rx_engine::shared_types::{Type, TypeInfo};
use rx_engine::vertex_array::OpenGLVertexArray;

#[test]
fn enumerants_are_those_of_the_bindings() {
    assert_eq!(glenum::TRIANGLES, gl::TRIANGLES);
    assert_eq!(glenum::TRIANGLE_STRIP, gl::TRIANGLE_STRIP);
    assert_eq!(glenum::TRIANGLE_FAN, gl::TRIANGLE_FAN);
    assert_eq!(glenum::INT, gl::INT);
    assert_eq!(glenum::UNSIGNED_INT, gl::UNSIGNED_INT);
    assert_eq!(glenum::FLOAT, gl::FLOAT);
    assert_eq!(glenum::FLOAT_VEC2, gl::FLOAT_VEC2);
    assert_eq!(glenum::FLOAT_VEC3, gl::FLOAT_VEC3);
    assert_eq!(glenum::FLOAT_MAT4, gl::FLOAT_MAT4);
    assert_eq!(glenum::CULL_FACE, gl::CULL_FACE);
    assert_eq!(glenum::BACK, gl::BACK);
    assert_eq!(glenum::DEPTH_TEST, gl::DEPTH_TEST);
    assert_eq!(glenum::DEPTH_BUFFER_BIT, gl::DEPTH_BUFFER_BIT);
    assert_eq!(glenum::COLOR_BUFFER_BIT, gl::COLOR_BUFFER_BIT);
    assert_eq!(glenum::ARRAY_BUFFER, gl::ARRAY_BUFFER);
    assert_eq!(glenum::ELEMENT_ARRAY_BUFFER, gl::ELEMENT_ARRAY_BUFFER);
    assert_eq!(glenum::UNIFORM_BUFFER, gl::UNIFORM_BUFFER);
    assert_eq!(glenum::STATIC_DRAW, gl::STATIC_DRAW);
    assert_eq!(glenum::READ_WRITE, gl::READ_WRITE);
    assert_eq!(glenum::VERTEX_SHADER, gl::VERTEX_SHADER);
    assert_eq!(glenum::FRAGMENT_SHADER, gl::FRAGMENT_SHADER);
    assert_eq!(glenum::TEXTURE_2D, gl::TEXTURE_2D);
    assert_eq!(glenum::TEXTURE_MAG_FILTER, gl::TEXTURE_MAG_FILTER);
    assert_eq!(glenum::TEXTURE_MIN_FILTER, gl::TEXTURE_MIN_FILTER);
    assert_eq!(glenum::LINEAR, gl::LINEAR);
    assert_eq!(glenum::RGBA, gl::RGBA);
    assert_eq!(glenum::INVALID_INDEX, gl::INVALID_INDEX);
}

#[test]
fn buffer_target_follows_usage() {
    assert_eq!(to_gl_buffer_type(&Usage::Vertex), 0x8892);
    assert_eq!(to_gl_buffer_type(&Usage::Index), 0x8893);
    assert_eq!(to_gl_buffer_type(&Usage::Uniform), 0x8A11);
}

#[test]
fn new_buffer_is_bound_and_given_empty_storage() {
    let (buffer, calls) = OpenGlBuffer::new(4, BufferDescriptor { size: 1920000, usage: Usage::Uniform });
    assert_eq!(
        buffer,
        OpenGlBuffer { id: 4, target: glenum::UNIFORM_BUFFER, usage: glenum::STATIC_DRAW, size: 1920000 }
    );
    assert_eq!(
        calls,
        vec![
            GlCall::BindBuffer { target: glenum::UNIFORM_BUFFER, buffer: 4 },
            GlCall::BufferData {
                target: glenum::UNIFORM_BUFFER,
                size: 1920000,
                usage: glenum::STATIC_DRAW,
            },
        ]
    );
    assert_eq!(buffer.bind(), calls[0]);
    assert_eq!(OpenGlBuffer::buffer_empty(&buffer), calls[1]);
}

#[test]
fn buffer_maps_for_reading_and_writing() {
    let buffer = OpenGlBuffer { id: 9, target: glenum::ARRAY_BUFFER, usage: glenum::STATIC_DRAW, size: 1 };
    assert_eq!(
        OpenGlBuffer::mapper(&buffer),
        vec![
            GlCall::BindBuffer { target: glenum::ARRAY_BUFFER, buffer: 9 },
            GlCall::MapBuffer { target: glenum::ARRAY_BUFFER, access: 0x88BA },
        ]
    );
    assert_eq!(OpenGlBuffer::unmap(&buffer), vec![GlCall::UnmapBuffer { target: glenum::ARRAY_BUFFER }]);
}

#[test]
fn image_backed_memory_cannot_be_mapped() {
    let image = OpenGlImage::new(2, ImageKind::D2(4, 4, 0));
    let buffer = OpenGlBuffer { id: 9, target: glenum::ARRAY_BUFFER, usage: glenum::STATIC_DRAW, size: 1 };
    let mut memory = OpenGlMemory::allocate(16);
    assert_eq!(memory.bind_image(&image), Ok(()));
    assert_eq!(memory.kind(), Kind::Texture(image));
    assert_eq!(memory.map_memory(), Err(MemoryError::ImageBacked));
    assert_eq!(memory.unmap_memory(), Err(MemoryError::ImageBacked));
    assert_eq!(memory.flush_memory(), Err(MemoryError::ImageBacked));
    assert_eq!(memory.bind_image(&image), Err(MemoryError::AlreadyBound));
    assert_eq!(memory.bind_buffer(&buffer), Err(MemoryError::AlreadyBound));
    assert_eq!(memory.kind(), Kind::Texture(image));
    assert_eq!(memory.capacity(), 16);
}

#[test]
fn two_dimensional_image_uploads_rgba() {
    let image = OpenGlImage::new(2, ImageKind::D2(640, 480, 1));
    assert_eq!(
        image.bind_mem(),
        Ok(vec![
            GlCall::BindTexture { target: glenum::TEXTURE_2D, texture: 2 },
            GlCall::TexParameteri { target: glenum::TEXTURE_2D, name: 0x2801, value: 0x2601 },
            GlCall::TexParameteri { target: glenum::TEXTURE_2D, name: 0x2800, value: 0x2601 },
            GlCall::TexImage2D {
                target: glenum::TEXTURE_2D,
                level: 1,
                internal_format: glenum::RGBA,
                width: 640,
                height: 480,
                format: glenum::RGBA,
                pixel_type: glenum::UNSIGNED_INT,
            },
            GlCall::BindTexture { target: glenum::TEXTURE_2D, texture: 0 },
        ])
    );
    assert_eq!(OpenGlImage::bind_d2(2, 640, 480, 1), image.bind_mem().unwrap());
}

#[test]
fn other_images_take_no_pixel_data() {
    assert_eq!(
        OpenGlImage::new(1, ImageKind::D1(8, 0)).bind_mem(),
        Err(ImageError::NotTwoDimensional)
    );
    assert_eq!(
        OpenGlImage::new(1, ImageKind::D3(8, 8, 8)).bind_mem(),
        Err(ImageError::NotTwoDimensional)
    );
}

#[test]
fn sampler_carries_no_name() {
    assert_eq!(OpenGlSampler::new(17), OpenGlSampler { id: 0 });
}

#[test]
fn shader_kind_follows_stage() {
    assert_eq!(shader_kind(ShaderType::Vertex), 0x8B31);
    assert_eq!(shader_kind(ShaderType::Fragment), 0x8B30);
}

#[test]
fn compile_and_link_status_zero_fail_with_the_log() {
    assert_eq!(validate_shader(3, 1, String::from("ignored")), Ok(3));
    assert_eq!(validate_shader(3, -1, String::from("ignored")), Ok(3));
    assert_eq!(validate_shader(3, 0, String::from("0:1: syntax error")), Err(String::from("0:1: syntax error")));
    assert_eq!(validate_program(8, 1, String::new()), Ok(8));
    assert_eq!(validate_program(8, 0, String::from("link")), Err(String::from("link")));
}

#[test]
fn shader_module_takes_kind_from_its_stage() {
    let desc = ShaderModDescriptor { stype: ShaderType::Fragment, source: String::from("void main() {}") };
    assert_eq!(
        OpenGlShaderMod::new(&desc, 5, 1, String::new()),
        Ok(OpenGlShaderMod { id: 5, kind: glenum::FRAGMENT_SHADER })
    );
    assert_eq!(OpenGlShaderMod::new(&desc, 5, 0, String::from("bad")), Err(String::from("bad")));
}

#[test]
fn asset_storage_hands_out_handles_by_count() {
    let mut storage: AssetStorage<String> = AssetStorage::default();
    let a = storage.put(String::from("a"));
    let b = storage.put(String::from("b"));
    assert_eq!(a.get_id(), 0);
    assert_eq!(b.get_id(), 1);
    assert_eq!(a.clone().get_id(), 0);
    assert_eq!(storage.get_ref(&a), Some(&String::from("a")));
    assert_eq!(storage.get_ref(&b), Some(&String::from("b")));

    storage.get_ref_mut(&b).unwrap().push('!');
    assert_eq!(storage.get_ref(&b), Some(&String::from("b!")));
    assert_eq!(storage.get_ref(&a), Some(&String::from("a")));

    assert_eq!(storage.remove(&a), Some(String::from("a")));
    assert_eq!(storage.remove(&a), None);
    assert_eq!(storage.get_ref(&a), None);
    assert!(storage.get_ref_mut(&a).is_none());

    // The next handle is numbered by the count again, and takes the place of
    // the asset that is held under that number.
    let c = storage.put(String::from("c"));
    assert_eq!(c.get_id(), 1);
    assert_eq!(storage.get_ref(&b), Some(&String::from("c")));
}

#[test]
fn element_constants_have_their_sizes() {
    assert_eq!(TypeInfo::float_1(), TypeInfo(1, 4, 4, Type::Float));
    assert_eq!(TypeInfo::float_2(), TypeInfo(2, 4, 8, Type::Float2));
    assert_eq!(TypeInfo::float_3(), TypeInfo(3, 4, 12, Type::Float3));
    assert_eq!(TypeInfo::float_4(), TypeInfo(4, 4, 16, Type::Float4));
    assert_eq!(TypeInfo::mat_4(), TypeInfo(16, 4, 64, Type::Mat4));
    assert_eq!(TypeInfo::int_1(), TypeInfo(1, 4, 4, Type::Int));
    assert_eq!(TypeInfo::int_2(), TypeInfo(2, 4, 8, Type::Int2));
    assert_eq!(TypeInfo::int_3(), TypeInfo(3, 4, 12, Type::Int3));
}

#[test]
fn element_types_read_as_float_or_int() {
    for t in [Type::Float, Type::Float2, Type::Float3, Type::Float4, Type::Mat4] {
        assert_eq!(to_gl_type(&t), glenum::FLOAT);
    }
    for t in [Type::Int, Type::Int2, Type::Int3] {
        assert_eq!(to_gl_type(&t), glenum::INT);
    }
}

#[test]
fn stride_adds_up_the_elements() {
    let layout = BufferLayout::with(TypeInfo::float_3())
        .and(TypeInfo::float_2())
        .and(TypeInfo::float_3());
    assert_eq!(layout.stride(), 32);
    assert_eq!(layout.checked_stride(), Some(32));
    assert_eq!(
        layout.elements(),
        &vec![TypeInfo::float_3(), TypeInfo::float_2(), TypeInfo::float_3()]
    );
    assert_eq!(BufferLayout::with(TypeInfo::mat_4()).stride(), 64);
}

#[test]
fn stride_beyond_the_range_is_none() {
    let huge = TypeInfo(1, 4, u64::MAX, Type::Float);
    assert_eq!(BufferLayout::with(huge).checked_stride(), Some(u64::MAX));
    assert_eq!(BufferLayout::with(huge).and(TypeInfo::float_1()).checked_stride(), None);
    assert_eq!(
        BufferLayout::with(TypeInfo(1, 4, 0, Type::Float)).and(huge).checked_stride(),
        Some(u64::MAX)
    );
}

#[test]
fn vertex_array_attaches_elements_at_running_offsets() {
    let mut array = OpenGLVertexArray::new(6);
    assert_eq!(array.id(), 6);
    let mut vertices = OpenGLVertexBuffer::new(40);
    vertices.set_buffer_layout(BufferLayout::with(TypeInfo::float_3()).and(TypeInfo::int_2()));
    let pointer = |location, components, scalar, offset| GlCall::VertexAttribPointer {
        location,
        components,
        scalar,
        normalized: false,
        stride: 20,
        offset,
    };
    let bind = GlCall::BindBuffer { target: glenum::ARRAY_BUFFER, buffer: 40 };
    assert_eq!(
        array.add_vertex_buffer(vertices),
        Ok(vec![
            GlCall::BindVertexArray { vao: 6 },
            bind,
            pointer(0, 3, glenum::FLOAT, 0),
            GlCall::EnableVertexAttribArray { location: 0 },
            bind,
            pointer(1, 2, glenum::INT, 12),
            GlCall::EnableVertexAttribArray { location: 1 },
            GlCall::BindVertexArray { vao: 0 },
        ])
    );
    // A second buffer goes on at the next location.
    let mut transforms = OpenGLVertexBuffer::new(41);
    transforms.set_buffer_layout(BufferLayout::with(TypeInfo::mat_4()));
    let second = array.add_vertex_buffer(transforms).unwrap();
    assert_eq!(
        second[2],
        GlCall::VertexAttribPointer {
            location: 2,
            components: 16,
            scalar: glenum::FLOAT,
            normalized: false,
            stride: 64,
            offset: 0,
        }
    );
    assert_eq!(array.delete(), GlCall::DeleteVertexArray { vao: 6 });
}

#[test]
fn vertex_array_hands_back_a_buffer_it_cannot_attach() {
    let mut array = OpenGLVertexArray::new(6);
    let bare = OpenGLVertexBuffer::new(40);
    assert_eq!(array.add_vertex_buffer(bare.clone()), Err(bare));
    let mut huge = OpenGLVertexBuffer::new(41);
    huge.set_buffer_layout(
        BufferLayout::with(TypeInfo(1, 4, u64::MAX, Type::Float)).and(TypeInfo::float_1()),
    );
    assert_eq!(array.add_vertex_buffer(huge.clone()), Err(huge));
    assert_eq!(array, OpenGLVertexArray::new(6));
}

#[test]
fn vertex_array_draws_its_whole_index_buffer() {
    let mut array = OpenGLVertexArray::new(6);
    assert_eq!(array.draw_indexed(), None);
    assert_eq!(array.get_index_buffer(), None);
    let indices = OpenGLIndexBuffer::new(36, 50);
    assert_eq!(indices.length(), 36);
    assert_eq!(
        array.set_index_buffer(indices),
        vec![
            GlCall::BindVertexArray { vao: 6 },
            GlCall::BindBuffer { target: glenum::ELEMENT_ARRAY_BUFFER, buffer: 50 },
            GlCall::BindVertexArray { vao: 0 },
        ]
    );
    assert_eq!(array.get_index_buffer(), Some(indices));
    assert_eq!(
        array.draw_indexed(),
        Some(vec![
            GlCall::BindVertexArray { vao: 6 },
            GlCall::DrawElements {
                mode: glenum::TRIANGLES,
                count: 36,
                index_type: glenum::UNSIGNED_INT,
                offset: 0,
            },
            GlCall::BindVertexArray { vao: 0 },
        ])
    );
}

#[test]
fn whole_buffers_bind_to_their_targets() {
    let buffer = GLBuffer::new(glenum::UNIFORM_BUFFER, glenum::STATIC_DRAW, 4);
    assert_eq!(buffer.bind(), GlCall::BindBuffer { target: glenum::UNIFORM_BUFFER, buffer: 4 });
    assert_eq!(buffer.unbind(), GlCall::BindBuffer { target: glenum::UNIFORM_BUFFER, buffer: 0 });
    assert_eq!(
        buffer.buffer_size(128),
        GlCall::BufferData { target: glenum::UNIFORM_BUFFER, size: 128, usage: glenum::STATIC_DRAW }
    );
    assert_eq!(buffer.delete(), GlCall::DeleteBuffer { buffer: 4 });

    let indices = OpenGLIndexBuffer::new(6, 9);
    assert_eq!(indices.bind(), GlCall::BindBuffer { target: glenum::ELEMENT_ARRAY_BUFFER, buffer: 9 });
    assert_eq!(indices.unbind(), GlCall::BindBuffer { target: glenum::ELEMENT_ARRAY_BUFFER, buffer: 0 });

    let mut vertices = OpenGLVertexBuffer::new(7);
    assert_eq!(vertices.buffer(), GLBuffer::new(glenum::ARRAY_BUFFER, glenum::STATIC_DRAW, 7));
    assert_eq!(vertices.bind(), GlCall::BindBuffer { target: glenum::ARRAY_BUFFER, buffer: 7 });
    assert_eq!(vertices.unbind(), GlCall::BindBuffer { target: glenum::ARRAY_BUFFER, buffer: 0 });
    assert_eq!(vertices.get_buffer_layout(), None);
    vertices.set_buffer_layout(BufferLayout::with(TypeInfo::float_3()));
    assert_eq!(vertices.get_buffer_layout(), Some(&BufferLayout::with(TypeInfo::float_3())));
}

#[test]
fn shader_program_links_binds_and_deletes() {
    assert_eq!(
        OpenGLShader::link_calls(1, 2, 3),
        vec![
            GlCall::AttachShader { program: 3, shader: 1 },
            GlCall::AttachShader { program: 3, shader: 2 },
            GlCall::LinkProgram { program: 3 },
            GlCall::DetachShader { program: 3, shader: 1 },
            GlCall::DetachShader { program: 3, shader: 2 },
        ]
    );
    let shader = OpenGLShader::new_vert_frag(1, 2, 3, 1, String::new()).unwrap();
    assert_eq!(shader, OpenGLShader { id: 3, vert_id: 1, frag_id: 2 });
    assert_eq!(
        OpenGLShader::new_vert_frag(1, 2, 3, 0, String::from("unresolved")),
        Err(String::from("unresolved"))
    );
    assert_eq!(OpenGLShader::validate_program(1, 2, 3, 5, String::from("x")), Ok(shader));
    assert_eq!(shader.bind(), GlCall::UseProgram { program: 3 });
    assert_eq!(shader.unbind(), GlCall::UseProgram { program: 0 });
    assert_eq!(
        shader.delete(),
        vec![
            GlCall::DeleteShader { shader: 1 },
            GlCall::DeleteShader { shader: 2 },
            GlCall::DeleteProgram { program: 3 },
        ]
    );
}

#[test]
fn material_draws_with_its_shader() {
    let shader = OpenGLShader { id: 3, vert_id: 1, frag_id: 2 };
    let material = Material::from_shader(shader);
    assert_eq!(material.shader(), &shader);
    assert_eq!(material.bind(), GlCall::UseProgram { program: 3 });
}

#[test]
fn holder_keeps_each_type_of_asset_apart() {
    let mut holder = AssetHolder::default();
    let shader = OpenGLShader { id: 3, vert_id: 1, frag_id: 2 };
    let shader_ptr = holder.storage_mut::<OpenGLShader>().put(shader);
    let material_ptr = holder.storage_mut::<Material>().put(Material::from_shader(shader));
    let array_ptr = holder.storage_mut::<OpenGLVertexArray>().put(OpenGLVertexArray::new(8));
    assert_eq!(shader_ptr.get_id(), 0);
    assert_eq!(material_ptr.get_id(), 0);
    assert_eq!(array_ptr.get_id(), 0);
    assert_eq!(holder.storage::<OpenGLShader>().get_ref(&shader_ptr), Some(&shader));
    assert_eq!(
        holder.storage::<Material>().get_ref(&material_ptr),
        Some(&Material::from_shader(shader))
    );
    assert_eq!(
        holder.storage::<OpenGLVertexArray>().get_ref(&array_ptr),
        Some(&OpenGLVertexArray::new(8))
    );
    assert_eq!(holder.storage_mut::<OpenGLShader>().remove(&shader_ptr), Some(shader));
    assert_eq!(holder.storage::<OpenGLShader>().get_ref(&shader_ptr), None);
    assert!(holder.storage::<Material>().get_ref(&material_ptr).is_some());
}

#[test]
fn device_hands_out_resources() {
    let device = OpenGLRendererDevice::new();
    let mut memory = device.allocate_memory(1024);
    assert_eq!(device.map_memory(&memory), Err(MemoryError::Unbound));
    let (buffer, calls) = device.create_buffer(3, BufferDescriptor { size: 1024, usage: Usage::Index });
    assert_eq!(calls.len(), 2);
    assert_eq!(buffer.target, glenum::ELEMENT_ARRAY_BUFFER);
    assert_eq!(device.bind_buffer_memory(&mut memory, &buffer), Ok(()));
    assert_eq!(device.map_memory(&memory), Ok(OpenGlBuffer::mapper(&buffer)));
    assert_eq!(device.flush_memory(&memory), Ok(vec![]));
    assert_eq!(device.unmap_memory(&memory), Ok(OpenGlBuffer::unmap(&buffer)));
    let image = device.create_image(8, ImageKind::D1(2, 0));
    assert_eq!(device.bind_image_memory(&mut memory, &image), Err(MemoryError::AlreadyBound));

    let set_layout = device.create_descriptor_set_layout(&[DescriptorSetLayoutBinding {
        binding: 0,
        desc: DescriptorType::UniformBuffer,
    }]);
    let set = device.allocate_descriptor_set(&set_layout);
    assert_eq!(set, OpenGlDescriptorSet {});
    assert!(device.create_pipeline_layout(&set_layout, vec![]).is_ok());
    assert_eq!(
        device.write_descriptor_set(DescriptorSetWrite {
            set: &set,
            binding: 2,
            descriptor: Descriptor::Buffer(&buffer),
        }),
        GlCall::BindBufferBase { target: glenum::ELEMENT_ARRAY_BUFFER, index: 2, buffer: 3 }
    );

    let mut cmd = device.create_cmd_buffer();
    assert_eq!(cmd.commands().len(), 0);
    cmd.draw_indexed(1, 0, 1);
    assert_eq!(device.execute(cmd), Err(ExecuteError::NoPipeline));
    assert_eq!(device.execute(device.create_cmd_buffer()), Ok(vec![]));

    let desc = ShaderModDescriptor { stype: ShaderType::Vertex, source: String::new() };
    assert_eq!(
        device.create_shader_mod(&desc, 4, 1, String::new()),
        Ok(OpenGlShaderMod { id: 4, kind: glenum::VERTEX_SHADER })
    );
}

#[test]
fn api_calls_set_viewport_and_clear() {
    let api = OpenGLRendererApi::new();
    assert_eq!(api.viewport(800, 600), GlCall::Viewport { x: 0, y: 0, width: 800, height: 600 });
    assert_eq!(api.clear_color(), GlCall::Clear { mask: 0x4000 });
    assert_eq!(
        api.set_clear_color(0.3f32.to_bits(), 0.3f32.to_bits(), 0.9f32.to_bits(), 1.0f32.to_bits()),
        GlCall::ClearColor {
            red: 0x3E99_999A,
            green: 0x3E99_999A,
            blue: 0x3F66_6666,
            alpha: 0x3F80_0000,
        }
    );
}
