use glium::{
    get_bindings, get_elements_size, Attribute, BindingType, BufferUsage, VertexBindings,
    VertexBuffer, VertexFormat,
};

#[derive(Copy, Clone)]
struct Vertex {
    _position: [i16; 3],
    _color: (u8, u8, u8, u8),
}

impl VertexFormat for Vertex {
    fn build_bindings(_value: Option<Vertex>) -> VertexBindings {
        vec![
            ("position".to_string(), 0, <[i16; 3] as Attribute>::get_type(None)),
            ("color".to_string(), 6, <(u8, u8, u8, u8) as Attribute>::get_type(None)),
        ]
    }
}

#[test]
fn scalar_attribute_types() {
    assert_eq!(<i8 as Attribute>::get_type(None), BindingType::I8);
    assert_eq!(<u8 as Attribute>::get_type(None), BindingType::U8);
    assert_eq!(<i16 as Attribute>::get_type(None), BindingType::I16);
    assert_eq!(<u16 as Attribute>::get_type(None), BindingType::U16);
    assert_eq!(<i32 as Attribute>::get_type(None), BindingType::I32);
    assert_eq!(<u32 as Attribute>::get_type(None), BindingType::U32);
    assert_eq!(<i32 as Attribute>::get_type(Some(5)), BindingType::I32);
}

#[test]
fn tuple_attribute_types() {
    assert_eq!(<(i8, i8) as Attribute>::get_type(None), BindingType::I8I8);
    assert_eq!(<(i8, i8, i8) as Attribute>::get_type(None), BindingType::I8I8I8);
    assert_eq!(<(i8, i8, i8, i8) as Attribute>::get_type(None), BindingType::I8I8I8I8);
    assert_eq!(<(u8, u8) as Attribute>::get_type(None), BindingType::U8U8);
    assert_eq!(<(u8, u8, u8) as Attribute>::get_type(None), BindingType::U8U8U8);
    assert_eq!(<(u8, u8, u8, u8) as Attribute>::get_type(None), BindingType::U8U8U8U8);
    assert_eq!(<(i16, i16) as Attribute>::get_type(None), BindingType::I16I16);
    assert_eq!(<(i16, i16, i16) as Attribute>::get_type(None), BindingType::I16I16I16);
    assert_eq!(<(i16, i16, i16, i16) as Attribute>::get_type(None), BindingType::I16I16I16I16);
    assert_eq!(<(u16, u16) as Attribute>::get_type(None), BindingType::U16U16);
    assert_eq!(<(u16, u16, u16) as Attribute>::get_type(None), BindingType::U16U16U16);
    assert_eq!(<(u16, u16, u16, u16) as Attribute>::get_type(None), BindingType::U16U16U16U16);
    assert_eq!(<(i32, i32) as Attribute>::get_type(None), BindingType::I32I32);
    assert_eq!(<(i32, i32, i32) as Attribute>::get_type(None), BindingType::I32I32I32);
    assert_eq!(<(i32, i32, i32, i32) as Attribute>::get_type(None), BindingType::I32I32I32I32);
    assert_eq!(<(u32, u32) as Attribute>::get_type(None), BindingType::U32U32);
    assert_eq!(<(u32, u32, u32) as Attribute>::get_type(None), BindingType::U32U32U32);
    assert_eq!(<(u32, u32, u32, u32) as Attribute>::get_type(Some((1, 2, 3, 4))), BindingType::U32U32U32U32);
}

#[test]
fn array_attribute_types() {
    assert_eq!(<[i8; 2] as Attribute>::get_type(None), BindingType::I8I8);
    assert_eq!(<[i8; 3] as Attribute>::get_type(None), BindingType::I8I8I8);
    assert_eq!(<[i8; 4] as Attribute>::get_type(None), BindingType::I8I8I8I8);
    assert_eq!(<[u8; 2] as Attribute>::get_type(None), BindingType::U8U8);
    assert_eq!(<[u8; 3] as Attribute>::get_type(None), BindingType::U8U8U8);
    assert_eq!(<[u8; 4] as Attribute>::get_type(None), BindingType::U8U8U8U8);
    assert_eq!(<[i16; 2] as Attribute>::get_type(None), BindingType::I16I16);
    assert_eq!(<[i16; 3] as Attribute>::get_type(None), BindingType::I16I16I16);
    assert_eq!(<[i16; 4] as Attribute>::get_type(None), BindingType::I16I16I16I16);
    assert_eq!(<[u16; 2] as Attribute>::get_type(None), BindingType::U16U16);
    assert_eq!(<[u16; 3] as Attribute>::get_type(None), BindingType::U16U16U16);
    assert_eq!(<[u16; 4] as Attribute>::get_type(None), BindingType::U16U16U16U16);
    assert_eq!(<[i32; 2] as Attribute>::get_type(None), BindingType::I32I32);
    assert_eq!(<[i32; 3] as Attribute>::get_type(None), BindingType::I32I32I32);
    assert_eq!(<[i32; 4] as Attribute>::get_type(None), BindingType::I32I32I32I32);
    assert_eq!(<[u32; 2] as Attribute>::get_type(None), BindingType::U32U32);
    assert_eq!(<[u32; 3] as Attribute>::get_type(None), BindingType::U32U32U32);
    assert_eq!(<[u32; 4] as Attribute>::get_type(Some([0; 4])), BindingType::U32U32U32U32);
}

#[test]
fn tuple_and_array_forms_agree() {
    assert_eq!(<(i16, i16, i16) as Attribute>::get_type(None), <[i16; 3] as Attribute>::get_type(None));
    assert_eq!(<(u8, u8) as Attribute>::get_type(None), <[u8; 2] as Attribute>::get_type(None));
    assert_eq!(<(i32, i32, i32, i32) as Attribute>::get_type(None), <[i32; 4] as Attribute>::get_type(None));
}

#[test]
fn new_builds_static_buffer() {
    let vb: VertexBuffer<Vertex> = VertexBuffer::new(3, 2);
    assert_eq!(vb.get_id(), 3);
    assert_eq!(vb.len(), 2);
    assert_eq!(vb.usage(), BufferUsage::StaticDraw);
    assert_eq!(get_elements_size(&vb), std::mem::size_of::<Vertex>());
    let bindings = get_bindings(&vb);
    assert_eq!(bindings.len(), 2);
    assert_eq!(bindings[0], ("position".to_string(), 0, BindingType::I16I16I16));
    assert_eq!(bindings[1], ("color".to_string(), 6, BindingType::U8U8U8U8));
}

#[test]
fn new_dynamic_builds_dynamic_buffer() {
    let vb: VertexBuffer<Vertex> = VertexBuffer::new_dynamic(9, 100);
    assert_eq!(vb.get_id(), 9);
    assert_eq!(vb.len(), 100);
    assert_eq!(vb.usage(), BufferUsage::DynamicDraw);
    assert_eq!(get_elements_size(&vb), std::mem::size_of::<Vertex>());
    assert_eq!(get_bindings(&vb)[1].2, BindingType::U8U8U8U8);
}

#[test]
fn new_raw_keeps_bindings_and_size() {
    let bindings = vec![
        ("position".to_string(), 0, BindingType::F32F32),
        ("color".to_string(), 8, BindingType::F32),
    ];
    let vb: VertexBuffer<u32> = VertexBuffer::new_raw(4, 6, bindings.clone(), 12);
    assert_eq!(get_bindings(&vb), &bindings);
    assert_eq!(get_elements_size(&vb), 12);
    assert_eq!(vb.len(), 6);
    assert_eq!(vb.get_id(), 4);
    assert_eq!(vb.usage(), BufferUsage::StaticDraw);
}

#[test]
fn read_slice_range_in_bounds() {
    let vb: VertexBuffer<u32> = VertexBuffer::new_raw(1, 10, Vec::new(), 12);
    assert_eq!(vb.read_slice_range(2, 3), Some((8, 12)));
    assert_eq!(vb.read_slice_range(0, 10), Some((0, 40)));
    assert_eq!(vb.read_slice_range(10, 0), Some((40, 0)));
    assert_eq!(vb.read_slice_range(0, 0), Some((0, 0)));
}

#[test]
fn read_slice_range_out_of_bounds() {
    let vb: VertexBuffer<u16> = VertexBuffer::new_raw(1, 10, Vec::new(), 2);
    assert_eq!(vb.read_slice_range(11, 0), None);
    assert_eq!(vb.read_slice_range(8, 3), None);
    assert_eq!(vb.read_slice_range(0, 11), None);
    assert_eq!(vb.read_slice_range(usize::MAX, usize::MAX), None);
    assert_eq!(vb.read_slice_range(1, usize::MAX), None);
}

#[test]
fn vaos_to_delete_keeps_only_this_buffer() {
    let vb: VertexBuffer<u32> = VertexBuffer::new_raw(5, 1, Vec::new(), 4);
    let keys = vec![(5, 1, 2), (6, 5, 5), (5, 0, 0), (7, 1, 2), (5, 9, 9)];
    assert_eq!(vb.vaos_to_delete(&keys), vec![(5, 1, 2), (5, 0, 0), (5, 9, 9)]);
    assert_eq!(vb.vaos_to_delete(&Vec::new()), Vec::new());
    let none = vec![(1, 5, 5), (2, 5, 5)];
    assert_eq!(vb.vaos_to_delete(&none), Vec::new());
}
