use vstd::prelude::*;
use core::marker::PhantomData;
use crate::binding::BindingType;

verus! {

/// How the data of a buffer is expected to be used; it tells the driver where
/// to keep the data.
#[derive(Copy, Clone, Debug, PartialEq, Eq, Structural)]
pub enum BufferUsage {
    /// Written once, drawn many times.
    StaticDraw,
    /// Modified frequently.
    DynamicDraw,
}

/// Describes the layout of each vertex in a vertex buffer.
///
/// The first element is the name of the binding, the second element is the offset
/// from the start of each vertex to this element, and the third element is the type.
pub type VertexBindings = Vec<(String, usize, BindingType)>;

/// Trait for structures that represent a vertex.
pub trait VertexFormat: Copy {
    /// Builds the `VertexBindings` representing the layout of this element.
    fn build_bindings(_value: Option<Self>) -> VertexBindings;
}

/// Whether `count` elements of type `T` fit in one allocation.
pub open spec fn fits_in_memory<T>(count: nat) -> bool {
    count * vstd::layout::size_of::<T>() <= isize::MAX
}

/// A list of vertices loaded in the graphics card's memory.
///
/// The buffer object itself is named by `id`; it holds `elements_count` values
/// of type `T`.
#[derive(Debug)]
pub struct VertexBuffer<T> {
    id: u32,
    elements_count: usize,
    usage: BufferUsage,
    bindings: VertexBindings,
    elements_size: usize,
    marker: PhantomData<T>,
}

/// What a vertex buffer is, as contracts see it.
pub struct VertexBufferView {
    /// The name of the buffer object.
    pub id: u32,
    /// The number of values of type `T` in the buffer.
    pub elements_count: nat,
    /// The usage the buffer was created with.
    pub usage: BufferUsage,
    /// The layout of one vertex.
    pub bindings: Seq<(String, usize, BindingType)>,
    /// The size in bytes of one vertex.
    pub elements_size: nat,
}

impl<T> View for VertexBuffer<T> {
    type V = VertexBufferView;

    closed spec fn view(&self) -> VertexBufferView {
        VertexBufferView {
            id: self.id,
            elements_count: self.elements_count as nat,
            usage: self.usage,
            bindings: self.bindings@,
            elements_size: self.elements_size as nat,
        }
    }
}

impl<T> VertexBuffer<T> {
    #[verifier::type_invariant]
    spec fn inv(self) -> bool {
        fits_in_memory::<T>(self.elements_count as nat)
    }

    /// The bindings vector held by the buffer.
    pub closed spec fn bindings_vec(&self) -> VertexBindings {
        self.bindings
    }
}

impl<T: VertexFormat + 'static + Send> VertexBuffer<T> {
    /// Builds a new vertex buffer over the buffer object `id`, which holds
    /// `elements_count` values of type `T`, for data that is written once.
    pub fn new(id: u32, elements_count: usize) -> (r: VertexBuffer<T>)
        requires
            fits_in_memory::<T>(elements_count as nat),
        ensures
            r@.id == id,
            r@.elements_count == elements_count,
            r@.usage == BufferUsage::StaticDraw,
            r@.elements_size == vstd::layout::size_of::<T>(),
            r@.bindings == r.bindings_vec()@,
            call_ensures(T::build_bindings, (None::<T>,), r.bindings_vec()),
    {
        let bindings = T::build_bindings(None);
        let elements_size = core::mem::size_of::<T>();
        VertexBuffer {
            id,
            elements_count,
            usage: BufferUsage::StaticDraw,
            bindings,
            elements_size,
            marker: PhantomData,
        }
    }

    /// Builds a new vertex buffer over the buffer object `id`, which holds
    /// `elements_count` values of type `T`.
    ///
    /// The buffer is created for data that is modified frequently.
    pub fn new_dynamic(id: u32, elements_count: usize) -> (r: VertexBuffer<T>)
        requires
            fits_in_memory::<T>(elements_count as nat),
        ensures
            r@.id == id,
            r@.elements_count == elements_count,
            r@.usage == BufferUsage::DynamicDraw,
            r@.elements_size == vstd::layout::size_of::<T>(),
            r@.bindings == r.bindings_vec()@,
            call_ensures(T::build_bindings, (None::<T>,), r.bindings_vec()),
    {
        let bindings = T::build_bindings(None);
        let elements_size = core::mem::size_of::<T>();
        VertexBuffer {
            id,
            elements_count,
            usage: BufferUsage::DynamicDraw,
            bindings,
            elements_size,
            marker: PhantomData,
        }
    }
}

impl<T: Send + Copy> VertexBuffer<T> {
    /// Builds a new vertex buffer from an undeterminate data type and bindings:
    /// the buffer object `id` holds `elements_count` values of type `T`, and each
    /// vertex spans `elements_size` bytes laid out as `bindings` says.
    pub fn new_raw(id: u32, elements_count: usize, bindings: VertexBindings, elements_size: usize) -> (r: VertexBuffer<T>)
        requires
            fits_in_memory::<T>(elements_count as nat),
        ensures
            r@.id == id,
            r@.elements_count == elements_count,
            r@.usage == BufferUsage::StaticDraw,
            r@.bindings == bindings@,
            r@.elements_size == elements_size,
    {
        VertexBuffer {
            id,
            elements_count,
            usage: BufferUsage::StaticDraw,
            bindings,
            elements_size,
            marker: PhantomData,
        }
    }
}

impl<T> VertexBuffer<T> {
    /// The name of the buffer object.
    pub fn get_id(&self) -> (r: u32)
        ensures
            r == self@.id,
    {
        self.id
    }

    /// The number of values of type `T` in the buffer.
    pub fn len(&self) -> (r: usize)
        ensures
            r == self@.elements_count,
    {
        self.elements_count
    }

    /// The usage the buffer was created with.
    pub fn usage(&self) -> (r: BufferUsage)
        ensures
            r == self@.usage,
    {
        self.usage
    }

    /// The byte range to read for `size` elements starting at element `offset`:
    /// the byte offset and the byte length. `None` where `offset` or
    /// `offset + size` is greater than the size of the buffer.
    pub fn read_slice_range(&self, offset: usize, size: usize) -> (r: Option<(usize, usize)>)
        ensures
            r is Some <==> offset + size <= self@.elements_count,
            r matches Some((start, len)) ==> {
                &&& start == offset * vstd::layout::size_of::<T>()
                &&& len == size * vstd::layout::size_of::<T>()
                &&& start + len <= self@.elements_count * vstd::layout::size_of::<T>()
            },
    {
        proof {
            use_type_invariant(self);
        }
        if offset > self.elements_count || size > self.elements_count - offset {
            return None;
        }
        let element: usize = core::mem::size_of::<T>();
        let ghost count: int = self.elements_count as int;
        let ghost e: int = element as int;
        proof {
            assert(offset * e + size * e == (offset + size) * e) by (nonlinear_arith);
            assert((offset + size) * e <= count * e) by (nonlinear_arith)
                requires
                    offset + size <= count,
                    e >= 0,
            ;
            assert(0 <= offset * e) by (nonlinear_arith)
                requires
                    e >= 0,
            ;
            assert(0 <= size * e) by (nonlinear_arith)
                requires
                    e >= 0,
            ;
        }
        Some((offset * element, size * element))
    }

    /// The keys, among `keys`, of the vertex array objects that use this buffer:
    /// those whose first component is the buffer's name, in the order of `keys`.
    pub fn vaos_to_delete(&self, keys: &Vec<(u32, u32, u32)>) -> (r: Vec<(u32, u32, u32)>)
        ensures
            r@ == keys@.filter(|k: (u32, u32, u32)| k.0 == self@.id),
    {
        let ghost pred = |k: (u32, u32, u32)| k.0 == self@.id;
        let mut r: Vec<(u32, u32, u32)> = Vec::new();
        let mut i: usize = 0;
        while i < keys.len()
            invariant
                i <= keys.len(),
                pred == (|k: (u32, u32, u32)| k.0 == self@.id),
                r@ == keys@.take(i as int).filter(pred),
            decreases keys.len() - i,
        {
            let k = keys[i];
            proof {
                reveal_with_fuel(Seq::<_>::filter, 1);
                assert(keys@.take(i + 1).drop_last() == keys@.take(i as int));
            }
            if k.0 == self.id {
                r.push(k);
            }
            i = i + 1;
        }
        proof {
            assert(keys@.take(keys.len() as int) == keys@);
        }
        r
    }
}

/// The size in bytes of one vertex of `vb`.
pub fn get_elements_size<T>(vb: &VertexBuffer<T>) -> (r: usize)
    ensures
        r == vb@.elements_size,
{
    vb.elements_size
}

/// The layout of one vertex of `vb`.
pub fn get_bindings<T>(vb: &VertexBuffer<T>) -> (r: &VertexBindings)
    ensures
        r@ == vb@.bindings,
{
    &vb.bindings
}

} // verus!
