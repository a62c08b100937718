use vstd::prelude::*;

verus! {

/// Default extent of one workgroup axis.
pub const WORKGROUP_DEFAULT: u32 = 32;

/// Where a shader binding lives.
#[derive(Debug, PartialEq, Eq, Clone, Copy, Structural)]
pub enum Location {
    /// Device storage.
    Storage,
    /// Workgroup-shared memory.
    Workgroup,
}

/// How a shader may touch a binding.
#[derive(Debug, PartialEq, Eq, Clone, Copy, Structural)]
pub enum Visibility {
    /// Read only.
    Read,
    /// Read and write.
    ReadWrite,
}

/// The scalar kinds a shader computes with.
#[derive(Debug, Clone, PartialEq, Eq, Copy, Hash, Structural)]
pub enum Elem {
    /// Floating point.
    Float,
    /// Signed integer.
    Int,
    /// Unsigned integer.
    UInt,
    /// Truth value.
    Bool,
}

impl Elem {
    /// The scalar kind's name in shader source.
    pub fn name(&self) -> (r: &'static str)
        ensures
            *self == Elem::Float ==> r@ == "float"@,
            *self == Elem::Int ==> r@ == "int"@,
            *self == Elem::UInt ==> r@ == "uint"@,
            *self == Elem::Bool ==> r@ == "bool"@,
    {
        match self {
            Elem::Float => "float",
            Elem::Int => "int",
            Elem::UInt => "uint",
            Elem::Bool => "bool",
        }
    }

    /// The scalar item of this kind.
    pub fn into_item(self) -> (r: Item)
        ensures
            r == Item::Scalar(self),
    {
        Item::Scalar(self)
    }
}

/// A value shape: a scalar or a short vector of one scalar kind.
#[derive(Debug, Clone, PartialEq, Eq, Copy, Structural)]
pub enum Item {
    /// Four lanes.
    Vec4(Elem),
    /// Three lanes.
    Vec3(Elem),
    /// Two lanes.
    Vec2(Elem),
    /// One lane.
    Scalar(Elem),
}

impl Item {
    /// The scalar kind of the item, whatever its width.
    pub fn elem(&self) -> (r: Elem)
        ensures
            r == match *self {
                Item::Vec4(e) => e,
                Item::Vec3(e) => e,
                Item::Vec2(e) => e,
                Item::Scalar(e) => e,
            },
    {
        match self {
            Item::Vec4(e) => *e,
            Item::Vec3(e) => *e,
            Item::Vec2(e) => *e,
            Item::Scalar(e) => *e,
        }
    }

    /// The same scalar kind at the given width.
    pub fn vectorize(&self, v: Vectorization) -> (r: Item)
        ensures
            r == self.vectorize_of(v),
            r.elem_of() == self.elem_of(),
    {
        match v {
            Vectorization::Vec4 => Item::Vec4(self.elem()),
            Vectorization::Vec3 => Item::Vec3(self.elem()),
            Vectorization::Vec2 => Item::Vec2(self.elem()),
            Vectorization::Scalar => Item::Scalar(self.elem()),
        }
    }

    /// The scalar kind of the item.
    pub open spec fn elem_of(&self) -> Elem {
        match *self {
            Item::Vec4(e) => e,
            Item::Vec3(e) => e,
            Item::Vec2(e) => e,
            Item::Scalar(e) => e,
        }
    }
}

/// How many lanes each value of a kernel is widened to.
#[derive(Debug, Clone, PartialEq, Eq, Copy, Structural)]
pub enum Vectorization {
    /// Four lanes.
    Vec4,
    /// Three lanes.
    Vec3,
    /// Two lanes.
    Vec2,
    /// One lane.
    Scalar,
}

/// One resource a compiled shader binds.
#[derive(Debug, Clone)]
pub struct Binding {
    /// Where the resource lives.
    pub location: Location,
    /// How the shader touches it.
    pub visibility: Visibility,
    /// The value shape of its elements.
    pub item: Item,
    /// Its fixed size, when it has one.
    pub size: Option<usize>,
}

/// The extents of one workgroup.
#[derive(Debug, PartialEq, Eq, Clone, Copy, Hash, Structural)]
pub struct WorkgroupSize {
    /// Extent along the first axis.
    pub x: u32,
    /// Extent along the second axis.
    pub y: u32,
    /// Extent along the third axis.
    pub z: u32,
}

impl WorkgroupSize {
    /// A workgroup of the given extents.
    pub fn new(x: u32, y: u32, z: u32) -> (r: WorkgroupSize)
        ensures
            r == (WorkgroupSize { x, y, z }),
    {
        WorkgroupSize { x, y, z }
    }
}

impl Default for WorkgroupSize {
    /// The default workgroup: a square of the default extent, one deep.
    fn default() -> (r: Self)
        ensures
            r == (WorkgroupSize { x: WORKGROUP_DEFAULT, y: WORKGROUP_DEFAULT, z: 1u32 }),
    {
        WorkgroupSize { x: WORKGROUP_DEFAULT, y: WORKGROUP_DEFAULT, z: 1 }
    }
}

/// A value a shader instruction reads or writes.
#[derive(Debug, Clone, PartialEq, Eq, Copy, Structural)]
pub enum Variable {
    /// The global invocation index.
    Id,
    /// An input array, by position and item shape.
    GlobalInputArray(u16, Item),
    /// An output array, by position and item shape.
    GlobalOutputArray(u16, Item),
    /// A scalar argument, by position and kind.
    GlobalScalar(u16, Elem),
    /// A local register, by position and item shape.
    Local(u16, Item),
}

impl Variable {
    /// The same variable with its item widened.
    pub fn vectorize(&self, v: Vectorization) -> (r: Variable)
        ensures
            match *self {
                Variable::Id => r == Variable::Id,
                Variable::GlobalInputArray(p, i) => r == Variable::GlobalInputArray(
                    p,
                    i.vectorize_of(v),
                ),
                Variable::GlobalOutputArray(p, i) => r == Variable::GlobalOutputArray(
                    p,
                    i.vectorize_of(v),
                ),
                Variable::GlobalScalar(p, e) => r == Variable::GlobalScalar(p, e),
                Variable::Local(p, i) => r == Variable::Local(p, i.vectorize_of(v)),
            },
    {
        match self {
            Variable::Id => Variable::Id,
            Variable::GlobalInputArray(p, i) => Variable::GlobalInputArray(*p, i.vectorize(v)),
            Variable::GlobalOutputArray(p, i) => Variable::GlobalOutputArray(*p, i.vectorize(v)),
            Variable::GlobalScalar(p, e) => Variable::GlobalScalar(*p, *e),
            Variable::Local(p, i) => Variable::Local(*p, i.vectorize(v)),
        }
    }
}

impl Item {
    /// The same scalar kind at the given width, as a mathematical value.
    pub open spec fn vectorize_of(&self, v: Vectorization) -> Item {
        match v {
            Vectorization::Vec4 => Item::Vec4(self.elem_of()),
            Vectorization::Vec3 => Item::Vec3(self.elem_of()),
            Vectorization::Vec2 => Item::Vec2(self.elem_of()),
            Vectorization::Scalar => Item::Scalar(self.elem_of()),
        }
    }
}

/// Reading one input array through the layout of another.
#[derive(Debug, Clone, PartialEq, Eq, Copy, Structural)]
pub struct ReadGlobalWithLayout {
    /// The array read.
    pub variable: Variable,
    /// Position of the array read.
    pub tensor_read_pos: usize,
    /// Position of the array whose layout drives the read.
    pub tensor_layout_pos: usize,
}

/// Reading one input array at the invocation index.
#[derive(Debug, Clone, PartialEq, Eq, Copy, Structural)]
pub struct ReadGlobal {
    /// The array read.
    pub variable: Variable,
}

/// Writing one output array at the invocation index.
#[derive(Debug, Clone, PartialEq, Eq, Copy, Structural)]
pub struct WriteGlobal {
    /// The value written.
    pub input: Variable,
    /// The array written.
    pub global: Variable,
}

/// Assigning one of two values by a condition.
#[derive(Debug, Clone, PartialEq, Eq, Copy, Structural)]
pub struct ConditionalAssign {
    /// The condition.
    pub cond: Variable,
    /// The value when the condition holds.
    pub lhs: Variable,
    /// The value otherwise.
    pub rhs: Variable,
    /// The assigned variable.
    pub out: Variable,
}

/// Computing the offset of a cell through a layout.
#[derive(Debug, Clone, PartialEq, Eq, Copy, Structural)]
pub struct IndexOffsetGlobalWithLayout {
    /// The arrays indexed.
    pub tensor: Variable,
    /// The array whose layout drives the offset.
    pub layout: Variable,
    /// The computed offset.
    pub out: Variable,
}

/// Tensor operations that cannot be executed with a single instruction and
/// are expanded as a recorded procedure instead.
#[derive(Debug, Clone, PartialEq, Eq, Copy, Structural)]
pub enum Procedure {
    /// Reading through another array's layout.
    ReadGlobalWithLayout(ReadGlobalWithLayout),
    /// Offsetting through another array's layout.
    IndexOffsetGlobalWithLayout(IndexOffsetGlobalWithLayout),
    /// Reading at the invocation index.
    ReadGlobal(ReadGlobal),
    /// Writing at the invocation index.
    WriteGlobal(WriteGlobal),
    /// A conditional assignment.
    ConditionalAssign(ConditionalAssign),
}

impl Procedure {
    /// The same procedure with every variable widened.
    pub fn vectorize(&self, vectorization: Vectorization) -> (r: Procedure)
        ensures
            match *self {
                Procedure::ReadGlobalWithLayout(op) => r == Procedure::ReadGlobalWithLayout(
                    ReadGlobalWithLayout {
                        variable: op.variable.vectorize_of(vectorization),
                        tensor_read_pos: op.tensor_read_pos,
                        tensor_layout_pos: op.tensor_layout_pos,
                    },
                ),
                Procedure::ReadGlobal(op) => r == Procedure::ReadGlobal(
                    ReadGlobal { variable: op.variable.vectorize_of(vectorization) },
                ),
                Procedure::WriteGlobal(op) => r == Procedure::WriteGlobal(
                    WriteGlobal {
                        input: op.input.vectorize_of(vectorization),
                        global: op.global.vectorize_of(vectorization),
                    },
                ),
                Procedure::ConditionalAssign(op) => r == Procedure::ConditionalAssign(
                    ConditionalAssign {
                        cond: op.cond.vectorize_of(vectorization),
                        lhs: op.lhs.vectorize_of(vectorization),
                        rhs: op.rhs.vectorize_of(vectorization),
                        out: op.out.vectorize_of(vectorization),
                    },
                ),
                Procedure::IndexOffsetGlobalWithLayout(op) => r
                    == Procedure::IndexOffsetGlobalWithLayout(
                    IndexOffsetGlobalWithLayout {
                        tensor: op.tensor.vectorize_of(vectorization),
                        layout: op.layout.vectorize_of(vectorization),
                        out: op.out.vectorize_of(vectorization),
                    },
                ),
            },
    {
        match self {
            Procedure::ReadGlobalWithLayout(op) => Procedure::ReadGlobalWithLayout(
                ReadGlobalWithLayout {
                    variable: op.variable.vectorize(vectorization),
                    tensor_read_pos: op.tensor_read_pos,
                    tensor_layout_pos: op.tensor_layout_pos,
                },
            ),
            Procedure::ReadGlobal(op) => Procedure::ReadGlobal(
                ReadGlobal { variable: op.variable.vectorize(vectorization) },
            ),
            Procedure::WriteGlobal(op) => Procedure::WriteGlobal(
                WriteGlobal {
                    input: op.input.vectorize(vectorization),
                    global: op.global.vectorize(vectorization),
                },
            ),
            Procedure::ConditionalAssign(op) => Procedure::ConditionalAssign(
                ConditionalAssign {
                    cond: op.cond.vectorize(vectorization),
                    lhs: op.lhs.vectorize(vectorization),
                    rhs: op.rhs.vectorize(vectorization),
                    out: op.out.vectorize(vectorization),
                },
            ),
            Procedure::IndexOffsetGlobalWithLayout(op) => Procedure::IndexOffsetGlobalWithLayout(
                IndexOffsetGlobalWithLayout {
                    tensor: op.tensor.vectorize(vectorization),
                    layout: op.layout.vectorize(vectorization),
                    out: op.out.vectorize(vectorization),
                },
            ),
        }
    }
}

/// The mathematical value of vectorizing a variable.
impl Variable {
    /// The same variable with its item widened, as a mathematical value.
    pub open spec fn vectorize_of(&self, v: Vectorization) -> Variable {
        match *self {
            Variable::Id => Variable::Id,
            Variable::GlobalInputArray(p, i) => Variable::GlobalInputArray(p, i.vectorize_of(v)),
            Variable::GlobalOutputArray(p, i) => Variable::GlobalOutputArray(p, i.vectorize_of(v)),
            Variable::GlobalScalar(p, e) => Variable::GlobalScalar(p, e),
            Variable::Local(p, i) => Variable::Local(p, i.vectorize_of(v)),
        }
    }
}

/// A compiled compute shader: its bindings and workgroup extents.
#[derive(Debug, Clone)]
pub struct ComputeShader {
    /// Input bindings, in position order.
    pub inputs: Vec<Binding>,
    /// Output bindings, in position order.
    pub outputs: Vec<Binding>,
    /// The workgroup extents.
    pub workgroup_size: WorkgroupSize,
}

} // verus!
