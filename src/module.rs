//! The decoded instruction table and first-match lookups over it.
use vstd::prelude::*;

verus! {

/// Module-level capability tags.
#[derive(Clone, Copy, Debug, PartialEq, Eq, Structural)]
pub enum Capability {
    Matrix,
    Shader,
    Geometry,
    Tessellation,
    Addresses,
    Linkage,
    Kernel,
    Vector16,
    Float16Buffer,
    Float16,
    Float64,
    Int64,
    Int64Atomics,
    ImageBasic,
    ImageReadWrite,
    ImageMipmap,
    Pipes,
    Groups,
    DeviceEnqueue,
    LiteralSampler,
    AtomicStorage,
    Int16,
    TessellationPointSize,
    GeometryPointSize,
    ImageGatherExtended,
    StorageImageMultisample,
    UniformBufferArrayDynamicIndexing,
    SampledImageArrayDynamicIndexing,
    StorageBufferArrayDynamicIndexing,
    StorageImageArrayDynamicIndexing,
    ClipDistance,
    CullDistance,
    ImageCubeArray,
    SampleRateShading,
    ImageRect,
    SampledRect,
    GenericPointer,
    Int8,
    InputAttachment,
    SparseResidency,
    MinLod,
    Sampled1D,
    Image1D,
    SampledCubeArray,
    SampledBuffer,
    ImageBuffer,
    ImageMSArray,
    StorageImageExtendedFormats,
    ImageQuery,
    DerivativeControl,
    InterpolationFunction,
    TransformFeedback,
    GeometryStreams,
    StorageImageReadWithoutFormat,
    StorageImageWriteWithoutFormat,
    MultiViewport,
}

/// The pipeline stage an entry point runs in.
#[derive(Clone, Copy, Debug, PartialEq, Eq, Structural)]
pub enum ExecutionModel {
    Vertex,
    TessellationControl,
    TessellationEvaluation,
    Geometry,
    Fragment,
    GLCompute,
    Kernel,
}

/// Where a variable lives.
#[derive(Clone, Copy, Debug, PartialEq, Eq, Structural)]
pub enum StorageClass {
    UniformConstant,
    Input,
    Uniform,
    Output,
    Workgroup,
    CrossWorkgroup,
    Private,
    Function,
    Generic,
    PushConstant,
    AtomicCounter,
    Image,
}

/// Dimensionality of an image type.
#[derive(Clone, Copy, Debug, PartialEq, Eq, Structural)]
pub enum Dim {
    Dim1D,
    Dim2D,
    Dim3D,
    Cube,
    Rect,
    Buffer,
    SubpassData,
}

/// Access qualifier of an image type.
#[derive(Clone, Copy, Debug, PartialEq, Eq, Structural)]
pub enum AccessQualifier {
    ReadOnly,
    WriteOnly,
    ReadWrite,
}

/// One decoded instruction, with the fields that reflection reads.
#[derive(Clone, Debug)]
pub enum Instruction {
    Capability(Capability),
    Name { target_id: u32, name: String },
    MemberName { target_id: u32, member: u32, name: String },
    TypeVoid { result_id: u32 },
    TypeBool { result_id: u32 },
    TypeInt { result_id: u32, width: u32, signedness: bool },
    TypeFloat { result_id: u32, width: u32 },
    TypeVector { result_id: u32, component_id: u32, count: u32 },
    TypeArray { result_id: u32, type_id: u32, length_id: u32 },
    TypeRuntimeArray { result_id: u32, type_id: u32 },
    TypeStruct { result_id: u32, member_types: Vec<u32> },
    TypeImage {
        result_id: u32,
        sampled_type_id: u32,
        dim: Dim,
        depth: Option<bool>,
        arrayed: bool,
        ms: bool,
        sampled: Option<bool>,
        format: u32,
        access: Option<AccessQualifier>,
    },
    TypeSampledImage { result_id: u32, image_type_id: u32 },
    TypeOpaque { result_id: u32, name: String },
    TypePointer { result_id: u32, storage_class: StorageClass, type_id: u32 },
    Constant { result_type_id: u32, result_id: u32, data: Vec<u32> },
    Variable {
        result_type_id: u32,
        result_id: u32,
        storage_class: StorageClass,
        initializer: Option<u32>,
    },
    EntryPoint { execution: ExecutionModel, id: u32, name: String, interface: Vec<u32> },
    /// Any instruction that reflection does not look at.
    Other { opcode: u16 },
}

/// A decoded shader module: its instruction table, in order.
pub struct Module {
    pub instructions: Vec<Instruction>,
}

impl View for Module {
    type V = Seq<Instruction>;

    open spec fn view(&self) -> Seq<Instruction> {
        self.instructions@
    }
}

/// What a lookup in the instruction table searches for.
#[derive(Clone, Copy, Debug, PartialEq, Eq, Structural)]
pub enum Key {
    /// A type declaration with this result id.
    TypeDef(u32),
    /// A name for this target id.
    Name(u32),
    /// A name for this member index of this struct id.
    MemberName(u32, u32),
    /// A constant with this result id.
    Constant(u32),
    /// A variable with this result id.
    Variable(u32),
}

/// Whether `ins` is what `key` searches for.
pub open spec fn key_matches(key: Key, ins: Instruction) -> bool {
    match key {
        Key::TypeDef(id) => match ins {
            Instruction::TypeVoid { result_id }
            | Instruction::TypeBool { result_id }
            | Instruction::TypeInt { result_id, .. }
            | Instruction::TypeFloat { result_id, .. }
            | Instruction::TypeVector { result_id, .. }
            | Instruction::TypeArray { result_id, .. }
            | Instruction::TypeRuntimeArray { result_id, .. }
            | Instruction::TypeStruct { result_id, .. }
            | Instruction::TypeImage { result_id, .. }
            | Instruction::TypeSampledImage { result_id, .. }
            | Instruction::TypeOpaque { result_id, .. }
            | Instruction::TypePointer { result_id, .. } => result_id == id,
            _ => false,
        },
        Key::Name(id) => match ins {
            Instruction::Name { target_id, .. } => target_id == id,
            _ => false,
        },
        Key::MemberName(id, idx) => match ins {
            Instruction::MemberName { target_id, member, .. } => target_id == id && member == idx,
            _ => false,
        },
        Key::Constant(id) => match ins {
            Instruction::Constant { result_id, .. } => result_id == id,
            _ => false,
        },
        Key::Variable(id) => match ins {
            Instruction::Variable { result_id, .. } => result_id == id,
            _ => false,
        },
    }
}

/// The first instruction of `s` that `key` matches.
pub open spec fn first_match(s: Seq<Instruction>, key: Key) -> Option<Instruction>
    decreases s.len(),
{
    if s.len() == 0 {
        None
    } else if key_matches(key, s[0]) {
        Some(s[0])
    } else {
        first_match(s.drop_first(), key)
    }
}

impl Key {
    /// Executable form of `key_matches`.
    pub fn matches(&self, ins: &Instruction) -> (r: bool)
        ensures
            r == key_matches(*self, *ins),
    {
        match *self {
            Key::TypeDef(id) => match ins {
                Instruction::TypeVoid { result_id }
                | Instruction::TypeBool { result_id }
                | Instruction::TypeInt { result_id, .. }
                | Instruction::TypeFloat { result_id, .. }
                | Instruction::TypeVector { result_id, .. }
                | Instruction::TypeArray { result_id, .. }
                | Instruction::TypeRuntimeArray { result_id, .. }
                | Instruction::TypeStruct { result_id, .. }
                | Instruction::TypeImage { result_id, .. }
                | Instruction::TypeSampledImage { result_id, .. }
                | Instruction::TypeOpaque { result_id, .. }
                | Instruction::TypePointer { result_id, .. } => *result_id == id,
                _ => false,
            },
            Key::Name(id) => match ins {
                Instruction::Name { target_id, .. } => *target_id == id,
                _ => false,
            },
            Key::MemberName(id, idx) => match ins {
                Instruction::MemberName { target_id, member, .. } => *target_id == id && *member
                    == idx,
                _ => false,
            },
            Key::Constant(id) => match ins {
                Instruction::Constant { result_id, .. } => *result_id == id,
                _ => false,
            },
            Key::Variable(id) => match ins {
                Instruction::Variable { result_id, .. } => *result_id == id,
                _ => false,
            },
        }
    }
}

/// Index of the first instruction of the table that `key` matches.
pub fn find_first(doc: &Module, key: Key) -> (r: Option<usize>)
    ensures
        match r {
            Some(i) => {
                &&& i < doc@.len()
                &&& first_match(doc@, key) == Some(doc@[i as int])
                &&& key_matches(key, doc@[i as int])
            },
            None => first_match(doc@, key).is_none(),
        },
{
    let n = doc.instructions.len();
    let mut i: usize = 0;
    assert(doc@.subrange(0, n as int) =~= doc@);
    while i < n
        invariant
            n == doc@.len(),
            i <= n,
            first_match(doc@, key) == first_match(doc@.subrange(i as int, n as int), key),
        decreases n - i,
    {
        let ghost rest = doc@.subrange(i as int, n as int);
        assert(rest.drop_first() =~= doc@.subrange(i + 1, n as int));
        if key.matches(&doc.instructions[i]) {
            return Some(i);
        }
        i = i + 1;
    }
    None
}

} // verus!
