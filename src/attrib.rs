//! Vertex attribute types.

use vstd::prelude::*;

use crate::shade::BaseType;

verus! {

/// Number of elements per attribute, only 1 to 4 are supported
pub type Count = u8;

/// Offset of an attribute from the start of the buffer, in bytes
pub type Offset = u32;

/// Offset between attribute values, in bytes
pub type Stride = u8;

/// The number of instances between each subsequent attribute value
pub type InstanceRate = u8;

/// The signedness of an attribute.
#[derive(Clone, Copy, Debug, PartialEq, Eq, Structural, PartialOrd, Ord, Hash)]
pub enum SignFlag {
    Signed,
    Unsigned,
}

/// Describes how an integer value is interpreted by the shader.
#[derive(Clone, Copy, Debug, PartialEq, Eq, Structural, PartialOrd, Ord, Hash)]
pub enum IntSubType {
    /// Un-processed integer.
    IntRaw,
    /// Normalized either to [0,1] or [-1,1] depending on the sign flag.
    IntNormalized,
    /// Converted to float on the fly by the hardware.
    IntAsFloat,
}

/// The size of an integer attribute, in bits.
#[derive(Clone, Copy, Debug, PartialEq, Eq, Structural, PartialOrd, Ord, Hash)]
pub enum IntSize {
    U8,
    U16,
    U32,
}

/// Type of a floating point attribute on the shader side.
#[derive(Clone, Copy, Debug, PartialEq, Eq, Structural, PartialOrd, Ord, Hash)]
pub enum FloatSubType {
    /// 32-bit.
    FloatDefault,
    /// 64-bit.
    FloatPrecision,
}

/// The size of a floating point attribute, in bits.
#[derive(Clone, Copy, Debug, PartialEq, Eq, Structural, PartialOrd, Ord, Hash)]
pub enum FloatSize {
    F16,
    F32,
    F64,
}

/// The type of an attribute.
#[derive(Clone, Copy, Debug, PartialEq, Eq, Structural, PartialOrd, Ord, Hash)]
pub enum Type {
    Int(IntSubType, IntSize, SignFlag),
    Float(FloatSubType, FloatSize),
    Special,
}

/// Whether an attribute of type `t` can feed a shader input of base type `bt`.
///
/// A raw integer reaches the shader as a 32-bit signed integer, or as a
/// 32-bit unsigned one when it is unsigned itself. A normalized or converted
/// integer reaches it as a 32-bit float. Any float attribute can feed a
/// 32-bit float input; only a double-precision 64-bit one can feed a 64-bit
/// float input. Nothing feeds a boolean input, and a special attribute
/// feeds no input at all.
pub open spec fn compatible(t: Type, bt: BaseType) -> bool {
    match t {
        Type::Int(sub, _, sign) => if sub == IntSubType::IntRaw {
            bt == BaseType::BaseI32 || (bt == BaseType::BaseU32 && sign == SignFlag::Unsigned)
        } else {
            bt == BaseType::BaseF32
        },
        Type::Float(sub, size) => bt == BaseType::BaseF32 || (bt == BaseType::BaseF64
            && sub == FloatSubType::FloatPrecision && size == FloatSize::F64),
        Type::Special => false,
    }
}

/// The verdict of the compatibility check: `Ok` exactly when `compatible(t, bt)`.
pub open spec fn compatibility(t: Type, bt: BaseType) -> Result<(), ()> {
    if compatible(t, bt) {
        Ok(())
    } else {
        Err(())
    }
}

impl Type {
    /// Check if the attribute is compatible with a particular shader type.
    pub fn is_compatible(&self, bt: BaseType) -> (r: Result<(), ()>)
        ensures
            r == compatibility(*self, bt),
    {
        match (*self, bt) {
            (Type::Int(IntSubType::IntRaw, _, _), BaseType::BaseI32) => Ok(()),
            (Type::Int(IntSubType::IntRaw, _, SignFlag::Unsigned), BaseType::BaseU32) => Ok(()),
            (Type::Int(IntSubType::IntRaw, _, _), _) => Err(()),
            (Type::Int(_, _, _), BaseType::BaseF32) => Ok(()),
            (Type::Int(_, _, _), _) => Err(()),
            (Type::Float(_, _), BaseType::BaseF32) => Ok(()),
            (Type::Float(FloatSubType::FloatPrecision, FloatSize::F64), BaseType::BaseF64) => Ok(()),
            (Type::Float(_, _), _) => Err(()),
            (_, BaseType::BaseF64) => Err(()),
            (_, BaseType::BaseBool) => Err(()),
            _ => Err(()),
        }
    }
}

/// Complete format of a vertex attribute.
#[derive(Clone, Copy, Debug, PartialEq, Eq, Structural, PartialOrd, Ord, Hash)]
pub struct Format {
    /// Number of elements per vertex
    pub elem_count: Count,
    /// Type of a single element
    pub elem_type: Type,
    /// Offset in bytes to the first vertex
    pub offset: Offset,
    /// Stride in bytes between consecutive vertices
    pub stride: Stride,
    /// Instance rate per vertex
    pub instance_rate: InstanceRate,
}

/// The smallest number of elements per vertex an attribute may have.
pub const MIN_ELEM_COUNT: Count = 1;

/// The largest number of elements per vertex an attribute may have.
pub const MAX_ELEM_COUNT: Count = 4;

impl Format {
    /// A format is well formed when it has one to four elements per vertex.
    pub open spec fn wf(&self) -> bool {
        MIN_ELEM_COUNT <= self.elem_count <= MAX_ELEM_COUNT
    }

    /// Builds a format, or `None` when the element count is not one to four.
    pub fn new(
        elem_count: Count,
        elem_type: Type,
        offset: Offset,
        stride: Stride,
        instance_rate: InstanceRate,
    ) -> (r: Option<Format>)
        ensures
            r is Some <==> MIN_ELEM_COUNT <= elem_count <= MAX_ELEM_COUNT,
            r matches Some(f) ==> f == (Format { elem_count, elem_type, offset, stride, instance_rate }),
            r matches Some(f) ==> f.wf(),
    {
        if MIN_ELEM_COUNT <= elem_count && elem_count <= MAX_ELEM_COUNT {
            Some(Format { elem_count, elem_type, offset, stride, instance_rate })
        } else {
            None
        }
    }

    /// Whether the element count is one to four.
    pub fn is_valid(&self) -> (r: bool)
        ensures
            r == self.wf(),
    {
        MIN_ELEM_COUNT <= self.elem_count && self.elem_count <= MAX_ELEM_COUNT
    }
}

/// The check is a function of its two arguments: two verdicts given for the
/// same attribute type and shader base type are the same verdict.
pub proof fn lemma_is_compatible_deterministic(t: Type, bt: BaseType, r1: Result<(), ()>, r2: Result<(), ()>)
    requires
        r1 == compatibility(t, bt),
        r2 == compatibility(t, bt),
    ensures
        r1 == r2,
{
}

/// No attribute type is compatible with a boolean shader input.
pub proof fn lemma_bool_never_compatible(t: Type)
    ensures
        compatibility(t, BaseType::BaseBool) == Err::<(), ()>(()),
{
}

/// A raw integer of any size feeds a 32-bit unsigned input when it is
/// unsigned, and does not when it is signed.
pub proof fn lemma_raw_int_unsigned_input(size: IntSize)
    ensures
        compatibility(Type::Int(IntSubType::IntRaw, size, SignFlag::Unsigned), BaseType::BaseU32)
            == Ok::<(), ()>(()),
        compatibility(Type::Int(IntSubType::IntRaw, size, SignFlag::Signed), BaseType::BaseU32)
            == Err::<(), ()>(()),
{
}

/// A normalized or float-converted integer of any size and sign feeds a
/// 32-bit float input.
pub proof fn lemma_converted_int_float_input(sub: IntSubType, size: IntSize, sign: SignFlag)
    requires
        sub == IntSubType::IntNormalized || sub == IntSubType::IntAsFloat,
    ensures
        compatibility(Type::Int(sub, size, sign), BaseType::BaseF32) == Ok::<(), ()>(()),
{
}

} // verus!
