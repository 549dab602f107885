use crate::name::Name;
use crate::predicates::{FPPredicate, IntPredicate};
use crate::types::{
    FPType, NamedStructDef, SType, Type, TypeRef, Types, lemma_deep_list_index, lemma_deep_list_len,
};
use vstd::prelude::*;

verus! {

/// A handle to a constant held by a `ConstantPool`. Handles to one constant
/// are one handle: sharing a constant is sharing its handle.
#[derive(Clone, Copy, Debug, PartialEq, Eq, Structural)]
pub struct ConstantRef(pub usize);

/// A floating-point literal, its value held as the bits of its IEEE encoding
/// where the kind has one that fits in 64 bits.
#[derive(Clone, Copy, Debug, PartialEq, Eq, Structural)]
#[allow(non_camel_case_types)]
pub enum Float {
    Half,
    Single(u32),
    Double(u64),
    Quadruple,
    X86_FP80,
    PPC_FP128,
}

/// A constant: a literal value, or an expression over other constants.
/// Operands are handles into the same pool, so constants form a DAG.
#[derive(Clone, Debug, PartialEq)]
#[allow(inconsistent_fields)]
pub enum Constant {
    /// An integer of `bits` bits; `value` holds it zero-extended, or
    /// truncated to its low 64 bits when `bits > 64`.
    Int { bits: u32, value: u64 },
    Float(Float),
    /// The null pointer of the given pointer type.
    Null(TypeRef),
    /// The all-zero value of the given type.
    AggregateZero(TypeRef),
    Struct { name: Option<String>, values: Vec<ConstantRef>, is_packed: bool },
    Array { element_type: TypeRef, elements: Vec<ConstantRef> },
    Vector(Vec<ConstantRef>),
    Undef(TypeRef),
    /// The address of a basic block.
    BlockAddress,
    /// The address of a global object; `ty` is the object's own type.
    GlobalReference { name: Name, ty: TypeRef },
    TokenNone,
    Add(Add),
    Sub(Sub),
    Mul(Mul),
    UDiv(UDiv),
    SDiv(SDiv),
    URem(URem),
    SRem(SRem),
    And(And),
    Or(Or),
    Xor(Xor),
    FAdd(FAdd),
    FSub(FSub),
    FMul(FMul),
    FDiv(FDiv),
    FRem(FRem),
    Shl(Shl),
    LShr(LShr),
    AShr(AShr),
    ExtractElement(ExtractElement),
    InsertElement(InsertElement),
    ShuffleVector(ShuffleVector),
    ExtractValue(ExtractValue),
    InsertValue(InsertValue),
    GetElementPtr(GetElementPtr),
    Trunc(Trunc),
    ZExt(ZExt),
    SExt(SExt),
    FPTrunc(FPTrunc),
    FPExt(FPExt),
    FPToUI(FPToUI),
    FPToSI(FPToSI),
    UIToFP(UIToFP),
    SIToFP(SIToFP),
    PtrToInt(PtrToInt),
    IntToPtr(IntToPtr),
    BitCast(BitCast),
    AddrSpaceCast(AddrSpaceCast),
    ICmp(ICmp),
    FCmp(FCmp),
    Select(Select),
}

/// Integer addition.
#[derive(Clone, Copy, Debug, PartialEq, Eq, Structural)]
pub struct Add {
    pub operand0: ConstantRef,
    pub operand1: ConstantRef,
}

/// Integer subtraction.
#[derive(Clone, Copy, Debug, PartialEq, Eq, Structural)]
pub struct Sub {
    pub operand0: ConstantRef,
    pub operand1: ConstantRef,
}

/// Integer multiplication.
#[derive(Clone, Copy, Debug, PartialEq, Eq, Structural)]
pub struct Mul {
    pub operand0: ConstantRef,
    pub operand1: ConstantRef,
}

/// Unsigned integer division.
#[derive(Clone, Copy, Debug, PartialEq, Eq, Structural)]
pub struct UDiv {
    pub operand0: ConstantRef,
    pub operand1: ConstantRef,
}

/// Signed integer division.
#[derive(Clone, Copy, Debug, PartialEq, Eq, Structural)]
pub struct SDiv {
    pub operand0: ConstantRef,
    pub operand1: ConstantRef,
}

/// Unsigned integer remainder.
#[derive(Clone, Copy, Debug, PartialEq, Eq, Structural)]
pub struct URem {
    pub operand0: ConstantRef,
    pub operand1: ConstantRef,
}

/// Signed integer remainder.
#[derive(Clone, Copy, Debug, PartialEq, Eq, Structural)]
pub struct SRem {
    pub operand0: ConstantRef,
    pub operand1: ConstantRef,
}

/// Bitwise and.
#[derive(Clone, Copy, Debug, PartialEq, Eq, Structural)]
pub struct And {
    pub operand0: ConstantRef,
    pub operand1: ConstantRef,
}

/// Bitwise or.
#[derive(Clone, Copy, Debug, PartialEq, Eq, Structural)]
pub struct Or {
    pub operand0: ConstantRef,
    pub operand1: ConstantRef,
}

/// Bitwise exclusive or.
#[derive(Clone, Copy, Debug, PartialEq, Eq, Structural)]
pub struct Xor {
    pub operand0: ConstantRef,
    pub operand1: ConstantRef,
}

/// Floating-point addition.
#[derive(Clone, Copy, Debug, PartialEq, Eq, Structural)]
pub struct FAdd {
    pub operand0: ConstantRef,
    pub operand1: ConstantRef,
}

/// Floating-point subtraction.
#[derive(Clone, Copy, Debug, PartialEq, Eq, Structural)]
pub struct FSub {
    pub operand0: ConstantRef,
    pub operand1: ConstantRef,
}

/// Floating-point multiplication.
#[derive(Clone, Copy, Debug, PartialEq, Eq, Structural)]
pub struct FMul {
    pub operand0: ConstantRef,
    pub operand1: ConstantRef,
}

/// Floating-point division.
#[derive(Clone, Copy, Debug, PartialEq, Eq, Structural)]
pub struct FDiv {
    pub operand0: ConstantRef,
    pub operand1: ConstantRef,
}

/// Floating-point remainder.
#[derive(Clone, Copy, Debug, PartialEq, Eq, Structural)]
pub struct FRem {
    pub operand0: ConstantRef,
    pub operand1: ConstantRef,
}

/// Shift left.
#[derive(Clone, Copy, Debug, PartialEq, Eq, Structural)]
pub struct Shl {
    pub operand0: ConstantRef,
    pub operand1: ConstantRef,
}

/// Logical shift right.
#[derive(Clone, Copy, Debug, PartialEq, Eq, Structural)]
pub struct LShr {
    pub operand0: ConstantRef,
    pub operand1: ConstantRef,
}

/// Arithmetic shift right.
#[derive(Clone, Copy, Debug, PartialEq, Eq, Structural)]
pub struct AShr {
    pub operand0: ConstantRef,
    pub operand1: ConstantRef,
}

/// One element of a vector.
#[derive(Clone, Copy, Debug, PartialEq, Eq, Structural)]
pub struct ExtractElement {
    pub vector: ConstantRef,
    pub index: ConstantRef,
}

/// A vector with one element replaced.
#[derive(Clone, Copy, Debug, PartialEq, Eq, Structural)]
pub struct InsertElement {
    pub vector: ConstantRef,
    pub element: ConstantRef,
    pub index: ConstantRef,
}

/// Elements of two vectors picked by a mask.
#[derive(Clone, Copy, Debug, PartialEq, Eq, Structural)]
pub struct ShuffleVector {
    pub operand0: ConstantRef,
    pub operand1: ConstantRef,
    pub mask: ConstantRef,
}

/// A member of an aggregate, reached by a path of indices.
#[derive(Clone, Debug, PartialEq, Eq)]
pub struct ExtractValue {
    pub aggregate: ConstantRef,
    pub indices: Vec<u32>,
}

/// An aggregate with one member, reached by a path of indices, replaced.
#[derive(Clone, Debug, PartialEq, Eq)]
pub struct InsertValue {
    pub aggregate: ConstantRef,
    pub element: ConstantRef,
    pub indices: Vec<u32>,
}

/// The address of a member, reached from a base address by a path of indices.
#[derive(Clone, Debug, PartialEq, Eq)]
pub struct GetElementPtr {
    pub address: ConstantRef,
    pub indices: Vec<ConstantRef>,
    pub in_bounds: bool,
}

/// Integer truncation.
#[derive(Clone, Copy, Debug, PartialEq, Eq, Structural)]
pub struct Trunc {
    pub operand: ConstantRef,
    pub to_type: TypeRef,
}

/// Zero extension.
#[derive(Clone, Copy, Debug, PartialEq, Eq, Structural)]
pub struct ZExt {
    pub operand: ConstantRef,
    pub to_type: TypeRef,
}

/// Sign extension.
#[derive(Clone, Copy, Debug, PartialEq, Eq, Structural)]
pub struct SExt {
    pub operand: ConstantRef,
    pub to_type: TypeRef,
}

/// Floating-point truncation.
#[derive(Clone, Copy, Debug, PartialEq, Eq, Structural)]
pub struct FPTrunc {
    pub operand: ConstantRef,
    pub to_type: TypeRef,
}

/// Floating-point extension.
#[derive(Clone, Copy, Debug, PartialEq, Eq, Structural)]
pub struct FPExt {
    pub operand: ConstantRef,
    pub to_type: TypeRef,
}

/// Floating-point to unsigned integer.
#[derive(Clone, Copy, Debug, PartialEq, Eq, Structural)]
pub struct FPToUI {
    pub operand: ConstantRef,
    pub to_type: TypeRef,
}

/// Floating-point to signed integer.
#[derive(Clone, Copy, Debug, PartialEq, Eq, Structural)]
pub struct FPToSI {
    pub operand: ConstantRef,
    pub to_type: TypeRef,
}

/// Unsigned integer to floating-point.
#[derive(Clone, Copy, Debug, PartialEq, Eq, Structural)]
pub struct UIToFP {
    pub operand: ConstantRef,
    pub to_type: TypeRef,
}

/// Signed integer to floating-point.
#[derive(Clone, Copy, Debug, PartialEq, Eq, Structural)]
pub struct SIToFP {
    pub operand: ConstantRef,
    pub to_type: TypeRef,
}

/// Pointer to integer.
#[derive(Clone, Copy, Debug, PartialEq, Eq, Structural)]
pub struct PtrToInt {
    pub operand: ConstantRef,
    pub to_type: TypeRef,
}

/// Integer to pointer.
#[derive(Clone, Copy, Debug, PartialEq, Eq, Structural)]
pub struct IntToPtr {
    pub operand: ConstantRef,
    pub to_type: TypeRef,
}

/// Reinterpretation as another type of the same size.
#[derive(Clone, Copy, Debug, PartialEq, Eq, Structural)]
pub struct BitCast {
    pub operand: ConstantRef,
    pub to_type: TypeRef,
}

/// Pointer to another address space.
#[derive(Clone, Copy, Debug, PartialEq, Eq, Structural)]
pub struct AddrSpaceCast {
    pub operand: ConstantRef,
    pub to_type: TypeRef,
}

/// An integer comparison.
#[derive(Clone, Copy, Debug, PartialEq, Eq, Structural)]
pub struct ICmp {
    pub predicate: IntPredicate,
    pub operand0: ConstantRef,
    pub operand1: ConstantRef,
}

/// A floating-point comparison.
#[derive(Clone, Copy, Debug, PartialEq, Eq, Structural)]
pub struct FCmp {
    pub predicate: FPPredicate,
    pub operand0: ConstantRef,
    pub operand1: ConstantRef,
}

/// A choice between two values.
#[derive(Clone, Copy, Debug, PartialEq, Eq, Structural)]
pub struct Select {
    pub condition: ConstantRef,
    pub true_value: ConstantRef,
    pub false_value: ConstantRef,
}

/// Why the type of a constant cannot be computed: each names a way in which
/// the constant is not well-formed IR.
#[derive(Clone, Copy, Debug, PartialEq, Eq, Structural)]
pub enum TypeError {
    /// Two operands that must share a type do not.
    OperandTypeMismatch,
    /// A vector operation on an operand that is not a vector.
    NotAVector,
    /// An aggregate index into a type that is neither an array nor a structure.
    NotAnAggregate,
    /// A structure index past the structure's last field.
    IndexOutOfRange,
    /// An address index on a structure that is not an integer literal.
    NonLiteralStructIndex,
    /// An address index into a named structure that has no body.
    OpaqueStruct,
    /// An address index into a named structure that was never declared.
    UndefinedStruct,
    /// An address index into a type that cannot be indexed.
    NotIndexable,
    /// A vector literal with no elements.
    EmptyVector,
}

/// The pool that owns every constant of a build. A constant's operands come
/// before it in the pool.
#[derive(Debug)]
pub struct ConstantPool {
    pub items: Vec<Constant>,
}

pub open spec fn all_ops_below(ops: Seq<ConstantRef>, i: int) -> bool {
    forall|k: int| 0 <= k < ops.len() ==> 0 <= #[trigger] ops[k].0 < i
}

/// Every operand of `c` lies below `i`.
pub open spec fn operands_below(c: Constant, i: int) -> bool {
    match c {
        Constant::Struct { values, .. } => all_ops_below(values@, i),
        Constant::Array { elements, .. } => all_ops_below(elements@, i),
        Constant::Vector(v) => all_ops_below(v@, i),
        Constant::Add(x) => x.operand0.0 < i && x.operand1.0 < i,
        Constant::Sub(x) => x.operand0.0 < i && x.operand1.0 < i,
        Constant::Mul(x) => x.operand0.0 < i && x.operand1.0 < i,
        Constant::UDiv(x) => x.operand0.0 < i && x.operand1.0 < i,
        Constant::SDiv(x) => x.operand0.0 < i && x.operand1.0 < i,
        Constant::URem(x) => x.operand0.0 < i && x.operand1.0 < i,
        Constant::SRem(x) => x.operand0.0 < i && x.operand1.0 < i,
        Constant::And(x) => x.operand0.0 < i && x.operand1.0 < i,
        Constant::Or(x) => x.operand0.0 < i && x.operand1.0 < i,
        Constant::Xor(x) => x.operand0.0 < i && x.operand1.0 < i,
        Constant::FAdd(x) => x.operand0.0 < i && x.operand1.0 < i,
        Constant::FSub(x) => x.operand0.0 < i && x.operand1.0 < i,
        Constant::FMul(x) => x.operand0.0 < i && x.operand1.0 < i,
        Constant::FDiv(x) => x.operand0.0 < i && x.operand1.0 < i,
        Constant::FRem(x) => x.operand0.0 < i && x.operand1.0 < i,
        Constant::Shl(x) => x.operand0.0 < i && x.operand1.0 < i,
        Constant::LShr(x) => x.operand0.0 < i && x.operand1.0 < i,
        Constant::AShr(x) => x.operand0.0 < i && x.operand1.0 < i,
        Constant::Trunc(x) => x.operand.0 < i,
        Constant::ZExt(x) => x.operand.0 < i,
        Constant::SExt(x) => x.operand.0 < i,
        Constant::FPTrunc(x) => x.operand.0 < i,
        Constant::FPExt(x) => x.operand.0 < i,
        Constant::FPToUI(x) => x.operand.0 < i,
        Constant::FPToSI(x) => x.operand.0 < i,
        Constant::UIToFP(x) => x.operand.0 < i,
        Constant::SIToFP(x) => x.operand.0 < i,
        Constant::PtrToInt(x) => x.operand.0 < i,
        Constant::IntToPtr(x) => x.operand.0 < i,
        Constant::BitCast(x) => x.operand.0 < i,
        Constant::AddrSpaceCast(x) => x.operand.0 < i,
        Constant::ExtractElement(x) => x.vector.0 < i && x.index.0 < i,
        Constant::InsertElement(x) => x.vector.0 < i && x.element.0 < i && x.index.0 < i,
        Constant::ShuffleVector(x) => x.operand0.0 < i && x.operand1.0 < i && x.mask.0 < i,
        Constant::ExtractValue(x) => x.aggregate.0 < i,
        Constant::InsertValue(x) => x.aggregate.0 < i && x.element.0 < i,
        Constant::GetElementPtr(x) => x.address.0 < i && all_ops_below(x.indices@, i),
        Constant::ICmp(x) => x.operand0.0 < i && x.operand1.0 < i,
        Constant::FCmp(x) => x.operand0.0 < i && x.operand1.0 < i,
        Constant::Select(x) => x.condition.0 < i && x.true_value.0 < i && x.false_value.0 < i,
        _ => true,
    }
}

/// Every type handle in `c` lies below `n`.
pub open spec fn type_refs_below(c: Constant, n: int) -> bool {
    match c {
        Constant::Null(t) => t.0 < n,
        Constant::AggregateZero(t) => t.0 < n,
        Constant::Undef(t) => t.0 < n,
        Constant::Array { element_type, .. } => element_type.0 < n,
        Constant::GlobalReference { ty, .. } => ty.0 < n,
        Constant::Trunc(x) => x.to_type.0 < n,
        Constant::ZExt(x) => x.to_type.0 < n,
        Constant::SExt(x) => x.to_type.0 < n,
        Constant::FPTrunc(x) => x.to_type.0 < n,
        Constant::FPExt(x) => x.to_type.0 < n,
        Constant::FPToUI(x) => x.to_type.0 < n,
        Constant::FPToSI(x) => x.to_type.0 < n,
        Constant::UIToFP(x) => x.to_type.0 < n,
        Constant::SIToFP(x) => x.to_type.0 < n,
        Constant::PtrToInt(x) => x.to_type.0 < n,
        Constant::IntToPtr(x) => x.to_type.0 < n,
        Constant::BitCast(x) => x.to_type.0 < n,
        Constant::AddrSpaceCast(x) => x.to_type.0 < n,
        _ => true,
    }
}

/// The pool is well-formed over the interner `types`.
pub open spec fn pool_wf(types: &Types, pool: Seq<Constant>) -> bool {
    forall|i: int|
        0 <= i < pool.len() ==> operands_below(#[trigger] pool[i], i) && type_refs_below(
            pool[i],
            types.entries@.len() as int,
        )
}

pub open spec fn float_kind(f: Float) -> FPType {
    match f {
        Float::Half => FPType::Half,
        Float::Single(_) => FPType::Single,
        Float::Double(_) => FPType::Double,
        Float::Quadruple => FPType::FP128,
        Float::X86_FP80 => FPType::X86_FP80,
        Float::PPC_FP128 => FPType::PPC_FP128,
    }
}

/// The common type of two operands that must share one.
pub open spec fn same_ty(a: Result<SType, TypeError>, b: Result<SType, TypeError>) -> Result<
    SType,
    TypeError,
> {
    match (a, b) {
        (Err(e), _) => Err(e),
        (Ok(_), Err(e)) => Err(e),
        (Ok(x), Ok(y)) => if x == y {
            Ok(x)
        } else {
            Err(TypeError::OperandTypeMismatch)
        },
    }
}

/// A comparison gives a boolean, or a vector of booleans for vector operands.
pub open spec fn cmp_ty(operands: Result<SType, TypeError>) -> Result<SType, TypeError> {
    match operands {
        Err(e) => Err(e),
        Ok(SType::Vector(_, n)) => Ok(SType::Vector(Box::new(SType::Int(1)), n)),
        Ok(_) => Ok(SType::Int(1)),
    }
}

/// A shuffle gives the operands' element type, as many times as the mask has
/// elements.
pub open spec fn shuffle_ty(
    operands: Result<SType, TypeError>,
    mask: Result<SType, TypeError>,
) -> Result<SType, TypeError> {
    match operands {
        Err(e) => Err(e),
        Ok(SType::Vector(e, _)) => match mask {
            Err(x) => Err(x),
            Ok(SType::Vector(_, n)) => Ok(SType::Vector(e, n)),
            Ok(_) => Err(TypeError::NotAVector),
        },
        Ok(_) => Err(TypeError::NotAVector),
    }
}

/// The type reached from `cur` by an aggregate index path: an array index
/// steps to the element type whatever its value; a structure index must name
/// a field.
pub open spec fn ev_walk(cur: SType, indices: Seq<u32>) -> Result<SType, TypeError>
    decreases indices.len(),
{
    if indices.len() == 0 {
        Ok(cur)
    } else {
        match cur {
            SType::Array(e, _) => ev_walk(*e, indices.drop_first()),
            SType::Struct(elems, _) => if (indices[0] as int) < elems.len() {
                ev_walk(elems[indices[0] as int], indices.drop_first())
            } else {
                Err(TypeError::IndexOutOfRange)
            },
            _ => Err(TypeError::NotAnAggregate),
        }
    }
}

/// The field number that an address index names on a structure: it must be
/// an integer literal.
pub open spec fn struct_index(pool: Seq<Constant>, idx: ConstantRef) -> Result<nat, TypeError> {
    if 0 <= idx.0 < pool.len() {
        match pool[idx.0 as int] {
            Constant::Int { value, .. } => Ok(value as nat),
            _ => Err(TypeError::NonLiteralStructIndex),
        }
    } else {
        Err(TypeError::NonLiteralStructIndex)
    }
}

/// One address-index step into a structure with fields `elems`.
pub open spec fn field_step(
    types: &Types,
    pool: Seq<Constant>,
    elems: Seq<SType>,
    indices: Seq<ConstantRef>,
) -> Result<SType, TypeError>
    decreases indices.len(), 0int,
{
    if indices.len() == 0 {
        arbitrary()
    } else {
        match struct_index(pool, indices[0]) {
            Err(e) => Err(e),
            Ok(k) => if k < elems.len() {
                gep_walk(types, pool, elems[k as int], indices.drop_first())
            } else {
                Err(TypeError::IndexOutOfRange)
            },
        }
    }
}

/// The type of the address reached from a base of type `cur` by an address
/// index path: a pointer, vector or array index steps to the element type; a
/// structure index selects a field; a named structure is resolved through
/// the table. The result points to the type reached.
pub open spec fn gep_walk(
    types: &Types,
    pool: Seq<Constant>,
    cur: SType,
    indices: Seq<ConstantRef>,
) -> Result<SType, TypeError>
    decreases indices.len(), 1int,
{
    if indices.len() == 0 {
        Ok(SType::Pointer(Box::new(cur), 0))
    } else {
        match cur {
            SType::Pointer(p, _) => gep_walk(types, pool, *p, indices.drop_first()),
            SType::Vector(e, _) => gep_walk(types, pool, *e, indices.drop_first()),
            SType::Array(e, _) => gep_walk(types, pool, *e, indices.drop_first()),
            SType::Struct(elems, _) => field_step(types, pool, elems, indices),
            SType::Named(name) => match types.lookup(name) {
                None => Err(TypeError::UndefinedStruct),
                Some(NamedStructDef::Opaque) => Err(TypeError::OpaqueStruct),
                Some(NamedStructDef::Defined(b)) => match types.deep(b) {
                    SType::Struct(elems, _) => field_step(types, pool, elems, indices),
                    _ => Err(TypeError::NotIndexable),
                },
            },
            _ => Err(TypeError::NotIndexable),
        }
    }
}

/// The type of an address computation whose base has type `base`: with no
/// index, the base's own type; otherwise the walk along the indices.
pub open spec fn gep_ty(
    types: &Types,
    pool: Seq<Constant>,
    base: SType,
    indices: Seq<ConstantRef>,
) -> Result<SType, TypeError> {
    if indices.len() == 0 {
        Ok(base)
    } else {
        gep_walk(types, pool, base, indices)
    }
}

/// The type of operand `op` of the constant at `i`.
pub open spec fn opty(types: &Types, pool: Seq<Constant>, i: int, op: ConstantRef) -> Result<
    SType,
    TypeError,
>
    decreases i, 0int, 0int,
{
    if 0 <= op.0 < i {
        ty_of(types, pool, op.0 as int)
    } else {
        arbitrary()
    }
}

/// The types of a list of operands of the constant at `i`, or the first
/// error among them.
pub open spec fn operand_types(
    types: &Types,
    pool: Seq<Constant>,
    i: int,
    ops: Seq<ConstantRef>,
) -> Result<Seq<SType>, TypeError>
    decreases i, 0int, ops.len() + 1,
{
    if ops.len() == 0 {
        Ok(Seq::empty())
    } else {
        match opty(types, pool, i, ops[0]) {
            Err(e) => Err(e),
            Ok(t) => match operand_types(types, pool, i, ops.drop_first()) {
                Err(e) => Err(e),
                Ok(ts) => Ok(seq![t] + ts),
            },
        }
    }
}

/// The type of the constant at `i`.
pub open spec fn ty_of(types: &Types, pool: Seq<Constant>, i: int) -> Result<SType, TypeError>
    decreases i, 1int, 0int,
{
    if i < 0 || i >= pool.len() {
        arbitrary()
    } else {
        match pool[i] {
            Constant::Int { bits, .. } => Ok(SType::Int(bits)),
            Constant::Float(f) => Ok(SType::FP(float_kind(f))),
            Constant::Null(t) => Ok(types.deep(t)),
            Constant::AggregateZero(t) => Ok(types.deep(t)),
            Constant::Struct { values, is_packed, .. } => match operand_types(
                types,
                pool,
                i,
                values@,
            ) {
                Ok(ts) => Ok(SType::Struct(ts, is_packed)),
                Err(e) => Err(e),
            },
            Constant::Array { element_type, elements } => Ok(
                SType::Array(Box::new(types.deep(element_type)), elements@.len()),
            ),
            Constant::Vector(v) => if v@.len() == 0 {
                Err(TypeError::EmptyVector)
            } else {
                match opty(types, pool, i, v@[0]) {
                    Ok(t) => Ok(SType::Vector(Box::new(t), v@.len())),
                    Err(e) => Err(e),
                }
            },
            Constant::Undef(t) => Ok(types.deep(t)),
            Constant::BlockAddress => Ok(SType::Label),
            Constant::GlobalReference { ty, .. } => Ok(SType::Pointer(Box::new(types.deep(ty)), 0)),
            Constant::TokenNone => Ok(SType::Token),
            Constant::Add(x) => same_ty(opty(types, pool, i, x.operand0), opty(types, pool, i, x.operand1)),
            Constant::Sub(x) => same_ty(opty(types, pool, i, x.operand0), opty(types, pool, i, x.operand1)),
            Constant::Mul(x) => same_ty(opty(types, pool, i, x.operand0), opty(types, pool, i, x.operand1)),
            Constant::UDiv(x) => same_ty(opty(types, pool, i, x.operand0), opty(types, pool, i, x.operand1)),
            Constant::SDiv(x) => same_ty(opty(types, pool, i, x.operand0), opty(types, pool, i, x.operand1)),
            Constant::URem(x) => same_ty(opty(types, pool, i, x.operand0), opty(types, pool, i, x.operand1)),
            Constant::SRem(x) => same_ty(opty(types, pool, i, x.operand0), opty(types, pool, i, x.operand1)),
            Constant::And(x) => same_ty(opty(types, pool, i, x.operand0), opty(types, pool, i, x.operand1)),
            Constant::Or(x) => same_ty(opty(types, pool, i, x.operand0), opty(types, pool, i, x.operand1)),
            Constant::Xor(x) => same_ty(opty(types, pool, i, x.operand0), opty(types, pool, i, x.operand1)),
            Constant::FAdd(x) => same_ty(opty(types, pool, i, x.operand0), opty(types, pool, i, x.operand1)),
            Constant::FSub(x) => same_ty(opty(types, pool, i, x.operand0), opty(types, pool, i, x.operand1)),
            Constant::FMul(x) => same_ty(opty(types, pool, i, x.operand0), opty(types, pool, i, x.operand1)),
            Constant::FDiv(x) => same_ty(opty(types, pool, i, x.operand0), opty(types, pool, i, x.operand1)),
            Constant::FRem(x) => same_ty(opty(types, pool, i, x.operand0), opty(types, pool, i, x.operand1)),
            Constant::Shl(x) => opty(types, pool, i, x.operand0),
            Constant::LShr(x) => opty(types, pool, i, x.operand0),
            Constant::AShr(x) => opty(types, pool, i, x.operand0),
            Constant::ExtractElement(x) => match opty(types, pool, i, x.vector) {
                Ok(SType::Vector(e, _)) => Ok(*e),
                Ok(_) => Err(TypeError::NotAVector),
                Err(e) => Err(e),
            },
            Constant::InsertElement(x) => opty(types, pool, i, x.vector),
            Constant::ShuffleVector(x) => shuffle_ty(
                same_ty(opty(types, pool, i, x.operand0), opty(types, pool, i, x.operand1)),
                opty(types, pool, i, x.mask),
            ),
            Constant::ExtractValue(x) => match opty(types, pool, i, x.aggregate) {
                Ok(t) => ev_walk(t, x.indices@),
                Err(e) => Err(e),
            },
            Constant::InsertValue(x) => opty(types, pool, i, x.aggregate),
            Constant::GetElementPtr(x) => match opty(types, pool, i, x.address) {
                Ok(t) => gep_ty(types, pool, t, x.indices@),
                Err(e) => Err(e),
            },
            Constant::Trunc(x) => Ok(types.deep(x.to_type)),
            Constant::ZExt(x) => Ok(types.deep(x.to_type)),
            Constant::SExt(x) => Ok(types.deep(x.to_type)),
            Constant::FPTrunc(x) => Ok(types.deep(x.to_type)),
            Constant::FPExt(x) => Ok(types.deep(x.to_type)),
            Constant::FPToUI(x) => Ok(types.deep(x.to_type)),
            Constant::FPToSI(x) => Ok(types.deep(x.to_type)),
            Constant::UIToFP(x) => Ok(types.deep(x.to_type)),
            Constant::SIToFP(x) => Ok(types.deep(x.to_type)),
            Constant::PtrToInt(x) => Ok(types.deep(x.to_type)),
            Constant::IntToPtr(x) => Ok(types.deep(x.to_type)),
            Constant::BitCast(x) => Ok(types.deep(x.to_type)),
            Constant::AddrSpaceCast(x) => Ok(types.deep(x.to_type)),
            Constant::ICmp(x) => cmp_ty(
                same_ty(opty(types, pool, i, x.operand0), opty(types, pool, i, x.operand1)),
            ),
            Constant::FCmp(x) => cmp_ty(
                same_ty(opty(types, pool, i, x.operand0), opty(types, pool, i, x.operand1)),
            ),
            Constant::Select(x) => same_ty(
                opty(types, pool, i, x.true_value),
                opty(types, pool, i, x.false_value),
            ),
        }
    }
}

/// `r` is the handle form of the spec result `s`.
pub open spec fn type_result(types: &Types, r: Result<TypeRef, TypeError>, s: Result<SType, TypeError>) -> bool {
    match r {
        Ok(t) => types.valid(t) && s == Ok::<SType, TypeError>(types.deep(t)),
        Err(e) => s == Err::<SType, TypeError>(e),
    }
}


pub proof fn lemma_pool_wf_grow(t1: &Types, t2: &Types, pool: Seq<Constant>)
    requires
        pool_wf(t1, pool),
        t1.entries@.len() <= t2.entries@.len(),
    ensures
        pool_wf(t2, pool),
{
    assert forall|i: int| 0 <= i < pool.len() implies operands_below(#[trigger] pool[i], i)
        && type_refs_below(pool[i], t2.entries@.len() as int) by {
        assert(type_refs_below(pool[i], t1.entries@.len() as int));
    }
}

proof fn lemma_gep_walk_stable(
    t1: &Types,
    t2: &Types,
    pool: Seq<Constant>,
    cur: SType,
    indices: Seq<ConstantRef>,
)
    requires
        t1.wf(),
        t2.extends(t1),
    ensures
        gep_walk(t1, pool, cur, indices) == gep_walk(t2, pool, cur, indices),
    decreases indices.len(),
{
    if indices.len() > 0 {
        t2.lemma_keeps_deep(t1);
        let rest = indices.drop_first();
        match cur {
            SType::Pointer(p, _) => lemma_gep_walk_stable(t1, t2, pool, *p, rest),
            SType::Vector(e, _) => lemma_gep_walk_stable(t1, t2, pool, *e, rest),
            SType::Array(e, _) => lemma_gep_walk_stable(t1, t2, pool, *e, rest),
            SType::Struct(elems, _) => {
                assert forall|k: int| 0 <= k < elems.len() implies gep_walk(
                    t1,
                    pool,
                    elems[k],
                    rest,
                ) == gep_walk(t2, pool, elems[k], rest) by {
                    lemma_gep_walk_stable(t1, t2, pool, elems[k], rest);
                }
                assert(field_step(t1, pool, elems, indices) == field_step(t2, pool, elems, indices));
            },
            SType::Named(name) => {
                t1.lemma_lookup_valid(name);
                assert(t1.lookup(name) == t2.lookup(name));
                if let Some(NamedStructDef::Defined(b)) = t1.lookup(name) {
                    assert(t1.valid(b));
                    if let SType::Struct(elems, _) = t1.deep(b) {
                        assert forall|k: int| 0 <= k < elems.len() implies gep_walk(
                            t1,
                            pool,
                            elems[k],
                            rest,
                        ) == gep_walk(t2, pool, elems[k], rest) by {
                            lemma_gep_walk_stable(t1, t2, pool, elems[k], rest);
                        }
                        assert(field_step(t1, pool, elems, indices) == field_step(t2, pool, elems, indices));
                    }
                }
            },
            _ => {},
        }
    }
}

proof fn lemma_operand_types_stable(
    t1: &Types,
    t2: &Types,
    pool: Seq<Constant>,
    i: int,
    ops: Seq<ConstantRef>,
)
    requires
        all_ops_below(ops, i),
        forall|j: int| 0 <= j < i ==> ty_of(t1, pool, j) == #[trigger] ty_of(t2, pool, j),
    ensures
        operand_types(t1, pool, i, ops) == operand_types(t2, pool, i, ops),
    decreases ops.len(),
{
    if ops.len() > 0 {
        assert(0 <= ops[0].0 < i);
        assert(all_ops_below(ops.drop_first(), i)) by {
            assert forall|k: int| 0 <= k < ops.drop_first().len() implies 0
                <= #[trigger] ops.drop_first()[k].0 < i by {
                assert(ops.drop_first()[k] == ops[k + 1]);
            }
        }
        lemma_operand_types_stable(t1, t2, pool, i, ops.drop_first());
        assert(opty(t1, pool, i, ops[0]) == ty_of(t1, pool, ops[0].0 as int));
        assert(opty(t2, pool, i, ops[0]) == ty_of(t2, pool, ops[0].0 as int));
    }
}

/// The type of a constant does not change as the interner grows.
pub proof fn lemma_ty_of_stable(t1: &Types, t2: &Types, pool: Seq<Constant>, i: int)
    requires
        t1.wf(),
        t2.extends(t1),
        pool_wf(t1, pool),
        0 <= i < pool.len(),
    ensures
        ty_of(t1, pool, i) == ty_of(t2, pool, i),
    decreases i,
{
    t2.lemma_keeps_deep(t1);
    assert forall|j: int| 0 <= j < i implies ty_of(t1, pool, j) == #[trigger] ty_of(t2, pool, j) by {
        lemma_ty_of_stable(t1, t2, pool, j);
    }
    assert forall|op: ConstantRef| 0 <= op.0 < i implies #[trigger] opty(t1, pool, i, op) == opty(
        t2,
        pool,
        i,
        op,
    ) by {
        assert(ty_of(t1, pool, op.0 as int) == ty_of(t2, pool, op.0 as int));
    }
    let c = pool[i];
    assert(operands_below(c, i) && type_refs_below(c, t1.entries@.len() as int));
    match c {
        Constant::Struct { values, .. } => {
            assert(all_ops_below(values@, i));
            lemma_operand_types_stable(t1, t2, pool, i, values@);
            assert(operand_types(t1, pool, i, values@) == operand_types(t2, pool, i, values@));
        },
        Constant::GetElementPtr(x) => {
            assert(opty(t1, pool, i, x.address) == opty(t2, pool, i, x.address));
            if let Ok(t) = opty(t1, pool, i, x.address) {
                lemma_gep_walk_stable(t1, t2, pool, t, x.indices@);
            }
        },
        Constant::Vector(v) => {
            if v@.len() > 0 {
                assert(0 <= v@[0].0 < i);
                assert(opty(t1, pool, i, v@[0]) == opty(t2, pool, i, v@[0]));
            }
        },
        Constant::Add(x) => {
            assert(opty(t1, pool, i, x.operand0) == opty(t2, pool, i, x.operand0));
            assert(opty(t1, pool, i, x.operand1) == opty(t2, pool, i, x.operand1));
        },
        Constant::Sub(x) => {
            assert(opty(t1, pool, i, x.operand0) == opty(t2, pool, i, x.operand0));
            assert(opty(t1, pool, i, x.operand1) == opty(t2, pool, i, x.operand1));
        },
        Constant::Mul(x) => {
            assert(opty(t1, pool, i, x.operand0) == opty(t2, pool, i, x.operand0));
            assert(opty(t1, pool, i, x.operand1) == opty(t2, pool, i, x.operand1));
        },
        Constant::UDiv(x) => {
            assert(opty(t1, pool, i, x.operand0) == opty(t2, pool, i, x.operand0));
            assert(opty(t1, pool, i, x.operand1) == opty(t2, pool, i, x.operand1));
        },
        Constant::SDiv(x) => {
            assert(opty(t1, pool, i, x.operand0) == opty(t2, pool, i, x.operand0));
            assert(opty(t1, pool, i, x.operand1) == opty(t2, pool, i, x.operand1));
        },
        Constant::URem(x) => {
            assert(opty(t1, pool, i, x.operand0) == opty(t2, pool, i, x.operand0));
            assert(opty(t1, pool, i, x.operand1) == opty(t2, pool, i, x.operand1));
        },
        Constant::SRem(x) => {
            assert(opty(t1, pool, i, x.operand0) == opty(t2, pool, i, x.operand0));
            assert(opty(t1, pool, i, x.operand1) == opty(t2, pool, i, x.operand1));
        },
        Constant::And(x) => {
            assert(opty(t1, pool, i, x.operand0) == opty(t2, pool, i, x.operand0));
            assert(opty(t1, pool, i, x.operand1) == opty(t2, pool, i, x.operand1));
        },
        Constant::Or(x) => {
            assert(opty(t1, pool, i, x.operand0) == opty(t2, pool, i, x.operand0));
            assert(opty(t1, pool, i, x.operand1) == opty(t2, pool, i, x.operand1));
        },
        Constant::Xor(x) => {
            assert(opty(t1, pool, i, x.operand0) == opty(t2, pool, i, x.operand0));
            assert(opty(t1, pool, i, x.operand1) == opty(t2, pool, i, x.operand1));
        },
        Constant::FAdd(x) => {
            assert(opty(t1, pool, i, x.operand0) == opty(t2, pool, i, x.operand0));
            assert(opty(t1, pool, i, x.operand1) == opty(t2, pool, i, x.operand1));
        },
        Constant::FSub(x) => {
            assert(opty(t1, pool, i, x.operand0) == opty(t2, pool, i, x.operand0));
            assert(opty(t1, pool, i, x.operand1) == opty(t2, pool, i, x.operand1));
        },
        Constant::FMul(x) => {
            assert(opty(t1, pool, i, x.operand0) == opty(t2, pool, i, x.operand0));
            assert(opty(t1, pool, i, x.operand1) == opty(t2, pool, i, x.operand1));
        },
        Constant::FDiv(x) => {
            assert(opty(t1, pool, i, x.operand0) == opty(t2, pool, i, x.operand0));
            assert(opty(t1, pool, i, x.operand1) == opty(t2, pool, i, x.operand1));
        },
        Constant::FRem(x) => {
            assert(opty(t1, pool, i, x.operand0) == opty(t2, pool, i, x.operand0));
            assert(opty(t1, pool, i, x.operand1) == opty(t2, pool, i, x.operand1));
        },
        Constant::ICmp(x) => {
            assert(opty(t1, pool, i, x.operand0) == opty(t2, pool, i, x.operand0));
            assert(opty(t1, pool, i, x.operand1) == opty(t2, pool, i, x.operand1));
        },
        Constant::FCmp(x) => {
            assert(opty(t1, pool, i, x.operand0) == opty(t2, pool, i, x.operand0));
            assert(opty(t1, pool, i, x.operand1) == opty(t2, pool, i, x.operand1));
        },
        Constant::Shl(x) => {
            assert(opty(t1, pool, i, x.operand0) == opty(t2, pool, i, x.operand0));
        },
        Constant::LShr(x) => {
            assert(opty(t1, pool, i, x.operand0) == opty(t2, pool, i, x.operand0));
        },
        Constant::AShr(x) => {
            assert(opty(t1, pool, i, x.operand0) == opty(t2, pool, i, x.operand0));
        },
        Constant::ExtractElement(x) => {
            assert(opty(t1, pool, i, x.vector) == opty(t2, pool, i, x.vector));
        },
        Constant::InsertElement(x) => {
            assert(opty(t1, pool, i, x.vector) == opty(t2, pool, i, x.vector));
        },
        Constant::ShuffleVector(x) => {
            assert(opty(t1, pool, i, x.operand0) == opty(t2, pool, i, x.operand0));
            assert(opty(t1, pool, i, x.operand1) == opty(t2, pool, i, x.operand1));
            assert(opty(t1, pool, i, x.mask) == opty(t2, pool, i, x.mask));
        },
        Constant::ExtractValue(x) => {
            assert(opty(t1, pool, i, x.aggregate) == opty(t2, pool, i, x.aggregate));
        },
        Constant::InsertValue(x) => {
            assert(opty(t1, pool, i, x.aggregate) == opty(t2, pool, i, x.aggregate));
        },
        Constant::Select(x) => {
            assert(opty(t1, pool, i, x.true_value) == opty(t2, pool, i, x.true_value));
            assert(opty(t1, pool, i, x.false_value) == opty(t2, pool, i, x.false_value));
        },
        _ => {},
    }
}

/// With every operand typed, the list of operand types is those types.
proof fn lemma_operand_types_ok(
    types: &Types,
    pool: Seq<Constant>,
    i: int,
    ops: Seq<ConstantRef>,
    s: Seq<SType>,
)
    requires
        all_ops_below(ops, i),
        s.len() == ops.len(),
        forall|j: int| 0 <= j < ops.len() ==> ty_of(types, pool, #[trigger] ops[j].0 as int) == Ok::<SType, TypeError>(s[j]),
    ensures
        operand_types(types, pool, i, ops) == Ok::<Seq<SType>, TypeError>(s),
    decreases ops.len(),
{
    if ops.len() == 0 {
        assert(s =~= Seq::<SType>::empty());
    } else {
        assert(0 <= ops[0].0 < i);
        let rest = ops.drop_first();
        assert forall|k: int| 0 <= k < rest.len() implies 0 <= #[trigger] rest[k].0 < i
            && ty_of(types, pool, rest[k].0 as int) == Ok::<SType, TypeError>(s.drop_first()[k]) by {
            assert(rest[k] == ops[k + 1]);
        }
        lemma_operand_types_ok(types, pool, i, rest, s.drop_first());
        assert(opty(types, pool, i, ops[0]) == ty_of(types, pool, ops[0].0 as int));
        assert(s =~= seq![s[0]] + s.drop_first());
    }
}

/// The list of operand types fails with the first operand's error.
proof fn lemma_operand_types_err(
    types: &Types,
    pool: Seq<Constant>,
    i: int,
    ops: Seq<ConstantRef>,
    k: int,
    e: TypeError,
)
    requires
        all_ops_below(ops, i),
        0 <= k < ops.len(),
        forall|j: int| 0 <= j < k ==> ty_of(types, pool, #[trigger] ops[j].0 as int) is Ok,
        ty_of(types, pool, ops[k].0 as int) == Err::<SType, TypeError>(e),
    ensures
        operand_types(types, pool, i, ops) == Err::<Seq<SType>, TypeError>(e),
    decreases k,
{
    assert(0 <= ops[0].0 < i);
    assert(opty(types, pool, i, ops[0]) == ty_of(types, pool, ops[0].0 as int));
    if k > 0 {
        let rest = ops.drop_first();
        assert forall|j: int| 0 <= j < rest.len() implies 0 <= #[trigger] rest[j].0 < i by {
            assert(rest[j] == ops[j + 1]);
        }
        assert forall|j: int| 0 <= j < k - 1 implies ty_of(types, pool, #[trigger] rest[j].0 as int) is Ok by {
            assert(rest[j] == ops[j + 1]);
        }
        assert(rest[k - 1] == ops[k]);
        lemma_operand_types_err(types, pool, i, rest, k - 1, e);
    }
}



proof fn lemma_opty(types: &Types, pool: Seq<Constant>, i: int, op: ConstantRef)
    requires
        0 <= op.0 < i,
    ensures
        opty(types, pool, i, op) == ty_of(types, pool, op.0 as int),
{
}

/// Both operands of a two-operand constant at `i` are typed as constants of
/// their own.
proof fn lemma_opty_pair(types: &Types, pool: Seq<Constant>, i: int, a: ConstantRef, b: ConstantRef)
    requires
        0 <= a.0 < i,
        0 <= b.0 < i,
    ensures
        opty(types, pool, i, a) == ty_of(types, pool, a.0 as int),
        opty(types, pool, i, b) == ty_of(types, pool, b.0 as int),
{
}

/// The types of all constants are unchanged from `t1` to `t2`.
pub open spec fn types_kept(t1: &Types, t2: &Types, pool: Seq<Constant>) -> bool {
    forall|j: int| 0 <= j < pool.len() ==> #[trigger] ty_of(t2, pool, j) == ty_of(t1, pool, j)
}

impl Float {
    /// The floating-point type of this literal.
    pub fn get_type(&self, types: &mut Types) -> (r: TypeRef)
        requires
            old(types).wf(),
        ensures
            final(types).wf(),
            final(types).extends(old(types)),
            final(types).valid(r),
            final(types).deep(r) == SType::FP(float_kind(*self)),
    {
        let kind = match self {
            Float::Half => FPType::Half,
            Float::Single(_) => FPType::Single,
            Float::Double(_) => FPType::Double,
            Float::Quadruple => FPType::FP128,
            Float::X86_FP80 => FPType::X86_FP80,
            Float::PPC_FP128 => FPType::PPC_FP128,
        };
        types.fp(kind)
    }
}

/// The type reached from `cur_type` by the aggregate index path `indices`.
pub fn ev_type(
    types: &Types,
    cur_type: TypeRef,
    indices: &Vec<u32>,
) -> (r: Result<TypeRef, TypeError>)
    requires
        types.wf(),
        types.valid(cur_type),
    ensures
        type_result(types, r, ev_walk(types.deep(cur_type), indices@)),
{
    let mut cur = cur_type;
    let mut k: usize = 0;
    assert(indices@.subrange(0, indices@.len() as int) =~= indices@);
    while k < indices.len()
        invariant
            types.wf(),
            types.valid(cur),
            k <= indices@.len(),
            ev_walk(types.deep(cur_type), indices@) == ev_walk(
                types.deep(cur),
                indices@.subrange(k as int, indices@.len() as int),
            ),
        decreases indices@.len() - k,
    {
        let ghost rest = indices@.subrange(k as int, indices@.len() as int);
        assert(rest.drop_first() =~= indices@.subrange(k + 1, indices@.len() as int));
        let idx = indices[k];
        let ghost cur_prev = cur;
        assert(refs_below_entry(types, cur));
        match types.get(cur) {
            Type::ArrayType { element_type, .. } => {
                cur = *element_type;
            },
            Type::StructType { element_types, .. } => {
                proof {
                    lemma_deep_list_len(types.entries@, element_types@, cur.0 as int);
                }
                if (idx as usize) < element_types.len() {
                    proof {
                        lemma_deep_list_index(types.entries@, element_types@, cur.0 as int, idx as int);
                    }
                    cur = element_types[idx as usize];
                } else {
                    return Err(TypeError::IndexOutOfRange);
                }
            },
            _ => {
                return Err(TypeError::NotAnAggregate);
            },
        }
        k += 1;
    }
    assert(indices@.subrange(k as int, indices@.len() as int) =~= Seq::<u32>::empty());
    Ok(cur)
}

pub open spec fn refs_below_entry(types: &Types, t: TypeRef) -> bool {
    crate::types::refs_below(types.entries@[t.0 as int], t.0 as int)
}

impl ConstantPool {
    pub fn new() -> (r: ConstantPool)
        ensures
            r.items@.len() == 0,
    {
        ConstantPool { items: Vec::new() }
    }

    pub open spec fn valid(&self, c: ConstantRef) -> bool {
        c.0 < self.items@.len()
    }

    pub open spec fn wf(&self, types: &Types) -> bool {
        pool_wf(types, self.items@)
    }

    /// The constant at handle `c`.
    pub fn get(&self, c: ConstantRef) -> (r: &Constant)
        requires
            self.valid(c),
        ensures
            *r == self.items@[c.0 as int],
    {
        &self.items[c.0]
    }

    pub fn len(&self) -> (r: usize)
        ensures
            r == self.items@.len(),
    {
        self.items.len()
    }

    /// Adds `c`, whose operands are all in the pool already, and returns its
    /// handle.
    pub fn push(&mut self, c: Constant) -> (r: ConstantRef)
        requires
            operands_below(c, old(self).items@.len() as int),
        ensures
            final(self).items@ == old(self).items@.push(c),
            r.0 == old(self).items@.len(),
    {
        let n = self.items.len();
        self.items.push(c);
        ConstantRef(n)
    }

    /// The field number named by the address index `idx` on a structure of
    /// `nfields` fields.
    fn field_index(&self, idx: ConstantRef, nfields: usize) -> (r: Result<usize, TypeError>)
        requires
            self.valid(idx),
        ensures
            match r {
                Ok(k) => struct_index(self.items@, idx) == Ok::<nat, TypeError>(k as nat) && k < nfields,
                Err(e) => match struct_index(self.items@, idx) {
                    Ok(v) => v >= nfields && e == TypeError::IndexOutOfRange,
                    Err(x) => x == e,
                },
            },
    {
        match &self.items[idx.0] {
            Constant::Int { value, .. } => {
                if (*value as u128) < (nfields as u128) {
                    Ok(*value as usize)
                } else {
                    Err(TypeError::IndexOutOfRange)
                }
            },
            _ => Err(TypeError::NonLiteralStructIndex),
        }
    }

    /// One address-index step from `cur`, on the path `rest` whose first
    /// index is `idx`.
    fn gep_step(
        &self,
        cur: TypeRef,
        idx: ConstantRef,
        Ghost(rest): Ghost<Seq<ConstantRef>>,
        types: &Types,
    ) -> (r: Result<TypeRef, TypeError>)
        requires
            types.wf(),
            types.valid(cur),
            self.valid(idx),
            rest.len() > 0,
            rest[0] == idx,
        ensures
            match r {
                Ok(n) => types.valid(n) && gep_walk(types, self.items@, types.deep(cur), rest)
                    == gep_walk(types, self.items@, types.deep(n), rest.drop_first()),
                Err(e) => gep_walk(types, self.items@, types.deep(cur), rest) == Err::<SType, TypeError>(e),
            },
    {
        let ghost pool = self.items@;
        assert(refs_below_entry(types, cur));
        match types.get(cur) {
            Type::PointerType { pointee_type, .. } => Ok(*pointee_type),
            Type::VectorType { element_type, .. } => Ok(*element_type),
            Type::ArrayType { element_type, .. } => Ok(*element_type),
            Type::StructType { element_types, .. } => {
                proof {
                    lemma_deep_list_len(types.entries@, element_types@, cur.0 as int);
                }
                self.struct_step(element_types, cur, idx, Ghost(rest), types)
            },
            Type::NamedStructType { name } => {
                proof {
                    types.lemma_lookup_valid(name@);
                }
                assert(types.deep(cur) == SType::Named(name@));
                match types.named_struct_def(name) {
                    None => Err(TypeError::UndefinedStruct),
                    Some(NamedStructDef::Opaque) => Err(TypeError::OpaqueStruct),
                    Some(NamedStructDef::Defined(b)) => {
                        assert(refs_below_entry(types, b));
                        match types.get(b) {
                            Type::StructType { element_types, .. } => {
                                proof {
                                    lemma_deep_list_len(types.entries@, element_types@, b.0 as int);
                                }
                                self.struct_step(element_types, b, idx, Ghost(rest), types)
                            },
                            _ => Err(TypeError::NotIndexable),
                        }
                    },
                }
            },
            _ => Err(TypeError::NotIndexable),
        }
    }

    /// One address-index step into the structure `base` with fields
    /// `element_types`.
    fn struct_step(
        &self,
        element_types: &Vec<TypeRef>,
        base: TypeRef,
        idx: ConstantRef,
        Ghost(rest): Ghost<Seq<ConstantRef>>,
        types: &Types,
    ) -> (r: Result<TypeRef, TypeError>)
        requires
            types.wf(),
            types.valid(base),
            types.entries@[base.0 as int] matches Type::StructType { element_types: e, .. } && e@ == element_types@,
            self.valid(idx),
            rest.len() > 0,
            rest[0] == idx,
        ensures
            match r {
                Ok(n) => types.valid(n) && field_step(types, self.items@, crate::types::deep_list(types.entries@, element_types@, base.0 as int), rest)
                    == gep_walk(types, self.items@, types.deep(n), rest.drop_first()),
                Err(e) => field_step(types, self.items@, crate::types::deep_list(types.entries@, element_types@, base.0 as int), rest) == Err::<SType, TypeError>(e),
            },
    {
        assert(refs_below_entry(types, base));
        proof {
            lemma_deep_list_len(types.entries@, element_types@, base.0 as int);
        }
        match self.field_index(idx, element_types.len()) {
            Ok(f) => {
                proof {
                    lemma_deep_list_index(types.entries@, element_types@, base.0 as int, f as int);
                }
                Ok(element_types[f])
            },
            Err(e) => Err(e),
        }
    }

    /// The type reached from `cur_type` by the address index path `indices`,
    /// before it is wrapped in a pointer.
    fn gep_target(
        &self,
        cur_type: TypeRef,
        indices: &Vec<ConstantRef>,
        types: &Types,
    ) -> (r: Result<TypeRef, TypeError>)
        requires
            types.wf(),
            types.valid(cur_type),
            forall|k: int| 0 <= k < indices@.len() ==> (#[trigger] indices@[k]).0 < self.items@.len(),
        ensures
            match r {
                Ok(t) => types.valid(t) && gep_walk(types, self.items@, types.deep(cur_type), indices@)
                    == Ok::<SType, TypeError>(SType::Pointer(Box::new(types.deep(t)), 0)),
                Err(e) => gep_walk(types, self.items@, types.deep(cur_type), indices@) == Err::<SType, TypeError>(e),
            },
    {
        let ghost pool = self.items@;
        let mut cur = cur_type;
        let mut k: usize = 0;
        assert(indices@.subrange(0, indices@.len() as int) =~= indices@);
        while k < indices.len()
            invariant
                types.wf(),
                types.valid(cur),
                pool == self.items@,
                k <= indices@.len(),
                forall|j: int| 0 <= j < indices@.len() ==> (#[trigger] indices@[j]).0 < self.items@.len(),
                gep_walk(types, pool, types.deep(cur_type), indices@) == gep_walk(
                    types,
                    pool,
                    types.deep(cur),
                    indices@.subrange(k as int, indices@.len() as int),
                ),
            decreases indices@.len() - k,
        {
            let ghost rest = indices@.subrange(k as int, indices@.len() as int);
            assert(rest.drop_first() =~= indices@.subrange(k + 1, indices@.len() as int));
            assert(rest[0] == indices@[k as int]);
            match self.gep_step(cur, indices[k], Ghost(rest), types) {
                Ok(n) => {
                    cur = n;
                },
                Err(e) => {
                    return Err(e);
                },
            }
            k += 1;
        }
        assert(indices@.subrange(k as int, indices@.len() as int) =~= Seq::<ConstantRef>::empty());
        Ok(cur)
    }

    /// The type of a GEP whose base has type `cur_type`.
    pub fn gep_type(
        &self,
        cur_type: TypeRef,
        indices: &Vec<ConstantRef>,
        types: &mut Types,
    ) -> (r: Result<TypeRef, TypeError>)
        requires
            old(types).wf(),
            old(types).valid(cur_type),
            forall|k: int| 0 <= k < indices@.len() ==> (#[trigger] indices@[k]).0 < self.items@.len(),
        ensures
            final(types).wf(),
            final(types).extends(old(types)),
            type_result(final(types), r, gep_ty(old(types), self.items@, old(types).deep(cur_type), indices@)),
    {
        if indices.len() == 0 {
            return Ok(cur_type);
        }
        match self.gep_target(cur_type, indices, types) {
            Ok(t) => Ok(types.pointer_to(t)),
            Err(e) => Err(e),
        }
    }

    /// The type of a vector literal with elements `v`.
    fn vector_type(
        &self,
        v: &Vec<ConstantRef>,
        Ghost(i): Ghost<int>,
        types: &mut Types,
    ) -> (r: Result<TypeRef, TypeError>)
        requires
            old(types).wf(),
            pool_wf(old(types), self.items@),
            all_ops_below(v@, i),
            i <= self.items@.len(),
        ensures
            final(types).wf(),
            final(types).extends(old(types)),
            type_result(final(types), r, if v@.len() == 0 {
                Err(TypeError::EmptyVector)
            } else {
                match ty_of(old(types), self.items@, v@[0].0 as int) {
                    Ok(t) => Ok(SType::Vector(Box::new(t), v@.len())),
                    Err(e) => Err(e),
                }
            }),
        decreases i, 0int,
    {
        if v.len() == 0 {
            Err(TypeError::EmptyVector)
        } else {
            assert(0 <= v@[0].0 < i);
            match self.get_type(v[0], types) {
                Ok(t) => Ok(types.vector_of(t, v.len())),
                Err(e) => Err(e),
            }
        }
    }

    /// The element type of the vector operand of an extraction.
    fn extract_element_type(
        &self,
        x: &ExtractElement,
        Ghost(i): Ghost<int>,
        types: &mut Types,
    ) -> (r: Result<TypeRef, TypeError>)
        requires
            old(types).wf(),
            pool_wf(old(types), self.items@),
            x.vector.0 < i,
            i <= self.items@.len(),
        ensures
            final(types).wf(),
            final(types).extends(old(types)),
            type_result(final(types), r, match ty_of(old(types), self.items@, x.vector.0 as int) {
                Ok(SType::Vector(e, _)) => Ok(*e),
                Ok(_) => Err(TypeError::NotAVector),
                Err(e) => Err(e),
            }),
        decreases i, 0int,
    {
        match self.get_type(x.vector, types) {
            Ok(t) => match types.as_vector(t) {
                Some((e, _)) => Ok(e),
                None => Err(TypeError::NotAVector),
            },
            Err(e) => Err(e),
        }
    }

    /// The type of a shuffle: the operands' element type, as many times as
    /// the mask has elements.
    fn shuffle_type(
        &self,
        x: &ShuffleVector,
        Ghost(i): Ghost<int>,
        types: &mut Types,
    ) -> (r: Result<TypeRef, TypeError>)
        requires
            old(types).wf(),
            pool_wf(old(types), self.items@),
            x.operand0.0 < i,
            x.operand1.0 < i,
            x.mask.0 < i,
            i <= self.items@.len(),
        ensures
            final(types).wf(),
            final(types).extends(old(types)),
            type_result(final(types), r, shuffle_ty(
                same_ty(ty_of(old(types), self.items@, x.operand0.0 as int), ty_of(old(types), self.items@, x.operand1.0 as int)),
                ty_of(old(types), self.items@, x.mask.0 as int),
            )),
        decreases i, 1int,
    {
        match self.same_type_op(x.operand0, x.operand1, Ghost(i), types) {
            Err(e) => Err(e),
            Ok(t) => match types.as_vector(t) {
                None => Err(TypeError::NotAVector),
                Some((e, _)) => {
                    proof {
                        lemma_pool_wf_grow(old(types), types, self.items@);
                    }
                    let ghost t1 = *types;
                    match self.get_type(x.mask, types) {
                        Err(er) => Err(er),
                        Ok(m) => {
                            proof {
                                types.lemma_keeps_deep(&t1);
                                assert(types.deep(e) == t1.deep(e));
                            }
                            match types.as_vector(m) {
                                Some((_, n)) => Ok(types.vector_of(e, n)),
                                None => Err(TypeError::NotAVector),
                            }
                        },
                    }
                },
            },
        }
    }

    /// The type of a comparison: a boolean, or a vector of booleans for
    /// vector operands.
    fn compare_type(
        &self,
        a: ConstantRef,
        b: ConstantRef,
        Ghost(i): Ghost<int>,
        types: &mut Types,
    ) -> (r: Result<TypeRef, TypeError>)
        requires
            old(types).wf(),
            pool_wf(old(types), self.items@),
            a.0 < i,
            b.0 < i,
            i <= self.items@.len(),
        ensures
            final(types).wf(),
            final(types).extends(old(types)),
            type_result(final(types), r, cmp_ty(
                same_ty(ty_of(old(types), self.items@, a.0 as int), ty_of(old(types), self.items@, b.0 as int)),
            )),
        decreases i, 1int,
    {
        match self.same_type_op(a, b, Ghost(i), types) {
            Err(e) => Err(e),
            Ok(t) => match types.as_vector(t) {
                Some((_, n)) => {
                    let bt = types.bool();
                    Ok(types.vector_of(bt, n))
                },
                None => Ok(types.bool()),
            },
        }
    }

    /// The type of an aggregate extraction.
    fn extract_value_type(
        &self,
        x: &ExtractValue,
        Ghost(i): Ghost<int>,
        types: &mut Types,
    ) -> (r: Result<TypeRef, TypeError>)
        requires
            old(types).wf(),
            pool_wf(old(types), self.items@),
            x.aggregate.0 < i,
            i <= self.items@.len(),
        ensures
            final(types).wf(),
            final(types).extends(old(types)),
            type_result(final(types), r, match ty_of(old(types), self.items@, x.aggregate.0 as int) {
                Ok(t) => ev_walk(t, x.indices@),
                Err(e) => Err(e),
            }),
        decreases i, 0int,
    {
        match self.get_type(x.aggregate, types) {
            Ok(t) => ev_type(types, t, &x.indices),
            Err(e) => Err(e),
        }
    }

    /// The type of an address computation.
    fn gep_constant_type(
        &self,
        x: &GetElementPtr,
        Ghost(i): Ghost<int>,
        types: &mut Types,
    ) -> (r: Result<TypeRef, TypeError>)
        requires
            old(types).wf(),
            pool_wf(old(types), self.items@),
            x.address.0 < i,
            all_ops_below(x.indices@, i),
            i <= self.items@.len(),
        ensures
            final(types).wf(),
            final(types).extends(old(types)),
            type_result(final(types), r, match ty_of(old(types), self.items@, x.address.0 as int) {
                Ok(t) => gep_ty(old(types), self.items@, t, x.indices@),
                Err(e) => Err(e),
            }),
        decreases i, 0int,
    {
        match self.get_type(x.address, types) {
            Ok(t) => {
                proof {
                    assert forall|k: int| 0 <= k < x.indices@.len() implies (#[trigger] x.indices@[k]).0
                        < self.items@.len() by {}
                    lemma_gep_walk_stable(old(types), types, self.items@, types.deep(t), x.indices@);
                }
                self.gep_type(t, &x.indices, types)
            },
            Err(e) => Err(e),
        }
    }

    /// The common type of two operands that must share one.
    fn same_type_op(
        &self,
        a: ConstantRef,
        b: ConstantRef,
        Ghost(bound): Ghost<int>,
        types: &mut Types,
    ) -> (r: Result<TypeRef, TypeError>)
        requires
            old(types).wf(),
            pool_wf(old(types), self.items@),
            a.0 < bound,
            b.0 < bound,
            bound <= self.items@.len(),
        ensures
            final(types).wf(),
            final(types).extends(old(types)),
            type_result(final(types), r, same_ty(ty_of(old(types), self.items@, a.0 as int), ty_of(old(types), self.items@, b.0 as int))),
            types_kept(old(types), final(types), self.items@),
        decreases bound, 0int,
    {
        match self.get_type(a, types) {
            Err(e) => Err(e),
            Ok(ta) => {
                proof {
                    lemma_pool_wf_grow(old(types), types, self.items@);
                }
                let ghost t1 = *types;
                match self.get_type(b, types) {
                    Err(e) => Err(e),
                    Ok(tb) => {
                        proof {
                            types.lemma_keeps_deep(&t1);
                            if types.deep(ta) == types.deep(tb) {
                                types.lemma_deep_injective(ta, tb);
                            }
                        }
                        if ta == tb {
                            Ok(ta)
                        } else {
                            Err(TypeError::OperandTypeMismatch)
                        }
                    },
                }
            },
        }
    }

    /// The type of a structure literal with fields `values`.
    fn struct_type(
        &self,
        values: &Vec<ConstantRef>,
        is_packed: bool,
        Ghost(i): Ghost<int>,
        types: &mut Types,
    ) -> (r: Result<TypeRef, TypeError>)
        requires
            old(types).wf(),
            pool_wf(old(types), self.items@),
            all_ops_below(values@, i),
            i <= self.items@.len(),
        ensures
            final(types).wf(),
            final(types).extends(old(types)),
            type_result(final(types), r, match operand_types(old(types), self.items@, i, values@) {
                Ok(ts) => Ok(SType::Struct(ts, is_packed)),
                Err(e) => Err(e),
            }),
        decreases i, 0int,
    {
        let ghost pool = self.items@;
        let mut tys: Vec<TypeRef> = Vec::new();
        let mut k: usize = 0;
        while k < values.len()
            invariant
                old(types).wf(),
                pool_wf(old(types), pool),
                types.wf(),
                types.extends(old(types)),
                pool_wf(types, pool),
                pool == self.items@,
                all_ops_below(values@, i),
                i <= pool.len(),
                k <= values@.len(),
                tys@.len() == k,
                forall|j: int| 0 <= j < k ==> types.valid(#[trigger] tys@[j]) && ty_of(
                    old(types),
                    pool,
                    values@[j].0 as int,
                ) == Ok::<SType, TypeError>(types.deep(tys@[j])),
            decreases values@.len() - k,
        {
            let ghost prev = *types;
            assert(0 <= values@[k as int].0 < i);
            proof {
                lemma_ty_of_stable(old(types), &prev, pool, values@[k as int].0 as int);
            }
            match self.get_type(values[k], types) {
                Err(e) => {
                    proof {
                        assert forall|j: int| 0 <= j < k implies ty_of(old(types), pool, #[trigger] values@[j].0 as int) is Ok by {
                            assert(types.valid(tys@[j]));
                        }
                        lemma_operand_types_err(old(types), pool, i, values@, k as int, e);
                    }
                    return Err(e);
                },
                Ok(t) => {
                    proof {
                        types.lemma_keeps_deep(&prev);
                        lemma_pool_wf_grow(&prev, types, pool);
                    }
                    tys.push(t);
                },
            }
            k += 1;
        }
        let ghost before = *types;
        proof {
            let s = before.deep_seq(tys@);
            assert forall|j: int| 0 <= j < values@.len() implies ty_of(old(types), pool, #[trigger] values@[j].0 as int)
                == Ok::<SType, TypeError>(s[j]) by {
                assert(types.valid(tys@[j]));
            }
            lemma_operand_types_ok(old(types), pool, i, values@, s);
            assert forall|j: int| 0 <= j < tys@.len() implies before.valid(#[trigger] tys@[j]) by {}
        }
        Ok(types.struct_of(tys, is_packed))
    }

    /// The type of the constant at `c`.
    #[verifier::rlimit(100)]
    #[verifier::spinoff_prover]
    pub fn get_type(&self, c: ConstantRef, types: &mut Types) -> (r: Result<TypeRef, TypeError>)
        requires
            old(types).wf(),
            pool_wf(old(types), self.items@),
            self.valid(c),
        ensures
            final(types).wf(),
            final(types).extends(old(types)),
            type_result(final(types), r, ty_of(old(types), self.items@, c.0 as int)),
            types_kept(old(types), final(types), self.items@),
        decreases c.0, 2int,
    {
        let i = c.0;
        proof {
            assert(operands_below(self.items@[i as int], i as int) && type_refs_below(
                self.items@[i as int],
                old(types).entries@.len() as int,
            ));
        }
        let r = match &self.items[i] {
            Constant::Int { bits, .. } => Ok(types.int_type(*bits)),
            Constant::Float(f) => Ok(f.get_type(types)),
            Constant::Null(t) => Ok(*t),
            Constant::AggregateZero(t) => Ok(*t),
            Constant::Undef(t) => Ok(*t),
            Constant::Struct { values, is_packed, .. } => self.struct_type(values, *is_packed, Ghost(i as int), types),
            Constant::Array { element_type, elements } => Ok(types.array_of(*element_type, elements.len())),
            Constant::Vector(v) => {
                proof {
                    if v@.len() > 0 {
                        assert(0 <= v@[0].0 < i);
                        lemma_opty(old(types), self.items@, i as int, v@[0]);
                    }
                }
                self.vector_type(v, Ghost(i as int), types)
            },
            Constant::BlockAddress => Ok(types.label_type()),
            Constant::GlobalReference { ty, .. } => Ok(types.pointer_to(*ty)),
            Constant::TokenNone => Ok(types.token_type()),
            Constant::Add(x) => {
                proof {
                    lemma_opty_pair(old(types), self.items@, i as int, x.operand0, x.operand1);
                }
                self.same_type_op(x.operand0, x.operand1, Ghost(i as int), types)
            },
            Constant::Sub(x) => {
                proof {
                    lemma_opty_pair(old(types), self.items@, i as int, x.operand0, x.operand1);
                }
                self.same_type_op(x.operand0, x.operand1, Ghost(i as int), types)
            },
            Constant::Mul(x) => {
                proof {
                    lemma_opty_pair(old(types), self.items@, i as int, x.operand0, x.operand1);
                }
                self.same_type_op(x.operand0, x.operand1, Ghost(i as int), types)
            },
            Constant::UDiv(x) => {
                proof {
                    lemma_opty_pair(old(types), self.items@, i as int, x.operand0, x.operand1);
                }
                self.same_type_op(x.operand0, x.operand1, Ghost(i as int), types)
            },
            Constant::SDiv(x) => {
                proof {
                    lemma_opty_pair(old(types), self.items@, i as int, x.operand0, x.operand1);
                }
                self.same_type_op(x.operand0, x.operand1, Ghost(i as int), types)
            },
            Constant::URem(x) => {
                proof {
                    lemma_opty_pair(old(types), self.items@, i as int, x.operand0, x.operand1);
                }
                self.same_type_op(x.operand0, x.operand1, Ghost(i as int), types)
            },
            Constant::SRem(x) => {
                proof {
                    lemma_opty_pair(old(types), self.items@, i as int, x.operand0, x.operand1);
                }
                self.same_type_op(x.operand0, x.operand1, Ghost(i as int), types)
            },
            Constant::And(x) => {
                proof {
                    lemma_opty_pair(old(types), self.items@, i as int, x.operand0, x.operand1);
                }
                self.same_type_op(x.operand0, x.operand1, Ghost(i as int), types)
            },
            Constant::Or(x) => {
                proof {
                    lemma_opty_pair(old(types), self.items@, i as int, x.operand0, x.operand1);
                }
                self.same_type_op(x.operand0, x.operand1, Ghost(i as int), types)
            },
            Constant::Xor(x) => {
                proof {
                    lemma_opty_pair(old(types), self.items@, i as int, x.operand0, x.operand1);
                }
                self.same_type_op(x.operand0, x.operand1, Ghost(i as int), types)
            },
            Constant::FAdd(x) => {
                proof {
                    lemma_opty_pair(old(types), self.items@, i as int, x.operand0, x.operand1);
                }
                self.same_type_op(x.operand0, x.operand1, Ghost(i as int), types)
            },
            Constant::FSub(x) => {
                proof {
                    lemma_opty_pair(old(types), self.items@, i as int, x.operand0, x.operand1);
                }
                self.same_type_op(x.operand0, x.operand1, Ghost(i as int), types)
            },
            Constant::FMul(x) => {
                proof {
                    lemma_opty_pair(old(types), self.items@, i as int, x.operand0, x.operand1);
                }
                self.same_type_op(x.operand0, x.operand1, Ghost(i as int), types)
            },
            Constant::FDiv(x) => {
                proof {
                    lemma_opty_pair(old(types), self.items@, i as int, x.operand0, x.operand1);
                }
                self.same_type_op(x.operand0, x.operand1, Ghost(i as int), types)
            },
            Constant::FRem(x) => {
                proof {
                    lemma_opty_pair(old(types), self.items@, i as int, x.operand0, x.operand1);
                }
                self.same_type_op(x.operand0, x.operand1, Ghost(i as int), types)
            },
            Constant::Shl(x) => {
                proof {
                    lemma_opty(old(types), self.items@, i as int, x.operand0);
                }
                self.get_type(x.operand0, types)
            },
            Constant::LShr(x) => {
                proof {
                    lemma_opty(old(types), self.items@, i as int, x.operand0);
                }
                self.get_type(x.operand0, types)
            },
            Constant::AShr(x) => {
                proof {
                    lemma_opty(old(types), self.items@, i as int, x.operand0);
                }
                self.get_type(x.operand0, types)
            },
            Constant::ExtractElement(x) => {
                proof {
                    lemma_opty(old(types), self.items@, i as int, x.vector);
                }
                self.extract_element_type(x, Ghost(i as int), types)
            },
            Constant::InsertElement(x) => {
                proof {
                    lemma_opty(old(types), self.items@, i as int, x.vector);
                }
                self.get_type(x.vector, types)
            },
            Constant::ShuffleVector(x) => {
                proof {
                    lemma_opty_pair(old(types), self.items@, i as int, x.operand0, x.operand1);
                    lemma_opty(old(types), self.items@, i as int, x.mask);
                }
                self.shuffle_type(x, Ghost(i as int), types)
            },
            Constant::ExtractValue(x) => {
                proof {
                    lemma_opty(old(types), self.items@, i as int, x.aggregate);
                }
                self.extract_value_type(x, Ghost(i as int), types)
            },
            Constant::InsertValue(x) => {
                proof {
                    lemma_opty(old(types), self.items@, i as int, x.aggregate);
                }
                self.get_type(x.aggregate, types)
            },
            Constant::GetElementPtr(x) => {
                proof {
                    lemma_opty(old(types), self.items@, i as int, x.address);
                }
                self.gep_constant_type(x, Ghost(i as int), types)
            },
            Constant::Trunc(x) => Ok(x.to_type),
            Constant::ZExt(x) => Ok(x.to_type),
            Constant::SExt(x) => Ok(x.to_type),
            Constant::FPTrunc(x) => Ok(x.to_type),
            Constant::FPExt(x) => Ok(x.to_type),
            Constant::FPToUI(x) => Ok(x.to_type),
            Constant::FPToSI(x) => Ok(x.to_type),
            Constant::UIToFP(x) => Ok(x.to_type),
            Constant::SIToFP(x) => Ok(x.to_type),
            Constant::PtrToInt(x) => Ok(x.to_type),
            Constant::IntToPtr(x) => Ok(x.to_type),
            Constant::BitCast(x) => Ok(x.to_type),
            Constant::AddrSpaceCast(x) => Ok(x.to_type),
            Constant::ICmp(x) => {
                proof {
                    lemma_opty_pair(old(types), self.items@, i as int, x.operand0, x.operand1);
                }
                self.compare_type(x.operand0, x.operand1, Ghost(i as int), types)
            },
            Constant::FCmp(x) => {
                proof {
                    lemma_opty_pair(old(types), self.items@, i as int, x.operand0, x.operand1);
                }
                self.compare_type(x.operand0, x.operand1, Ghost(i as int), types)
            },
            Constant::Select(x) => {
                proof {
                    lemma_opty_pair(old(types), self.items@, i as int, x.true_value, x.false_value);
                }
                self.same_type_op(x.true_value, x.false_value, Ghost(i as int), types)
            },
        };
        proof {
            assert forall|j: int| 0 <= j < self.items@.len() implies #[trigger] ty_of(types, self.items@, j) == ty_of(old(types), self.items@, j) by {
                lemma_ty_of_stable(old(types), types, self.items@, j);
            }
        }
        r
    }
}


/// Address computation: with no index the result is the base's own type; a
/// walk that runs out of indices points to the type it reached; on a structure a literal integer index selects that field; any other
/// index on a structure is an error, never a silent choice of field.
pub proof fn lemma_gep_laws(
    types: &Types,
    pool: Seq<Constant>,
    base: SType,
    idx: ConstantRef,
    rest: Seq<ConstantRef>,
)
    ensures
        gep_ty(types, pool, base, Seq::empty()) == Ok::<SType, TypeError>(base),
        gep_ty(types, pool, base, seq![idx] + rest) == gep_walk(types, pool, base, seq![idx] + rest),
        gep_walk(types, pool, base, Seq::empty()) == Ok::<SType, TypeError>(
            SType::Pointer(Box::new(base), 0),
        ),
        base matches SType::Struct(elems, _) ==> match struct_index(pool, idx) {
            Ok(k) => k < elems.len() ==> gep_walk(types, pool, base, seq![idx] + rest) == gep_walk(
                types,
                pool,
                elems[k as int],
                rest,
            ),
            Err(e) => e == TypeError::NonLiteralStructIndex && gep_walk(
                types,
                pool,
                base,
                seq![idx] + rest,
            ) == Err::<SType, TypeError>(TypeError::NonLiteralStructIndex),
        },
{
    let idxs = seq![idx] + rest;
    assert(idxs[0] == idx);
    assert(idxs.drop_first() =~= rest);
    if let SType::Struct(elems, _) = base {
        assert(gep_walk(types, pool, base, idxs) == field_step(types, pool, elems, idxs));
    }
}

/// Aggregates: an insertion has the aggregate's own type whatever the
/// inserted element's type, and an extraction by an empty path gives the
/// aggregate's type unchanged.
pub proof fn lemma_aggregate_laws(types: &Types, pool: Seq<Constant>, i: int)
    requires
        pool_wf(types, pool),
        0 <= i < pool.len(),
    ensures
        pool[i] matches Constant::InsertValue(x) ==> ty_of(types, pool, i) == ty_of(
            types,
            pool,
            x.aggregate.0 as int,
        ),
        pool[i] matches Constant::ExtractValue(x) ==> (x.indices@.len() == 0 ==> ty_of(
            types,
            pool,
            i,
        ) == ty_of(types, pool, x.aggregate.0 as int)),
{
    assert(operands_below(pool[i], i));
    match pool[i] {
        Constant::InsertValue(x) => {
            lemma_opty(types, pool, i, x.aggregate);
        },
        Constant::ExtractValue(x) => {
            lemma_opty(types, pool, i, x.aggregate);
        },
        _ => {},
    }
}

/// A constant expression of one operand.
pub trait ConstUnaryOp {
    spec fn operand_spec(&self) -> ConstantRef;

    fn get_operand(&self) -> (r: ConstantRef)
        ensures
            r == self.operand_spec(),
    ;
}

/// A constant expression of two (first) operands.
pub trait ConstBinaryOp {
    spec fn operand0_spec(&self) -> ConstantRef;

    spec fn operand1_spec(&self) -> ConstantRef;

    fn get_operand0(&self) -> (r: ConstantRef)
        ensures
            r == self.operand0_spec(),
    ;

    fn get_operand1(&self) -> (r: ConstantRef)
        ensures
            r == self.operand1_spec(),
    ;
}

impl ConstUnaryOp for Trunc {
    open spec fn operand_spec(&self) -> ConstantRef {
        self.operand
    }

    fn get_operand(&self) -> (r: ConstantRef) {
        self.operand
    }
}

impl ConstUnaryOp for ZExt {
    open spec fn operand_spec(&self) -> ConstantRef {
        self.operand
    }

    fn get_operand(&self) -> (r: ConstantRef) {
        self.operand
    }
}

impl ConstUnaryOp for SExt {
    open spec fn operand_spec(&self) -> ConstantRef {
        self.operand
    }

    fn get_operand(&self) -> (r: ConstantRef) {
        self.operand
    }
}

impl ConstUnaryOp for FPTrunc {
    open spec fn operand_spec(&self) -> ConstantRef {
        self.operand
    }

    fn get_operand(&self) -> (r: ConstantRef) {
        self.operand
    }
}

impl ConstUnaryOp for FPExt {
    open spec fn operand_spec(&self) -> ConstantRef {
        self.operand
    }

    fn get_operand(&self) -> (r: ConstantRef) {
        self.operand
    }
}

impl ConstUnaryOp for FPToUI {
    open spec fn operand_spec(&self) -> ConstantRef {
        self.operand
    }

    fn get_operand(&self) -> (r: ConstantRef) {
        self.operand
    }
}

impl ConstUnaryOp for FPToSI {
    open spec fn operand_spec(&self) -> ConstantRef {
        self.operand
    }

    fn get_operand(&self) -> (r: ConstantRef) {
        self.operand
    }
}

impl ConstUnaryOp for UIToFP {
    open spec fn operand_spec(&self) -> ConstantRef {
        self.operand
    }

    fn get_operand(&self) -> (r: ConstantRef) {
        self.operand
    }
}

impl ConstUnaryOp for SIToFP {
    open spec fn operand_spec(&self) -> ConstantRef {
        self.operand
    }

    fn get_operand(&self) -> (r: ConstantRef) {
        self.operand
    }
}

impl ConstUnaryOp for PtrToInt {
    open spec fn operand_spec(&self) -> ConstantRef {
        self.operand
    }

    fn get_operand(&self) -> (r: ConstantRef) {
        self.operand
    }
}

impl ConstUnaryOp for IntToPtr {
    open spec fn operand_spec(&self) -> ConstantRef {
        self.operand
    }

    fn get_operand(&self) -> (r: ConstantRef) {
        self.operand
    }
}

impl ConstUnaryOp for BitCast {
    open spec fn operand_spec(&self) -> ConstantRef {
        self.operand
    }

    fn get_operand(&self) -> (r: ConstantRef) {
        self.operand
    }
}

impl ConstUnaryOp for AddrSpaceCast {
    open spec fn operand_spec(&self) -> ConstantRef {
        self.operand
    }

    fn get_operand(&self) -> (r: ConstantRef) {
        self.operand
    }
}

impl ConstBinaryOp for Add {
    open spec fn operand0_spec(&self) -> ConstantRef {
        self.operand0
    }

    open spec fn operand1_spec(&self) -> ConstantRef {
        self.operand1
    }

    fn get_operand0(&self) -> (r: ConstantRef) {
        self.operand0
    }

    fn get_operand1(&self) -> (r: ConstantRef) {
        self.operand1
    }
}

impl ConstBinaryOp for Sub {
    open spec fn operand0_spec(&self) -> ConstantRef {
        self.operand0
    }

    open spec fn operand1_spec(&self) -> ConstantRef {
        self.operand1
    }

    fn get_operand0(&self) -> (r: ConstantRef) {
        self.operand0
    }

    fn get_operand1(&self) -> (r: ConstantRef) {
        self.operand1
    }
}

impl ConstBinaryOp for Mul {
    open spec fn operand0_spec(&self) -> ConstantRef {
        self.operand0
    }

    open spec fn operand1_spec(&self) -> ConstantRef {
        self.operand1
    }

    fn get_operand0(&self) -> (r: ConstantRef) {
        self.operand0
    }

    fn get_operand1(&self) -> (r: ConstantRef) {
        self.operand1
    }
}

impl ConstBinaryOp for UDiv {
    open spec fn operand0_spec(&self) -> ConstantRef {
        self.operand0
    }

    open spec fn operand1_spec(&self) -> ConstantRef {
        self.operand1
    }

    fn get_operand0(&self) -> (r: ConstantRef) {
        self.operand0
    }

    fn get_operand1(&self) -> (r: ConstantRef) {
        self.operand1
    }
}

impl ConstBinaryOp for SDiv {
    open spec fn operand0_spec(&self) -> ConstantRef {
        self.operand0
    }

    open spec fn operand1_spec(&self) -> ConstantRef {
        self.operand1
    }

    fn get_operand0(&self) -> (r: ConstantRef) {
        self.operand0
    }

    fn get_operand1(&self) -> (r: ConstantRef) {
        self.operand1
    }
}

impl ConstBinaryOp for URem {
    open spec fn operand0_spec(&self) -> ConstantRef {
        self.operand0
    }

    open spec fn operand1_spec(&self) -> ConstantRef {
        self.operand1
    }

    fn get_operand0(&self) -> (r: ConstantRef) {
        self.operand0
    }

    fn get_operand1(&self) -> (r: ConstantRef) {
        self.operand1
    }
}

impl ConstBinaryOp for SRem {
    open spec fn operand0_spec(&self) -> ConstantRef {
        self.operand0
    }

    open spec fn operand1_spec(&self) -> ConstantRef {
        self.operand1
    }

    fn get_operand0(&self) -> (r: ConstantRef) {
        self.operand0
    }

    fn get_operand1(&self) -> (r: ConstantRef) {
        self.operand1
    }
}

impl ConstBinaryOp for And {
    open spec fn operand0_spec(&self) -> ConstantRef {
        self.operand0
    }

    open spec fn operand1_spec(&self) -> ConstantRef {
        self.operand1
    }

    fn get_operand0(&self) -> (r: ConstantRef) {
        self.operand0
    }

    fn get_operand1(&self) -> (r: ConstantRef) {
        self.operand1
    }
}

impl ConstBinaryOp for Or {
    open spec fn operand0_spec(&self) -> ConstantRef {
        self.operand0
    }

    open spec fn operand1_spec(&self) -> ConstantRef {
        self.operand1
    }

    fn get_operand0(&self) -> (r: ConstantRef) {
        self.operand0
    }

    fn get_operand1(&self) -> (r: ConstantRef) {
        self.operand1
    }
}

impl ConstBinaryOp for Xor {
    open spec fn operand0_spec(&self) -> ConstantRef {
        self.operand0
    }

    open spec fn operand1_spec(&self) -> ConstantRef {
        self.operand1
    }

    fn get_operand0(&self) -> (r: ConstantRef) {
        self.operand0
    }

    fn get_operand1(&self) -> (r: ConstantRef) {
        self.operand1
    }
}

impl ConstBinaryOp for Shl {
    open spec fn operand0_spec(&self) -> ConstantRef {
        self.operand0
    }

    open spec fn operand1_spec(&self) -> ConstantRef {
        self.operand1
    }

    fn get_operand0(&self) -> (r: ConstantRef) {
        self.operand0
    }

    fn get_operand1(&self) -> (r: ConstantRef) {
        self.operand1
    }
}

impl ConstBinaryOp for LShr {
    open spec fn operand0_spec(&self) -> ConstantRef {
        self.operand0
    }

    open spec fn operand1_spec(&self) -> ConstantRef {
        self.operand1
    }

    fn get_operand0(&self) -> (r: ConstantRef) {
        self.operand0
    }

    fn get_operand1(&self) -> (r: ConstantRef) {
        self.operand1
    }
}

impl ConstBinaryOp for AShr {
    open spec fn operand0_spec(&self) -> ConstantRef {
        self.operand0
    }

    open spec fn operand1_spec(&self) -> ConstantRef {
        self.operand1
    }

    fn get_operand0(&self) -> (r: ConstantRef) {
        self.operand0
    }

    fn get_operand1(&self) -> (r: ConstantRef) {
        self.operand1
    }
}

impl ConstBinaryOp for FAdd {
    open spec fn operand0_spec(&self) -> ConstantRef {
        self.operand0
    }

    open spec fn operand1_spec(&self) -> ConstantRef {
        self.operand1
    }

    fn get_operand0(&self) -> (r: ConstantRef) {
        self.operand0
    }

    fn get_operand1(&self) -> (r: ConstantRef) {
        self.operand1
    }
}

impl ConstBinaryOp for FSub {
    open spec fn operand0_spec(&self) -> ConstantRef {
        self.operand0
    }

    open spec fn operand1_spec(&self) -> ConstantRef {
        self.operand1
    }

    fn get_operand0(&self) -> (r: ConstantRef) {
        self.operand0
    }

    fn get_operand1(&self) -> (r: ConstantRef) {
        self.operand1
    }
}

impl ConstBinaryOp for FMul {
    open spec fn operand0_spec(&self) -> ConstantRef {
        self.operand0
    }

    open spec fn operand1_spec(&self) -> ConstantRef {
        self.operand1
    }

    fn get_operand0(&self) -> (r: ConstantRef) {
        self.operand0
    }

    fn get_operand1(&self) -> (r: ConstantRef) {
        self.operand1
    }
}

impl ConstBinaryOp for FDiv {
    open spec fn operand0_spec(&self) -> ConstantRef {
        self.operand0
    }

    open spec fn operand1_spec(&self) -> ConstantRef {
        self.operand1
    }

    fn get_operand0(&self) -> (r: ConstantRef) {
        self.operand0
    }

    fn get_operand1(&self) -> (r: ConstantRef) {
        self.operand1
    }
}

impl ConstBinaryOp for FRem {
    open spec fn operand0_spec(&self) -> ConstantRef {
        self.operand0
    }

    open spec fn operand1_spec(&self) -> ConstantRef {
        self.operand1
    }

    fn get_operand0(&self) -> (r: ConstantRef) {
        self.operand0
    }

    fn get_operand1(&self) -> (r: ConstantRef) {
        self.operand1
    }
}

impl ConstBinaryOp for ShuffleVector {
    open spec fn operand0_spec(&self) -> ConstantRef {
        self.operand0
    }

    open spec fn operand1_spec(&self) -> ConstantRef {
        self.operand1
    }

    fn get_operand0(&self) -> (r: ConstantRef) {
        self.operand0
    }

    fn get_operand1(&self) -> (r: ConstantRef) {
        self.operand1
    }
}

impl ConstBinaryOp for ICmp {
    open spec fn operand0_spec(&self) -> ConstantRef {
        self.operand0
    }

    open spec fn operand1_spec(&self) -> ConstantRef {
        self.operand1
    }

    fn get_operand0(&self) -> (r: ConstantRef) {
        self.operand0
    }

    fn get_operand1(&self) -> (r: ConstantRef) {
        self.operand1
    }
}

impl ConstBinaryOp for FCmp {
    open spec fn operand0_spec(&self) -> ConstantRef {
        self.operand0
    }

    open spec fn operand1_spec(&self) -> ConstantRef {
        self.operand1
    }

    fn get_operand0(&self) -> (r: ConstantRef) {
        self.operand0
    }

    fn get_operand1(&self) -> (r: ConstantRef) {
        self.operand1
    }
}

impl From<Add> for Constant {
    fn from(expr: Add) -> (r: Constant) {
        Constant::Add(expr)
    }
}

impl vstd::std_specs::convert::FromSpecImpl<Add> for Constant {
    open spec fn obeys_from_spec() -> bool {
        true
    }

    open spec fn from_spec(expr: Add) -> Constant {
        Constant::Add(expr)
    }
}

impl TryFrom<Constant> for Add {
    /// The constant itself, when it is of another kind.
    type Error = Constant;

    fn try_from(constant: Constant) -> (r: Result<Add, Constant>) {
        match constant {
            Constant::Add(expr) => Ok(expr),
            other => Err(other),
        }
    }
}

impl vstd::std_specs::convert::TryFromSpecImpl<Constant> for Add {
    open spec fn obeys_try_from_spec() -> bool {
        true
    }

    open spec fn try_from_spec(constant: Constant) -> Result<Add, Constant> {
        match constant {
            Constant::Add(expr) => Ok(expr),
            other => Err(other),
        }
    }
}

impl From<Sub> for Constant {
    fn from(expr: Sub) -> (r: Constant) {
        Constant::Sub(expr)
    }
}

impl vstd::std_specs::convert::FromSpecImpl<Sub> for Constant {
    open spec fn obeys_from_spec() -> bool {
        true
    }

    open spec fn from_spec(expr: Sub) -> Constant {
        Constant::Sub(expr)
    }
}

impl TryFrom<Constant> for Sub {
    /// The constant itself, when it is of another kind.
    type Error = Constant;

    fn try_from(constant: Constant) -> (r: Result<Sub, Constant>) {
        match constant {
            Constant::Sub(expr) => Ok(expr),
            other => Err(other),
        }
    }
}

impl vstd::std_specs::convert::TryFromSpecImpl<Constant> for Sub {
    open spec fn obeys_try_from_spec() -> bool {
        true
    }

    open spec fn try_from_spec(constant: Constant) -> Result<Sub, Constant> {
        match constant {
            Constant::Sub(expr) => Ok(expr),
            other => Err(other),
        }
    }
}

impl From<Mul> for Constant {
    fn from(expr: Mul) -> (r: Constant) {
        Constant::Mul(expr)
    }
}

impl vstd::std_specs::convert::FromSpecImpl<Mul> for Constant {
    open spec fn obeys_from_spec() -> bool {
        true
    }

    open spec fn from_spec(expr: Mul) -> Constant {
        Constant::Mul(expr)
    }
}

impl TryFrom<Constant> for Mul {
    /// The constant itself, when it is of another kind.
    type Error = Constant;

    fn try_from(constant: Constant) -> (r: Result<Mul, Constant>) {
        match constant {
            Constant::Mul(expr) => Ok(expr),
            other => Err(other),
        }
    }
}

impl vstd::std_specs::convert::TryFromSpecImpl<Constant> for Mul {
    open spec fn obeys_try_from_spec() -> bool {
        true
    }

    open spec fn try_from_spec(constant: Constant) -> Result<Mul, Constant> {
        match constant {
            Constant::Mul(expr) => Ok(expr),
            other => Err(other),
        }
    }
}

impl From<UDiv> for Constant {
    fn from(expr: UDiv) -> (r: Constant) {
        Constant::UDiv(expr)
    }
}

impl vstd::std_specs::convert::FromSpecImpl<UDiv> for Constant {
    open spec fn obeys_from_spec() -> bool {
        true
    }

    open spec fn from_spec(expr: UDiv) -> Constant {
        Constant::UDiv(expr)
    }
}

impl TryFrom<Constant> for UDiv {
    /// The constant itself, when it is of another kind.
    type Error = Constant;

    fn try_from(constant: Constant) -> (r: Result<UDiv, Constant>) {
        match constant {
            Constant::UDiv(expr) => Ok(expr),
            other => Err(other),
        }
    }
}

impl vstd::std_specs::convert::TryFromSpecImpl<Constant> for UDiv {
    open spec fn obeys_try_from_spec() -> bool {
        true
    }

    open spec fn try_from_spec(constant: Constant) -> Result<UDiv, Constant> {
        match constant {
            Constant::UDiv(expr) => Ok(expr),
            other => Err(other),
        }
    }
}

impl From<SDiv> for Constant {
    fn from(expr: SDiv) -> (r: Constant) {
        Constant::SDiv(expr)
    }
}

impl vstd::std_specs::convert::FromSpecImpl<SDiv> for Constant {
    open spec fn obeys_from_spec() -> bool {
        true
    }

    open spec fn from_spec(expr: SDiv) -> Constant {
        Constant::SDiv(expr)
    }
}

impl TryFrom<Constant> for SDiv {
    /// The constant itself, when it is of another kind.
    type Error = Constant;

    fn try_from(constant: Constant) -> (r: Result<SDiv, Constant>) {
        match constant {
            Constant::SDiv(expr) => Ok(expr),
            other => Err(other),
        }
    }
}

impl vstd::std_specs::convert::TryFromSpecImpl<Constant> for SDiv {
    open spec fn obeys_try_from_spec() -> bool {
        true
    }

    open spec fn try_from_spec(constant: Constant) -> Result<SDiv, Constant> {
        match constant {
            Constant::SDiv(expr) => Ok(expr),
            other => Err(other),
        }
    }
}

impl From<URem> for Constant {
    fn from(expr: URem) -> (r: Constant) {
        Constant::URem(expr)
    }
}

impl vstd::std_specs::convert::FromSpecImpl<URem> for Constant {
    open spec fn obeys_from_spec() -> bool {
        true
    }

    open spec fn from_spec(expr: URem) -> Constant {
        Constant::URem(expr)
    }
}

impl TryFrom<Constant> for URem {
    /// The constant itself, when it is of another kind.
    type Error = Constant;

    fn try_from(constant: Constant) -> (r: Result<URem, Constant>) {
        match constant {
            Constant::URem(expr) => Ok(expr),
            other => Err(other),
        }
    }
}

impl vstd::std_specs::convert::TryFromSpecImpl<Constant> for URem {
    open spec fn obeys_try_from_spec() -> bool {
        true
    }

    open spec fn try_from_spec(constant: Constant) -> Result<URem, Constant> {
        match constant {
            Constant::URem(expr) => Ok(expr),
            other => Err(other),
        }
    }
}

impl From<SRem> for Constant {
    fn from(expr: SRem) -> (r: Constant) {
        Constant::SRem(expr)
    }
}

impl vstd::std_specs::convert::FromSpecImpl<SRem> for Constant {
    open spec fn obeys_from_spec() -> bool {
        true
    }

    open spec fn from_spec(expr: SRem) -> Constant {
        Constant::SRem(expr)
    }
}

impl TryFrom<Constant> for SRem {
    /// The constant itself, when it is of another kind.
    type Error = Constant;

    fn try_from(constant: Constant) -> (r: Result<SRem, Constant>) {
        match constant {
            Constant::SRem(expr) => Ok(expr),
            other => Err(other),
        }
    }
}

impl vstd::std_specs::convert::TryFromSpecImpl<Constant> for SRem {
    open spec fn obeys_try_from_spec() -> bool {
        true
    }

    open spec fn try_from_spec(constant: Constant) -> Result<SRem, Constant> {
        match constant {
            Constant::SRem(expr) => Ok(expr),
            other => Err(other),
        }
    }
}

impl From<And> for Constant {
    fn from(expr: And) -> (r: Constant) {
        Constant::And(expr)
    }
}

impl vstd::std_specs::convert::FromSpecImpl<And> for Constant {
    open spec fn obeys_from_spec() -> bool {
        true
    }

    open spec fn from_spec(expr: And) -> Constant {
        Constant::And(expr)
    }
}

impl TryFrom<Constant> for And {
    /// The constant itself, when it is of another kind.
    type Error = Constant;

    fn try_from(constant: Constant) -> (r: Result<And, Constant>) {
        match constant {
            Constant::And(expr) => Ok(expr),
            other => Err(other),
        }
    }
}

impl vstd::std_specs::convert::TryFromSpecImpl<Constant> for And {
    open spec fn obeys_try_from_spec() -> bool {
        true
    }

    open spec fn try_from_spec(constant: Constant) -> Result<And, Constant> {
        match constant {
            Constant::And(expr) => Ok(expr),
            other => Err(other),
        }
    }
}

impl From<Or> for Constant {
    fn from(expr: Or) -> (r: Constant) {
        Constant::Or(expr)
    }
}

impl vstd::std_specs::convert::FromSpecImpl<Or> for Constant {
    open spec fn obeys_from_spec() -> bool {
        true
    }

    open spec fn from_spec(expr: Or) -> Constant {
        Constant::Or(expr)
    }
}

impl TryFrom<Constant> for Or {
    /// The constant itself, when it is of another kind.
    type Error = Constant;

    fn try_from(constant: Constant) -> (r: Result<Or, Constant>) {
        match constant {
            Constant::Or(expr) => Ok(expr),
            other => Err(other),
        }
    }
}

impl vstd::std_specs::convert::TryFromSpecImpl<Constant> for Or {
    open spec fn obeys_try_from_spec() -> bool {
        true
    }

    open spec fn try_from_spec(constant: Constant) -> Result<Or, Constant> {
        match constant {
            Constant::Or(expr) => Ok(expr),
            other => Err(other),
        }
    }
}

impl From<Xor> for Constant {
    fn from(expr: Xor) -> (r: Constant) {
        Constant::Xor(expr)
    }
}

impl vstd::std_specs::convert::FromSpecImpl<Xor> for Constant {
    open spec fn obeys_from_spec() -> bool {
        true
    }

    open spec fn from_spec(expr: Xor) -> Constant {
        Constant::Xor(expr)
    }
}

impl TryFrom<Constant> for Xor {
    /// The constant itself, when it is of another kind.
    type Error = Constant;

    fn try_from(constant: Constant) -> (r: Result<Xor, Constant>) {
        match constant {
            Constant::Xor(expr) => Ok(expr),
            other => Err(other),
        }
    }
}

impl vstd::std_specs::convert::TryFromSpecImpl<Constant> for Xor {
    open spec fn obeys_try_from_spec() -> bool {
        true
    }

    open spec fn try_from_spec(constant: Constant) -> Result<Xor, Constant> {
        match constant {
            Constant::Xor(expr) => Ok(expr),
            other => Err(other),
        }
    }
}

impl From<Shl> for Constant {
    fn from(expr: Shl) -> (r: Constant) {
        Constant::Shl(expr)
    }
}

impl vstd::std_specs::convert::FromSpecImpl<Shl> for Constant {
    open spec fn obeys_from_spec() -> bool {
        true
    }

    open spec fn from_spec(expr: Shl) -> Constant {
        Constant::Shl(expr)
    }
}

impl TryFrom<Constant> for Shl {
    /// The constant itself, when it is of another kind.
    type Error = Constant;

    fn try_from(constant: Constant) -> (r: Result<Shl, Constant>) {
        match constant {
            Constant::Shl(expr) => Ok(expr),
            other => Err(other),
        }
    }
}

impl vstd::std_specs::convert::TryFromSpecImpl<Constant> for Shl {
    open spec fn obeys_try_from_spec() -> bool {
        true
    }

    open spec fn try_from_spec(constant: Constant) -> Result<Shl, Constant> {
        match constant {
            Constant::Shl(expr) => Ok(expr),
            other => Err(other),
        }
    }
}

impl From<LShr> for Constant {
    fn from(expr: LShr) -> (r: Constant) {
        Constant::LShr(expr)
    }
}

impl vstd::std_specs::convert::FromSpecImpl<LShr> for Constant {
    open spec fn obeys_from_spec() -> bool {
        true
    }

    open spec fn from_spec(expr: LShr) -> Constant {
        Constant::LShr(expr)
    }
}

impl TryFrom<Constant> for LShr {
    /// The constant itself, when it is of another kind.
    type Error = Constant;

    fn try_from(constant: Constant) -> (r: Result<LShr, Constant>) {
        match constant {
            Constant::LShr(expr) => Ok(expr),
            other => Err(other),
        }
    }
}

impl vstd::std_specs::convert::TryFromSpecImpl<Constant> for LShr {
    open spec fn obeys_try_from_spec() -> bool {
        true
    }

    open spec fn try_from_spec(constant: Constant) -> Result<LShr, Constant> {
        match constant {
            Constant::LShr(expr) => Ok(expr),
            other => Err(other),
        }
    }
}

impl From<AShr> for Constant {
    fn from(expr: AShr) -> (r: Constant) {
        Constant::AShr(expr)
    }
}

impl vstd::std_specs::convert::FromSpecImpl<AShr> for Constant {
    open spec fn obeys_from_spec() -> bool {
        true
    }

    open spec fn from_spec(expr: AShr) -> Constant {
        Constant::AShr(expr)
    }
}

impl TryFrom<Constant> for AShr {
    /// The constant itself, when it is of another kind.
    type Error = Constant;

    fn try_from(constant: Constant) -> (r: Result<AShr, Constant>) {
        match constant {
            Constant::AShr(expr) => Ok(expr),
            other => Err(other),
        }
    }
}

impl vstd::std_specs::convert::TryFromSpecImpl<Constant> for AShr {
    open spec fn obeys_try_from_spec() -> bool {
        true
    }

    open spec fn try_from_spec(constant: Constant) -> Result<AShr, Constant> {
        match constant {
            Constant::AShr(expr) => Ok(expr),
            other => Err(other),
        }
    }
}

impl From<FAdd> for Constant {
    fn from(expr: FAdd) -> (r: Constant) {
        Constant::FAdd(expr)
    }
}

impl vstd::std_specs::convert::FromSpecImpl<FAdd> for Constant {
    open spec fn obeys_from_spec() -> bool {
        true
    }

    open spec fn from_spec(expr: FAdd) -> Constant {
        Constant::FAdd(expr)
    }
}

impl TryFrom<Constant> for FAdd {
    /// The constant itself, when it is of another kind.
    type Error = Constant;

    fn try_from(constant: Constant) -> (r: Result<FAdd, Constant>) {
        match constant {
            Constant::FAdd(expr) => Ok(expr),
            other => Err(other),
        }
    }
}

impl vstd::std_specs::convert::TryFromSpecImpl<Constant> for FAdd {
    open spec fn obeys_try_from_spec() -> bool {
        true
    }

    open spec fn try_from_spec(constant: Constant) -> Result<FAdd, Constant> {
        match constant {
            Constant::FAdd(expr) => Ok(expr),
            other => Err(other),
        }
    }
}

impl From<FSub> for Constant {
    fn from(expr: FSub) -> (r: Constant) {
        Constant::FSub(expr)
    }
}

impl vstd::std_specs::convert::FromSpecImpl<FSub> for Constant {
    open spec fn obeys_from_spec() -> bool {
        true
    }

    open spec fn from_spec(expr: FSub) -> Constant {
        Constant::FSub(expr)
    }
}

impl TryFrom<Constant> for FSub {
    /// The constant itself, when it is of another kind.
    type Error = Constant;

    fn try_from(constant: Constant) -> (r: Result<FSub, Constant>) {
        match constant {
            Constant::FSub(expr) => Ok(expr),
            other => Err(other),
        }
    }
}

impl vstd::std_specs::convert::TryFromSpecImpl<Constant> for FSub {
    open spec fn obeys_try_from_spec() -> bool {
        true
    }

    open spec fn try_from_spec(constant: Constant) -> Result<FSub, Constant> {
        match constant {
            Constant::FSub(expr) => Ok(expr),
            other => Err(other),
        }
    }
}

impl From<FMul> for Constant {
    fn from(expr: FMul) -> (r: Constant) {
        Constant::FMul(expr)
    }
}

impl vstd::std_specs::convert::FromSpecImpl<FMul> for Constant {
    open spec fn obeys_from_spec() -> bool {
        true
    }

    open spec fn from_spec(expr: FMul) -> Constant {
        Constant::FMul(expr)
    }
}

impl TryFrom<Constant> for FMul {
    /// The constant itself, when it is of another kind.
    type Error = Constant;

    fn try_from(constant: Constant) -> (r: Result<FMul, Constant>) {
        match constant {
            Constant::FMul(expr) => Ok(expr),
            other => Err(other),
        }
    }
}

impl vstd::std_specs::convert::TryFromSpecImpl<Constant> for FMul {
    open spec fn obeys_try_from_spec() -> bool {
        true
    }

    open spec fn try_from_spec(constant: Constant) -> Result<FMul, Constant> {
        match constant {
            Constant::FMul(expr) => Ok(expr),
            other => Err(other),
        }
    }
}

impl From<FDiv> for Constant {
    fn from(expr: FDiv) -> (r: Constant) {
        Constant::FDiv(expr)
    }
}

impl vstd::std_specs::convert::FromSpecImpl<FDiv> for Constant {
    open spec fn obeys_from_spec() -> bool {
        true
    }

    open spec fn from_spec(expr: FDiv) -> Constant {
        Constant::FDiv(expr)
    }
}

impl TryFrom<Constant> for FDiv {
    /// The constant itself, when it is of another kind.
    type Error = Constant;

    fn try_from(constant: Constant) -> (r: Result<FDiv, Constant>) {
        match constant {
            Constant::FDiv(expr) => Ok(expr),
            other => Err(other),
        }
    }
}

impl vstd::std_specs::convert::TryFromSpecImpl<Constant> for FDiv {
    open spec fn obeys_try_from_spec() -> bool {
        true
    }

    open spec fn try_from_spec(constant: Constant) -> Result<FDiv, Constant> {
        match constant {
            Constant::FDiv(expr) => Ok(expr),
            other => Err(other),
        }
    }
}

impl From<FRem> for Constant {
    fn from(expr: FRem) -> (r: Constant) {
        Constant::FRem(expr)
    }
}

impl vstd::std_specs::convert::FromSpecImpl<FRem> for Constant {
    open spec fn obeys_from_spec() -> bool {
        true
    }

    open spec fn from_spec(expr: FRem) -> Constant {
        Constant::FRem(expr)
    }
}

impl TryFrom<Constant> for FRem {
    /// The constant itself, when it is of another kind.
    type Error = Constant;

    fn try_from(constant: Constant) -> (r: Result<FRem, Constant>) {
        match constant {
            Constant::FRem(expr) => Ok(expr),
            other => Err(other),
        }
    }
}

impl vstd::std_specs::convert::TryFromSpecImpl<Constant> for FRem {
    open spec fn obeys_try_from_spec() -> bool {
        true
    }

    open spec fn try_from_spec(constant: Constant) -> Result<FRem, Constant> {
        match constant {
            Constant::FRem(expr) => Ok(expr),
            other => Err(other),
        }
    }
}

impl From<ExtractElement> for Constant {
    fn from(expr: ExtractElement) -> (r: Constant) {
        Constant::ExtractElement(expr)
    }
}

impl vstd::std_specs::convert::FromSpecImpl<ExtractElement> for Constant {
    open spec fn obeys_from_spec() -> bool {
        true
    }

    open spec fn from_spec(expr: ExtractElement) -> Constant {
        Constant::ExtractElement(expr)
    }
}

impl TryFrom<Constant> for ExtractElement {
    /// The constant itself, when it is of another kind.
    type Error = Constant;

    fn try_from(constant: Constant) -> (r: Result<ExtractElement, Constant>) {
        match constant {
            Constant::ExtractElement(expr) => Ok(expr),
            other => Err(other),
        }
    }
}

impl vstd::std_specs::convert::TryFromSpecImpl<Constant> for ExtractElement {
    open spec fn obeys_try_from_spec() -> bool {
        true
    }

    open spec fn try_from_spec(constant: Constant) -> Result<ExtractElement, Constant> {
        match constant {
            Constant::ExtractElement(expr) => Ok(expr),
            other => Err(other),
        }
    }
}

impl From<InsertElement> for Constant {
    fn from(expr: InsertElement) -> (r: Constant) {
        Constant::InsertElement(expr)
    }
}

impl vstd::std_specs::convert::FromSpecImpl<InsertElement> for Constant {
    open spec fn obeys_from_spec() -> bool {
        true
    }

    open spec fn from_spec(expr: InsertElement) -> Constant {
        Constant::InsertElement(expr)
    }
}

impl TryFrom<Constant> for InsertElement {
    /// The constant itself, when it is of another kind.
    type Error = Constant;

    fn try_from(constant: Constant) -> (r: Result<InsertElement, Constant>) {
        match constant {
            Constant::InsertElement(expr) => Ok(expr),
            other => Err(other),
        }
    }
}

impl vstd::std_specs::convert::TryFromSpecImpl<Constant> for InsertElement {
    open spec fn obeys_try_from_spec() -> bool {
        true
    }

    open spec fn try_from_spec(constant: Constant) -> Result<InsertElement, Constant> {
        match constant {
            Constant::InsertElement(expr) => Ok(expr),
            other => Err(other),
        }
    }
}

impl From<ShuffleVector> for Constant {
    fn from(expr: ShuffleVector) -> (r: Constant) {
        Constant::ShuffleVector(expr)
    }
}

impl vstd::std_specs::convert::FromSpecImpl<ShuffleVector> for Constant {
    open spec fn obeys_from_spec() -> bool {
        true
    }

    open spec fn from_spec(expr: ShuffleVector) -> Constant {
        Constant::ShuffleVector(expr)
    }
}

impl TryFrom<Constant> for ShuffleVector {
    /// The constant itself, when it is of another kind.
    type Error = Constant;

    fn try_from(constant: Constant) -> (r: Result<ShuffleVector, Constant>) {
        match constant {
            Constant::ShuffleVector(expr) => Ok(expr),
            other => Err(other),
        }
    }
}

impl vstd::std_specs::convert::TryFromSpecImpl<Constant> for ShuffleVector {
    open spec fn obeys_try_from_spec() -> bool {
        true
    }

    open spec fn try_from_spec(constant: Constant) -> Result<ShuffleVector, Constant> {
        match constant {
            Constant::ShuffleVector(expr) => Ok(expr),
            other => Err(other),
        }
    }
}

impl From<ExtractValue> for Constant {
    fn from(expr: ExtractValue) -> (r: Constant) {
        Constant::ExtractValue(expr)
    }
}

impl vstd::std_specs::convert::FromSpecImpl<ExtractValue> for Constant {
    open spec fn obeys_from_spec() -> bool {
        true
    }

    open spec fn from_spec(expr: ExtractValue) -> Constant {
        Constant::ExtractValue(expr)
    }
}

impl TryFrom<Constant> for ExtractValue {
    /// The constant itself, when it is of another kind.
    type Error = Constant;

    fn try_from(constant: Constant) -> (r: Result<ExtractValue, Constant>) {
        match constant {
            Constant::ExtractValue(expr) => Ok(expr),
            other => Err(other),
        }
    }
}

impl vstd::std_specs::convert::TryFromSpecImpl<Constant> for ExtractValue {
    open spec fn obeys_try_from_spec() -> bool {
        true
    }

    open spec fn try_from_spec(constant: Constant) -> Result<ExtractValue, Constant> {
        match constant {
            Constant::ExtractValue(expr) => Ok(expr),
            other => Err(other),
        }
    }
}

impl From<InsertValue> for Constant {
    fn from(expr: InsertValue) -> (r: Constant) {
        Constant::InsertValue(expr)
    }
}

impl vstd::std_specs::convert::FromSpecImpl<InsertValue> for Constant {
    open spec fn obeys_from_spec() -> bool {
        true
    }

    open spec fn from_spec(expr: InsertValue) -> Constant {
        Constant::InsertValue(expr)
    }
}

impl TryFrom<Constant> for InsertValue {
    /// The constant itself, when it is of another kind.
    type Error = Constant;

    fn try_from(constant: Constant) -> (r: Result<InsertValue, Constant>) {
        match constant {
            Constant::InsertValue(expr) => Ok(expr),
            other => Err(other),
        }
    }
}

impl vstd::std_specs::convert::TryFromSpecImpl<Constant> for InsertValue {
    open spec fn obeys_try_from_spec() -> bool {
        true
    }

    open spec fn try_from_spec(constant: Constant) -> Result<InsertValue, Constant> {
        match constant {
            Constant::InsertValue(expr) => Ok(expr),
            other => Err(other),
        }
    }
}

impl From<GetElementPtr> for Constant {
    fn from(expr: GetElementPtr) -> (r: Constant) {
        Constant::GetElementPtr(expr)
    }
}

impl vstd::std_specs::convert::FromSpecImpl<GetElementPtr> for Constant {
    open spec fn obeys_from_spec() -> bool {
        true
    }

    open spec fn from_spec(expr: GetElementPtr) -> Constant {
        Constant::GetElementPtr(expr)
    }
}

impl TryFrom<Constant> for GetElementPtr {
    /// The constant itself, when it is of another kind.
    type Error = Constant;

    fn try_from(constant: Constant) -> (r: Result<GetElementPtr, Constant>) {
        match constant {
            Constant::GetElementPtr(expr) => Ok(expr),
            other => Err(other),
        }
    }
}

impl vstd::std_specs::convert::TryFromSpecImpl<Constant> for GetElementPtr {
    open spec fn obeys_try_from_spec() -> bool {
        true
    }

    open spec fn try_from_spec(constant: Constant) -> Result<GetElementPtr, Constant> {
        match constant {
            Constant::GetElementPtr(expr) => Ok(expr),
            other => Err(other),
        }
    }
}

impl From<Trunc> for Constant {
    fn from(expr: Trunc) -> (r: Constant) {
        Constant::Trunc(expr)
    }
}

impl vstd::std_specs::convert::FromSpecImpl<Trunc> for Constant {
    open spec fn obeys_from_spec() -> bool {
        true
    }

    open spec fn from_spec(expr: Trunc) -> Constant {
        Constant::Trunc(expr)
    }
}

impl TryFrom<Constant> for Trunc {
    /// The constant itself, when it is of another kind.
    type Error = Constant;

    fn try_from(constant: Constant) -> (r: Result<Trunc, Constant>) {
        match constant {
            Constant::Trunc(expr) => Ok(expr),
            other => Err(other),
        }
    }
}

impl vstd::std_specs::convert::TryFromSpecImpl<Constant> for Trunc {
    open spec fn obeys_try_from_spec() -> bool {
        true
    }

    open spec fn try_from_spec(constant: Constant) -> Result<Trunc, Constant> {
        match constant {
            Constant::Trunc(expr) => Ok(expr),
            other => Err(other),
        }
    }
}

impl From<ZExt> for Constant {
    fn from(expr: ZExt) -> (r: Constant) {
        Constant::ZExt(expr)
    }
}

impl vstd::std_specs::convert::FromSpecImpl<ZExt> for Constant {
    open spec fn obeys_from_spec() -> bool {
        true
    }

    open spec fn from_spec(expr: ZExt) -> Constant {
        Constant::ZExt(expr)
    }
}

impl TryFrom<Constant> for ZExt {
    /// The constant itself, when it is of another kind.
    type Error = Constant;

    fn try_from(constant: Constant) -> (r: Result<ZExt, Constant>) {
        match constant {
            Constant::ZExt(expr) => Ok(expr),
            other => Err(other),
        }
    }
}

impl vstd::std_specs::convert::TryFromSpecImpl<Constant> for ZExt {
    open spec fn obeys_try_from_spec() -> bool {
        true
    }

    open spec fn try_from_spec(constant: Constant) -> Result<ZExt, Constant> {
        match constant {
            Constant::ZExt(expr) => Ok(expr),
            other => Err(other),
        }
    }
}

impl From<SExt> for Constant {
    fn from(expr: SExt) -> (r: Constant) {
        Constant::SExt(expr)
    }
}

impl vstd::std_specs::convert::FromSpecImpl<SExt> for Constant {
    open spec fn obeys_from_spec() -> bool {
        true
    }

    open spec fn from_spec(expr: SExt) -> Constant {
        Constant::SExt(expr)
    }
}

impl TryFrom<Constant> for SExt {
    /// The constant itself, when it is of another kind.
    type Error = Constant;

    fn try_from(constant: Constant) -> (r: Result<SExt, Constant>) {
        match constant {
            Constant::SExt(expr) => Ok(expr),
            other => Err(other),
        }
    }
}

impl vstd::std_specs::convert::TryFromSpecImpl<Constant> for SExt {
    open spec fn obeys_try_from_spec() -> bool {
        true
    }

    open spec fn try_from_spec(constant: Constant) -> Result<SExt, Constant> {
        match constant {
            Constant::SExt(expr) => Ok(expr),
            other => Err(other),
        }
    }
}

impl From<FPTrunc> for Constant {
    fn from(expr: FPTrunc) -> (r: Constant) {
        Constant::FPTrunc(expr)
    }
}

impl vstd::std_specs::convert::FromSpecImpl<FPTrunc> for Constant {
    open spec fn obeys_from_spec() -> bool {
        true
    }

    open spec fn from_spec(expr: FPTrunc) -> Constant {
        Constant::FPTrunc(expr)
    }
}

impl TryFrom<Constant> for FPTrunc {
    /// The constant itself, when it is of another kind.
    type Error = Constant;

    fn try_from(constant: Constant) -> (r: Result<FPTrunc, Constant>) {
        match constant {
            Constant::FPTrunc(expr) => Ok(expr),
            other => Err(other),
        }
    }
}

impl vstd::std_specs::convert::TryFromSpecImpl<Constant> for FPTrunc {
    open spec fn obeys_try_from_spec() -> bool {
        true
    }

    open spec fn try_from_spec(constant: Constant) -> Result<FPTrunc, Constant> {
        match constant {
            Constant::FPTrunc(expr) => Ok(expr),
            other => Err(other),
        }
    }
}

impl From<FPExt> for Constant {
    fn from(expr: FPExt) -> (r: Constant) {
        Constant::FPExt(expr)
    }
}

impl vstd::std_specs::convert::FromSpecImpl<FPExt> for Constant {
    open spec fn obeys_from_spec() -> bool {
        true
    }

    open spec fn from_spec(expr: FPExt) -> Constant {
        Constant::FPExt(expr)
    }
}

impl TryFrom<Constant> for FPExt {
    /// The constant itself, when it is of another kind.
    type Error = Constant;

    fn try_from(constant: Constant) -> (r: Result<FPExt, Constant>) {
        match constant {
            Constant::FPExt(expr) => Ok(expr),
            other => Err(other),
        }
    }
}

impl vstd::std_specs::convert::TryFromSpecImpl<Constant> for FPExt {
    open spec fn obeys_try_from_spec() -> bool {
        true
    }

    open spec fn try_from_spec(constant: Constant) -> Result<FPExt, Constant> {
        match constant {
            Constant::FPExt(expr) => Ok(expr),
            other => Err(other),
        }
    }
}

impl From<FPToUI> for Constant {
    fn from(expr: FPToUI) -> (r: Constant) {
        Constant::FPToUI(expr)
    }
}

impl vstd::std_specs::convert::FromSpecImpl<FPToUI> for Constant {
    open spec fn obeys_from_spec() -> bool {
        true
    }

    open spec fn from_spec(expr: FPToUI) -> Constant {
        Constant::FPToUI(expr)
    }
}

impl TryFrom<Constant> for FPToUI {
    /// The constant itself, when it is of another kind.
    type Error = Constant;

    fn try_from(constant: Constant) -> (r: Result<FPToUI, Constant>) {
        match constant {
            Constant::FPToUI(expr) => Ok(expr),
            other => Err(other),
        }
    }
}

impl vstd::std_specs::convert::TryFromSpecImpl<Constant> for FPToUI {
    open spec fn obeys_try_from_spec() -> bool {
        true
    }

    open spec fn try_from_spec(constant: Constant) -> Result<FPToUI, Constant> {
        match constant {
            Constant::FPToUI(expr) => Ok(expr),
            other => Err(other),
        }
    }
}

impl From<FPToSI> for Constant {
    fn from(expr: FPToSI) -> (r: Constant) {
        Constant::FPToSI(expr)
    }
}

impl vstd::std_specs::convert::FromSpecImpl<FPToSI> for Constant {
    open spec fn obeys_from_spec() -> bool {
        true
    }

    open spec fn from_spec(expr: FPToSI) -> Constant {
        Constant::FPToSI(expr)
    }
}

impl TryFrom<Constant> for FPToSI {
    /// The constant itself, when it is of another kind.
    type Error = Constant;

    fn try_from(constant: Constant) -> (r: Result<FPToSI, Constant>) {
        match constant {
            Constant::FPToSI(expr) => Ok(expr),
            other => Err(other),
        }
    }
}

impl vstd::std_specs::convert::TryFromSpecImpl<Constant> for FPToSI {
    open spec fn obeys_try_from_spec() -> bool {
        true
    }

    open spec fn try_from_spec(constant: Constant) -> Result<FPToSI, Constant> {
        match constant {
            Constant::FPToSI(expr) => Ok(expr),
            other => Err(other),
        }
    }
}

impl From<UIToFP> for Constant {
    fn from(expr: UIToFP) -> (r: Constant) {
        Constant::UIToFP(expr)
    }
}

impl vstd::std_specs::convert::FromSpecImpl<UIToFP> for Constant {
    open spec fn obeys_from_spec() -> bool {
        true
    }

    open spec fn from_spec(expr: UIToFP) -> Constant {
        Constant::UIToFP(expr)
    }
}

impl TryFrom<Constant> for UIToFP {
    /// The constant itself, when it is of another kind.
    type Error = Constant;

    fn try_from(constant: Constant) -> (r: Result<UIToFP, Constant>) {
        match constant {
            Constant::UIToFP(expr) => Ok(expr),
            other => Err(other),
        }
    }
}

impl vstd::std_specs::convert::TryFromSpecImpl<Constant> for UIToFP {
    open spec fn obeys_try_from_spec() -> bool {
        true
    }

    open spec fn try_from_spec(constant: Constant) -> Result<UIToFP, Constant> {
        match constant {
            Constant::UIToFP(expr) => Ok(expr),
            other => Err(other),
        }
    }
}

impl From<SIToFP> for Constant {
    fn from(expr: SIToFP) -> (r: Constant) {
        Constant::SIToFP(expr)
    }
}

impl vstd::std_specs::convert::FromSpecImpl<SIToFP> for Constant {
    open spec fn obeys_from_spec() -> bool {
        true
    }

    open spec fn from_spec(expr: SIToFP) -> Constant {
        Constant::SIToFP(expr)
    }
}

impl TryFrom<Constant> for SIToFP {
    /// The constant itself, when it is of another kind.
    type Error = Constant;

    fn try_from(constant: Constant) -> (r: Result<SIToFP, Constant>) {
        match constant {
            Constant::SIToFP(expr) => Ok(expr),
            other => Err(other),
        }
    }
}

impl vstd::std_specs::convert::TryFromSpecImpl<Constant> for SIToFP {
    open spec fn obeys_try_from_spec() -> bool {
        true
    }

    open spec fn try_from_spec(constant: Constant) -> Result<SIToFP, Constant> {
        match constant {
            Constant::SIToFP(expr) => Ok(expr),
            other => Err(other),
        }
    }
}

impl From<PtrToInt> for Constant {
    fn from(expr: PtrToInt) -> (r: Constant) {
        Constant::PtrToInt(expr)
    }
}

impl vstd::std_specs::convert::FromSpecImpl<PtrToInt> for Constant {
    open spec fn obeys_from_spec() -> bool {
        true
    }

    open spec fn from_spec(expr: PtrToInt) -> Constant {
        Constant::PtrToInt(expr)
    }
}

impl TryFrom<Constant> for PtrToInt {
    /// The constant itself, when it is of another kind.
    type Error = Constant;

    fn try_from(constant: Constant) -> (r: Result<PtrToInt, Constant>) {
        match constant {
            Constant::PtrToInt(expr) => Ok(expr),
            other => Err(other),
        }
    }
}

impl vstd::std_specs::convert::TryFromSpecImpl<Constant> for PtrToInt {
    open spec fn obeys_try_from_spec() -> bool {
        true
    }

    open spec fn try_from_spec(constant: Constant) -> Result<PtrToInt, Constant> {
        match constant {
            Constant::PtrToInt(expr) => Ok(expr),
            other => Err(other),
        }
    }
}

impl From<IntToPtr> for Constant {
    fn from(expr: IntToPtr) -> (r: Constant) {
        Constant::IntToPtr(expr)
    }
}

impl vstd::std_specs::convert::FromSpecImpl<IntToPtr> for Constant {
    open spec fn obeys_from_spec() -> bool {
        true
    }

    open spec fn from_spec(expr: IntToPtr) -> Constant {
        Constant::IntToPtr(expr)
    }
}

impl TryFrom<Constant> for IntToPtr {
    /// The constant itself, when it is of another kind.
    type Error = Constant;

    fn try_from(constant: Constant) -> (r: Result<IntToPtr, Constant>) {
        match constant {
            Constant::IntToPtr(expr) => Ok(expr),
            other => Err(other),
        }
    }
}

impl vstd::std_specs::convert::TryFromSpecImpl<Constant> for IntToPtr {
    open spec fn obeys_try_from_spec() -> bool {
        true
    }

    open spec fn try_from_spec(constant: Constant) -> Result<IntToPtr, Constant> {
        match constant {
            Constant::IntToPtr(expr) => Ok(expr),
            other => Err(other),
        }
    }
}

impl From<BitCast> for Constant {
    fn from(expr: BitCast) -> (r: Constant) {
        Constant::BitCast(expr)
    }
}

impl vstd::std_specs::convert::FromSpecImpl<BitCast> for Constant {
    open spec fn obeys_from_spec() -> bool {
        true
    }

    open spec fn from_spec(expr: BitCast) -> Constant {
        Constant::BitCast(expr)
    }
}

impl TryFrom<Constant> for BitCast {
    /// The constant itself, when it is of another kind.
    type Error = Constant;

    fn try_from(constant: Constant) -> (r: Result<BitCast, Constant>) {
        match constant {
            Constant::BitCast(expr) => Ok(expr),
            other => Err(other),
        }
    }
}

impl vstd::std_specs::convert::TryFromSpecImpl<Constant> for BitCast {
    open spec fn obeys_try_from_spec() -> bool {
        true
    }

    open spec fn try_from_spec(constant: Constant) -> Result<BitCast, Constant> {
        match constant {
            Constant::BitCast(expr) => Ok(expr),
            other => Err(other),
        }
    }
}

impl From<AddrSpaceCast> for Constant {
    fn from(expr: AddrSpaceCast) -> (r: Constant) {
        Constant::AddrSpaceCast(expr)
    }
}

impl vstd::std_specs::convert::FromSpecImpl<AddrSpaceCast> for Constant {
    open spec fn obeys_from_spec() -> bool {
        true
    }

    open spec fn from_spec(expr: AddrSpaceCast) -> Constant {
        Constant::AddrSpaceCast(expr)
    }
}

impl TryFrom<Constant> for AddrSpaceCast {
    /// The constant itself, when it is of another kind.
    type Error = Constant;

    fn try_from(constant: Constant) -> (r: Result<AddrSpaceCast, Constant>) {
        match constant {
            Constant::AddrSpaceCast(expr) => Ok(expr),
            other => Err(other),
        }
    }
}

impl vstd::std_specs::convert::TryFromSpecImpl<Constant> for AddrSpaceCast {
    open spec fn obeys_try_from_spec() -> bool {
        true
    }

    open spec fn try_from_spec(constant: Constant) -> Result<AddrSpaceCast, Constant> {
        match constant {
            Constant::AddrSpaceCast(expr) => Ok(expr),
            other => Err(other),
        }
    }
}

impl From<ICmp> for Constant {
    fn from(expr: ICmp) -> (r: Constant) {
        Constant::ICmp(expr)
    }
}

impl vstd::std_specs::convert::FromSpecImpl<ICmp> for Constant {
    open spec fn obeys_from_spec() -> bool {
        true
    }

    open spec fn from_spec(expr: ICmp) -> Constant {
        Constant::ICmp(expr)
    }
}

impl TryFrom<Constant> for ICmp {
    /// The constant itself, when it is of another kind.
    type Error = Constant;

    fn try_from(constant: Constant) -> (r: Result<ICmp, Constant>) {
        match constant {
            Constant::ICmp(expr) => Ok(expr),
            other => Err(other),
        }
    }
}

impl vstd::std_specs::convert::TryFromSpecImpl<Constant> for ICmp {
    open spec fn obeys_try_from_spec() -> bool {
        true
    }

    open spec fn try_from_spec(constant: Constant) -> Result<ICmp, Constant> {
        match constant {
            Constant::ICmp(expr) => Ok(expr),
            other => Err(other),
        }
    }
}

impl From<FCmp> for Constant {
    fn from(expr: FCmp) -> (r: Constant) {
        Constant::FCmp(expr)
    }
}

impl vstd::std_specs::convert::FromSpecImpl<FCmp> for Constant {
    open spec fn obeys_from_spec() -> bool {
        true
    }

    open spec fn from_spec(expr: FCmp) -> Constant {
        Constant::FCmp(expr)
    }
}

impl TryFrom<Constant> for FCmp {
    /// The constant itself, when it is of another kind.
    type Error = Constant;

    fn try_from(constant: Constant) -> (r: Result<FCmp, Constant>) {
        match constant {
            Constant::FCmp(expr) => Ok(expr),
            other => Err(other),
        }
    }
}

impl vstd::std_specs::convert::TryFromSpecImpl<Constant> for FCmp {
    open spec fn obeys_try_from_spec() -> bool {
        true
    }

    open spec fn try_from_spec(constant: Constant) -> Result<FCmp, Constant> {
        match constant {
            Constant::FCmp(expr) => Ok(expr),
            other => Err(other),
        }
    }
}

impl From<Select> for Constant {
    fn from(expr: Select) -> (r: Constant) {
        Constant::Select(expr)
    }
}

impl vstd::std_specs::convert::FromSpecImpl<Select> for Constant {
    open spec fn obeys_from_spec() -> bool {
        true
    }

    open spec fn from_spec(expr: Select) -> Constant {
        Constant::Select(expr)
    }
}

impl TryFrom<Constant> for Select {
    /// The constant itself, when it is of another kind.
    type Error = Constant;

    fn try_from(constant: Constant) -> (r: Result<Select, Constant>) {
        match constant {
            Constant::Select(expr) => Ok(expr),
            other => Err(other),
        }
    }
}

impl vstd::std_specs::convert::TryFromSpecImpl<Constant> for Select {
    open spec fn obeys_try_from_spec() -> bool {
        true
    }

    open spec fn try_from_spec(constant: Constant) -> Result<Select, Constant> {
        match constant {
            Constant::Select(expr) => Ok(expr),
            other => Err(other),
        }
    }
}

} // verus!
