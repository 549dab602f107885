use crate::constant::{
    Constant, ConstantPool, ConstantRef, Float, pool_wf, operands_below, type_refs_below,
};
use crate::name::{Name, NameView, assign_names, ctr_after_all, opt_view};
use crate::predicates::{FPPredicate, IntPredicate};
use crate::types::{FPType, NamedStructDef, SType, Type, TypeRef, Types};
use vstd::prelude::*;

verus! {

/// The operation of a constant expression in the foreign object model.
#[derive(Clone, Copy, Debug, PartialEq, Eq, Structural)]
pub enum Opcode {
    Add,
    Sub,
    Mul,
    UDiv,
    SDiv,
    URem,
    SRem,
    And,
    Or,
    Xor,
    FAdd,
    FSub,
    FMul,
    FDiv,
    FRem,
    Shl,
    LShr,
    AShr,
    ExtractElement,
    InsertElement,
    ShuffleVector,
    ExtractValue,
    InsertValue,
    GetElementPtr,
    Trunc,
    ZExt,
    SExt,
    FPTrunc,
    FPExt,
    FPToUI,
    FPToSI,
    UIToFP,
    SIToFP,
    PtrToInt,
    IntToPtr,
    BitCast,
    AddrSpaceCast,
    ICmp,
    FCmp,
    Select,
    /// Any operation that cannot stand in a constant expression.
    Other,
}

/// A type descriptor of the foreign object model. Sub-types are handles:
/// indices into `ForeignModule::types`.
#[derive(Debug)]
pub enum ForeignType {
    Void,
    Integer { bits: u32 },
    FP(FPType),
    Function { result: usize, params: Vec<usize>, is_var_arg: bool },
    Pointer { pointee: usize, addr_space: u32 },
    Vector { element: usize, num_elements: usize },
    Array { element: usize, num_elements: usize },
    /// A structure; a named one may be opaque (`body` is `None`).
    Struct { name: Option<String>, body: Option<Vec<usize>>, is_packed: bool },
    Label,
    Metadata,
    Token,
}

#[derive(Clone, Copy, Debug, PartialEq, Eq, Structural)]
pub enum GlobalKind {
    Function,
    Variable,
    Alias,
}

#[derive(Clone, Copy, Debug, PartialEq, Eq, Structural)]
pub enum UnnamedAddr {
    Local,
    Global,
}

#[derive(Clone, Copy, Debug, PartialEq, Eq, Structural)]
pub enum Linkage {
    Private,
    Internal,
    External,
    ExternalWeak,
    AvailableExternally,
    LinkOnceAny,
    LinkOnceODR,
    LinkOnceODRAutoHide,
    WeakAny,
    WeakODR,
    Common,
    Appending,
    DLLImport,
    DLLExport,
    /// The obsolete linkage that the C interface still enumerates.
    Obsolete,
    LinkerPrivate,
    LinkerPrivateWeak,
}

#[derive(Clone, Copy, Debug, PartialEq, Eq, Structural)]
pub enum Visibility {
    Default,
    Hidden,
    Protected,
}

#[derive(Clone, Copy, Debug, PartialEq, Eq, Structural)]
pub enum DLLStorageClass {
    Default,
    Import,
    Export,
}

#[derive(Clone, Copy, Debug, PartialEq, Eq, Structural)]
pub enum ThreadLocalMode {
    NotThreadLocal,
    GeneralDynamic,
    LocalDynamic,
    InitialExec,
    LocalExec,
}

#[derive(Clone, Copy, Debug, PartialEq, Eq, Structural)]
pub enum SelectionKind {
    Any,
    ExactMatch,
    Largest,
    NoDuplicates,
    SameSize,
}

#[derive(Clone, Debug, PartialEq, Eq)]
pub struct Comdat {
    pub name: String,
    pub selection_kind: SelectionKind,
}

/// A global object (function, variable or alias) of the foreign object
/// model; the fields that do not apply to its kind are ignored.
#[derive(Debug)]
pub struct ForeignGlobal {
    pub kind: GlobalKind,
    pub name: Option<String>,
    /// The global's own type: a pointer to `value_type`.
    pub ty: usize,
    pub value_type: usize,
    pub linkage: Linkage,
    pub visibility: Visibility,
    pub is_constant: bool,
    pub dll_storage_class: DLLStorageClass,
    pub thread_local_mode: ThreadLocalMode,
    pub unnamed_addr: Option<UnnamedAddr>,
    pub initializer: Option<usize>,
    pub aliasee: Option<usize>,
    pub section: Option<String>,
    pub comdat: Option<Comdat>,
    pub alignment: u32,
}

/// A value descriptor of the foreign object model. Operands are handles:
/// indices into `ForeignModule::values`.
#[derive(Debug)]
pub enum ForeignValue {
    Global(ForeignGlobal),
    ConstantInt { ty: usize, zext_value: u64 },
    /// A floating-point literal; its value as the bits of a single- and of a
    /// double-precision number.
    ConstantFP { ty: usize, single_bits: u32, double_bits: u64 },
    ConstantStruct { ty: usize, operands: Vec<usize> },
    ConstantArray { ty: usize, operands: Vec<usize> },
    ConstantVector { operands: Vec<usize> },
    ConstantDataArray { ty: usize, elements: Vec<usize> },
    ConstantDataVector { ty: usize, elements: Vec<usize> },
    Null { ty: usize },
    AggregateZero { ty: usize },
    Undef { ty: usize },
    TokenNone,
    BlockAddress,
    ConstantExpr {
        opcode: Opcode,
        ty: usize,
        operands: Vec<usize>,
        indices: Vec<u32>,
        in_bounds: bool,
        int_predicate: IntPredicate,
        fp_predicate: FPPredicate,
    },
    /// A value that is not a constant (an instruction, an argument).
    NotAConstant,
}

/// The foreign object model of one parsed module: handle-indexed tables of
/// types and values, and the module-level metadata.
#[derive(Debug)]
pub struct ForeignModule {
    pub identifier: String,
    pub source_file_name: String,
    pub data_layout: String,
    pub target_triple: Option<String>,
    pub inline_assembly: String,
    pub types: Vec<ForeignType>,
    pub values: Vec<ForeignValue>,
    pub defined_functions: Vec<usize>,
    pub declared_functions: Vec<usize>,
    pub global_vars: Vec<usize>,
    pub global_aliases: Vec<usize>,
}

/// Why a foreign module cannot be built into a `Module`: each names a way in
/// which the foreign model is not well-formed IR.
#[derive(Clone, Copy, Debug, PartialEq, Eq, Structural)]
pub enum BuildError {
    /// A type handle past the end of the type table.
    UnknownType,
    /// A value handle past the end of the value table.
    UnknownValue,
    /// A constant was expected and the value is not one.
    NotAConstant,
    /// A literal whose type is not of the kind its form requires.
    UnexpectedType,
    /// A structure literal of an opaque structure type.
    OpaqueStructConstant,
    /// A constant expression with the wrong number of operands.
    OperandCount,
    /// A constant expression whose operation cannot be a constant.
    UnexpectedOpcode,
    /// A global object listed as a module's global but not described as one.
    NotAGlobal,
    /// A global object listed twice.
    DuplicateGlobal,
    /// A reference to a global object that the module does not list.
    UnknownGlobal,
    /// A global variable or alias whose type is not a pointer.
    NonPointerGlobal,
    /// An unnamed type, or a constant, that refers to a handle not before
    /// its own: only a named structure may refer ahead.
    OutOfOrder,
    /// More unnamed globals than the counter can number.
    TooManyGlobals,
    /// Two structure types of one name.
    DuplicateStructName,
}

pub open spec fn cached<T>(cache: Seq<Option<T>>, h: int) -> Option<T> {
    if 0 <= h < cache.len() {
        cache[h]
    } else {
        None
    }
}

/// `to` holds, at each place, the cached conversion of the handle that
/// `from` holds there.
pub open spec fn all_cached<T>(cache: Seq<Option<T>>, from: Seq<usize>, to: Seq<T>) -> bool {
    &&& to.len() == from.len()
    &&& forall|k: int| 0 <= k < from.len() ==> cached(cache, #[trigger] from[k] as int) == Some(to[k])
}

/// The interned type `t` is the conversion of the foreign type `f`, its
/// sub-types the cached conversions of `f`'s.
pub open spec fn type_converted(f: ForeignType, t: Type, tc: Seq<Option<TypeRef>>) -> bool {
    match f {
        ForeignType::Void => t == Type::VoidType,
        ForeignType::Integer { bits } => t == Type::IntegerType { bits },
        ForeignType::FP(k) => t == Type::FPType(k),
        ForeignType::Function { result, params, is_var_arg } => t matches Type::FuncType {
            result_type,
            param_types,
            is_var_arg: v,
        } && v == is_var_arg && cached(tc, result as int) == Some(result_type) && all_cached(
            tc,
            params@,
            param_types@,
        ),
        ForeignType::Pointer { pointee, addr_space } => t matches Type::PointerType {
            pointee_type,
            addr_space: a,
        } && a == addr_space && cached(tc, pointee as int) == Some(pointee_type),
        ForeignType::Vector { element, num_elements } => t matches Type::VectorType {
            element_type,
            num_elements: n,
        } && n == num_elements && cached(tc, element as int) == Some(element_type),
        ForeignType::Array { element, num_elements } => t matches Type::ArrayType {
            element_type,
            num_elements: n,
        } && n == num_elements && cached(tc, element as int) == Some(element_type),
        ForeignType::Struct { name: Some(n), .. } => t matches Type::NamedStructType { name }
            && name@ == n@,
        ForeignType::Struct { name: None, body: Some(elems), is_packed } => t matches Type::StructType {
            element_types,
            is_packed: p,
        } && p == is_packed && all_cached(tc, elems@, element_types@),
        ForeignType::Struct { name: None, body: None, .. } => false,
        ForeignType::Label => t == Type::LabelType,
        ForeignType::Metadata => t == Type::MetadataType,
        ForeignType::Token => t == Type::TokenType,
    }
}

pub open spec fn float_of(k: FPType, single_bits: u32, double_bits: u64) -> Float {
    match k {
        FPType::Half => Float::Half,
        FPType::Single => Float::Single(single_bits),
        FPType::Double => Float::Double(double_bits),
        FPType::FP128 => Float::Quadruple,
        FPType::X86_FP80 => Float::X86_FP80,
        FPType::PPC_FP128 => Float::PPC_FP128,
    }
}

/// The number of fields and packing of the structure type at foreign handle
/// `ty`, when it has a body.
pub open spec fn struct_shape(fm: &ForeignModule, ty: int) -> Option<(nat, bool)> {
    if 0 <= ty < fm.types@.len() {
        match fm.types@[ty] {
            ForeignType::Struct { body: Some(elems), is_packed, .. } => Some((elems@.len(), is_packed)),
            _ => None,
        }
    } else {
        None
    }
}

/// The constant expression `c` is the conversion of foreign operation
/// `opcode` over `ops`, with result type `ty`.
pub open spec fn expr_converted(
    c: Constant,
    opcode: Opcode,
    ty: int,
    ops: Seq<usize>,
    indices: Seq<u32>,
    in_bounds: bool,
    ip: IntPredicate,
    fp: FPPredicate,
    tc: Seq<Option<TypeRef>>,
    cc: Seq<Option<ConstantRef>>,
) -> bool {
    let op = |k: int| cached(cc, ops[k] as int);
    match opcode {
        Opcode::Add => ops.len() == 2 && (c matches Constant::Add(x) && op(0) == Some(x.operand0) && op(1) == Some(x.operand1)),
        Opcode::Sub => ops.len() == 2 && (c matches Constant::Sub(x) && op(0) == Some(x.operand0) && op(1) == Some(x.operand1)),
        Opcode::Mul => ops.len() == 2 && (c matches Constant::Mul(x) && op(0) == Some(x.operand0) && op(1) == Some(x.operand1)),
        Opcode::UDiv => ops.len() == 2 && (c matches Constant::UDiv(x) && op(0) == Some(x.operand0) && op(1) == Some(x.operand1)),
        Opcode::SDiv => ops.len() == 2 && (c matches Constant::SDiv(x) && op(0) == Some(x.operand0) && op(1) == Some(x.operand1)),
        Opcode::URem => ops.len() == 2 && (c matches Constant::URem(x) && op(0) == Some(x.operand0) && op(1) == Some(x.operand1)),
        Opcode::SRem => ops.len() == 2 && (c matches Constant::SRem(x) && op(0) == Some(x.operand0) && op(1) == Some(x.operand1)),
        Opcode::And => ops.len() == 2 && (c matches Constant::And(x) && op(0) == Some(x.operand0) && op(1) == Some(x.operand1)),
        Opcode::Or => ops.len() == 2 && (c matches Constant::Or(x) && op(0) == Some(x.operand0) && op(1) == Some(x.operand1)),
        Opcode::Xor => ops.len() == 2 && (c matches Constant::Xor(x) && op(0) == Some(x.operand0) && op(1) == Some(x.operand1)),
        Opcode::FAdd => ops.len() == 2 && (c matches Constant::FAdd(x) && op(0) == Some(x.operand0) && op(1) == Some(x.operand1)),
        Opcode::FSub => ops.len() == 2 && (c matches Constant::FSub(x) && op(0) == Some(x.operand0) && op(1) == Some(x.operand1)),
        Opcode::FMul => ops.len() == 2 && (c matches Constant::FMul(x) && op(0) == Some(x.operand0) && op(1) == Some(x.operand1)),
        Opcode::FDiv => ops.len() == 2 && (c matches Constant::FDiv(x) && op(0) == Some(x.operand0) && op(1) == Some(x.operand1)),
        Opcode::FRem => ops.len() == 2 && (c matches Constant::FRem(x) && op(0) == Some(x.operand0) && op(1) == Some(x.operand1)),
        Opcode::Shl => ops.len() == 2 && (c matches Constant::Shl(x) && op(0) == Some(x.operand0) && op(1) == Some(x.operand1)),
        Opcode::LShr => ops.len() == 2 && (c matches Constant::LShr(x) && op(0) == Some(x.operand0) && op(1) == Some(x.operand1)),
        Opcode::AShr => ops.len() == 2 && (c matches Constant::AShr(x) && op(0) == Some(x.operand0) && op(1) == Some(x.operand1)),
        Opcode::Trunc => ops.len() == 1 && (c matches Constant::Trunc(x) && op(0) == Some(x.operand) && cached(tc, ty) == Some(x.to_type)),
        Opcode::ZExt => ops.len() == 1 && (c matches Constant::ZExt(x) && op(0) == Some(x.operand) && cached(tc, ty) == Some(x.to_type)),
        Opcode::SExt => ops.len() == 1 && (c matches Constant::SExt(x) && op(0) == Some(x.operand) && cached(tc, ty) == Some(x.to_type)),
        Opcode::FPTrunc => ops.len() == 1 && (c matches Constant::FPTrunc(x) && op(0) == Some(x.operand) && cached(tc, ty) == Some(x.to_type)),
        Opcode::FPExt => ops.len() == 1 && (c matches Constant::FPExt(x) && op(0) == Some(x.operand) && cached(tc, ty) == Some(x.to_type)),
        Opcode::FPToUI => ops.len() == 1 && (c matches Constant::FPToUI(x) && op(0) == Some(x.operand) && cached(tc, ty) == Some(x.to_type)),
        Opcode::FPToSI => ops.len() == 1 && (c matches Constant::FPToSI(x) && op(0) == Some(x.operand) && cached(tc, ty) == Some(x.to_type)),
        Opcode::UIToFP => ops.len() == 1 && (c matches Constant::UIToFP(x) && op(0) == Some(x.operand) && cached(tc, ty) == Some(x.to_type)),
        Opcode::SIToFP => ops.len() == 1 && (c matches Constant::SIToFP(x) && op(0) == Some(x.operand) && cached(tc, ty) == Some(x.to_type)),
        Opcode::PtrToInt => ops.len() == 1 && (c matches Constant::PtrToInt(x) && op(0) == Some(x.operand) && cached(tc, ty) == Some(x.to_type)),
        Opcode::IntToPtr => ops.len() == 1 && (c matches Constant::IntToPtr(x) && op(0) == Some(x.operand) && cached(tc, ty) == Some(x.to_type)),
        Opcode::BitCast => ops.len() == 1 && (c matches Constant::BitCast(x) && op(0) == Some(x.operand) && cached(tc, ty) == Some(x.to_type)),
        Opcode::AddrSpaceCast => ops.len() == 1 && (c matches Constant::AddrSpaceCast(x) && op(0) == Some(x.operand) && cached(tc, ty) == Some(x.to_type)),
        Opcode::ExtractElement => ops.len() == 2 && (c matches Constant::ExtractElement(x) && op(0) == Some(x.vector) && op(1) == Some(x.index)),
        Opcode::InsertElement => ops.len() == 3 && (c matches Constant::InsertElement(x) && op(0) == Some(x.vector) && op(1) == Some(x.element) && op(2) == Some(x.index)),
        Opcode::ShuffleVector => ops.len() == 3 && (c matches Constant::ShuffleVector(x) && op(0) == Some(x.operand0) && op(1) == Some(x.operand1) && op(2) == Some(x.mask)),
        Opcode::ExtractValue => ops.len() >= 1 && (c matches Constant::ExtractValue(x) && op(0) == Some(x.aggregate) && x.indices@ == indices),
        Opcode::InsertValue => ops.len() >= 2 && (c matches Constant::InsertValue(x) && op(0) == Some(x.aggregate) && op(1) == Some(x.element) && x.indices@ == indices),
        Opcode::GetElementPtr => ops.len() >= 1 && (c matches Constant::GetElementPtr(x) && op(0) == Some(x.address) && x.in_bounds == in_bounds && all_cached(cc, ops.drop_first(), x.indices@)),
        Opcode::ICmp => ops.len() == 2 && (c matches Constant::ICmp(x) && x.predicate == ip && op(0) == Some(x.operand0) && op(1) == Some(x.operand1)),
        Opcode::FCmp => ops.len() == 2 && (c matches Constant::FCmp(x) && x.predicate == fp && op(0) == Some(x.operand0) && op(1) == Some(x.operand1)),
        Opcode::Select => ops.len() == 3 && (c matches Constant::Select(x) && op(0) == Some(x.condition) && op(1) == Some(x.true_value) && op(2) == Some(x.false_value)),
        Opcode::Other => false,
    }
}

/// The constant `c` is the conversion of the foreign value at handle `h`,
/// its operands the cached conversions of the foreign operands, and a
/// global's name the one that the first pass gave it.
pub open spec fn constant_converted(
    c: Constant,
    fm: &ForeignModule,
    h: int,
    tc: Seq<Option<TypeRef>>,
    cc: Seq<Option<ConstantRef>>,
    gn: Seq<Option<Name>>,
) -> bool {
    0 <= h < fm.values@.len() && (match fm.values@[h] {
        ForeignValue::Global(g) => c matches Constant::GlobalReference { name, ty } && cached(gn, h)
            == Some(name) && cached(tc, g.value_type as int) == Some(ty),
        ForeignValue::ConstantInt { ty, zext_value } => 0 <= ty < fm.types@.len() && (
        fm.types@[ty as int] matches ForeignType::Integer { bits } && c == Constant::Int {
            bits,
            value: zext_value,
        }),
        ForeignValue::ConstantFP { ty, single_bits, double_bits } => 0 <= ty < fm.types@.len() && (
        fm.types@[ty as int] matches ForeignType::FP(k) && c == Constant::Float(
            float_of(k, single_bits, double_bits),
        )),
        ForeignValue::ConstantStruct { ty, operands } => c matches Constant::Struct {
            name: None,
            values,
            is_packed,
        } && struct_shape(fm, ty as int) == Some((values@.len(), is_packed)) && values@.len()
            <= operands@.len() && all_cached(cc, operands@.subrange(0, values@.len() as int), values@),
        ForeignValue::ConstantArray { ty, operands } => array_converted(c, fm, ty as int, operands@, tc, cc),
        ForeignValue::ConstantDataArray { ty, elements } => array_converted(c, fm, ty as int, elements@, tc, cc),
        ForeignValue::ConstantVector { operands } => c matches Constant::Vector(es) && all_cached(cc, operands@, es@),
        ForeignValue::ConstantDataVector { ty, elements } => 0 <= ty < fm.types@.len() && (
        fm.types@[ty as int] matches ForeignType::Vector { num_elements, .. } && num_elements
            <= elements@.len() && (c matches Constant::Vector(es) && all_cached(
            cc,
            elements@.subrange(0, num_elements as int),
            es@,
        ))),
        ForeignValue::Null { ty } => c matches Constant::Null(t) && cached(tc, ty as int) == Some(t),
        ForeignValue::AggregateZero { ty } => c matches Constant::AggregateZero(t) && cached(tc, ty as int) == Some(t),
        ForeignValue::Undef { ty } => c matches Constant::Undef(t) && cached(tc, ty as int) == Some(t),
        ForeignValue::TokenNone => c == Constant::TokenNone,
        ForeignValue::BlockAddress => c == Constant::BlockAddress,
        ForeignValue::ConstantExpr { opcode, ty, operands, indices, in_bounds, int_predicate, fp_predicate } =>
            expr_converted(c, opcode, ty as int, operands@, indices@, in_bounds, int_predicate, fp_predicate, tc, cc),
        ForeignValue::NotAConstant => false,
    })
}

pub open spec fn array_converted(
    c: Constant,
    fm: &ForeignModule,
    ty: int,
    ops: Seq<usize>,
    tc: Seq<Option<TypeRef>>,
    cc: Seq<Option<ConstantRef>>,
) -> bool {
    0 <= ty < fm.types@.len() && (fm.types@[ty] matches ForeignType::Array { element, num_elements }
        && num_elements <= ops.len() && (c matches Constant::Array { element_type, elements }
        && cached(tc, element as int) == Some(element_type) && all_cached(
        cc,
        ops.subrange(0, num_elements as int),
        elements@,
    )))
}

/// The caches of `b` extend those of `a`: no entry is dropped or changed.
pub open spec fn cache_grows<T>(a: Seq<Option<T>>, b: Seq<Option<T>>) -> bool {
    &&& a.len() == b.len()
    &&& forall|h: int| 0 <= h < a.len() && a[h] is Some ==> #[trigger] b[h] == a[h]
}

/// The name and body of the foreign structure type at handle `h`, if named.
pub open spec fn foreign_named(fm: &ForeignModule, h: int) -> Option<Seq<char>> {
    if 0 <= h < fm.types@.len() {
        match fm.types@[h] {
            ForeignType::Struct { name: Some(n), .. } => Some(n@),
            _ => None,
        }
    } else {
        None
    }
}

/// Operand `op` of the value at handle `h` comes before it and is a constant.
pub open spec fn operand_ok(fm: &ForeignModule, h: int, op: usize) -> bool {
    (op as int) < h && !(fm.values@[op as int] is NotAConstant)
}

/// The first `n` operands of the value at `h` are in order.
pub open spec fn prefix_ok(fm: &ForeignModule, h: int, ops: Seq<usize>, n: int) -> bool {
    n <= ops.len() && forall|k: int| 0 <= k < n ==> operand_ok(fm, h, #[trigger] ops[k])
}

/// The number of operands that an operation takes.
pub open spec fn arity_ok(opcode: Opcode, n: nat) -> bool {
    match opcode {
        Opcode::Trunc | Opcode::ZExt | Opcode::SExt | Opcode::FPTrunc | Opcode::FPExt | Opcode::FPToUI
        | Opcode::FPToSI | Opcode::UIToFP | Opcode::SIToFP | Opcode::PtrToInt | Opcode::IntToPtr
        | Opcode::BitCast | Opcode::AddrSpaceCast => n == 1,
        Opcode::InsertElement | Opcode::ShuffleVector | Opcode::Select => n == 3,
        Opcode::ExtractValue | Opcode::GetElementPtr => n >= 1,
        Opcode::InsertValue => n >= 2,
        Opcode::Other => false,
        _ => n == 2,
    }
}

pub open spec fn type_in_range(fm: &ForeignModule, t: usize) -> bool {
    (t as int) < fm.types@.len()
}

/// The global at `h` is listed among the module's global objects.
pub open spec fn listed(fm: &ForeignModule, h: int) -> bool {
    exists|k: int| 0 <= k < global_order(fm).len() && #[trigger] global_order(fm)[k] as int == h
}

/// The value at `h` is well-formed: its types are in range and of the kind
/// its form needs, and its operands come before it and are constants.
pub open spec fn value_ok(fm: &ForeignModule, h: int) -> bool {
    match fm.values@[h] {
        ForeignValue::Global(g) => type_in_range(fm, g.value_type) && listed(fm, h),
        ForeignValue::ConstantInt { ty, .. } => type_in_range(fm, ty) && fm.types@[ty as int] is Integer,
        ForeignValue::ConstantFP { ty, .. } => type_in_range(fm, ty) && fm.types@[ty as int] is FP,
        ForeignValue::ConstantStruct { ty, operands } => type_in_range(fm, ty) && (
        fm.types@[ty as int] matches ForeignType::Struct { body: Some(elems), .. } && prefix_ok(
            fm,
            h,
            operands@,
            elems@.len() as int,
        )),
        ForeignValue::ConstantArray { ty, operands } => array_ok(fm, h, ty, operands@),
        ForeignValue::ConstantDataArray { ty, elements } => array_ok(fm, h, ty, elements@),
        ForeignValue::ConstantVector { operands } => prefix_ok(fm, h, operands@, operands@.len() as int),
        ForeignValue::ConstantDataVector { ty, elements } => type_in_range(fm, ty) && (
        fm.types@[ty as int] matches ForeignType::Vector { num_elements, .. } && prefix_ok(
            fm,
            h,
            elements@,
            num_elements as int,
        )),
        ForeignValue::Null { ty } => type_in_range(fm, ty),
        ForeignValue::AggregateZero { ty } => type_in_range(fm, ty),
        ForeignValue::Undef { ty } => type_in_range(fm, ty),
        ForeignValue::ConstantExpr { opcode, ty, operands, .. } => arity_ok(opcode, operands@.len())
            && prefix_ok(fm, h, operands@, operands@.len() as int) && type_in_range(fm, ty),
        _ => true,
    }
}

pub open spec fn array_ok(fm: &ForeignModule, h: int, ty: usize, ops: Seq<usize>) -> bool {
    type_in_range(fm, ty) && (fm.types@[ty as int] matches ForeignType::Array { element, num_elements }
        && type_in_range(fm, element) && prefix_ok(fm, h, ops, num_elements as int))
}

/// The type at `h` is well-formed: an unnamed type's parts come before it, a
/// literal structure has a body, and a named structure's fields are in range.
pub open spec fn type_ok(fm: &ForeignModule, h: int) -> bool {
    match fm.types@[h] {
        ForeignType::Function { result, params, .. } => (result as int) < h && forall|k: int|
            0 <= k < params@.len() ==> (#[trigger] params@[k] as int) < h,
        ForeignType::Pointer { pointee, .. } => (pointee as int) < h,
        ForeignType::Vector { element, .. } => (element as int) < h,
        ForeignType::Array { element, .. } => (element as int) < h,
        ForeignType::Struct { name: None, body: Some(elems), .. } => forall|k: int|
            0 <= k < elems@.len() ==> (#[trigger] elems@[k] as int) < h,
        ForeignType::Struct { name: None, body: None, .. } => false,
        ForeignType::Struct { name: Some(_), body: Some(elems), .. } => forall|k: int|
            0 <= k < elems@.len() ==> #[trigger] type_in_range(fm, elems@[k]),
        _ => true,
    }
}

/// No two structure types share a name.
pub open spec fn names_distinct(fm: &ForeignModule) -> bool {
    forall|i: int, j: int|
        0 <= i < fm.types@.len() && 0 <= j < fm.types@.len() && i != j && (#[trigger] foreign_named(fm, i))
            is Some ==> foreign_named(fm, i) != #[trigger] foreign_named(fm, j)
}

/// The listed global objects are globals, each listed once, and the unnamed
/// ones fit the counter.
pub open spec fn globals_ok(fm: &ForeignModule) -> bool {
    &&& forall|k: int|
        0 <= k < global_order(fm).len() ==> (#[trigger] global_order(fm)[k] as int) < fm.values@.len()
            && fm.values@[global_order(fm)[k] as int] is Global
    &&& forall|i: int, j: int|
        0 <= i < j < global_order(fm).len() ==> #[trigger] global_order(fm)[i] != #[trigger] global_order(fm)[j]
    &&& ctr_after_all(explicit_names(fm, global_order(fm)), 0) <= usize::MAX
}

/// A listed variable has a pointer type and, if initialized, a constant initializer.
pub open spec fn var_ok(fm: &ForeignModule, g: usize) -> bool {
    foreign_global(fm, g) matches Some(x) && type_in_range(fm, x.ty) && fm.types@[x.ty as int] is Pointer
        && (x.initializer matches Some(i) ==> (i as int) < fm.values@.len()
        && !(fm.values@[i as int] is NotAConstant))
}

/// A listed alias has a pointer type and a constant aliasee.
pub open spec fn alias_ok(fm: &ForeignModule, g: usize) -> bool {
    foreign_global(fm, g) matches Some(x) && type_in_range(fm, x.ty) && fm.types@[x.ty as int] is Pointer
        && (x.aliasee matches Some(i) && (i as int) < fm.values@.len()
        && !(fm.values@[i as int] is NotAConstant))
}

/// A foreign module that describes well-formed IR, its handles in order:
/// an unnamed type, and a constant, after its parts; only named structures
/// refer ahead.
pub open spec fn well_formed(fm: &ForeignModule) -> bool {
    &&& names_distinct(fm)
    &&& globals_ok(fm)
    &&& forall|h: int| 0 <= h < fm.types@.len() ==> #[trigger] type_ok(fm, h)
    &&& forall|h: int| 0 <= h < fm.values@.len() ==> #[trigger] value_ok(fm, h)
    &&& forall|k: int| 0 <= k < fm.global_vars@.len() ==> #[trigger] var_ok(fm, fm.global_vars@[k])
    &&& forall|k: int| 0 <= k < fm.global_aliases@.len() ==> #[trigger] alias_ok(fm, fm.global_aliases@[k])
}

/// The table entry of the named structure at `h`: opaque when it has no
/// body; once `done`, defined with the conversion of its foreign body.
pub open spec fn body_state(fm: &ForeignModule, types: &Types, tc: Seq<Option<TypeRef>>, h: int, done: bool) -> bool {
    match fm.types@[h] {
        ForeignType::Struct { name: Some(n), body: None, .. } => types.lookup(n@) == Some(NamedStructDef::Opaque),
        ForeignType::Struct { name: Some(n), body: Some(elems), is_packed } => if done {
            types.lookup(n@) matches Some(NamedStructDef::Defined(b)) && types.valid(b) && (
            types.entries@[b.0 as int] matches Type::StructType { element_types, is_packed: p } && p
                == is_packed && all_cached(tc, elems@, element_types@))
        } else {
            types.lookup(n@) == Some(NamedStructDef::Opaque)
        },
        _ => true,
    }
}

/// The table agrees with every converted named structure; those before
/// `done` are defined.
pub open spec fn named_state(fm: &ForeignModule, types: &Types, tc: Seq<Option<TypeRef>>, done: int) -> bool {
    forall|h: int| 0 <= h < tc.len() && (#[trigger] tc[h]) is Some ==> body_state(fm, types, tc, h, h < done)
}

/// Growing the interner keeps the table's agreement with the converted types.
proof fn lemma_named_state_grow(fm: &ForeignModule, t0: &Types, t1: &Types, tc: Seq<Option<TypeRef>>, done: int)
    requires
        tc.len() == fm.types@.len(),
        named_state(fm, t0, tc, done),
        t0.wf(),
        t1.extends(t0),
    ensures
        named_state(fm, t1, tc, done),
{
    assert forall|h: int| 0 <= h < tc.len() && (#[trigger] tc[h]) is Some implies body_state(fm, t1, tc, h, h < done) by {
        assert(body_state(fm, t0, tc, h, h < done));
        if let ForeignType::Struct { name: Some(n), .. } = fm.types@[h] {
            assert(t1.lookup(n@) == t0.lookup(n@));
            if let Some(NamedStructDef::Defined(b)) = t0.lookup(n@) {
                if t0.valid(b) {
                    assert(t1.entries@[b.0 as int] == t0.entries@[b.0 as int]);
                }
            }
        }
    }
}

/// Recording a name that no converted structure holds keeps the agreement.
proof fn lemma_named_state_other(
    fm: &ForeignModule,
    t0: &Types,
    t1: &Types,
    tc: Seq<Option<TypeRef>>,
    done: int,
    n: Seq<char>,
)
    requires
        tc.len() == fm.types@.len(),
        named_state(fm, t0, tc, done),
        t1.entries@ == t0.entries@,
        forall|x: Seq<char>| x != n ==> #[trigger] t1.lookup(x) == t0.lookup(x),
        forall|j: int| 0 <= j < tc.len() && (#[trigger] tc[j]) is Some ==> foreign_named(fm, j) != Some(n),
    ensures
        named_state(fm, t1, tc, done),
{
    assert forall|h: int| 0 <= h < tc.len() && (#[trigger] tc[h]) is Some implies body_state(fm, t1, tc, h, h < done) by {
        assert(body_state(fm, t0, tc, h, h < done));
        if let ForeignType::Struct { name: Some(m), .. } = fm.types@[h] {
            assert(foreign_named(fm, h) == Some(m@));
            assert(t1.lookup(m@) == t0.lookup(m@));
        }
    }
}

/// Caching a type whose own table entry is as the first phase leaves it
/// keeps the agreement.
proof fn lemma_named_state_add(fm: &ForeignModule, types: &Types, tc: Seq<Option<TypeRef>>, h: int, t: TypeRef)
    requires
        tc.len() == fm.types@.len(),
        named_state(fm, types, tc, 0),
        0 <= h < tc.len(),
        body_state(fm, types, tc, h, false),
    ensures
        named_state(fm, types, tc.update(h, Some(t)), 0),
{
    let tc2 = tc.update(h, Some(t));
    assert forall|j: int| 0 <= j < tc2.len() && (#[trigger] tc2[j]) is Some implies body_state(fm, types, tc2, j, j < 0) by {
        if j != h {
            assert(tc[j] is Some);
            assert(body_state(fm, types, tc, j, false));
        }
    }
}

/// Defining the name of structure `k` with the conversion of its body
/// extends the defined part past `k`.
proof fn lemma_named_state_define(
    fm: &ForeignModule,
    t1: &Types,
    t2: &Types,
    tc: Seq<Option<TypeRef>>,
    k: int,
    b: TypeRef,
    es: Seq<TypeRef>,
)
    requires
        named_state(fm, t1, tc, k),
        names_distinct(fm),
        0 <= k < tc.len(),
        tc.len() == fm.types@.len(),
        fm.types@[k] matches ForeignType::Struct { name: Some(n), body: Some(elems), is_packed } && t2.lookup(n@)
            == Some(NamedStructDef::Defined(b)) && (forall|x: Seq<char>| x != n@ ==> #[trigger] t2.lookup(x)
            == t1.lookup(x)) && all_cached(tc, elems@, es) && (t1.entries@[b.0 as int] matches Type::StructType {
            element_types,
            is_packed: p,
        } && p == is_packed && element_types@ == es),
        t2.entries@ == t1.entries@,
        t1.valid(b),
    ensures
        named_state(fm, t2, tc, k + 1),
{
    assert forall|h: int| 0 <= h < tc.len() && (#[trigger] tc[h]) is Some implies body_state(fm, t2, tc, h, h < k + 1) by {
        assert(body_state(fm, t1, tc, h, h < k));
        if h != k {
            if let ForeignType::Struct { name: Some(m), .. } = fm.types@[h] {
                assert(foreign_named(fm, h) == Some(m@));
                assert(foreign_named(fm, k) != foreign_named(fm, h));
                assert(t2.lookup(m@) == t1.lookup(m@));
            }
        }
    }
}

/// A type that is not a named structure with a body needs no definition.
proof fn lemma_named_state_next(fm: &ForeignModule, types: &Types, tc: Seq<Option<TypeRef>>, k: int)
    requires
        tc.len() == fm.types@.len(),
        named_state(fm, types, tc, k),
        0 <= k < fm.types@.len(),
        !(fm.types@[k] matches ForeignType::Struct { name: Some(_), body: Some(_), .. }),
    ensures
        named_state(fm, types, tc, k + 1),
{
    assert forall|h: int| 0 <= h < tc.len() && (#[trigger] tc[h]) is Some implies body_state(fm, types, tc, h, h < k + 1) by {
        assert(body_state(fm, types, tc, h, h < k));
    }
}


/// The explicit name of the global at handle `g`, if it is a global and has one.
pub open spec fn explicit_name(fm: &ForeignModule, g: usize) -> Option<Seq<char>> {
    if (g as int) < fm.values@.len() {
        match fm.values@[g as int] {
            ForeignValue::Global(x) => opt_view(x.name),
            _ => None,
        }
    } else {
        None
    }
}

pub open spec fn explicit_names(fm: &ForeignModule, list: Seq<usize>) -> Seq<Option<Seq<char>>> {
    list.map_values(|g: usize| explicit_name(fm, g))
}

/// Each handle of `list` is a global of the value table.
pub open spec fn listed_globals_ok(fm: &ForeignModule, list: Seq<usize>) -> bool {
    forall|k: int| 0 <= k < list.len() ==> (#[trigger] list[k] as int) < fm.values@.len()
        && fm.values@[list[k] as int] is Global
}

/// Every global-scope handle, in the order in which both passes visit them.
pub open spec fn global_order(fm: &ForeignModule) -> Seq<usize> {
    fm.defined_functions@ + fm.declared_functions@ + fm.global_vars@ + fm.global_aliases@
}

/// The names that the first pass gives, in visiting order.
pub open spec fn pass_one_names(fm: &ForeignModule) -> Seq<NameView> {
    assign_names(explicit_names(fm, global_order(fm)), 0)
}

/// A defined function.
#[derive(Debug)]
pub struct Function {
    pub name: Name,
    /// The function's type (not a pointer to it).
    pub ty: TypeRef,
    pub linkage: Linkage,
    pub visibility: Visibility,
}

#[derive(Debug)]
pub struct GlobalVariable {
    pub name: Name,
    pub linkage: Linkage,
    pub visibility: Visibility,
    pub is_constant: bool,
    /// The variable's own type: a pointer to what it holds.
    pub ty: TypeRef,
    pub addr_space: u32,
    pub dll_storage_class: DLLStorageClass,
    pub thread_local_mode: ThreadLocalMode,
    pub unnamed_addr: Option<UnnamedAddr>,
    pub initializer: Option<ConstantRef>,
    pub section: Option<String>,
    pub comdat: Option<Comdat>,
    pub alignment: u32,
}

#[derive(Debug)]
pub struct GlobalAlias {
    pub name: Name,
    pub aliasee: ConstantRef,
    pub linkage: Linkage,
    pub visibility: Visibility,
    pub ty: TypeRef,
    pub addr_space: u32,
    pub dll_storage_class: DLLStorageClass,
    pub thread_local_mode: ThreadLocalMode,
    pub unnamed_addr: Option<UnnamedAddr>,
}

/// A whole module: its globals, the interner that owns every type and the
/// named-struct table, and the pool that owns every constant. The ghost
/// maps record which foreign handle became which type, constant and name.
pub struct Module {
    pub name: String,
    pub source_file_name: String,
    pub data_layout: String,
    pub target_triple: Option<String>,
    pub functions: Vec<Function>,
    pub global_vars: Vec<GlobalVariable>,
    pub global_aliases: Vec<GlobalAlias>,
    pub types: Types,
    pub constants: ConstantPool,
    pub inline_assembly: String,
    pub type_map: Ghost<Seq<Option<TypeRef>>>,
    pub constant_map: Ghost<Seq<Option<ConstantRef>>>,
    pub name_map: Ghost<Seq<Option<Name>>>,
}

/// The names that the second pass gives: each list numbered in turn, the
/// counter carried from one to the next, starting again from zero.
pub open spec fn pass_two_names(fm: &ForeignModule) -> Seq<NameView> {
    let e1 = explicit_names(fm, fm.defined_functions@);
    let e2 = explicit_names(fm, fm.declared_functions@);
    let e3 = explicit_names(fm, fm.global_vars@);
    let e4 = explicit_names(fm, fm.global_aliases@);
    let c1 = ctr_after_all(e1, 0);
    let c2 = ctr_after_all(e2, c1);
    let c3 = ctr_after_all(e3, c2);
    assign_names(e1, 0) + assign_names(e2, c1) + assign_names(e3, c2) + assign_names(e4, c3)
}

/// Both passes give every global-scope object the same name: numbering the
/// four lists in turn, the counter carried, gives what numbering their
/// concatenation gives.
pub proof fn lemma_name_parity(fm: &ForeignModule)
    ensures
        pass_two_names(fm) == pass_one_names(fm),
{
    let e1 = explicit_names(fm, fm.defined_functions@);
    let e2 = explicit_names(fm, fm.declared_functions@);
    let e3 = explicit_names(fm, fm.global_vars@);
    let e4 = explicit_names(fm, fm.global_aliases@);
    assert(explicit_names(fm, global_order(fm)) =~= e1 + e2 + e3 + e4);
    crate::name::lemma_assign_names_append(e1 + e2 + e3, e4, 0);
    crate::name::lemma_assign_names_append(e1 + e2, e3, 0);
    crate::name::lemma_assign_names_append(e1, e2, 0);
    crate::name::lemma_ctr_after_all_append(e1, e2, 0);
    crate::name::lemma_ctr_after_all_append(e1 + e2, e3, 0);
}

/// No two global-scope objects get one number from the first pass.
pub proof fn lemma_global_numbers_distinct(fm: &ForeignModule, i: int, j: int)
    requires
        0 <= i < j < global_order(fm).len(),
        pass_one_names(fm)[i] is Numbered,
        pass_one_names(fm)[j] is Numbered,
    ensures
        pass_one_names(fm)[i] != pass_one_names(fm)[j],
{
    crate::name::lemma_numbers_distinct(explicit_names(fm, global_order(fm)), 0, i, j);
}

/// The state of one build: the interner, the constant pool, and the caches
/// keyed by foreign handle.
pub struct Builder {
    pub types: Types,
    pub constants: ConstantPool,
    pub type_cache: Vec<Option<TypeRef>>,
    pub constant_cache: Vec<Option<ConstantRef>>,
    pub global_names: Vec<Option<Name>>,
}

fn append_all(dst: &mut Vec<usize>, src: &Vec<usize>)
    ensures
        final(dst)@ == old(dst)@ + src@,
{
    let mut k: usize = 0;
    while k < src.len()
        invariant
            k <= src@.len(),
            dst@ == old(dst)@ + src@.subrange(0, k as int),
        decreases src@.len() - k,
    {
        dst.push(src[k]);
        k += 1;
        assert(dst@ =~= old(dst)@ + src@.subrange(0, k as int));
    }
    assert(src@.subrange(0, k as int) =~= src@);
}

fn clone_comdat(c: &Option<Comdat>) -> (r: Option<Comdat>)
    ensures
        r == *c,
{
    match c {
        Some(x) => Some(Comdat { name: x.name.clone(), selection_kind: x.selection_kind }),
        None => None,
    }
}

fn copy_indices(v: &Vec<u32>) -> (r: Vec<u32>)
    ensures
        r@ == v@,
{
    let mut r: Vec<u32> = Vec::new();
    let mut k: usize = 0;
    while k < v.len()
        invariant
            k <= v@.len(),
            r@ == v@.subrange(0, k as int),
        decreases v@.len() - k,
    {
        r.push(v[k]);
        k += 1;
        assert(r@ =~= v@.subrange(0, k as int));
    }
    assert(v@.subrange(0, k as int) =~= v@);
    r
}

fn clone_opt_string(s: &Option<String>) -> (r: Option<String>)
    ensures
        r == *s,
{
    match s {
        Some(t) => Some(t.clone()),
        None => None,
    }
}

impl Builder {
    pub open spec fn wf(&self, fm: &ForeignModule) -> bool {
        let tc = self.type_cache@;
        let cc = self.constant_cache@;
        let gn = self.global_names@;
        &&& self.types.wf()
        &&& pool_wf(&self.types, self.constants.items@)
        &&& tc.len() == fm.types@.len()
        &&& cc.len() == fm.values@.len()
        &&& gn.len() == fm.values@.len()
        &&& forall|h: int|
            0 <= h < tc.len() && (#[trigger] tc[h]) is Some ==> self.types.valid(tc[h]->Some_0)
                && type_converted(fm.types@[h], self.types.entries@[tc[h]->Some_0.0 as int], tc)
        &&& forall|h: int|
            0 <= h < cc.len() && (#[trigger] cc[h]) is Some ==> self.constants.valid(cc[h]->Some_0)
                && constant_converted(
                self.constants.items@[cc[h]->Some_0.0 as int],
                fm,
                h,
                tc,
                cc,
                gn,
            )
    }

    /// `self` extends `old`: entries, constants and cache entries are kept.
    pub open spec fn grows(&self, old: &Builder) -> bool {
        &&& self.types.keeps_entries(&old.types)
        &&& old.constants.items@.len() <= self.constants.items@.len()
        &&& forall|i: int|
            0 <= i < old.constants.items@.len() ==> #[trigger] self.constants.items@[i]
                == old.constants.items@[i]
        &&& cache_grows(old.type_cache@, self.type_cache@)
        &&& cache_grows(old.constant_cache@, self.constant_cache@)
        &&& self.global_names@ == old.global_names@
    }

    /// A converted constant refers only to pooled constants and interned types.
    proof fn lemma_converted_below(&self, fm: &ForeignModule, c: Constant, h: int)
        requires
            self.wf(fm),
            constant_converted(c, fm, h, self.type_cache@, self.constant_cache@, self.global_names@),
        ensures
            operands_below(c, self.constants.items@.len() as int),
            type_refs_below(c, self.types.entries@.len() as int),
    {
        let cc = self.constant_cache@;
        let n = self.constants.items@.len() as int;
        assert forall|x: int| #[trigger] cached(cc, x) is Some implies (cached(cc, x)->Some_0).0 < n by {
            assert(cc[x] is Some);
        }
        match fm.values@[h] {
            ForeignValue::ConstantExpr { opcode, operands, .. } => {
                if opcode == Opcode::GetElementPtr {
                    if let Constant::GetElementPtr(x) = c {
                        assert forall|k: int| 0 <= k < x.indices@.len() implies 0 <= #[trigger] x.indices@[k].0 < n by {
                            assert(cached(cc, operands@.drop_first()[k] as int) == Some(x.indices@[k]));
                        }
                    }
                }
            },
            ForeignValue::ConstantStruct { operands, .. } => {
                if let Constant::Struct { values, .. } = c {
                    assert forall|k: int| 0 <= k < values@.len() implies 0 <= #[trigger] values@[k].0 < n by {
                        assert(cached(cc, operands@.subrange(0, values@.len() as int)[k] as int) == Some(values@[k]));
                    }
                }
            },
            ForeignValue::ConstantArray { operands, .. } => {
                if let Constant::Array { elements, .. } = c {
                    assert forall|k: int| 0 <= k < elements@.len() implies 0 <= #[trigger] elements@[k].0 < n by {
                        assert(cached(cc, operands@.subrange(0, elements@.len() as int)[k] as int) == Some(elements@[k]));
                    }
                }
            },
            ForeignValue::ConstantDataArray { elements: ops, .. } => {
                if let Constant::Array { elements, .. } = c {
                    assert forall|k: int| 0 <= k < elements@.len() implies 0 <= #[trigger] elements@[k].0 < n by {
                        assert(cached(cc, ops@.subrange(0, elements@.len() as int)[k] as int) == Some(elements@[k]));
                    }
                }
            },
            ForeignValue::ConstantVector { operands } => {
                if let Constant::Vector(es) = c {
                    assert forall|k: int| 0 <= k < es@.len() implies 0 <= #[trigger] es@[k].0 < n by {
                        assert(cached(cc, operands@[k] as int) == Some(es@[k]));
                    }
                }
            },
            ForeignValue::ConstantDataVector { elements: ops, .. } => {
                if let Constant::Vector(es) = c {
                    assert forall|k: int| 0 <= k < es@.len() implies 0 <= #[trigger] es@[k].0 < n by {
                        assert(cached(cc, ops@.subrange(0, es@.len() as int)[k] as int) == Some(es@[k]));
                    }
                }
            },
            _ => {},
        }
    }

    /// Names the globals of `list` in order, the counter running on from `ctr`.
    fn number_globals(
        fm: &ForeignModule,
        list: &Vec<usize>,
        ctr: &mut usize,
    ) -> (r: Result<Vec<Name>, BuildError>)
        ensures
            match r {
                Ok(v) => v@.len() == list@.len() && (forall|k: int| 0 <= k < v@.len() ==> (#[trigger] v@[k])@
                    == assign_names(explicit_names(fm, list@), *old(ctr) as nat)[k])
                    && *final(ctr) as nat == ctr_after_all(explicit_names(fm, list@), *old(ctr) as nat),
                Err(_) => list@.len() > 0,
            },
            r is Ok <==> listed_globals_ok(fm, list@) && ctr_after_all(explicit_names(fm, list@), *old(ctr) as nat)
                <= usize::MAX,
    {
        let ghost start = *ctr as nat;
        let mut v: Vec<Name> = Vec::new();
        let mut k: usize = 0;
        proof {
            assert(explicit_names(fm, list@).subrange(0, 0) =~= Seq::<Option<Seq<char>>>::empty());
        }
        while k < list.len()
            invariant
                k <= list@.len(),
                v@.len() == k,
                forall|j: int| 0 <= j < k ==> (#[trigger] v@[j])@ == assign_names(
                    explicit_names(fm, list@).subrange(0, k as int),
                    start,
                )[j],
                *ctr as nat == ctr_after_all(explicit_names(fm, list@).subrange(0, k as int), start),
                assign_names(explicit_names(fm, list@).subrange(0, k as int), start).len() == k,
                start == *old(ctr) as nat,
                forall|j: int| 0 <= j < k ==> (#[trigger] list@[j] as int) < fm.values@.len()
                    && fm.values@[list@[j] as int] is Global,
            decreases list@.len() - k,
        {
            let g = list[k];
            if g >= fm.values.len() {
                return Err(BuildError::UnknownValue);
            }
            let explicit = match &fm.values[g] {
                ForeignValue::Global(x) => clone_opt_string(&x.name),
                _ => {
                    return Err(BuildError::NotAGlobal);
                },
            };
            let ghost names = explicit_names(fm, list@);
            let ghost pre = names.subrange(0, k as int);
            proof {
                assert(names.subrange(0, k + 1) =~= pre.push(names[k as int]));
                assert(names[k as int] == opt_view(explicit));
                crate::name::lemma_assign_names_push(pre, names[k as int], start);
                crate::name::lemma_ctr_after_all_prefix(names, k + 1, start);
            }
            if explicit.is_none() && *ctr == usize::MAX {
                return Err(BuildError::TooManyGlobals);
            }
            let n = Name::name_or_num(explicit, ctr);
            v.push(n);
            k += 1;
        }
        proof {
            assert(explicit_names(fm, list@).subrange(0, k as int) =~= explicit_names(fm, list@));
        }
        Ok(v)
    }

    /// The first pass: a name for every global-scope object, in the order
    /// defined functions, declared functions, variables, aliases, one counter
    /// for all.
    pub fn name_globals(&mut self, fm: &ForeignModule) -> (r: Result<(), BuildError>)
        requires
            old(self).wf(fm),
            forall|h: int| 0 <= h < fm.values@.len() ==> #[trigger] old(self).global_names@[h] is None,
        ensures
            final(self).types == old(self).types,
            final(self).constants == old(self).constants,
            final(self).type_cache == old(self).type_cache,
            final(self).constant_cache == old(self).constant_cache,
            r is Ok <==> globals_ok(fm),
            r is Ok ==> forall|h: int| 0 <= h < fm.values@.len() && (#[trigger] final(self).global_names@[h]) is Some
                ==> listed(fm, h),
            r is Ok ==> final(self).wf(fm) && forall|k: int|
                0 <= k < global_order(fm).len() ==> ((#[trigger] cached(final(self).global_names@, global_order(fm)[k] as int)) matches Some(n)
                    && n@ == pass_one_names(fm)[k]),
    {
        let mut all: Vec<usize> = Vec::new();
        append_all(&mut all, &fm.defined_functions);
        append_all(&mut all, &fm.declared_functions);
        append_all(&mut all, &fm.global_vars);
        append_all(&mut all, &fm.global_aliases);
        assert(all@ =~= global_order(fm));
        let mut ctr: usize = 0;
        let names = Self::number_globals(fm, &all, &mut ctr)?;
        let mut k: usize = 0;
        while k < all.len()
            invariant
                listed_globals_ok(fm, all@),
                ctr_after_all(explicit_names(fm, all@), 0) <= usize::MAX,
                forall|i: int, j: int| 0 <= i < j < k ==> all@[i] != all@[j],
                self.wf(fm),
                self.types == old(self).types,
                self.constants == old(self).constants,
                self.type_cache == old(self).type_cache,
                self.constant_cache == old(self).constant_cache,
                all@ == global_order(fm),
                names@.len() == all@.len(),
                forall|j: int| 0 <= j < names@.len() ==> (#[trigger] names@[j])@ == pass_one_names(fm)[j],
                k <= all@.len(),
                forall|j: int| 0 <= j < k ==> (#[trigger] cached(self.global_names@, all@[j] as int)) == Some(names@[j]),
                forall|h: int| 0 <= h < fm.values@.len() && (forall|j: int| 0 <= j < k ==> all@[j] != h)
                    ==> #[trigger] self.global_names@[h] is None,
            decreases all@.len() - k,
        {
            let g = all[k];
            if g >= self.global_names.len() {
                return Err(BuildError::UnknownValue);
            }
            if self.global_names[g].is_some() {
                proof {
                    let j = choose|j: int| 0 <= j < k && all@[j] == g;
                    assert(global_order(fm)[j] == global_order(fm)[k as int]);
                }
                return Err(BuildError::DuplicateGlobal);
            }
            let n = names[k].clone();
            let ghost before = self.global_names@;
            proof {
                assert forall|j: int| 0 <= j < k implies all@[j] != g by {
                    assert(cached(before, all@[j] as int) == Some(names@[j]));
                }
            }
            self.global_names.set(g, Some(n));
            proof {
                assert forall|j: int| 0 <= j < k implies (#[trigger] cached(self.global_names@, all@[j] as int)) == Some(names@[j]) by {
                    assert(all@[j] != g);
                    assert(cached(before, all@[j] as int) == Some(names@[j]));
                }
            }
            k += 1;
        }
        assert forall|i: int, j: int|
            0 <= i < j < global_order(fm).len() implies #[trigger] global_order(fm)[i] != #[trigger] global_order(fm)[j] by {
            assert(all@[i] != all@[j]);
        }
        assert forall|h: int| 0 <= h < fm.values@.len() && (#[trigger] self.global_names@[h]) is Some implies listed(
            fm,
            h,
        ) by {
            let j = choose|j: int| 0 <= j < k && all@[j] == h;
            assert(global_order(fm)[j] as int == h);
        }
        Ok(())
    }

    /// A fresh build context for `fm`.
    pub fn new(fm: &ForeignModule) -> (r: Builder)
        ensures
            r.wf(fm),
            r.types.entries@.len() == 0,
            r.constants.items@.len() == 0,
            forall|h: int| 0 <= h < fm.types@.len() ==> #[trigger] r.type_cache@[h] is None,
            forall|h: int| 0 <= h < fm.values@.len() ==> #[trigger] r.constant_cache@[h] is None,
            forall|h: int| 0 <= h < fm.values@.len() ==> #[trigger] r.global_names@[h] is None,
    {
        let mut type_cache: Vec<Option<TypeRef>> = Vec::new();
        let mut k: usize = 0;
        while k < fm.types.len()
            invariant
                k <= fm.types@.len(),
                type_cache@.len() == k,
                forall|h: int| 0 <= h < k ==> #[trigger] type_cache@[h] is None,
            decreases fm.types@.len() - k,
        {
            type_cache.push(None);
            k += 1;
        }
        let mut constant_cache: Vec<Option<ConstantRef>> = Vec::new();
        let mut global_names: Vec<Option<Name>> = Vec::new();
        let mut k: usize = 0;
        while k < fm.values.len()
            invariant
                k <= fm.values@.len(),
                constant_cache@.len() == k,
                global_names@.len() == k,
                forall|h: int| 0 <= h < k ==> #[trigger] constant_cache@[h] is None,
                forall|h: int| 0 <= h < k ==> #[trigger] global_names@[h] is None,
            decreases fm.values@.len() - k,
        {
            constant_cache.push(None);
            global_names.push(None);
            k += 1;
        }
        Builder { types: Types::new(), constants: ConstantPool::new(), type_cache, constant_cache, global_names }
    }

    /// Records `t` as the conversion of foreign type `h`.
    fn cache_type(&mut self, fm: &ForeignModule, h: usize, t: TypeRef)
        requires
            h < fm.types@.len(),
            old(self).types.valid(t),
            old(self).wf(fm),
            old(self).type_cache@[h as int] is None,
            type_converted(
                fm.types@[h as int],
                old(self).types.entries@[t.0 as int],
                old(self).type_cache@.update(h as int, Some(t)),
            ),
        ensures
            final(self).wf(fm),
            final(self).grows(old(self)),
            final(self).types == old(self).types,
            final(self).constants == old(self).constants,
            final(self).constant_cache == old(self).constant_cache,
            final(self).global_names == old(self).global_names,
            final(self).type_cache@ == old(self).type_cache@.update(h as int, Some(t)),
    {
        self.type_cache.set(h, Some(t));
    }

    /// The cached conversion of foreign type `t`: every type is converted
    /// before any constant is.
    pub fn type_of(&self, fm: &ForeignModule, t: usize) -> (r: Result<TypeRef, BuildError>)
        requires
            self.wf(fm),
        ensures
            match r {
                Ok(x) => cached(self.type_cache@, t as int) == Some(x) && self.types.valid(x),
                Err(e) => e == BuildError::UnknownType && cached(self.type_cache@, t as int) is None,
            },
    {
        if t >= self.type_cache.len() {
            return Err(BuildError::UnknownType);
        }
        match self.type_cache[t] {
            Some(x) => Ok(x),
            None => Err(BuildError::UnknownType),
        }
    }

    /// The conversion of type `sub`, a part of the unnamed type `h`.
    fn prior_type(&self, fm: &ForeignModule, h: usize, sub: usize) -> (r: Result<TypeRef, BuildError>)
        requires
            self.wf(fm),
            h <= fm.types@.len(),
            forall|j: int| 0 <= j < h ==> (#[trigger] self.type_cache@[j]) is Some,
        ensures
            match r {
                Ok(x) => cached(self.type_cache@, sub as int) == Some(x) && self.types.valid(x),
                Err(_) => sub >= h,
            },
    {
        if sub >= h {
            return Err(BuildError::OutOfOrder);
        }
        self.type_of(fm, sub)
    }

    /// The conversions of the types `hs`, each below `h`.
    fn prior_types(&self, fm: &ForeignModule, h: usize, hs: &Vec<usize>) -> (r: Result<Vec<TypeRef>, BuildError>)
        requires
            self.wf(fm),
            h <= fm.types@.len(),
            forall|j: int| 0 <= j < h ==> (#[trigger] self.type_cache@[j]) is Some,
        ensures
            match r {
                Ok(v) => all_cached(self.type_cache@, hs@, v@) && forall|k: int|
                    0 <= k < v@.len() ==> self.types.valid(#[trigger] v@[k]),
                Err(_) => exists|k: int| 0 <= k < hs@.len() && #[trigger] hs@[k] >= h,
            },
    {
        let mut v: Vec<TypeRef> = Vec::new();
        let mut k: usize = 0;
        while k < hs.len()
            invariant
                self.wf(fm),
                h <= fm.types@.len(),
                forall|j: int| 0 <= j < h ==> (#[trigger] self.type_cache@[j]) is Some,
                k <= hs@.len(),
                all_cached(self.type_cache@, hs@.subrange(0, k as int), v@),
                forall|j: int| 0 <= j < v@.len() ==> self.types.valid(#[trigger] v@[j]),
            decreases hs@.len() - k,
        {
            let t = match self.prior_type(fm, h, hs[k]) {
                Ok(t) => t,
                Err(e) => {
                    return Err(e);
                },
            };
            v.push(t);
            k += 1;
            assert(hs@.subrange(0, k as int) =~= hs@.subrange(0, k - 1).push(hs@[k - 1]));
        }
        assert(hs@.subrange(0, k as int) =~= hs@);
        Ok(v)
    }

    /// The conversions of the types `hs`, all of them converted already.
    fn cached_types(&self, fm: &ForeignModule, hs: &Vec<usize>) -> (r: Result<Vec<TypeRef>, BuildError>)
        requires
            self.wf(fm),
        ensures
            match r {
                Ok(v) => all_cached(self.type_cache@, hs@, v@) && forall|k: int|
                    0 <= k < v@.len() ==> self.types.valid(#[trigger] v@[k]),
                Err(_) => exists|k: int| 0 <= k < hs@.len() && cached(self.type_cache@, #[trigger] hs@[k] as int) is None,
            },
    {
        let mut v: Vec<TypeRef> = Vec::new();
        let mut k: usize = 0;
        while k < hs.len()
            invariant
                self.wf(fm),
                k <= hs@.len(),
                all_cached(self.type_cache@, hs@.subrange(0, k as int), v@),
                forall|j: int| 0 <= j < v@.len() ==> self.types.valid(#[trigger] v@[j]),
            decreases hs@.len() - k,
        {
            let t = match self.type_of(fm, hs[k]) {
                Ok(t) => t,
                Err(e) => {
                    return Err(e);
                },
            };
            v.push(t);
            k += 1;
            assert(hs@.subrange(0, k as int) =~= hs@.subrange(0, k - 1).push(hs@[k - 1]));
        }
        assert(hs@.subrange(0, k as int) =~= hs@);
        Ok(v)
    }

    /// The interned form of foreign type `h`, whose unnamed parts are all
    /// converted; a named structure is entered in the table as opaque.
    #[verifier::rlimit(100)]
    #[verifier::spinoff_prover]
    fn shape_type(&mut self, fm: &ForeignModule, h: usize) -> (r: Result<TypeRef, BuildError>)
        requires
            old(self).wf(fm),
            names_distinct(fm),
            h < fm.types@.len(),
            forall|j: int| 0 <= j < h ==> (#[trigger] old(self).type_cache@[j]) is Some,
            forall|j: int| h <= j < fm.types@.len() ==> (#[trigger] old(self).type_cache@[j]) is None,
            named_state(fm, &old(self).types, old(self).type_cache@, 0),
        ensures
            final(self).wf(fm),
            final(self).types.keeps_entries(&old(self).types),
            final(self).constants == old(self).constants,
            final(self).constant_cache == old(self).constant_cache,
            final(self).type_cache == old(self).type_cache,
            final(self).global_names == old(self).global_names,
            match r {
                Ok(t) => final(self).types.valid(t) && type_converted(
                    fm.types@[h as int],
                    final(self).types.entries@[t.0 as int],
                    old(self).type_cache@.update(h as int, Some(t)),
                ) && named_state(fm, &final(self).types, old(self).type_cache@.update(h as int, Some(t)), 0),
                Err(_) => !type_ok(fm, h as int),
            },
    {
        let ghost t0 = self.types;
        let ghost tc = self.type_cache@;
        let r = match &fm.types[h] {
            ForeignType::Void => Ok(self.types.void_type()),
            ForeignType::Integer { bits } => Ok(self.types.int_type(*bits)),
            ForeignType::FP(k) => Ok(self.types.fp(*k)),
            ForeignType::Label => Ok(self.types.label_type()),
            ForeignType::Metadata => Ok(self.types.metadata_type()),
            ForeignType::Token => Ok(self.types.token_type()),
            ForeignType::Pointer { pointee, addr_space } => match self.prior_type(fm, h, *pointee) {
                Ok(p) => Ok(self.types.pointer_in(p, *addr_space)),
                Err(e) => Err(e),
            },
            ForeignType::Vector { element, num_elements } => match self.prior_type(fm, h, *element) {
                Ok(e) => Ok(self.types.vector_of(e, *num_elements)),
                Err(e) => Err(e),
            },
            ForeignType::Array { element, num_elements } => match self.prior_type(fm, h, *element) {
                Ok(e) => Ok(self.types.array_of(e, *num_elements)),
                Err(e) => Err(e),
            },
            ForeignType::Function { result, params, is_var_arg } => match self.prior_type(fm, h, *result) {
                Ok(rt) => match self.prior_types(fm, h, params) {
                    Ok(ps) => Ok(self.types.func_type(rt, ps, *is_var_arg)),
                    Err(e) => Err(e),
                },
                Err(e) => Err(e),
            },
            ForeignType::Struct { name: None, body: Some(elems), is_packed } => match self.prior_types(fm, h, elems) {
                Ok(es) => Ok(self.types.struct_of(es, *is_packed)),
                Err(e) => Err(e),
            },
            ForeignType::Struct { name: None, body: None, .. } => Err(BuildError::UnexpectedType),
            ForeignType::Struct { name: Some(n), .. } => {
                proof {
                    assert(foreign_named(fm, h as int) == Some(n@));
                    assert forall|j: int| 0 <= j < tc.len() && (#[trigger] tc[j]) is Some implies foreign_named(fm, j)
                        != Some(n@) by {
                        assert(j != h);
                        assert(foreign_named(fm, h as int) != foreign_named(fm, j));
                    }
                }
                self.types.set_named_struct_def(n.clone(), NamedStructDef::Opaque);
                let ghost t1 = self.types;
                proof {
                    lemma_named_state_other(fm, &t0, &t1, tc, 0, n@);
                }
                let t = self.types.named_struct(n.clone());
                proof {
                    lemma_named_state_grow(fm, &t1, &self.types, tc, 0);
                }
                Ok(t)
            },
        };
        if let Ok(t) = r {
            proof {
                if !(fm.types@[h as int] matches ForeignType::Struct { name: Some(_), .. }) {
                    lemma_named_state_grow(fm, &t0, &self.types, tc, 0);
                }
                lemma_named_state_add(fm, &self.types, tc, h as int, t);
            }
        }
        r
    }

    /// The first phase of conversion: every foreign type, in handle order,
    /// named structures entered as opaque before any body is converted; then
    /// every named structure's body, defining its name.
    pub fn convert_types(&mut self, fm: &ForeignModule) -> (r: Result<(), BuildError>)
        requires
            old(self).wf(fm),
            names_distinct(fm),
            forall|j: int| 0 <= j < fm.types@.len() ==> (#[trigger] old(self).type_cache@[j]) is None,
        ensures
            final(self).wf(fm),
            final(self).constants == old(self).constants,
            final(self).constant_cache == old(self).constant_cache,
            final(self).global_names == old(self).global_names,
            r is Ok ==> final(self).types_done(fm) && named_state(fm, &final(self).types, final(self).type_cache@, fm.types@.len() as int),
            (forall|h: int| 0 <= h < fm.types@.len() ==> #[trigger] type_ok(fm, h)) ==> r is Ok,
    {
        let mut h: usize = 0;
        while h < fm.types.len()
            invariant
                self.wf(fm),
                names_distinct(fm),
                h <= fm.types@.len(),
                forall|j: int| 0 <= j < h ==> (#[trigger] self.type_cache@[j]) is Some,
                forall|j: int| h <= j < fm.types@.len() ==> (#[trigger] self.type_cache@[j]) is None,
                named_state(fm, &self.types, self.type_cache@, 0),
                self.constants == old(self).constants,
                self.constant_cache == old(self).constant_cache,
                self.global_names == old(self).global_names,
            decreases fm.types@.len() - h,
        {
            let t = match self.shape_type(fm, h) {
                Ok(t) => t,
                Err(e) => {
                    proof {
                        assert(!type_ok(fm, h as int));
                    }
                    return Err(e);
                },
            };
            self.cache_type(fm, h, t);
            h += 1;
        }
        let mut k: usize = 0;
        while k < fm.types.len()
            invariant
                self.wf(fm),
                names_distinct(fm),
                k <= fm.types@.len(),
                self.types_done(fm),
                named_state(fm, &self.types, self.type_cache@, k as int),
                self.constants == old(self).constants,
                self.constant_cache == old(self).constant_cache,
                self.global_names == old(self).global_names,
            decreases fm.types@.len() - k,
        {
            if let ForeignType::Struct { name: Some(n), body: Some(elems), is_packed } = &fm.types[k] {
                let es = match self.cached_types(fm, elems) {
                    Ok(es) => es,
                    Err(e) => {
                        proof {
                            let j = choose|j: int| 0 <= j < elems@.len() && cached(self.type_cache@, #[trigger] elems@[j] as int) is None;
                            if type_in_range(fm, elems@[j]) {
                                assert(self.type_cache@[elems@[j] as int] is Some);
                            }
                            assert(!type_ok(fm, k as int));
                        }
                        return Err(e);
                    },
                };
                let ghost t0 = self.types;
                let ghost es_view = es@;
                let b = self.types.struct_of(es, *is_packed);
                let ghost t1 = self.types;
                proof {
                    lemma_named_state_grow(fm, &t0, &t1, self.type_cache@, k as int);
                }
                self.types.set_named_struct_def(n.clone(), NamedStructDef::Defined(b));
                proof {
                    lemma_named_state_define(fm, &t1, &self.types, self.type_cache@, k as int, b, es_view);
                }
            } else {
                proof {
                    lemma_named_state_next(fm, &self.types, self.type_cache@, k as int);
                }
            }
            k += 1;
        }
        Ok(())
    }

    pub open spec fn types_done(&self, fm: &ForeignModule) -> bool {
        forall|t: int| 0 <= t < fm.types@.len() ==> (#[trigger] self.type_cache@[t]) is Some
    }

    /// Every constant value before `h` is converted.
    pub open spec fn constants_ready(&self, fm: &ForeignModule, h: int) -> bool {
        forall|j: int|
            0 <= j < h && !(fm.values@[j] is NotAConstant) ==> (#[trigger] self.constant_cache@[j]) is Some
    }

    /// Every listed global has its first-pass name.
    pub open spec fn names_done(&self, fm: &ForeignModule) -> bool {
        forall|k: int|
            0 <= k < global_order(fm).len() ==> (#[trigger] cached(self.global_names@, global_order(fm)[k] as int)) is Some
    }

    /// Records `c` as the conversion of foreign value `h`.
    fn cache_constant(&mut self, fm: &ForeignModule, h: usize, c: Constant) -> (r: ConstantRef)
        requires
            old(self).wf(fm),
            h < fm.values@.len(),
            old(self).constant_cache@[h as int] is None,
            constant_converted(c, fm, h as int, old(self).type_cache@, old(self).constant_cache@, old(self).global_names@),
            operands_below(c, old(self).constants.items@.len() as int),
            type_refs_below(c, old(self).types.entries@.len() as int),
        ensures
            final(self).wf(fm),
            final(self).grows(old(self)),
            final(self).types == old(self).types,
            final(self).type_cache == old(self).type_cache,
            final(self).global_names == old(self).global_names,
            final(self).constant_cache@ == old(self).constant_cache@.update(h as int, Some(r)),
    {
        let r = self.constants.push(c);
        self.constant_cache.set(h, Some(r));
        r
    }

    /// The pooled conversion of foreign value `h`: the one handle recorded
    /// for it, the same each time it is asked for.
    pub fn constant_of(&self, fm: &ForeignModule, h: usize) -> (r: Result<ConstantRef, BuildError>)
        requires
            self.wf(fm),
        ensures
            match r {
                Ok(c) => cached(self.constant_cache@, h as int) == Some(c),
                Err(e) => cached(self.constant_cache@, h as int) is None && e == if h < fm.values@.len() {
                    BuildError::NotAConstant
                } else {
                    BuildError::UnknownValue
                },
            },
    {
        if h >= self.constant_cache.len() {
            return Err(BuildError::UnknownValue);
        }
        match self.constant_cache[h] {
            Some(c) => Ok(c),
            None => Err(BuildError::NotAConstant),
        }
    }

    /// The conversion of operand `op` of the value at `h`.
    fn operand(&self, fm: &ForeignModule, h: usize, op: usize) -> (r: Result<ConstantRef, BuildError>)
        requires
            self.wf(fm),
            h <= fm.values@.len(),
        ensures
            match r {
                Ok(c) => cached(self.constant_cache@, op as int) == Some(c),
                Err(_) => !(operand_ok(fm, h as int, op) && self.constants_ready(fm, h as int)),
            },
    {
        if op >= h {
            return Err(BuildError::OutOfOrder);
        }
        self.constant_of(fm, op)
    }

    /// The conversions of operands `hs[from..to]` of the value at `h`.
    fn constants_of(
        &self,
        fm: &ForeignModule,
        h: usize,
        hs: &Vec<usize>,
        from: usize,
        to: usize,
    ) -> (r: Result<Vec<ConstantRef>, BuildError>)
        requires
            self.wf(fm),
            h <= fm.values@.len(),
            from <= to <= hs@.len(),
        ensures
            match r {
                Ok(v) => all_cached(self.constant_cache@, hs@.subrange(from as int, to as int), v@),
                Err(_) => !(self.constants_ready(fm, h as int) && forall|k: int|
                    from <= k < to ==> operand_ok(fm, h as int, #[trigger] hs@[k])),
            },
    {
        let mut v: Vec<ConstantRef> = Vec::new();
        let mut k: usize = from;
        while k < to
            invariant
                self.wf(fm),
                h <= fm.values@.len(),
                from <= k <= to,
                to <= hs@.len(),
                all_cached(self.constant_cache@, hs@.subrange(from as int, k as int), v@),
            decreases to - k,
        {
            let c = match self.operand(fm, h, hs[k]) {
                Ok(c) => c,
                Err(e) => {
                    return Err(e);
                },
            };
            v.push(c);
            k += 1;
            assert(hs@.subrange(from as int, k as int) =~= hs@.subrange(from as int, k - 1).push(hs@[k - 1]));
        }
        Ok(v)
    }

    /// The elements of an array literal of foreign type `ty`.
    fn array_constant(&self, fm: &ForeignModule, h: usize, ty: usize, ops: &Vec<usize>) -> (r: Result<Constant, BuildError>)
        requires
            self.wf(fm),
            h <= fm.values@.len(),
        ensures
            match r {
                Ok(c) => array_converted(c, fm, ty as int, ops@, self.type_cache@, self.constant_cache@),
                Err(_) => !(array_ok(fm, h as int, ty, ops@) && self.constants_ready(fm, h as int) && self.types_done(fm)),
            },
    {
        if ty >= fm.types.len() {
            return Err(BuildError::UnknownType);
        }
        match &fm.types[ty] {
            ForeignType::Array { element, num_elements } => {
                if *num_elements > ops.len() {
                    return Err(BuildError::OperandCount);
                }
                let t = self.type_of(fm, *element)?;
                let es = self.constants_of(fm, h, ops, 0, *num_elements)?;
                Ok(Constant::Array { element_type: t, elements: es })
            },
            _ => Err(BuildError::UnexpectedType),
        }
    }

    /// The conversion of a foreign constant expression at `h`.
    fn expr_of(
        &self,
        fm: &ForeignModule,
        h: usize,
        opcode: Opcode,
        ty: usize,
        operands: &Vec<usize>,
        indices: &Vec<u32>,
        in_bounds: bool,
        int_predicate: IntPredicate,
        fp_predicate: FPPredicate,
    ) -> (r: Result<Constant, BuildError>)
        requires
            self.wf(fm),
            h <= fm.values@.len(),
        ensures
            match r {
                Ok(c) => expr_converted(c, opcode, ty as int, operands@, indices@, in_bounds, int_predicate, fp_predicate,
                    self.type_cache@, self.constant_cache@),
                Err(_) => !(arity_ok(opcode, operands@.len()) && prefix_ok(fm, h as int, operands@, operands@.len() as int)
                    && type_in_range(fm, ty) && self.constants_ready(fm, h as int) && self.types_done(fm)),
            },
    {
        match opcode {
            Opcode::Add => {
                if operands.len() != 2 {
                    return Err(BuildError::OperandCount);
                }
                let a = self.operand(fm, h, operands[0])?;
                let b = self.operand(fm, h, operands[1])?;
                Ok(Constant::Add(crate::constant::Add { operand0: a, operand1: b }))
            },
            Opcode::Sub => {
                if operands.len() != 2 {
                    return Err(BuildError::OperandCount);
                }
                let a = self.operand(fm, h, operands[0])?;
                let b = self.operand(fm, h, operands[1])?;
                Ok(Constant::Sub(crate::constant::Sub { operand0: a, operand1: b }))
            },
            Opcode::Mul => {
                if operands.len() != 2 {
                    return Err(BuildError::OperandCount);
                }
                let a = self.operand(fm, h, operands[0])?;
                let b = self.operand(fm, h, operands[1])?;
                Ok(Constant::Mul(crate::constant::Mul { operand0: a, operand1: b }))
            },
            Opcode::UDiv => {
                if operands.len() != 2 {
                    return Err(BuildError::OperandCount);
                }
                let a = self.operand(fm, h, operands[0])?;
                let b = self.operand(fm, h, operands[1])?;
                Ok(Constant::UDiv(crate::constant::UDiv { operand0: a, operand1: b }))
            },
            Opcode::SDiv => {
                if operands.len() != 2 {
                    return Err(BuildError::OperandCount);
                }
                let a = self.operand(fm, h, operands[0])?;
                let b = self.operand(fm, h, operands[1])?;
                Ok(Constant::SDiv(crate::constant::SDiv { operand0: a, operand1: b }))
            },
            Opcode::URem => {
                if operands.len() != 2 {
                    return Err(BuildError::OperandCount);
                }
                let a = self.operand(fm, h, operands[0])?;
                let b = self.operand(fm, h, operands[1])?;
                Ok(Constant::URem(crate::constant::URem { operand0: a, operand1: b }))
            },
            Opcode::SRem => {
                if operands.len() != 2 {
                    return Err(BuildError::OperandCount);
                }
                let a = self.operand(fm, h, operands[0])?;
                let b = self.operand(fm, h, operands[1])?;
                Ok(Constant::SRem(crate::constant::SRem { operand0: a, operand1: b }))
            },
            Opcode::And => {
                if operands.len() != 2 {
                    return Err(BuildError::OperandCount);
                }
                let a = self.operand(fm, h, operands[0])?;
                let b = self.operand(fm, h, operands[1])?;
                Ok(Constant::And(crate::constant::And { operand0: a, operand1: b }))
            },
            Opcode::Or => {
                if operands.len() != 2 {
                    return Err(BuildError::OperandCount);
                }
                let a = self.operand(fm, h, operands[0])?;
                let b = self.operand(fm, h, operands[1])?;
                Ok(Constant::Or(crate::constant::Or { operand0: a, operand1: b }))
            },
            Opcode::Xor => {
                if operands.len() != 2 {
                    return Err(BuildError::OperandCount);
                }
                let a = self.operand(fm, h, operands[0])?;
                let b = self.operand(fm, h, operands[1])?;
                Ok(Constant::Xor(crate::constant::Xor { operand0: a, operand1: b }))
            },
            Opcode::FAdd => {
                if operands.len() != 2 {
                    return Err(BuildError::OperandCount);
                }
                let a = self.operand(fm, h, operands[0])?;
                let b = self.operand(fm, h, operands[1])?;
                Ok(Constant::FAdd(crate::constant::FAdd { operand0: a, operand1: b }))
            },
            Opcode::FSub => {
                if operands.len() != 2 {
                    return Err(BuildError::OperandCount);
                }
                let a = self.operand(fm, h, operands[0])?;
                let b = self.operand(fm, h, operands[1])?;
                Ok(Constant::FSub(crate::constant::FSub { operand0: a, operand1: b }))
            },
            Opcode::FMul => {
                if operands.len() != 2 {
                    return Err(BuildError::OperandCount);
                }
                let a = self.operand(fm, h, operands[0])?;
                let b = self.operand(fm, h, operands[1])?;
                Ok(Constant::FMul(crate::constant::FMul { operand0: a, operand1: b }))
            },
            Opcode::FDiv => {
                if operands.len() != 2 {
                    return Err(BuildError::OperandCount);
                }
                let a = self.operand(fm, h, operands[0])?;
                let b = self.operand(fm, h, operands[1])?;
                Ok(Constant::FDiv(crate::constant::FDiv { operand0: a, operand1: b }))
            },
            Opcode::FRem => {
                if operands.len() != 2 {
                    return Err(BuildError::OperandCount);
                }
                let a = self.operand(fm, h, operands[0])?;
                let b = self.operand(fm, h, operands[1])?;
                Ok(Constant::FRem(crate::constant::FRem { operand0: a, operand1: b }))
            },
            Opcode::Shl => {
                if operands.len() != 2 {
                    return Err(BuildError::OperandCount);
                }
                let a = self.operand(fm, h, operands[0])?;
                let b = self.operand(fm, h, operands[1])?;
                Ok(Constant::Shl(crate::constant::Shl { operand0: a, operand1: b }))
            },
            Opcode::LShr => {
                if operands.len() != 2 {
                    return Err(BuildError::OperandCount);
                }
                let a = self.operand(fm, h, operands[0])?;
                let b = self.operand(fm, h, operands[1])?;
                Ok(Constant::LShr(crate::constant::LShr { operand0: a, operand1: b }))
            },
            Opcode::AShr => {
                if operands.len() != 2 {
                    return Err(BuildError::OperandCount);
                }
                let a = self.operand(fm, h, operands[0])?;
                let b = self.operand(fm, h, operands[1])?;
                Ok(Constant::AShr(crate::constant::AShr { operand0: a, operand1: b }))
            },
            Opcode::Trunc => {
                if operands.len() != 1 {
                    return Err(BuildError::OperandCount);
                }
                let a = self.operand(fm, h, operands[0])?;
                let t = self.type_of(fm, ty)?;
                Ok(Constant::Trunc(crate::constant::Trunc { operand: a, to_type: t }))
            },
            Opcode::ZExt => {
                if operands.len() != 1 {
                    return Err(BuildError::OperandCount);
                }
                let a = self.operand(fm, h, operands[0])?;
                let t = self.type_of(fm, ty)?;
                Ok(Constant::ZExt(crate::constant::ZExt { operand: a, to_type: t }))
            },
            Opcode::SExt => {
                if operands.len() != 1 {
                    return Err(BuildError::OperandCount);
                }
                let a = self.operand(fm, h, operands[0])?;
                let t = self.type_of(fm, ty)?;
                Ok(Constant::SExt(crate::constant::SExt { operand: a, to_type: t }))
            },
            Opcode::FPTrunc => {
                if operands.len() != 1 {
                    return Err(BuildError::OperandCount);
                }
                let a = self.operand(fm, h, operands[0])?;
                let t = self.type_of(fm, ty)?;
                Ok(Constant::FPTrunc(crate::constant::FPTrunc { operand: a, to_type: t }))
            },
            Opcode::FPExt => {
                if operands.len() != 1 {
                    return Err(BuildError::OperandCount);
                }
                let a = self.operand(fm, h, operands[0])?;
                let t = self.type_of(fm, ty)?;
                Ok(Constant::FPExt(crate::constant::FPExt { operand: a, to_type: t }))
            },
            Opcode::FPToUI => {
                if operands.len() != 1 {
                    return Err(BuildError::OperandCount);
                }
                let a = self.operand(fm, h, operands[0])?;
                let t = self.type_of(fm, ty)?;
                Ok(Constant::FPToUI(crate::constant::FPToUI { operand: a, to_type: t }))
            },
            Opcode::FPToSI => {
                if operands.len() != 1 {
                    return Err(BuildError::OperandCount);
                }
                let a = self.operand(fm, h, operands[0])?;
                let t = self.type_of(fm, ty)?;
                Ok(Constant::FPToSI(crate::constant::FPToSI { operand: a, to_type: t }))
            },
            Opcode::UIToFP => {
                if operands.len() != 1 {
                    return Err(BuildError::OperandCount);
                }
                let a = self.operand(fm, h, operands[0])?;
                let t = self.type_of(fm, ty)?;
                Ok(Constant::UIToFP(crate::constant::UIToFP { operand: a, to_type: t }))
            },
            Opcode::SIToFP => {
                if operands.len() != 1 {
                    return Err(BuildError::OperandCount);
                }
                let a = self.operand(fm, h, operands[0])?;
                let t = self.type_of(fm, ty)?;
                Ok(Constant::SIToFP(crate::constant::SIToFP { operand: a, to_type: t }))
            },
            Opcode::PtrToInt => {
                if operands.len() != 1 {
                    return Err(BuildError::OperandCount);
                }
                let a = self.operand(fm, h, operands[0])?;
                let t = self.type_of(fm, ty)?;
                Ok(Constant::PtrToInt(crate::constant::PtrToInt { operand: a, to_type: t }))
            },
            Opcode::IntToPtr => {
                if operands.len() != 1 {
                    return Err(BuildError::OperandCount);
                }
                let a = self.operand(fm, h, operands[0])?;
                let t = self.type_of(fm, ty)?;
                Ok(Constant::IntToPtr(crate::constant::IntToPtr { operand: a, to_type: t }))
            },
            Opcode::BitCast => {
                if operands.len() != 1 {
                    return Err(BuildError::OperandCount);
                }
                let a = self.operand(fm, h, operands[0])?;
                let t = self.type_of(fm, ty)?;
                Ok(Constant::BitCast(crate::constant::BitCast { operand: a, to_type: t }))
            },
            Opcode::AddrSpaceCast => {
                if operands.len() != 1 {
                    return Err(BuildError::OperandCount);
                }
                let a = self.operand(fm, h, operands[0])?;
                let t = self.type_of(fm, ty)?;
                Ok(Constant::AddrSpaceCast(crate::constant::AddrSpaceCast { operand: a, to_type: t }))
            },
            Opcode::ExtractElement => {
                if operands.len() != 2 {
                    return Err(BuildError::OperandCount);
                }
                let a = self.operand(fm, h, operands[0])?;
                let b = self.operand(fm, h, operands[1])?;
                Ok(Constant::ExtractElement(crate::constant::ExtractElement { vector: a, index: b }))
            },
            Opcode::InsertElement => {
                if operands.len() != 3 {
                    return Err(BuildError::OperandCount);
                }
                let a = self.operand(fm, h, operands[0])?;
                let b = self.operand(fm, h, operands[1])?;
                let c = self.operand(fm, h, operands[2])?;
                Ok(Constant::InsertElement(crate::constant::InsertElement { vector: a, element: b, index: c }))
            },
            Opcode::ShuffleVector => {
                if operands.len() != 3 {
                    return Err(BuildError::OperandCount);
                }
                let a = self.operand(fm, h, operands[0])?;
                let b = self.operand(fm, h, operands[1])?;
                let c = self.operand(fm, h, operands[2])?;
                Ok(Constant::ShuffleVector(crate::constant::ShuffleVector { operand0: a, operand1: b, mask: c }))
            },
            Opcode::ExtractValue => {
                if operands.len() < 1 {
                    return Err(BuildError::OperandCount);
                }
                let a = self.operand(fm, h, operands[0])?;
                Ok(Constant::ExtractValue(crate::constant::ExtractValue { aggregate: a, indices: copy_indices(indices) }))
            },
            Opcode::InsertValue => {
                if operands.len() < 2 {
                    return Err(BuildError::OperandCount);
                }
                let a = self.operand(fm, h, operands[0])?;
                let b = self.operand(fm, h, operands[1])?;
                Ok(Constant::InsertValue(crate::constant::InsertValue { aggregate: a, element: b, indices: copy_indices(indices) }))
            },
            Opcode::GetElementPtr => {
                if operands.len() < 1 {
                    return Err(BuildError::OperandCount);
                }
                let a = self.operand(fm, h, operands[0])?;
                let idx = self.constants_of(fm, h, operands, 1, operands.len())?;
                Ok(Constant::GetElementPtr(crate::constant::GetElementPtr { address: a, indices: idx, in_bounds }))
            },
            Opcode::ICmp => {
                if operands.len() != 2 {
                    return Err(BuildError::OperandCount);
                }
                let a = self.operand(fm, h, operands[0])?;
                let b = self.operand(fm, h, operands[1])?;
                Ok(Constant::ICmp(crate::constant::ICmp { predicate: int_predicate, operand0: a, operand1: b }))
            },
            Opcode::FCmp => {
                if operands.len() != 2 {
                    return Err(BuildError::OperandCount);
                }
                let a = self.operand(fm, h, operands[0])?;
                let b = self.operand(fm, h, operands[1])?;
                Ok(Constant::FCmp(crate::constant::FCmp { predicate: fp_predicate, operand0: a, operand1: b }))
            },
            Opcode::Select => {
                if operands.len() != 3 {
                    return Err(BuildError::OperandCount);
                }
                let a = self.operand(fm, h, operands[0])?;
                let b = self.operand(fm, h, operands[1])?;
                let c = self.operand(fm, h, operands[2])?;
                Ok(Constant::Select(crate::constant::Select { condition: a, true_value: b, false_value: c }))
            },
            Opcode::Other => Err(BuildError::UnexpectedOpcode),
        }
    }

    /// The conversion of the foreign value at `h`, its operands converted
    /// already.
    fn parse_constant(&self, fm: &ForeignModule, h: usize) -> (r: Result<Constant, BuildError>)
        requires
            self.wf(fm),
            h < fm.values@.len(),
        ensures
            match r {
                Ok(c) => constant_converted(c, fm, h as int, self.type_cache@, self.constant_cache@, self.global_names@)
                    && operands_below(c, self.constants.items@.len() as int)
                    && type_refs_below(c, self.types.entries@.len() as int),
                Err(_) => !(value_ok(fm, h as int) && !(fm.values@[h as int] is NotAConstant)
                    && self.constants_ready(fm, h as int) && self.types_done(fm) && self.names_done(fm)),
            },
    {
        let r = self.parse_value(fm, h);
        if let Ok(c) = &r {
            proof {
                self.lemma_converted_below(fm, *c, h as int);
            }
        }
        r
    }

    fn parse_value(&self, fm: &ForeignModule, h: usize) -> (r: Result<Constant, BuildError>)
        requires
            self.wf(fm),
            h < fm.values@.len(),
        ensures
            match r {
                Ok(c) => constant_converted(c, fm, h as int, self.type_cache@, self.constant_cache@, self.global_names@),
                Err(_) => !(value_ok(fm, h as int) && !(fm.values@[h as int] is NotAConstant)
                    && self.constants_ready(fm, h as int) && self.types_done(fm) && self.names_done(fm)),
            },
    {
        proof {
            if value_ok(fm, h as int) && self.names_done(fm) {
                if let ForeignValue::Global(_) = fm.values@[h as int] {
                    let k = choose|k: int| 0 <= k < global_order(fm).len() && #[trigger] global_order(fm)[k] as int == h;
                    assert(cached(self.global_names@, global_order(fm)[k] as int) is Some);
                }
            }
        }
        match &fm.values[h] {
            ForeignValue::Global(g) => {
                let name = match &self.global_names[h] {
                    Some(n) => n.clone(),
                    None => {
                        return Err(BuildError::UnknownGlobal);
                    },
                };
                let t = self.type_of(fm, g.value_type)?;
                Ok(Constant::GlobalReference { name, ty: t })
            },
            ForeignValue::ConstantInt { ty, zext_value } => {
                if *ty >= fm.types.len() {
                    return Err(BuildError::UnknownType);
                }
                match &fm.types[*ty] {
                    ForeignType::Integer { bits } => Ok(Constant::Int { bits: *bits, value: *zext_value }),
                    _ => Err(BuildError::UnexpectedType),
                }
            },
            ForeignValue::ConstantFP { ty, single_bits, double_bits } => {
                if *ty >= fm.types.len() {
                    return Err(BuildError::UnknownType);
                }
                match &fm.types[*ty] {
                    ForeignType::FP(k) => {
                        let f = match k {
                            FPType::Half => Float::Half,
                            FPType::Single => Float::Single(*single_bits),
                            FPType::Double => Float::Double(*double_bits),
                            FPType::FP128 => Float::Quadruple,
                            FPType::X86_FP80 => Float::X86_FP80,
                            FPType::PPC_FP128 => Float::PPC_FP128,
                        };
                        Ok(Constant::Float(f))
                    },
                    _ => Err(BuildError::UnexpectedType),
                }
            },
            ForeignValue::ConstantStruct { ty, operands } => {
                if *ty >= fm.types.len() {
                    return Err(BuildError::UnknownType);
                }
                match &fm.types[*ty] {
                    ForeignType::Struct { body: Some(elems), is_packed, .. } => {
                        if elems.len() > operands.len() {
                            return Err(BuildError::OperandCount);
                        }
                        let values = self.constants_of(fm, h, operands, 0, elems.len())?;
                        Ok(Constant::Struct { name: None, values, is_packed: *is_packed })
                    },
                    ForeignType::Struct { body: None, .. } => Err(BuildError::OpaqueStructConstant),
                    _ => Err(BuildError::UnexpectedType),
                }
            },
            ForeignValue::ConstantArray { ty, operands } => self.array_constant(fm, h, *ty, operands),
            ForeignValue::ConstantDataArray { ty, elements } => self.array_constant(fm, h, *ty, elements),
            ForeignValue::ConstantVector { operands } => {
                let es = self.constants_of(fm, h, operands, 0, operands.len())?;
                assert(operands@.subrange(0, operands@.len() as int) =~= operands@);
                Ok(Constant::Vector(es))
            },
            ForeignValue::ConstantDataVector { ty, elements } => {
                if *ty >= fm.types.len() {
                    return Err(BuildError::UnknownType);
                }
                match &fm.types[*ty] {
                    ForeignType::Vector { num_elements, .. } => {
                        if *num_elements > elements.len() {
                            return Err(BuildError::OperandCount);
                        }
                        let es = self.constants_of(fm, h, elements, 0, *num_elements)?;
                        Ok(Constant::Vector(es))
                    },
                    _ => Err(BuildError::UnexpectedType),
                }
            },
            ForeignValue::Null { ty } => {
                let t = self.type_of(fm, *ty)?;
                Ok(Constant::Null(t))
            },
            ForeignValue::AggregateZero { ty } => {
                let t = self.type_of(fm, *ty)?;
                Ok(Constant::AggregateZero(t))
            },
            ForeignValue::Undef { ty } => {
                let t = self.type_of(fm, *ty)?;
                Ok(Constant::Undef(t))
            },
            ForeignValue::TokenNone => Ok(Constant::TokenNone),
            ForeignValue::BlockAddress => Ok(Constant::BlockAddress),
            ForeignValue::ConstantExpr { opcode, ty, operands, indices, in_bounds, int_predicate, fp_predicate } => {
                match self.expr_of(fm, h, *opcode, *ty, operands, indices, *in_bounds, *int_predicate, *fp_predicate) {
                    Ok(c) => {
                        proof {
                            self.lemma_converted_below(fm, c, h as int);
                        }
                        Ok(c)
                    },
                    Err(e) => Err(e),
                }
            },
            ForeignValue::NotAConstant => Err(BuildError::NotAConstant),
        }
    }

    /// The second phase of conversion: every constant value, in handle
    /// order, each after its operands.
    pub fn convert_constants(&mut self, fm: &ForeignModule) -> (r: Result<(), BuildError>)
        requires
            old(self).wf(fm),
            old(self).types_done(fm),
            old(self).names_done(fm),
            forall|j: int| 0 <= j < fm.values@.len() ==> (#[trigger] old(self).constant_cache@[j]) is None,
        ensures
            final(self).wf(fm),
            final(self).types == old(self).types,
            final(self).type_cache == old(self).type_cache,
            final(self).global_names == old(self).global_names,
            r is Ok ==> final(self).constants_ready(fm, fm.values@.len() as int),
            (forall|h: int| 0 <= h < fm.values@.len() ==> #[trigger] value_ok(fm, h)) ==> r is Ok,
    {
        let mut h: usize = 0;
        while h < fm.values.len()
            invariant
                self.wf(fm),
                h <= fm.values@.len(),
                self.types_done(fm),
                self.names_done(fm),
                self.constants_ready(fm, h as int),
                forall|j: int| h <= j < fm.values@.len() ==> (#[trigger] self.constant_cache@[j]) is None,
                self.types == old(self).types,
                self.type_cache == old(self).type_cache,
                self.global_names == old(self).global_names,
                (forall|j: int| 0 <= j < fm.values@.len() ==> #[trigger] value_ok(fm, j)) || !(
                forall|j: int| 0 <= j < fm.values@.len() ==> #[trigger] value_ok(fm, j)),
            decreases fm.values@.len() - h,
        {
            if let ForeignValue::NotAConstant = &fm.values[h] {
            } else {
                let c = match self.parse_constant(fm, h) {
                    Ok(c) => c,
                    Err(e) => {
                        proof {
                            assert(!value_ok(fm, h as int));
                        }
                        return Err(e);
                    },
                };
                self.cache_constant(fm, h, c);
            }
            h += 1;
        }
        Ok(())
    }

}

/// Whether no two structure types of `fm` share a name.
pub fn struct_names_distinct(fm: &ForeignModule) -> (r: bool)
    ensures
        r == names_distinct(fm),
{
    let n = fm.types.len();
    let mut i: usize = 0;
    while i < n
        invariant
            n == fm.types@.len(),
            i <= n,
            forall|a: int, c: int|
                0 <= a < i && 0 <= c < n && a != c && (#[trigger] foreign_named(fm, a)) is Some
                    ==> foreign_named(fm, a) != #[trigger] foreign_named(fm, c),
        decreases n - i,
    {
        if let ForeignType::Struct { name: Some(x), .. } = &fm.types[i] {
            let mut j: usize = 0;
            while j < n
                invariant
                    n == fm.types@.len(),
                    i < n,
                    j <= n,
                    foreign_named(fm, i as int) == Some(x@),
                    forall|c: int| 0 <= c < j && c != i ==> foreign_named(fm, c) != Some(x@),
                decreases n - j,
            {
                if j != i {
                    if let ForeignType::Struct { name: Some(y), .. } = &fm.types[j] {
                        if *x == *y {
                            assert(foreign_named(fm, i as int) == foreign_named(fm, j as int));
                            return false;
                        }
                    }
                }
                j += 1;
            }
        }
        i += 1;
    }
    true
}

/// The foreign global at handle `g`.
pub open spec fn foreign_global(fm: &ForeignModule, g: usize) -> Option<ForeignGlobal> {
    if (g as int) < fm.values@.len() {
        match fm.values@[g as int] {
            ForeignValue::Global(x) => Some(x),
            _ => None,
        }
    } else {
        None
    }
}

impl Module {
    /// The module's interner and pool are well-formed, and every cached
    /// foreign handle maps to its conversion.
    pub open spec fn wf(&self, fm: &ForeignModule) -> bool {
        let tc = self.type_map@;
        let cc = self.constant_map@;
        let gn = self.name_map@;
        &&& self.types.wf()
        &&& pool_wf(&self.types, self.constants.items@)
        &&& tc.len() == fm.types@.len()
        &&& cc.len() == fm.values@.len()
        &&& forall|h: int|
            0 <= h < tc.len() && (#[trigger] tc[h]) is Some ==> self.types.valid(tc[h]->Some_0)
                && type_converted(fm.types@[h], self.types.entries@[tc[h]->Some_0.0 as int], tc)
        &&& forall|h: int|
            0 <= h < cc.len() && (#[trigger] cc[h]) is Some ==> self.constants.valid(cc[h]->Some_0)
                && constant_converted(self.constants.items@[cc[h]->Some_0.0 as int], fm, h, tc, cc, gn)
        &&& named_state(fm, &self.types, tc, fm.types@.len() as int)
        &&& gn.len() == fm.values@.len()
        &&& forall|h: int| 0 <= h < gn.len() && (#[trigger] gn[h]) is Some ==> listed(fm, h)
        &&& forall|k: int|
            0 <= k < global_order(fm).len() ==> ((#[trigger] cached(gn, global_order(fm)[k] as int)) matches Some(n)
                && n@ == pass_one_names(fm)[k])
    }

    /// The global variable at place `k` is the conversion of the foreign one.
    pub open spec fn var_built(&self, fm: &ForeignModule, k: int) -> bool {
        let v = self.global_vars@[k];
        let offset = fm.defined_functions@.len() + fm.declared_functions@.len();
        foreign_global(fm, fm.global_vars@[k]) matches Some(x) && v.name@ == pass_one_names(fm)[offset + k]
            && cached(self.type_map@, x.ty as int) == Some(v.ty) && (self.types.entries@[v.ty.0 as int] matches Type::PointerType {
                addr_space,
                ..
            } && v.addr_space == addr_space) && v.linkage == x.linkage
            && v.visibility == x.visibility && v.is_constant == x.is_constant
            && v.dll_storage_class == x.dll_storage_class && v.thread_local_mode == x.thread_local_mode
            && v.unnamed_addr == x.unnamed_addr && v.section == x.section && v.comdat == x.comdat
            && v.alignment == x.alignment && match x.initializer {
                Some(i) => v.initializer is Some && cached(self.constant_map@, i as int) == v.initializer,
                None => v.initializer is None,
            }
    }

    /// The alias at place `k` is the conversion of the foreign one.
    pub open spec fn alias_built(&self, fm: &ForeignModule, k: int) -> bool {
        let a = self.global_aliases@[k];
        let offset = fm.defined_functions@.len() + fm.declared_functions@.len() + fm.global_vars@.len();
        foreign_global(fm, fm.global_aliases@[k]) matches Some(x) && a.name@ == pass_one_names(fm)[offset + k]
            && cached(self.type_map@, x.ty as int) == Some(a.ty) && (self.types.entries@[a.ty.0 as int] matches Type::PointerType {
                addr_space,
                ..
            } && a.addr_space == addr_space) && a.linkage == x.linkage
            && a.visibility == x.visibility && a.dll_storage_class == x.dll_storage_class
            && a.thread_local_mode == x.thread_local_mode && a.unnamed_addr == x.unnamed_addr
            && (x.aliasee matches Some(i) && cached(self.constant_map@, i as int) == Some(a.aliasee))
    }

    /// The function at place `k` is the conversion of the defined function.
    pub open spec fn function_built(&self, fm: &ForeignModule, k: int) -> bool {
        let f = self.functions@[k];
        foreign_global(fm, fm.defined_functions@[k]) matches Some(x) && f.name@ == pass_one_names(fm)[k]
            && cached(self.type_map@, x.value_type as int) == Some(f.ty) && f.linkage == x.linkage
            && f.visibility == x.visibility
    }

    /// `self` is the module built from `fm`.
    pub open spec fn built_from(&self, fm: &ForeignModule) -> bool {
        &&& self.wf(fm)
        &&& self.name@ == fm.identifier@
        &&& self.source_file_name@ == fm.source_file_name@
        &&& self.data_layout@ == fm.data_layout@
        &&& opt_view(self.target_triple) == opt_view(fm.target_triple)
        &&& self.inline_assembly@ == fm.inline_assembly@
        &&& self.functions@.len() == fm.defined_functions@.len()
        &&& self.global_vars@.len() == fm.global_vars@.len()
        &&& self.global_aliases@.len() == fm.global_aliases@.len()
        &&& forall|k: int| 0 <= k < self.functions@.len() ==> #[trigger] self.function_built(fm, k)
        &&& forall|k: int| 0 <= k < self.global_vars@.len() ==> #[trigger] self.var_built(fm, k)
        &&& forall|k: int| 0 <= k < self.global_aliases@.len() ==> #[trigger] self.alias_built(fm, k)
    }

    /// Builds the module that `fm` describes. A first pass names every
    /// global-scope object; then every type, and every constant, is converted
    /// in handle order, a global reference taking its first-pass name; last,
    /// a second pass numbers the objects again and assembles each. A
    /// well-formed foreign module always builds.
    pub fn from_foreign(fm: &ForeignModule) -> (r: Result<Module, BuildError>)
        ensures
            r matches Ok(m) ==> m.built_from(fm),
            well_formed(fm) ==> r is Ok,
    {
        let mut b = Builder::new(fm);
        if !struct_names_distinct(fm) {
            return Err(BuildError::DuplicateStructName);
        }
        b.name_globals(fm)?;
        b.convert_types(fm)?;
        b.convert_constants(fm)?;
        let ghost offset_d = fm.defined_functions@.len();
        let ghost offset_v = offset_d + fm.declared_functions@.len();
        let ghost offset_a = offset_v + fm.global_vars@.len();
        proof {
            lemma_name_parity(fm);
        }
        proof {
            if well_formed(fm) {
                let e1 = explicit_names(fm, fm.defined_functions@);
                let e2 = explicit_names(fm, fm.declared_functions@);
                let e3 = explicit_names(fm, fm.global_vars@);
                let e4 = explicit_names(fm, fm.global_aliases@);
                assert(explicit_names(fm, global_order(fm)) =~= e1 + e2 + e3 + e4);
                crate::name::lemma_ctr_after_all_append(e1, e2, 0);
                crate::name::lemma_ctr_after_all_append(e1 + e2, e3, 0);
                crate::name::lemma_ctr_after_all_append(e1 + e2 + e3, e4, 0);
                crate::name::lemma_ctr_after_all_grows(e4, ctr_after_all(e1 + e2 + e3, 0));
                crate::name::lemma_ctr_after_all_grows(e3, ctr_after_all(e1 + e2, 0));
                crate::name::lemma_ctr_after_all_grows(e2, ctr_after_all(e1, 0));
                let o = global_order(fm);
                let n1 = fm.defined_functions@.len() as int;
                let n2 = n1 + fm.declared_functions@.len();
                let n3 = n2 + fm.global_vars@.len();
                assert forall|k: int| 0 <= k < fm.defined_functions@.len() implies (#[trigger] fm.defined_functions@[k]
                    as int) < fm.values@.len() && fm.values@[fm.defined_functions@[k] as int] is Global by {
                    assert(o[k] == fm.defined_functions@[k]);
                }
                assert forall|k: int| 0 <= k < fm.declared_functions@.len() implies (#[trigger] fm.declared_functions@[k]
                    as int) < fm.values@.len() && fm.values@[fm.declared_functions@[k] as int] is Global by {
                    assert(o[n1 + k] == fm.declared_functions@[k]);
                }
                assert forall|k: int| 0 <= k < fm.global_vars@.len() implies (#[trigger] fm.global_vars@[k]
                    as int) < fm.values@.len() && fm.values@[fm.global_vars@[k] as int] is Global by {
                    assert(o[n2 + k] == fm.global_vars@[k]);
                }
                assert forall|k: int| 0 <= k < fm.global_aliases@.len() implies (#[trigger] fm.global_aliases@[k]
                    as int) < fm.values@.len() && fm.values@[fm.global_aliases@[k] as int] is Global by {
                    assert(o[n3 + k] == fm.global_aliases@[k]);
                }
                assert forall|k: int| 0 <= k < fm.defined_functions@.len() implies value_ok(fm, #[trigger] fm.defined_functions@[k] as int) by {
                    assert(o[k] == fm.defined_functions@[k]);
                }
            }
        }
        let mut ctr: usize = 0;
        let fnames = Builder::number_globals(fm, &fm.defined_functions, &mut ctr)?;
        let _declared = Builder::number_globals(fm, &fm.declared_functions, &mut ctr)?;
        let vnames = Builder::number_globals(fm, &fm.global_vars, &mut ctr)?;
        let anames = Builder::number_globals(fm, &fm.global_aliases, &mut ctr)?;
        let ghost e1 = explicit_names(fm, fm.defined_functions@);
        let ghost e2 = explicit_names(fm, fm.declared_functions@);
        let ghost e3 = explicit_names(fm, fm.global_vars@);
        let ghost e4 = explicit_names(fm, fm.global_aliases@);
        let ghost c1 = ctr_after_all(e1, 0);
        let ghost c2 = ctr_after_all(e2, c1);
        let ghost c3 = ctr_after_all(e3, c2);
        let ghost a1 = assign_names(e1, 0);
        let ghost a2 = assign_names(e2, c1);
        let ghost a3 = assign_names(e3, c2);
        let ghost a4 = assign_names(e4, c3);
        proof {
            crate::name::lemma_assign_names_len(e1, 0);
            crate::name::lemma_assign_names_len(e2, c1);
            crate::name::lemma_assign_names_len(e3, c2);
            crate::name::lemma_assign_names_len(e4, c3);
            let p2 = pass_two_names(fm);
            assert(p2 == a1 + a2 + a3 + a4);
            assert forall|k: int| 0 <= k < fnames@.len() implies (#[trigger] fnames@[k])@ == pass_one_names(fm)[k] by {
                assert(fnames@[k]@ == a1[k]);
                assert((a1 + a2 + a3 + a4)[k] == a1[k]);
            }
            assert forall|k: int| 0 <= k < vnames@.len() implies (#[trigger] vnames@[k])@ == pass_one_names(fm)[offset_v + k] by {
                assert(vnames@[k]@ == a3[k]);
                assert((a1 + a2 + a3 + a4)[offset_v + k] == a3[k]);
            }
            assert forall|k: int| 0 <= k < anames@.len() implies (#[trigger] anames@[k])@ == pass_one_names(fm)[offset_a + k] by {
                assert(anames@[k]@ == a4[k]);
                assert((a1 + a2 + a3 + a4)[offset_a + k] == a4[k]);
            }
        }
        let ghost gn = b.global_names@;
        let mut functions: Vec<Function> = Vec::new();
        let mut k: usize = 0;
        while k < fm.defined_functions.len()
            invariant
                b.wf(fm),
                b.global_names@ == gn,
                forall|j: int| 0 <= j < global_order(fm).len() ==> ((#[trigger] cached(gn, global_order(fm)[j] as int)) matches Some(n)
                    && n@ == pass_one_names(fm)[j]),
                fnames@.len() == fm.defined_functions@.len(),
                b.types_done(fm),
                well_formed(fm) ==> forall|j: int| 0 <= j < fm.defined_functions@.len() ==> value_ok(fm, #[trigger] fm.defined_functions@[j] as int)
                    && (fm.defined_functions@[j] as int) < fm.values@.len()
                    && fm.values@[fm.defined_functions@[j] as int] is Global,
                forall|j: int| 0 <= j < fnames@.len() ==> (#[trigger] fnames@[j])@ == pass_one_names(fm)[j],
                k <= fm.defined_functions@.len(),
                functions@.len() == k,
                forall|j: int| 0 <= j < k ==> {
                    let f = #[trigger] functions@[j];
                    foreign_global(fm, fm.defined_functions@[j]) matches Some(x) && f.name@ == pass_one_names(fm)[j]
                        && cached(b.type_cache@, x.value_type as int) == Some(f.ty) && f.linkage == x.linkage
                        && f.visibility == x.visibility
                },
            decreases fm.defined_functions@.len() - k,
        {
            let g = fm.defined_functions[k];
            proof {
                if well_formed(fm) {
                    assert(value_ok(fm, fm.defined_functions@[k as int] as int));
                }
            }
            if g >= fm.values.len() {
                return Err(BuildError::UnknownValue);
            }
            let x = match &fm.values[g] {
                ForeignValue::Global(x) => x,
                _ => {
                    return Err(BuildError::NotAGlobal);
                },
            };
            let ty = b.type_of(fm, x.value_type)?;
            functions.push(Function { name: fnames[k].clone(), ty, linkage: x.linkage, visibility: x.visibility });
            k += 1;
        }
        let mut global_vars: Vec<GlobalVariable> = Vec::new();
        let mut k: usize = 0;
        while k < fm.global_vars.len()
            invariant
                b.wf(fm),
                b.global_names@ == gn,
                vnames@.len() == fm.global_vars@.len(),
                b.types_done(fm),
                b.constants_ready(fm, fm.values@.len() as int),
                forall|j: int| 0 <= j < vnames@.len() ==> (#[trigger] vnames@[j])@ == pass_one_names(fm)[offset_v + j],
                offset_v == fm.defined_functions@.len() + fm.declared_functions@.len(),
                k <= fm.global_vars@.len(),
                global_vars@.len() == k,
                forall|j: int| 0 <= j < functions@.len() ==> {
                    let f = #[trigger] functions@[j];
                    foreign_global(fm, fm.defined_functions@[j]) matches Some(x)
                        && cached(b.type_cache@, x.value_type as int) == Some(f.ty)
                },
                forall|j: int| 0 <= j < k ==> {
                    let v = #[trigger] global_vars@[j];
                    foreign_global(fm, fm.global_vars@[j]) matches Some(x) && v.name@ == pass_one_names(fm)[offset_v + j]
                        && cached(b.type_cache@, x.ty as int) == Some(v.ty) && (b.types.entries@[v.ty.0 as int] matches Type::PointerType {
                            addr_space,
                            ..
                        } && v.addr_space == addr_space) && v.linkage == x.linkage
                        && v.visibility == x.visibility && v.is_constant == x.is_constant
                        && v.dll_storage_class == x.dll_storage_class && v.thread_local_mode == x.thread_local_mode
                        && v.unnamed_addr == x.unnamed_addr && v.section == x.section && v.comdat == x.comdat
                        && v.alignment == x.alignment && match x.initializer {
                            Some(i) => v.initializer is Some && cached(b.constant_cache@, i as int) == v.initializer,
                            None => v.initializer is None,
                        }
                },
            decreases fm.global_vars@.len() - k,
        {
            let g = fm.global_vars[k];
            proof {
                if well_formed(fm) {
                    assert(var_ok(fm, fm.global_vars@[k as int]));
                }
            }
            if g >= fm.values.len() {
                return Err(BuildError::UnknownValue);
            }
            let x = match &fm.values[g] {
                ForeignValue::Global(x) => x,
                _ => {
                    return Err(BuildError::NotAGlobal);
                },
            };
            let ty = b.type_of(fm, x.ty)?;
            let addr_space = match b.types.get(ty) {
                Type::PointerType { addr_space, .. } => *addr_space,
                _ => {
                    return Err(BuildError::NonPointerGlobal);
                },
            };
            let initializer = match x.initializer {
                Some(i) => Some(b.constant_of(fm, i)?),
                None => None,
            };
            global_vars.push(GlobalVariable {
                name: vnames[k].clone(),
                linkage: x.linkage,
                visibility: x.visibility,
                is_constant: x.is_constant,
                ty,
                addr_space,
                dll_storage_class: x.dll_storage_class,
                thread_local_mode: x.thread_local_mode,
                unnamed_addr: x.unnamed_addr,
                initializer,
                section: clone_opt_string(&x.section),
                comdat: clone_comdat(&x.comdat),
                alignment: x.alignment,
            });
            k += 1;
        }
        let mut global_aliases: Vec<GlobalAlias> = Vec::new();
        let mut k: usize = 0;
        while k < fm.global_aliases.len()
            invariant
                b.wf(fm),
                b.global_names@ == gn,
                anames@.len() == fm.global_aliases@.len(),
                b.types_done(fm),
                b.constants_ready(fm, fm.values@.len() as int),
                forall|j: int| 0 <= j < anames@.len() ==> (#[trigger] anames@[j])@ == pass_one_names(fm)[offset_a + j],
                offset_a == fm.defined_functions@.len() + fm.declared_functions@.len() + fm.global_vars@.len(),
                k <= fm.global_aliases@.len(),
                global_aliases@.len() == k,
                forall|j: int| 0 <= j < functions@.len() ==> {
                    let f = #[trigger] functions@[j];
                    foreign_global(fm, fm.defined_functions@[j]) matches Some(x)
                        && cached(b.type_cache@, x.value_type as int) == Some(f.ty)
                },
                forall|j: int| 0 <= j < global_vars@.len() ==> {
                    let v = #[trigger] global_vars@[j];
                    foreign_global(fm, fm.global_vars@[j]) matches Some(x)
                        && cached(b.type_cache@, x.ty as int) == Some(v.ty) && match x.initializer {
                            Some(i) => v.initializer is Some && cached(b.constant_cache@, i as int) == v.initializer,
                            None => v.initializer is None,
                        }
                },
                forall|j: int| 0 <= j < k ==> {
                    let a = #[trigger] global_aliases@[j];
                    foreign_global(fm, fm.global_aliases@[j]) matches Some(x) && a.name@ == pass_one_names(fm)[offset_a + j]
                        && cached(b.type_cache@, x.ty as int) == Some(a.ty) && (b.types.entries@[a.ty.0 as int] matches Type::PointerType {
                            addr_space,
                            ..
                        } && a.addr_space == addr_space) && a.linkage == x.linkage
                        && a.visibility == x.visibility && a.dll_storage_class == x.dll_storage_class
                        && a.thread_local_mode == x.thread_local_mode && a.unnamed_addr == x.unnamed_addr
                        && (x.aliasee matches Some(i) && cached(b.constant_cache@, i as int) == Some(a.aliasee))
                },
            decreases fm.global_aliases@.len() - k,
        {
            let g = fm.global_aliases[k];
            proof {
                if well_formed(fm) {
                    assert(alias_ok(fm, fm.global_aliases@[k as int]));
                }
            }
            if g >= fm.values.len() {
                return Err(BuildError::UnknownValue);
            }
            let x = match &fm.values[g] {
                ForeignValue::Global(x) => x,
                _ => {
                    return Err(BuildError::NotAGlobal);
                },
            };
            let ty = b.type_of(fm, x.ty)?;
            let addr_space = match b.types.get(ty) {
                Type::PointerType { addr_space, .. } => *addr_space,
                _ => {
                    return Err(BuildError::NonPointerGlobal);
                },
            };
            let aliasee = match x.aliasee {
                Some(i) => b.constant_of(fm, i)?,
                None => {
                    return Err(BuildError::NotAGlobal);
                },
            };
            global_aliases.push(GlobalAlias {
                name: anames[k].clone(),
                aliasee,
                linkage: x.linkage,
                visibility: x.visibility,
                ty,
                addr_space,
                dll_storage_class: x.dll_storage_class,
                thread_local_mode: x.thread_local_mode,
                unnamed_addr: x.unnamed_addr,
            });
            k += 1;
        }
        let Builder { types, constants, type_cache, constant_cache, global_names } = b;
        let m = Module {
            name: fm.identifier.clone(),
            source_file_name: fm.source_file_name.clone(),
            data_layout: fm.data_layout.clone(),
            target_triple: clone_opt_string(&fm.target_triple),
            functions,
            global_vars,
            global_aliases,
            types,
            constants,
            inline_assembly: fm.inline_assembly.clone(),
            type_map: Ghost(type_cache@),
            constant_map: Ghost(constant_cache@),
            name_map: Ghost(global_names@),
        };
        Ok(m)
    }
}

impl GlobalVariable {
    /// The variable's own type: a pointer to what it holds.
    pub fn get_type(&self) -> (r: TypeRef)
        ensures
            r == self.ty,
    {
        self.ty
    }
}

impl GlobalAlias {
    /// The alias's own type.
    pub fn get_type(&self) -> (r: TypeRef)
        ensures
            r == self.ty,
    {
        self.ty
    }
}

impl Module {
    /// The defined function named `name`, if there is one.
    pub fn get_func_by_name(&self, name: &String) -> (r: Option<&Function>)
        ensures
            match r {
                Some(f) => exists|k: int|
                    0 <= k < self.functions@.len() && #[trigger] self.functions@[k] == *f
                        && f.name@ == NameView::Named(name@) && forall|j: int|
                        0 <= j < k ==> (#[trigger] self.functions@[j]).name@ != NameView::Named(name@),
                None => forall|k: int|
                    0 <= k < self.functions@.len() ==> (#[trigger] self.functions@[k]).name@
                        != NameView::Named(name@),
            },
    {
        let mut k: usize = 0;
        while k < self.functions.len()
            invariant
                k <= self.functions@.len(),
                forall|j: int| 0 <= j < k ==> (#[trigger] self.functions@[j]).name@ != NameView::Named(name@),
            decreases self.functions@.len() - k,
        {
            let f = &self.functions[k];
            if let Name::Name(s) = &f.name {
                if *s == *name {
                    return Some(f);
                }
            }
            k += 1;
        }
        None
    }
}

/// A scalar literal: its conversion holds no operand and no sub-structure.
pub open spec fn is_scalar_literal(v: ForeignValue) -> bool {
    match v {
        ForeignValue::ConstantInt { .. } => true,
        ForeignValue::ConstantFP { .. } => true,
        ForeignValue::Null { .. } => true,
        ForeignValue::AggregateZero { .. } => true,
        ForeignValue::Undef { .. } => true,
        ForeignValue::TokenNone => true,
        ForeignValue::BlockAddress => true,
        _ => false,
    }
}

/// Interning: a foreign handle converts to one pooled constant, and two
/// handles that describe the same scalar literal convert to equal constants.
pub proof fn lemma_constant_interning(m: &Module, fm: &ForeignModule, a: int, b: int)
    requires
        m.wf(fm),
        cached(m.constant_map@, a) is Some,
        cached(m.constant_map@, b) is Some,
        fm.values@[a] == fm.values@[b],
        is_scalar_literal(fm.values@[a]),
    ensures
        m.constants.items@[(cached(m.constant_map@, a)->Some_0).0 as int]
            == m.constants.items@[(cached(m.constant_map@, b)->Some_0).0 as int],
{
    let cc = m.constant_map@;
    assert(cc[a] is Some);
    assert(cc[b] is Some);
}

/// A cached conversion is never replaced: asking again for the same foreign
/// handle gives the same constant.
pub proof fn lemma_constant_identity(b1: &Builder, b2: &Builder, h: int)
    requires
        b2.grows(b1),
        cached(b1.constant_cache@, h) is Some,
    ensures
        cached(b2.constant_cache@, h) == cached(b1.constant_cache@, h),
{
    assert(b2.constant_cache@[h] == b1.constant_cache@[h]);
}

/// The name that numbering gives to an object with an explicit name is that
/// name.
pub proof fn lemma_explicit_name_kept(e: Seq<Option<Seq<char>>>, ctr: nat, k: int)
    requires
        0 <= k < e.len(),
        e[k] is Some,
    ensures
        assign_names(e, ctr)[k] == NameView::Named(e[k]->Some_0),
{
    let a = e.subrange(0, k);
    let b = e.subrange(k, e.len() as int);
    assert(e =~= a + b);
    crate::name::lemma_numbering_split(a, b, ctr);
    let c2 = ctr_after_all(a, ctr);
    assert(b[0] == e[k]);
    assert(assign_names(b, c2)[0] == crate::name::name_for(b[0], c2));
    assert(assign_names(a + b, ctr)[a.len() + 0int] == assign_names(b, c2)[0]);
}

/// A global variable initialized with an integer literal holds that literal,
/// of the declared width, and keeps its explicit name.
pub proof fn lemma_int_initializer(m: &Module, fm: &ForeignModule, k: int)
    requires
        m.built_from(fm),
        0 <= k < m.global_vars@.len(),
        foreign_global(fm, fm.global_vars@[k]) matches Some(x) && (x.initializer matches Some(i)
            && (i as int) < fm.values@.len() && (fm.values@[i as int] matches ForeignValue::ConstantInt { ty, .. }
            && (ty as int) < fm.types@.len())),
    ensures
        ({
            let x = foreign_global(fm, fm.global_vars@[k])->Some_0;
            let i = x.initializer->Some_0;
            let v = m.global_vars@[k];
            &&& v.initializer matches Some(c) && (fm.values@[i as int] matches ForeignValue::ConstantInt { ty, zext_value }
                && (fm.types@[ty as int] matches ForeignType::Integer { bits }
                && m.constants.items@[c.0 as int] == Constant::Int { bits, value: zext_value }))
            &&& v.alignment == x.alignment
            &&& x.name matches Some(s) ==> v.name@ == NameView::Named(s@)
        }),
{
    assert(m.var_built(fm, k));
    let x = foreign_global(fm, fm.global_vars@[k])->Some_0;
    let i = x.initializer->Some_0;
    let c = m.global_vars@[k].initializer->Some_0;
    assert(m.constant_map@[i as int] is Some);
    if let Some(s) = x.name {
        let offset = fm.defined_functions@.len() + fm.declared_functions@.len();
        let order = global_order(fm);
        assert(order[offset + k] == fm.global_vars@[k]);
        let e = explicit_names(fm, order);
        assert(e[offset + k] == Some(s@));
        lemma_explicit_name_kept(e, 0, offset + k);
    }
}

/// The element handles of the foreign structure at `h`.
pub open spec fn foreign_body(fm: &ForeignModule, h: int) -> Seq<usize> {
    match fm.types@[h] {
        ForeignType::Struct { body: Some(elems), .. } => elems@,
        _ => Seq::empty(),
    }
}

/// The pointee handle of the foreign pointer type at `t`.
pub open spec fn foreign_pointee(fm: &ForeignModule, t: int) -> int {
    match fm.types@[t] {
        ForeignType::Pointer { pointee, .. } => pointee as int,
        _ => -1,
    }
}

/// The field types of the body that the table defines for `name`.
pub open spec fn table_body(types: &Types, name: Seq<char>) -> Option<Seq<TypeRef>> {
    match types.lookup(name) {
        Some(NamedStructDef::Defined(b)) => match types.entries@[b.0 as int] {
            Type::StructType { element_types, .. } => Some(element_types@),
            _ => None,
        },
        _ => None,
    }
}

/// Recursive types close up. The body that the table defines for a
/// converted named structure is the conversion of its foreign body; a field
/// that points to a named structure (the structure itself, or another one
/// that points back) reads back as that structure's one canonical named
/// reference, whose own body is then found in the table the same way.
pub proof fn lemma_recursive_closure(m: &Module, fm: &ForeignModule, h: int, k: int)
    requires
        m.wf(fm),
        0 <= h < fm.types@.len(),
        cached(m.type_map@, h) is Some,
        foreign_named(fm, h) is Some,
        table_body(&m.types, foreign_named(fm, h)->Some_0) is Some,
        0 <= k < foreign_body(fm, h).len(),
        0 <= foreign_body(fm, h)[k] < fm.types@.len(),
        0 <= foreign_pointee(fm, foreign_body(fm, h)[k] as int) < fm.types@.len(),
        foreign_named(fm, foreign_pointee(fm, foreign_body(fm, h)[k] as int)) is Some,
    ensures
        ({
            let es = table_body(&m.types, foreign_named(fm, h)->Some_0)->Some_0;
            let p = foreign_pointee(fm, foreign_body(fm, h)[k] as int);
            &&& 0 <= k < es.len()
            &&& m.types.entries@[es[k].0 as int] matches Type::PointerType { pointee_type: q, .. }
                && cached(m.type_map@, p) == Some(q)
                && m.types.deep(q) == SType::Named(foreign_named(fm, p)->Some_0)
        }),
{
    let tc = m.type_map@;
    assert(tc[h] is Some);
    assert(body_state(fm, &m.types, tc, h, true));
    let n = foreign_named(fm, h)->Some_0;
    let elems = foreign_body(fm, h);
    let e = elems[k] as int;
    let es = table_body(&m.types, n)->Some_0;
    assert(cached(tc, elems[k] as int) == Some(es[k]));
    assert(tc[e] is Some);
    let p = foreign_pointee(fm, e);
    assert(type_converted(fm.types@[e], m.types.entries@[es[k].0 as int], tc));
    let q = cached(tc, p)->Some_0;
    assert(tc[p] is Some);
    assert(type_converted(fm.types@[p], m.types.entries@[q.0 as int], tc));
}


} // verus!
