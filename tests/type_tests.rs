use llvm_ir::constant::{
    Add, ConstBinaryOp, ConstUnaryOp, ConstantPool, Constant, ConstantRef, ExtractElement, Sub, ExtractValue, FCmp, Float, GetElementPtr,
    ICmp, InsertValue, Select, ShuffleVector, Trunc, TypeError, ev_type,
};
use llvm_ir::name::Name;
use llvm_ir::predicates::{FPPredicate, IntPredicate};
use llvm_ir::types::{FPType, NamedStructDef, Type, TypeRef, Types};

fn int_of(types: &Types, t: TypeRef) -> u32 {
    match types.get(t) {
        Type::IntegerType { bits } => *bits,
        other => panic!("expected an integer type, got {:?}", other),
    }
}

fn pointee_of(types: &Types, t: TypeRef) -> TypeRef {
    match types.get(t) {
        Type::PointerType { pointee_type, .. } => *pointee_type,
        other => panic!("expected a pointer type, got {:?}", other),
    }
}

#[test]
fn interned_types_are_canonical() {
    let mut types = Types::new();
    let a = types.int_type(32);
    let b = types.int_type(32);
    let c = types.int_type(64);
    assert_eq!(a, b);
    assert_ne!(a, c);
    let p1 = types.pointer_to(a);
    let p2 = types.pointer_to(b);
    assert_eq!(p1, p2);
    let s1 = types.struct_of(vec![a, c], false);
    let s2 = types.struct_of(vec![a, c], false);
    let s3 = types.struct_of(vec![a, c], true);
    assert_eq!(s1, s2);
    assert_ne!(s1, s3);
    assert_eq!(types.entries.len(), 5);
}

#[test]
fn named_struct_table_records_opaque_then_defined() {
    let mut types = Types::new();
    let name = "struct.Node".to_string();
    assert_eq!(types.named_struct_def(&name), None);
    let r = types.named_struct(name.clone());
    types.set_named_struct_def(name.clone(), NamedStructDef::Opaque);
    assert_eq!(types.named_struct_def(&name), Some(NamedStructDef::Opaque));
    let p = types.pointer_to(r);
    let body = types.struct_of(vec![p], false);
    types.set_named_struct_def(name.clone(), NamedStructDef::Defined(body));
    assert_eq!(types.named_struct_def(&name), Some(NamedStructDef::Defined(body)));
    assert_eq!(types.named.len(), 1);
    // the self-reference inside the body is the same canonical handle
    let again = types.named_struct(name.clone());
    assert_eq!(again, r);
}

#[test]
fn int_literal_has_its_width() {
    let mut types = Types::new();
    let mut pool = ConstantPool::new();
    let c = pool.push(Constant::Int { bits: 32, value: 5 });
    let t = pool.get_type(c, &mut types).unwrap();
    assert_eq!(int_of(&types, t), 32);
}

#[test]
fn float_literal_type() {
    let mut types = Types::new();
    let t = Float::Double(2.5f64.to_bits()).get_type(&mut types);
    assert!(matches!(types.get(t), Type::FPType(FPType::Double)));
    let t = Float::Single(1.5f32.to_bits()).get_type(&mut types);
    assert!(matches!(types.get(t), Type::FPType(FPType::Single)));
}

#[test]
fn gep_without_indices_keeps_base_type() {
    let mut types = Types::new();
    let i32t = types.int_type(32);
    let ptr = types.pointer_to(i32t);
    let mut pool = ConstantPool::new();
    let base = pool.push(Constant::Null(ptr));
    let g = pool.push(Constant::GetElementPtr(GetElementPtr { address: base, indices: vec![], in_bounds: false }));
    let t = pool.get_type(g, &mut types).unwrap();
    assert_eq!(t, ptr);
    assert_eq!(pointee_of(&types, t), i32t);
}

#[test]
fn gep_literal_index_selects_struct_field() {
    let mut types = Types::new();
    let i8t = types.int_type(8);
    let i64t = types.int_type(64);
    let st = types.struct_of(vec![i8t, i64t], false);
    let ptr = types.pointer_to(st);
    let mut pool = ConstantPool::new();
    let base = pool.push(Constant::Null(ptr));
    let zero = pool.push(Constant::Int { bits: 32, value: 0 });
    let one = pool.push(Constant::Int { bits: 32, value: 1 });
    let g = pool.push(Constant::GetElementPtr(GetElementPtr { address: base, indices: vec![zero, one], in_bounds: true }));
    let t = pool.get_type(g, &mut types).unwrap();
    assert_eq!(pointee_of(&types, t), i64t);
}

#[test]
fn gep_non_literal_struct_index_is_an_error() {
    let mut types = Types::new();
    let i32t = types.int_type(32);
    let st = types.struct_of(vec![i32t, i32t], false);
    let ptr = types.pointer_to(st);
    let mut pool = ConstantPool::new();
    let base = pool.push(Constant::Null(ptr));
    let zero = pool.push(Constant::Int { bits: 32, value: 0 });
    let runtime = pool.push(Constant::Undef(i32t));
    let g = pool.push(Constant::GetElementPtr(GetElementPtr { address: base, indices: vec![zero, runtime], in_bounds: false }));
    assert_eq!(pool.get_type(g, &mut types), Err(TypeError::NonLiteralStructIndex));
}

#[test]
fn gep_struct_index_past_last_field_is_an_error() {
    let mut types = Types::new();
    let i32t = types.int_type(32);
    let st = types.struct_of(vec![i32t], false);
    let ptr = types.pointer_to(st);
    let mut pool = ConstantPool::new();
    let base = pool.push(Constant::Null(ptr));
    let zero = pool.push(Constant::Int { bits: 32, value: 0 });
    let two = pool.push(Constant::Int { bits: 32, value: 2 });
    let g = pool.push(Constant::GetElementPtr(GetElementPtr { address: base, indices: vec![zero, two], in_bounds: false }));
    assert_eq!(pool.get_type(g, &mut types), Err(TypeError::IndexOutOfRange));
}

#[test]
fn gep_into_array_with_runtime_index_points_to_element() {
    let mut types = Types::new();
    let i32t = types.int_type(32);
    let i64t = types.int_type(64);
    let arr = types.array_of(i32t, 10);
    let mut pool = ConstantPool::new();
    let global = pool.push(Constant::GlobalReference { name: Name::Name("table".to_string()), ty: arr });
    let zero = pool.push(Constant::Int { bits: 64, value: 0 });
    let a = pool.push(Constant::Undef(i64t));
    let b = pool.push(Constant::Int { bits: 64, value: 3 });
    let runtime = pool.push(Constant::Add(Add { operand0: a, operand1: b }));
    let g = pool.push(Constant::GetElementPtr(GetElementPtr { address: global, indices: vec![zero, runtime], in_bounds: true }));
    let t = pool.get_type(g, &mut types).unwrap();
    assert_eq!(pointee_of(&types, t), i32t);
}

#[test]
fn gep_through_opaque_named_struct_is_an_error() {
    let mut types = Types::new();
    let name = "struct.Hidden".to_string();
    let named = types.named_struct(name.clone());
    types.set_named_struct_def(name.clone(), NamedStructDef::Opaque);
    let ptr = types.pointer_to(named);
    let mut pool = ConstantPool::new();
    let base = pool.push(Constant::Null(ptr));
    let zero = pool.push(Constant::Int { bits: 32, value: 0 });
    let g = pool.push(Constant::GetElementPtr(GetElementPtr { address: base, indices: vec![zero, zero], in_bounds: false }));
    assert_eq!(pool.get_type(g, &mut types), Err(TypeError::OpaqueStruct));
    let other = types.named_struct("struct.Unknown".to_string());
    let ptr2 = types.pointer_to(other);
    let base2 = pool.push(Constant::Null(ptr2));
    let g2 = pool.push(Constant::GetElementPtr(GetElementPtr { address: base2, indices: vec![zero, zero], in_bounds: false }));
    assert_eq!(pool.get_type(g2, &mut types), Err(TypeError::UndefinedStruct));
}

#[test]
fn gep_resolves_defined_named_struct() {
    let mut types = Types::new();
    let name = "struct.Pair".to_string();
    let named = types.named_struct(name.clone());
    let i16t = types.int_type(16);
    let i32t = types.int_type(32);
    let body = types.struct_of(vec![i16t, i32t], false);
    types.set_named_struct_def(name.clone(), NamedStructDef::Defined(body));
    let ptr = types.pointer_to(named);
    let mut pool = ConstantPool::new();
    let base = pool.push(Constant::Null(ptr));
    let zero = pool.push(Constant::Int { bits: 32, value: 0 });
    let one = pool.push(Constant::Int { bits: 32, value: 1 });
    let g = pool.push(Constant::GetElementPtr(GetElementPtr { address: base, indices: vec![zero, one], in_bounds: false }));
    let t = pool.get_type(g, &mut types).unwrap();
    assert_eq!(pointee_of(&types, t), i32t);
}

#[test]
fn insert_value_keeps_aggregate_type() {
    let mut types = Types::new();
    let i32t = types.int_type(32);
    let i8t = types.int_type(8);
    let st = types.struct_of(vec![i32t, i32t], false);
    let mut pool = ConstantPool::new();
    let agg = pool.push(Constant::Undef(st));
    let elem = pool.push(Constant::Int { bits: 8, value: 1 });
    let iv = pool.push(Constant::InsertValue(InsertValue { aggregate: agg, element: elem, indices: vec![1] }));
    let t = pool.get_type(iv, &mut types).unwrap();
    assert_eq!(t, st);
    assert_ne!(t, i8t);
}

#[test]
fn extract_value_with_empty_path_is_aggregate_type() {
    let mut types = Types::new();
    let i32t = types.int_type(32);
    let arr = types.array_of(i32t, 4);
    let mut pool = ConstantPool::new();
    let agg = pool.push(Constant::AggregateZero(arr));
    let ev = pool.push(Constant::ExtractValue(ExtractValue { aggregate: agg, indices: vec![] }));
    assert_eq!(pool.get_type(ev, &mut types), Ok(arr));
    let ev2 = pool.push(Constant::ExtractValue(ExtractValue { aggregate: agg, indices: vec![7] }));
    assert_eq!(pool.get_type(ev2, &mut types), Ok(i32t));
}

#[test]
fn ev_type_walks_structs_and_arrays() {
    let mut types = Types::new();
    let i8t = types.int_type(8);
    let i16t = types.int_type(16);
    let arr = types.array_of(i16t, 3);
    let st = types.struct_of(vec![i8t, arr], false);
    assert_eq!(ev_type(&types, st, &vec![1, 2]), Ok(i16t));
    assert_eq!(ev_type(&types, st, &vec![0]), Ok(i8t));
    assert_eq!(ev_type(&types, st, &vec![]), Ok(st));
    assert_eq!(ev_type(&types, st, &vec![2]), Err(TypeError::IndexOutOfRange));
    assert_eq!(ev_type(&types, st, &vec![0, 0]), Err(TypeError::NotAnAggregate));
}

#[test]
fn shuffle_takes_length_from_mask() {
    let mut types = Types::new();
    let f32t = types.fp(FPType::Single);
    let i32t = types.int_type(32);
    let v4 = types.vector_of(f32t, 4);
    let m8 = types.vector_of(i32t, 8);
    let mut pool = ConstantPool::new();
    let a = pool.push(Constant::Undef(v4));
    let b = pool.push(Constant::Undef(v4));
    let m = pool.push(Constant::AggregateZero(m8));
    let s = pool.push(Constant::ShuffleVector(ShuffleVector { operand0: a, operand1: b, mask: m }));
    let t = pool.get_type(s, &mut types).unwrap();
    match types.get(t) {
        Type::VectorType { element_type, num_elements } => {
            assert_eq!(*element_type, f32t);
            assert_eq!(*num_elements, 8);
        },
        other => panic!("expected a vector type, got {:?}", other),
    }
}

#[test]
fn comparisons_give_booleans() {
    let mut types = Types::new();
    let i32t = types.int_type(32);
    let f64t = types.fp(FPType::Double);
    let v2 = types.vector_of(f64t, 2);
    let mut pool = ConstantPool::new();
    let a = pool.push(Constant::Int { bits: 32, value: 1 });
    let b = pool.push(Constant::Int { bits: 32, value: 2 });
    let c = pool.push(Constant::ICmp(ICmp { predicate: IntPredicate::SLT, operand0: a, operand1: b }));
    let t = pool.get_type(c, &mut types).unwrap();
    assert_eq!(int_of(&types, t), 1);
    let x = pool.push(Constant::Undef(v2));
    let y = pool.push(Constant::Undef(v2));
    let d = pool.push(Constant::FCmp(FCmp { predicate: FPPredicate::OLT, operand0: x, operand1: y }));
    let t = pool.get_type(d, &mut types).unwrap();
    match types.get(t) {
        Type::VectorType { element_type, num_elements } => {
            assert_eq!(int_of(&types, *element_type), 1);
            assert_eq!(*num_elements, 2);
        },
        other => panic!("expected a vector type, got {:?}", other),
    }
    assert_eq!(int_of(&types, i32t), 32);
}

#[test]
fn mismatched_operands_are_an_error() {
    let mut types = Types::new();
    let mut pool = ConstantPool::new();
    let a = pool.push(Constant::Int { bits: 32, value: 1 });
    let b = pool.push(Constant::Int { bits: 64, value: 2 });
    let s = pool.push(Constant::Add(Add { operand0: a, operand1: b }));
    assert_eq!(pool.get_type(s, &mut types), Err(TypeError::OperandTypeMismatch));
    let cond = pool.push(Constant::Int { bits: 1, value: 1 });
    let sel = pool.push(Constant::Select(Select { condition: cond, true_value: a, false_value: b }));
    assert_eq!(pool.get_type(sel, &mut types), Err(TypeError::OperandTypeMismatch));
    let ok = pool.push(Constant::Select(Select { condition: cond, true_value: a, false_value: a }));
    let t = pool.get_type(ok, &mut types).unwrap();
    assert_eq!(int_of(&types, t), 32);
}

#[test]
fn vector_operations_need_vectors() {
    let mut types = Types::new();
    let mut pool = ConstantPool::new();
    let a = pool.push(Constant::Int { bits: 32, value: 1 });
    let e = pool.push(Constant::ExtractElement(ExtractElement { vector: a, index: a }));
    assert_eq!(pool.get_type(e, &mut types), Err(TypeError::NotAVector));
    let empty = pool.push(Constant::Vector(vec![]));
    assert_eq!(pool.get_type(empty, &mut types), Err(TypeError::EmptyVector));
    let v = pool.push(Constant::Vector(vec![a, a, a]));
    let t = pool.get_type(v, &mut types).unwrap();
    let e2 = pool.push(Constant::ExtractElement(ExtractElement { vector: v, index: a }));
    let t2 = pool.get_type(e2, &mut types).unwrap();
    assert_eq!(int_of(&types, t2), 32);
    match types.get(t) {
        Type::VectorType { num_elements, .. } => assert_eq!(*num_elements, 3),
        other => panic!("expected a vector type, got {:?}", other),
    }
}

#[test]
fn casts_have_their_target_type() {
    let mut types = Types::new();
    let i8t = types.int_type(8);
    let mut pool = ConstantPool::new();
    let a = pool.push(Constant::Int { bits: 32, value: 300 });
    let c = pool.push(Constant::Trunc(Trunc { operand: a, to_type: i8t }));
    assert_eq!(pool.get_type(c, &mut types), Ok(i8t));
}

#[test]
fn struct_literal_type_lists_field_types() {
    let mut types = Types::new();
    let mut pool = ConstantPool::new();
    let a = pool.push(Constant::Int { bits: 8, value: 1 });
    let b = pool.push(Constant::Int { bits: 16, value: 2 });
    let s = pool.push(Constant::Struct { name: None, values: vec![a, b], is_packed: true });
    let t = pool.get_type(s, &mut types).unwrap();
    match types.get(t) {
        Type::StructType { element_types, is_packed } => {
            assert!(*is_packed);
            assert_eq!(element_types.len(), 2);
            assert_eq!(int_of(&types, element_types[0]), 8);
            assert_eq!(int_of(&types, element_types[1]), 16);
        },
        other => panic!("expected a struct type, got {:?}", other),
    }
}

#[test]
fn name_or_num_numbers_only_unnamed() {
    let mut ctr: usize = 0;
    assert_eq!(Name::name_or_num(Some("x".to_string()), &mut ctr), Name::Name("x".to_string()));
    assert_eq!(ctr, 0);
    assert_eq!(Name::name_or_num(None, &mut ctr), Name::Number(0));
    assert_eq!(Name::name_or_num(None, &mut ctr), Name::Number(1));
    assert_eq!(ctr, 2);
}

#[test]
fn operand_accessors() {
    let mut types = Types::new();
    let i8t = types.int_type(8);
    let mut pool = ConstantPool::new();
    let a = pool.push(Constant::Int { bits: 32, value: 1 });
    let b = pool.push(Constant::Int { bits: 32, value: 2 });
    let add = Add { operand0: a, operand1: b };
    assert_eq!(add.get_operand0(), a);
    assert_eq!(add.get_operand1(), b);
    let t = Trunc { operand: b, to_type: i8t };
    assert_eq!(t.get_operand(), b);
}

#[test]
fn expressions_convert_to_and_from_constants() {
    let a = ConstantRef(0);
    let b = ConstantRef(1);
    let c: Constant = Add { operand0: a, operand1: b }.into();
    assert_eq!(c, Constant::Add(Add { operand0: a, operand1: b }));
    let back = Add::try_from(c.clone()).unwrap();
    assert_eq!(back.operand1, b);
    assert_eq!(Sub::try_from(c.clone()), Err(c));
}
