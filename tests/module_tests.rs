use llvm_ir::constant::Constant;
use llvm_ir::module::{
    BuildError, Builder, DLLStorageClass, ForeignGlobal, ForeignModule, ForeignType, ForeignValue, GlobalKind,
    Linkage, Module, Opcode, ThreadLocalMode, Visibility,
};
use llvm_ir::name::Name;
use llvm_ir::predicates::{FPPredicate, IntPredicate};
use llvm_ir::types::{NamedStructDef, Type};

fn global(kind: GlobalKind, name: Option<&str>, ty: usize, value_type: usize) -> ForeignGlobal {
    ForeignGlobal {
        kind,
        name: name.map(|s| s.to_string()),
        ty,
        value_type,
        linkage: Linkage::External,
        visibility: Visibility::Default,
        is_constant: false,
        dll_storage_class: DLLStorageClass::Default,
        thread_local_mode: ThreadLocalMode::NotThreadLocal,
        unnamed_addr: None,
        initializer: None,
        aliasee: None,
        section: None,
        comdat: None,
        alignment: 0,
    }
}

fn module(types: Vec<ForeignType>, values: Vec<ForeignValue>) -> ForeignModule {
    ForeignModule {
        identifier: "test.bc".to_string(),
        source_file_name: "test.c".to_string(),
        data_layout: "e-m:e-i64:64".to_string(),
        target_triple: Some("x86_64-unknown-linux-gnu".to_string()),
        inline_assembly: String::new(),
        types,
        values,
        defined_functions: vec![],
        declared_functions: vec![],
        global_vars: vec![],
        global_aliases: vec![],
    }
}

fn expr(opcode: Opcode, ty: usize, operands: Vec<usize>) -> ForeignValue {
    ForeignValue::ConstantExpr {
        opcode,
        ty,
        operands,
        indices: vec![],
        in_bounds: false,
        int_predicate: IntPredicate::EQ,
        fp_predicate: FPPredicate::False,
    }
}

#[test]
fn global_with_int_initializer() {
    let mut g = global(GlobalKind::Variable, Some("answer"), 1, 0);
    g.initializer = Some(1);
    g.alignment = 4;
    let mut fm = module(
        vec![ForeignType::Integer { bits: 32 }, ForeignType::Pointer { pointee: 0, addr_space: 0 }],
        vec![ForeignValue::Global(g), ForeignValue::ConstantInt { ty: 0, zext_value: 5 }],
    );
    fm.global_vars = vec![0];
    let m = Module::from_foreign(&fm).unwrap();
    assert_eq!(m.name, "test.bc");
    assert_eq!(m.source_file_name, "test.c");
    assert_eq!(m.target_triple, Some("x86_64-unknown-linux-gnu".to_string()));
    assert_eq!(m.global_vars.len(), 1);
    let v = &m.global_vars[0];
    assert_eq!(v.name, Name::Name("answer".to_string()));
    assert_eq!(v.alignment, 4);
    assert_eq!(v.addr_space, 0);
    let c = v.initializer.expect("the variable has an initializer");
    assert_eq!(*m.constants.get(c), Constant::Int { bits: 32, value: 5 });
    match m.types.get(v.ty) {
        Type::PointerType { pointee_type, .. } => {
            assert!(matches!(m.types.get(*pointee_type), Type::IntegerType { bits: 32 }));
        },
        other => panic!("expected a pointer type, got {:?}", other),
    }
}

#[test]
fn unnamed_globals_keep_their_numbers_in_both_passes() {
    // one unnamed object in each category: defined function, declaration,
    // variable, alias; the alias refers to the variable
    let types = vec![
        ForeignType::Integer { bits: 32 },
        ForeignType::Pointer { pointee: 0, addr_space: 0 },
        ForeignType::Function { result: 0, params: vec![], is_var_arg: false },
        ForeignType::Pointer { pointee: 2, addr_space: 0 },
    ];
    let f = global(GlobalKind::Function, None, 3, 2);
    let d = global(GlobalKind::Function, None, 3, 2);
    let mut v = global(GlobalKind::Variable, None, 1, 0);
    v.initializer = Some(4);
    let mut a = global(GlobalKind::Alias, None, 1, 0);
    a.aliasee = Some(2);
    let named = global(GlobalKind::Function, Some("main"), 3, 2);
    let mut fm = module(types, vec![
        ForeignValue::Global(f),
        ForeignValue::Global(d),
        ForeignValue::Global(v),
        ForeignValue::Global(a),
        ForeignValue::ConstantInt { ty: 0, zext_value: 7 },
        ForeignValue::Global(named),
    ]);
    fm.defined_functions = vec![0, 5];
    fm.declared_functions = vec![1];
    fm.global_vars = vec![2];
    fm.global_aliases = vec![3];
    let m = Module::from_foreign(&fm).unwrap();
    assert_eq!(m.functions.len(), 2);
    assert_eq!(m.functions[0].name, Name::Number(0));
    assert_eq!(m.functions[1].name, Name::Name("main".to_string()));
    assert_eq!(m.global_vars[0].name, Name::Number(2));
    assert_eq!(m.global_aliases[0].name, Name::Number(3));
    match m.constants.get(m.global_aliases[0].aliasee) {
        Constant::GlobalReference { name, .. } => assert_eq!(*name, Name::Number(2)),
        other => panic!("expected a global reference, got {:?}", other),
    }
    let main = m.get_func_by_name(&"main".to_string()).expect("main is defined");
    assert_eq!(main.name, Name::Name("main".to_string()));
    assert!(m.get_func_by_name(&"missing".to_string()).is_none());
}

#[test]
fn self_referential_struct_closes_on_itself() {
    // %node = type { %node*, i32 }
    let types = vec![
        ForeignType::Struct { name: Some("struct.node".to_string()), body: Some(vec![1, 2]), is_packed: false },
        ForeignType::Pointer { pointee: 0, addr_space: 0 },
        ForeignType::Integer { bits: 32 },
    ];
    let g = global(GlobalKind::Variable, Some("head"), 1, 0);
    let mut fm = module(types, vec![ForeignValue::Global(g)]);
    fm.global_vars = vec![0];
    let m = Module::from_foreign(&fm).unwrap();
    let name = "struct.node".to_string();
    let body = match m.types.named_struct_def(&name) {
        Some(NamedStructDef::Defined(b)) => b,
        other => panic!("expected a defined struct, got {:?}", other),
    };
    let link = match m.types.get(body) {
        Type::StructType { element_types, .. } => {
            assert_eq!(element_types.len(), 2);
            element_types[0]
        },
        other => panic!("expected a struct type, got {:?}", other),
    };
    let pointee = match m.types.get(link) {
        Type::PointerType { pointee_type, .. } => *pointee_type,
        other => panic!("expected a pointer type, got {:?}", other),
    };
    match m.types.get(pointee) {
        Type::NamedStructType { name: n } => {
            assert_eq!(*n, name);
            assert_eq!(m.types.named_struct_def(n), Some(NamedStructDef::Defined(body)));
        },
        other => panic!("expected a named struct type, got {:?}", other),
    }
    // the variable's type points at that same named reference
    assert_eq!(m.global_vars[0].ty, link);
    assert_eq!(m.types.get(m.global_vars[0].ty), m.types.get(link));
}

#[test]
fn mutually_recursive_structs_close_on_each_other() {
    // %a = type { %b* }  %b = type { %a* }
    let types = vec![
        ForeignType::Struct { name: Some("struct.A".to_string()), body: Some(vec![3]), is_packed: false },
        ForeignType::Struct { name: Some("struct.B".to_string()), body: Some(vec![2]), is_packed: false },
        ForeignType::Pointer { pointee: 0, addr_space: 0 },
        ForeignType::Pointer { pointee: 1, addr_space: 0 },
    ];
    let g = global(GlobalKind::Variable, Some("a"), 2, 0);
    let mut fm = module(types, vec![ForeignValue::Global(g)]);
    fm.global_vars = vec![0];
    let m = Module::from_foreign(&fm).unwrap();
    let field_target = |struct_name: &str| -> String {
        let body = match m.types.named_struct_def(&struct_name.to_string()) {
            Some(NamedStructDef::Defined(b)) => b,
            other => panic!("expected a defined struct, got {:?}", other),
        };
        let p = match m.types.get(body) {
            Type::StructType { element_types, .. } => element_types[0],
            other => panic!("expected a struct type, got {:?}", other),
        };
        let q = match m.types.get(p) {
            Type::PointerType { pointee_type, .. } => *pointee_type,
            other => panic!("expected a pointer type, got {:?}", other),
        };
        match m.types.get(q) {
            Type::NamedStructType { name } => name.clone(),
            other => panic!("expected a named struct type, got {:?}", other),
        }
    };
    assert_eq!(field_target("struct.A"), "struct.B");
    assert_eq!(field_target("struct.B"), "struct.A");
}

#[test]
fn one_foreign_constant_is_one_pooled_constant() {
    // a struct literal whose two fields are the same foreign constant, and a
    // second foreign constant that describes the same literal
    let types = vec![
        ForeignType::Integer { bits: 16 },
        ForeignType::Struct { name: None, body: Some(vec![0, 0, 0]), is_packed: false },
        ForeignType::Pointer { pointee: 1, addr_space: 0 },
    ];
    let mut g = global(GlobalKind::Variable, Some("s"), 2, 1);
    g.initializer = Some(3);
    let mut fm = module(types, vec![
        ForeignValue::Global(g),
        ForeignValue::ConstantInt { ty: 0, zext_value: 9 },
        ForeignValue::ConstantInt { ty: 0, zext_value: 9 },
        ForeignValue::ConstantStruct { ty: 1, operands: vec![1, 1, 2] },
    ]);
    fm.global_vars = vec![0];
    let m = Module::from_foreign(&fm).unwrap();
    let init = m.global_vars[0].initializer.unwrap();
    match m.constants.get(init) {
        Constant::Struct { values, .. } => {
            assert_eq!(values.len(), 3);
            assert_eq!(values[0], values[1]);
            assert_ne!(values[0], values[2]);
            assert_eq!(m.constants.get(values[0]), m.constants.get(values[2]));
        },
        other => panic!("expected a struct literal, got {:?}", other),
    }
    // each foreign constant once: the two literals, the struct, and the
    // reference to the global itself
    assert_eq!(m.constants.len(), 4);
}

#[test]
fn constant_expressions_are_converted() {
    let types = vec![
        ForeignType::Integer { bits: 64 },
        ForeignType::Pointer { pointee: 0, addr_space: 0 },
        ForeignType::Integer { bits: 8 },
    ];
    let mut g = global(GlobalKind::Variable, Some("x"), 1, 0);
    g.initializer = Some(3);
    let mut fm = module(types, vec![
        ForeignValue::Global(g),
        ForeignValue::ConstantInt { ty: 0, zext_value: 40 },
        ForeignValue::ConstantInt { ty: 0, zext_value: 2 },
        expr(Opcode::Add, 0, vec![1, 2]),
        expr(Opcode::Trunc, 2, vec![3]),
    ]);
    fm.global_vars = vec![0];
    let m = Module::from_foreign(&fm).unwrap();
    let init = m.global_vars[0].initializer.unwrap();
    match m.constants.get(init) {
        Constant::Add(a) => {
            assert_eq!(*m.constants.get(a.operand0), Constant::Int { bits: 64, value: 40 });
            assert_eq!(*m.constants.get(a.operand1), Constant::Int { bits: 64, value: 2 });
        },
        other => panic!("expected an addition, got {:?}", other),
    }
}

#[test]
fn malformed_foreign_modules_are_rejected() {
    let types = vec![ForeignType::Integer { bits: 32 }, ForeignType::Pointer { pointee: 0, addr_space: 0 }];
    // an initializer that is not a constant
    let mut g = global(GlobalKind::Variable, Some("x"), 1, 0);
    g.initializer = Some(1);
    let mut fm = module(types, vec![ForeignValue::Global(g), ForeignValue::NotAConstant]);
    fm.global_vars = vec![0];
    assert_eq!(Module::from_foreign(&fm).err(), Some(BuildError::NotAConstant));
    // a global listed twice
    fm.values[1] = ForeignValue::ConstantInt { ty: 0, zext_value: 1 };
    fm.global_vars = vec![0, 0];
    assert_eq!(Module::from_foreign(&fm).err(), Some(BuildError::DuplicateGlobal));
    // a variable whose type is not a pointer
    if let ForeignValue::Global(x) = &mut fm.values[0] {
        x.ty = 0;
    }
    fm.global_vars = vec![0];
    assert_eq!(Module::from_foreign(&fm).err(), Some(BuildError::NonPointerGlobal));
    // an operation that cannot be constant, and a wrong operand count
    if let ForeignValue::Global(x) = &mut fm.values[0] {
        x.ty = 1;
    }
    fm.values[1] = expr(Opcode::Other, 0, vec![]);
    assert_eq!(Module::from_foreign(&fm).err(), Some(BuildError::UnexpectedOpcode));
    fm.values[1] = expr(Opcode::Add, 0, vec![]);
    assert_eq!(Module::from_foreign(&fm).err(), Some(BuildError::OperandCount));
    // a listed global that is not a global
    fm.global_vars = vec![1];
    assert_eq!(Module::from_foreign(&fm).err(), Some(BuildError::NotAGlobal));
}

#[test]
fn opaque_struct_literal_is_rejected() {
    let types = vec![
        ForeignType::Struct { name: Some("struct.opaque".to_string()), body: None, is_packed: false },
        ForeignType::Pointer { pointee: 0, addr_space: 0 },
    ];
    let mut g = global(GlobalKind::Variable, Some("o"), 1, 0);
    g.initializer = Some(1);
    let mut fm = module(types, vec![ForeignValue::Global(g), ForeignValue::ConstantStruct { ty: 0, operands: vec![] }]);
    fm.global_vars = vec![0];
    assert_eq!(Module::from_foreign(&fm).err(), Some(BuildError::OpaqueStructConstant));
}

#[test]
fn out_of_order_handles_are_rejected() {
    // a pointer whose pointee is itself can only arise from malformed input
    let types = vec![ForeignType::Pointer { pointee: 0, addr_space: 0 }];
    let g = global(GlobalKind::Variable, Some("p"), 0, 0);
    let mut fm = module(types, vec![ForeignValue::Global(g)]);
    fm.global_vars = vec![0];
    assert_eq!(Module::from_foreign(&fm).err(), Some(BuildError::OutOfOrder));
    // a constant whose operand comes after it
    let types = vec![ForeignType::Integer { bits: 32 }, ForeignType::Pointer { pointee: 0, addr_space: 0 }];
    let mut g = global(GlobalKind::Variable, Some("q"), 1, 0);
    g.initializer = Some(1);
    let mut fm = module(types, vec![
        ForeignValue::Global(g),
        expr(Opcode::Add, 0, vec![2, 2]),
        ForeignValue::ConstantInt { ty: 0, zext_value: 1 },
    ]);
    fm.global_vars = vec![0];
    assert_eq!(Module::from_foreign(&fm).err(), Some(BuildError::OutOfOrder));
}

#[test]
fn two_struct_types_of_one_name_are_rejected() {
    let types = vec![
        ForeignType::Struct { name: Some("struct.same".to_string()), body: Some(vec![2]), is_packed: false },
        ForeignType::Struct { name: Some("struct.same".to_string()), body: Some(vec![2, 2]), is_packed: false },
        ForeignType::Integer { bits: 8 },
        ForeignType::Struct { name: None, body: Some(vec![0, 1]), is_packed: false },
        ForeignType::Pointer { pointee: 3, addr_space: 0 },
    ];
    let g = global(GlobalKind::Variable, Some("both"), 4, 3);
    let mut fm = module(types, vec![ForeignValue::Global(g)]);
    fm.global_vars = vec![0];
    assert_eq!(Module::from_foreign(&fm).err(), Some(BuildError::DuplicateStructName));
}

#[test]
fn array_and_vector_literals_are_converted() {
    let types = vec![
        ForeignType::Integer { bits: 8 },
        ForeignType::Array { element: 0, num_elements: 3 },
        ForeignType::Pointer { pointee: 1, addr_space: 0 },
        ForeignType::Vector { element: 0, num_elements: 2 },
    ];
    let mut g = global(GlobalKind::Variable, Some("bytes"), 2, 1);
    g.initializer = Some(3);
    g.is_constant = true;
    let mut fm = module(types, vec![
        ForeignValue::Global(g),
        ForeignValue::ConstantInt { ty: 0, zext_value: 104 },
        ForeignValue::ConstantInt { ty: 0, zext_value: 105 },
        ForeignValue::ConstantDataArray { ty: 1, elements: vec![1, 2, 1] },
        ForeignValue::ConstantDataVector { ty: 3, elements: vec![2, 1] },
    ]);
    fm.global_vars = vec![0];
    let m = Module::from_foreign(&fm).unwrap();
    let v = &m.global_vars[0];
    assert!(v.is_constant);
    assert_eq!(v.get_type(), v.ty);
    match m.constants.get(v.initializer.unwrap()) {
        Constant::Array { element_type, elements } => {
            assert!(matches!(m.types.get(*element_type), Type::IntegerType { bits: 8 }));
            assert_eq!(elements.len(), 3);
            assert_eq!(elements[0], elements[2]);
            assert_eq!(*m.constants.get(elements[1]), Constant::Int { bits: 8, value: 105 });
        },
        other => panic!("expected an array literal, got {:?}", other),
    }
}

#[test]
fn repeated_conversion_gives_the_recorded_constant() {
    let types = vec![ForeignType::Integer { bits: 32 }, ForeignType::Pointer { pointee: 0, addr_space: 0 }];
    let mut g = global(GlobalKind::Variable, None, 1, 0);
    g.initializer = Some(1);
    let mut fm = module(types, vec![ForeignValue::Global(g), ForeignValue::ConstantInt { ty: 0, zext_value: 3 }]);
    fm.global_vars = vec![0];
    let mut b = Builder::new(&fm);
    b.name_globals(&fm).unwrap();
    b.convert_types(&fm).unwrap();
    b.convert_constants(&fm).unwrap();
    let first = b.constant_of(&fm, 1).unwrap();
    let second = b.constant_of(&fm, 1).unwrap();
    assert_eq!(first, second);
    assert_eq!(b.constant_of(&fm, 7).err(), Some(BuildError::UnknownValue));
    match b.constants.get(b.constant_of(&fm, 0).unwrap()) {
        Constant::GlobalReference { name, .. } => assert_eq!(*name, Name::Number(0)),
        other => panic!("expected a global reference, got {:?}", other),
    }
}
