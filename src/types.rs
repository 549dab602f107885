use vstd::prelude::*;

verus! {

/// A canonical handle to a type held by a `Types` interner.
#[derive(Clone, Copy, Debug, PartialEq, Eq, Structural)]
pub struct TypeRef(pub usize);

#[derive(Clone, Copy, Debug, PartialEq, Eq, Structural)]
#[allow(non_camel_case_types)]
pub enum FPType {
    Half,
    Single,
    Double,
    FP128,
    X86_FP80,
    PPC_FP128,
}

/// One interned type. Sub-types are handles into the same interner; a named
/// structure is referred to by its name only, and its body is found through
/// the interner's named-struct table.
#[derive(Debug, PartialEq, Eq)]
pub enum Type {
    VoidType,
    IntegerType { bits: u32 },
    PointerType { pointee_type: TypeRef, addr_space: u32 },
    FPType(FPType),
    FuncType { result_type: TypeRef, param_types: Vec<TypeRef>, is_var_arg: bool },
    VectorType { element_type: TypeRef, num_elements: usize },
    ArrayType { element_type: TypeRef, num_elements: usize },
    StructType { element_types: Vec<TypeRef>, is_packed: bool },
    NamedStructType { name: String },
    MetadataType,
    LabelType,
    TokenType,
}

/// What the named-struct table holds for a name.
#[derive(Clone, Copy, Debug, PartialEq, Eq, Structural)]
pub enum NamedStructDef {
    /// Declared, with no body.
    Opaque,
    /// Defined; the handle is to a `StructType`.
    Defined(TypeRef),
}

#[derive(Debug)]
pub struct NamedStructEntry {
    pub name: String,
    pub def: NamedStructDef,
}

/// The type interner: every type of a build lives here exactly once, and the
/// named-struct table maps each structure name to its body.
#[derive(Debug)]
pub struct Types {
    pub entries: Vec<Type>,
    pub named: Vec<NamedStructEntry>,
}

/// A type as a mathematical value, sub-types expanded. A named structure
/// stays a name: expanding it would not terminate on a recursive type.
pub enum SType {
    Void,
    Int(u32),
    Pointer(Box<SType>, u32),
    FP(FPType),
    Func(Box<SType>, Seq<SType>, bool),
    Vector(Box<SType>, nat),
    Array(Box<SType>, nat),
    Struct(Seq<SType>, bool),
    Named(Seq<char>),
    Metadata,
    Label,
    Token,
}

/// Two types agree in shape: same variant, same fields, names compared by
/// their characters.
pub open spec fn shape_eq(a: Type, b: Type) -> bool {
    match (a, b) {
        (
            Type::FuncType { result_type: r1, param_types: p1, is_var_arg: v1 },
            Type::FuncType { result_type: r2, param_types: p2, is_var_arg: v2 },
        ) => r1 == r2 && p1@ == p2@ && v1 == v2,
        (
            Type::StructType { element_types: e1, is_packed: k1 },
            Type::StructType { element_types: e2, is_packed: k2 },
        ) => e1@ == e2@ && k1 == k2,
        (Type::NamedStructType { name: n1 }, Type::NamedStructType { name: n2 }) => n1@ == n2@,
        (Type::FuncType { .. }, _) => false,
        (Type::StructType { .. }, _) => false,
        (Type::NamedStructType { .. }, _) => false,
        _ => a == b,
    }
}

fn same_refs(a: &Vec<TypeRef>, b: &Vec<TypeRef>) -> (r: bool)
    ensures
        r == (a@ == b@),
{
    if a.len() != b.len() {
        return false;
    }
    let mut i: usize = 0;
    while i < a.len()
        invariant
            a@.len() == b@.len(),
            i <= a@.len(),
            forall|j: int| 0 <= j < i ==> a@[j] == b@[j],
        decreases a@.len() - i,
    {
        if a[i] != b[i] {
            return false;
        }
        i += 1;
    }
    assert(a@ =~= b@);
    true
}

/// Whether two types agree in shape.
pub fn same_shape(a: &Type, b: &Type) -> (r: bool)
    ensures
        r == shape_eq(*a, *b),
{
    match (a, b) {
        (Type::VoidType, Type::VoidType) => true,
        (Type::IntegerType { bits: x }, Type::IntegerType { bits: y }) => *x == *y,
        (
            Type::PointerType { pointee_type: p1, addr_space: s1 },
            Type::PointerType { pointee_type: p2, addr_space: s2 },
        ) => *p1 == *p2 && *s1 == *s2,
        (Type::FPType(x), Type::FPType(y)) => *x == *y,
        (
            Type::FuncType { result_type: r1, param_types: p1, is_var_arg: v1 },
            Type::FuncType { result_type: r2, param_types: p2, is_var_arg: v2 },
        ) => *r1 == *r2 && *v1 == *v2 && same_refs(p1, p2),
        (
            Type::VectorType { element_type: e1, num_elements: n1 },
            Type::VectorType { element_type: e2, num_elements: n2 },
        ) => *e1 == *e2 && *n1 == *n2,
        (
            Type::ArrayType { element_type: e1, num_elements: n1 },
            Type::ArrayType { element_type: e2, num_elements: n2 },
        ) => *e1 == *e2 && *n1 == *n2,
        (
            Type::StructType { element_types: e1, is_packed: k1 },
            Type::StructType { element_types: e2, is_packed: k2 },
        ) => *k1 == *k2 && same_refs(e1, e2),
        (Type::NamedStructType { name: n1 }, Type::NamedStructType { name: n2 }) => *n1 == *n2,
        (Type::MetadataType, Type::MetadataType) => true,
        (Type::LabelType, Type::LabelType) => true,
        (Type::TokenType, Type::TokenType) => true,
        _ => false,
    }
}

pub open spec fn all_below(refs: Seq<TypeRef>, b: int) -> bool {
    forall|k: int| 0 <= k < refs.len() ==> 0 <= #[trigger] refs[k].0 < b
}

/// Every handle inside `t` is below `b`.
pub open spec fn refs_below(t: Type, b: int) -> bool {
    match t {
        Type::PointerType { pointee_type, .. } => pointee_type.0 < b,
        Type::FuncType { result_type, param_types, .. } => result_type.0 < b && all_below(
            param_types@,
            b,
        ),
        Type::VectorType { element_type, .. } => element_type.0 < b,
        Type::ArrayType { element_type, .. } => element_type.0 < b,
        Type::StructType { element_types, .. } => all_below(element_types@, b),
        _ => true,
    }
}

/// The expanded form of the type at handle `r`.
pub open spec fn deep(ts: Seq<Type>, r: int) -> SType
    decreases r + 1, 0int,
{
    if r < 0 || r >= ts.len() {
        SType::Void
    } else {
        match ts[r] {
            Type::VoidType => SType::Void,
            Type::IntegerType { bits } => SType::Int(bits),
            Type::PointerType { pointee_type, addr_space } => if 0 <= pointee_type.0 < r {
                SType::Pointer(Box::new(deep(ts, pointee_type.0 as int)), addr_space)
            } else {
                SType::Void
            },
            Type::FPType(k) => SType::FP(k),
            Type::FuncType { result_type, param_types, is_var_arg } => if 0 <= result_type.0
                < r {
                SType::Func(
                    Box::new(deep(ts, result_type.0 as int)),
                    deep_list(ts, param_types@, r),
                    is_var_arg,
                )
            } else {
                SType::Void
            },
            Type::VectorType { element_type, num_elements } => if 0 <= element_type.0 < r {
                SType::Vector(Box::new(deep(ts, element_type.0 as int)), num_elements as nat)
            } else {
                SType::Void
            },
            Type::ArrayType { element_type, num_elements } => if 0 <= element_type.0 < r {
                SType::Array(Box::new(deep(ts, element_type.0 as int)), num_elements as nat)
            } else {
                SType::Void
            },
            Type::StructType { element_types, is_packed } => SType::Struct(
                deep_list(ts, element_types@, r),
                is_packed,
            ),
            Type::NamedStructType { name } => SType::Named(name@),
            Type::MetadataType => SType::Metadata,
            Type::LabelType => SType::Label,
            Type::TokenType => SType::Token,
        }
    }
}

/// The expanded forms of a list of handles, each of which should lie below `b`.
pub open spec fn deep_list(ts: Seq<Type>, refs: Seq<TypeRef>, b: int) -> Seq<SType>
    decreases b, refs.len(),
{
    if refs.len() == 0 || b < 0 {
        Seq::empty()
    } else if 0 <= refs[0].0 < b {
        seq![deep(ts, refs[0].0 as int)] + deep_list(ts, refs.drop_first(), b)
    } else {
        seq![SType::Void] + deep_list(ts, refs.drop_first(), b)
    }
}

/// The table's entry for `name`: the last one recorded under it.
pub open spec fn named_def(named: Seq<NamedStructEntry>, name: Seq<char>) -> Option<
    NamedStructDef,
>
    decreases named.len(),
{
    if named.len() == 0 {
        None
    } else if named.last().name@ == name {
        Some(named.last().def)
    } else {
        named_def(named.drop_last(), name)
    }
}

pub proof fn lemma_deep_list_index(ts: Seq<Type>, refs: Seq<TypeRef>, b: int, k: int)
    requires
        all_below(refs, b),
        0 <= k < refs.len(),
    ensures
        deep_list(ts, refs, b).len() == refs.len(),
        deep_list(ts, refs, b)[k] == deep(ts, refs[k].0 as int),
    decreases refs.len(),
{
    if k == 0 {
        lemma_deep_list_len(ts, refs, b);
    } else {
        assert(all_below(refs.drop_first(), b)) by {
            assert forall|j: int| 0 <= j < refs.drop_first().len() implies 0
                <= #[trigger] refs.drop_first()[j].0 < b by {
                assert(refs.drop_first()[j] == refs[j + 1]);
            }
        }
        lemma_deep_list_index(ts, refs.drop_first(), b, k - 1);
    }
}

/// `deep` reads only the entries at and below its handle.
pub proof fn lemma_deep_stable(ts1: Seq<Type>, ts2: Seq<Type>, n: int, r: int)
    requires
        0 <= r < n,
        n <= ts1.len(),
        n <= ts2.len(),
        forall|i: int| 0 <= i < n ==> ts1[i] == ts2[i],
    ensures
        deep(ts1, r) == deep(ts2, r),
    decreases r + 1, 0int,
{
    assert(ts1[r] == ts2[r]);
    match ts1[r] {
        Type::PointerType { pointee_type, .. } => {
            if 0 <= pointee_type.0 < r {
                lemma_deep_stable(ts1, ts2, n, pointee_type.0 as int);
            }
        },
        Type::FuncType { result_type, param_types, .. } => {
            if 0 <= result_type.0 < r {
                lemma_deep_stable(ts1, ts2, n, result_type.0 as int);
            }
            lemma_deep_list_stable(ts1, ts2, n, param_types@, r);
        },
        Type::VectorType { element_type, .. } => {
            if 0 <= element_type.0 < r {
                lemma_deep_stable(ts1, ts2, n, element_type.0 as int);
            }
        },
        Type::ArrayType { element_type, .. } => {
            if 0 <= element_type.0 < r {
                lemma_deep_stable(ts1, ts2, n, element_type.0 as int);
            }
        },
        Type::StructType { element_types, .. } => {
            lemma_deep_list_stable(ts1, ts2, n, element_types@, r);
        },
        _ => {},
    }
}

pub proof fn lemma_deep_list_stable(
    ts1: Seq<Type>,
    ts2: Seq<Type>,
    n: int,
    refs: Seq<TypeRef>,
    b: int,
)
    requires
        b <= n,
        n <= ts1.len(),
        n <= ts2.len(),
        forall|i: int| 0 <= i < n ==> ts1[i] == ts2[i],
    ensures
        deep_list(ts1, refs, b) == deep_list(ts2, refs, b),
    decreases b, refs.len(),
{
    if refs.len() == 0 || b < 0 {
    } else {
        if 0 <= refs[0].0 < b {
            lemma_deep_stable(ts1, ts2, n, refs[0].0 as int);
        }
        lemma_deep_list_stable(ts1, ts2, n, refs.drop_first(), b);
    }
}

/// With every handle below `b`, the list expands element by element.
pub proof fn lemma_deep_list_map(ts: Seq<Type>, refs: Seq<TypeRef>, b: int)
    requires
        all_below(refs, b),
    ensures
        deep_list(ts, refs, b) == Seq::new(refs.len(), |k: int| deep(ts, refs[k].0 as int)),
{
    if refs.len() == 0 {
        assert(deep_list(ts, refs, b) =~= Seq::new(refs.len(), |k: int| deep(ts, refs[k].0 as int)));
    } else {
        assert forall|k: int| 0 <= k < refs.len() implies deep_list(ts, refs, b)[k] == deep(
            ts,
            refs[k].0 as int,
        ) by {
            lemma_deep_list_index(ts, refs, b, k);
        }
        lemma_deep_list_index(ts, refs, b, 0);
        assert(deep_list(ts, refs, b) =~= Seq::new(refs.len(), |k: int| deep(ts, refs[k].0 as int)));
    }
}

proof fn lemma_named_def_member(named: Seq<NamedStructEntry>, name: Seq<char>)
    ensures
        named_def(named, name) is Some ==> exists|k: int|
            0 <= k < named.len() && (#[trigger] named[k]).def == named_def(named, name)->Some_0,
    decreases named.len(),
{
    if named.len() > 0 && named.last().name@ != name {
        lemma_named_def_member(named.drop_last(), name);
        if named_def(named, name) is Some {
            let k = choose|k: int|
                0 <= k < named.drop_last().len() && (#[trigger] named.drop_last()[k]).def
                    == named_def(named.drop_last(), name)->Some_0;
            assert(named[k] == named.drop_last()[k]);
        }
    } else if named.len() > 0 {
        assert(named[named.len() - 1] == named.last());
    }
}

/// A name absent from the table is held by none of its entries.
proof fn lemma_named_absent(named: Seq<NamedStructEntry>, name: Seq<char>)
    requires
        named_def(named, name) is None,
    ensures
        forall|k: int| 0 <= k < named.len() ==> (#[trigger] named[k]).name@ != name,
    decreases named.len(),
{
    if named.len() > 0 {
        lemma_named_absent(named.drop_last(), name);
        assert forall|k: int| 0 <= k < named.len() implies (#[trigger] named[k]).name@ != name by {
            if k < named.len() - 1 {
                assert(named[k] == named.drop_last()[k]);
            }
        }
    }
}

/// Replacing the one entry that holds a name changes the lookup of that name
/// only.
proof fn lemma_named_update(
    named: Seq<NamedStructEntry>,
    k: int,
    e: NamedStructEntry,
    name: Seq<char>,
)
    requires
        0 <= k < named.len(),
        named[k].name@ == e.name@,
        forall|j: int| 0 <= j < named.len() && j != k ==> (#[trigger] named[j]).name@ != e.name@,
    ensures
        named_def(named.update(k, e), name) == if name == e.name@ {
            Some(e.def)
        } else {
            named_def(named, name)
        },
    decreases named.len(),
{
    let u = named.update(k, e);
    if k == named.len() - 1 {
        assert(u.drop_last() =~= named.drop_last());
    } else {
        assert(u.drop_last() =~= named.drop_last().update(k, e));
        assert(u.last() == named.last());
        assert forall|j: int|
            0 <= j < named.drop_last().len() && j != k implies (
            #[trigger] named.drop_last()[j]).name@ != e.name@ by {
            assert(named.drop_last()[j] == named[j]);
        }
        lemma_named_update(named.drop_last(), k, e, name);
    }
}

pub proof fn lemma_deep_list_len(ts: Seq<Type>, refs: Seq<TypeRef>, b: int)
    requires
        b >= 0,
    ensures
        deep_list(ts, refs, b).len() == refs.len(),
    decreases refs.len(),
{
    if refs.len() > 0 {
        lemma_deep_list_len(ts, refs.drop_first(), b);
    }
}

impl Types {
    pub open spec fn wf(&self) -> bool {
        &&& forall|i: int|
            0 <= i < self.entries@.len() ==> refs_below(#[trigger] self.entries@[i], i)
        &&& forall|i: int, j: int|
            0 <= i < j < self.entries@.len() ==> !shape_eq(
                #[trigger] self.entries@[i],
                #[trigger] self.entries@[j],
            )
        &&& forall|k: int|
            0 <= k < self.named@.len() ==> match (#[trigger] self.named@[k]).def {
                NamedStructDef::Defined(b) => 0 <= b.0 < self.entries@.len()
                    && self.entries@[b.0 as int] is StructType,
                NamedStructDef::Opaque => true,
            }
        &&& forall|i: int, j: int|
            0 <= i < j < self.named@.len() ==> (#[trigger] self.named@[i]).name@ != (
            #[trigger] self.named@[j]).name@
    }

    /// `self` holds every entry of `old` at its place, and the same table.
    pub open spec fn extends(&self, old: &Types) -> bool {
        &&& old.entries@.len() <= self.entries@.len()
        &&& forall|i: int| 0 <= i < old.entries@.len() ==> self.entries@[i] == old.entries@[i]
        &&& self.named@ == old.named@
    }

    /// Every entry of `old` is kept; the table may change.
    pub open spec fn keeps_entries(&self, old: &Types) -> bool {
        &&& old.entries@.len() <= self.entries@.len()
        &&& forall|i: int| 0 <= i < old.entries@.len() ==> self.entries@[i] == old.entries@[i]
    }

    pub open spec fn valid(&self, r: TypeRef) -> bool {
        r.0 < self.entries@.len()
    }

    /// The expanded form of `r`.
    pub open spec fn deep(&self, r: TypeRef) -> SType {
        deep(self.entries@, r.0 as int)
    }

    pub open spec fn lookup(&self, name: Seq<char>) -> Option<NamedStructDef> {
        named_def(self.named@, name)
    }

    /// The expanded forms of a list of handles.
    pub open spec fn deep_seq(&self, refs: Seq<TypeRef>) -> Seq<SType> {
        Seq::new(refs.len(), |k: int| self.deep(refs[k]))
    }

    /// Keeping the entries keeps what each handle expands to.
    pub proof fn lemma_keeps_deep(&self, old: &Types)
        requires
            self.keeps_entries(old),
        ensures
            forall|x: TypeRef|
                #![trigger self.deep(x)]
                #![trigger old.valid(x)]
                old.valid(x) ==> self.deep(x) == old.deep(x),
    {
        assert forall|x: TypeRef| old.valid(x) implies #[trigger] self.deep(x) == old.deep(x) by {
            lemma_deep_stable(self.entries@, old.entries@, old.entries@.len() as int, x.0 as int);
        }
    }

    /// The interner is canonical: two handles whose types expand to the same
    /// value are one handle.
    pub proof fn lemma_deep_injective(&self, a: TypeRef, b: TypeRef)
        requires
            self.wf(),
            self.valid(a),
            self.valid(b),
            self.deep(a) == self.deep(b),
        ensures
            a == b,
        decreases a.0 + b.0,
    {
        let ts = self.entries@;
        let ea = ts[a.0 as int];
        let eb = ts[b.0 as int];
        assert(refs_below(ea, a.0 as int));
        assert(refs_below(eb, b.0 as int));
        match (ea, eb) {
            (
                Type::PointerType { pointee_type: p, .. },
                Type::PointerType { pointee_type: q, .. },
            ) => {
                self.lemma_deep_injective(p, q);
            },
            (
                Type::VectorType { element_type: p, .. },
                Type::VectorType { element_type: q, .. },
            ) => {
                self.lemma_deep_injective(p, q);
            },
            (Type::ArrayType { element_type: p, .. }, Type::ArrayType { element_type: q, .. }) => {
                self.lemma_deep_injective(p, q);
            },
            (
                Type::StructType { element_types: e1, .. },
                Type::StructType { element_types: e2, .. },
            ) => {
                self.lemma_refs_injective(e1@, e2@, a.0 as int, b.0 as int);
            },
            (
                Type::FuncType { result_type: r1, param_types: p1, .. },
                Type::FuncType { result_type: r2, param_types: p2, .. },
            ) => {
                self.lemma_deep_injective(r1, r2);
                self.lemma_refs_injective(p1@, p2@, a.0 as int, b.0 as int);
            },
            _ => {},
        }
        assert(shape_eq(ea, eb));
        if a.0 < b.0 {
            assert(!shape_eq(ts[a.0 as int], ts[b.0 as int]));
        } else if b.0 < a.0 {
            assert(!shape_eq(ts[b.0 as int], ts[a.0 as int]));
            assert(shape_eq(eb, ea));
        }
    }

    proof fn lemma_refs_injective(&self, r1: Seq<TypeRef>, r2: Seq<TypeRef>, a: int, b: int)
        requires
            self.wf(),
            0 <= a < self.entries@.len(),
            0 <= b < self.entries@.len(),
            all_below(r1, a),
            all_below(r2, b),
            deep_list(self.entries@, r1, a) == deep_list(self.entries@, r2, b),
        ensures
            r1 == r2,
        decreases a + b, 0int,
    {
        let ts = self.entries@;
        lemma_deep_list_map(ts, r1, a);
        lemma_deep_list_map(ts, r2, b);
        assert(r1.len() == r2.len()) by {
            assert(deep_list(ts, r1, a).len() == r1.len());
            assert(deep_list(ts, r2, b).len() == r2.len());
        }
        assert forall|k: int| 0 <= k < r1.len() implies r1[k] == r2[k] by {
            assert(deep_list(ts, r1, a)[k] == deep(ts, r1[k].0 as int));
            assert(deep_list(ts, r2, b)[k] == deep(ts, r2[k].0 as int));
            assert(0 <= r1[k].0 < a);
            assert(0 <= r2[k].0 < b);
            self.lemma_deep_injective(r1[k], r2[k]);
        }
        assert(r1 =~= r2);
    }

    /// A defined name's body is a structure held by the interner.
    pub proof fn lemma_lookup_valid(&self, name: Seq<char>)
        requires
            self.wf(),
        ensures
            self.lookup(name) matches Some(NamedStructDef::Defined(b)) ==> self.valid(b)
                && self.entries@[b.0 as int] is StructType,
    {
        lemma_named_def_member(self.named@, name);
    }

    /// Recursive types close up: a reference to a named structure, wherever
    /// it stands (within that structure's own body, or within another one's
    /// that it refers to), is the one canonical handle of that name, and
    /// resolves to the table's one entry for it.
    pub proof fn lemma_named_reference_closure(&self, r1: TypeRef, r2: TypeRef)
        requires
            self.wf(),
            self.valid(r1),
            self.valid(r2),
            self.deep(r1) is Named,
            self.deep(r1) == self.deep(r2),
        ensures
            r1 == r2,
            self.entries@[r1.0 as int] matches Type::NamedStructType { name }
                && self.lookup(name@) == self.lookup(self.deep(r2)->Named_0),
    {
        self.lemma_deep_injective(r1, r2);
    }

    pub fn new() -> (r: Types)
        ensures
            r.wf(),
            r.entries@.len() == 0,
            r.named@.len() == 0,
    {
        Types { entries: Vec::new(), named: Vec::new() }
    }

    /// The type at handle `r`.
    pub fn get(&self, r: TypeRef) -> (t: &Type)
        requires
            self.valid(r),
        ensures
            *t == self.entries@[r.0 as int],
    {
        &self.entries[r.0]
    }

    /// The void type.
    pub fn void_type(&mut self) -> (r: TypeRef)
        requires
            old(self).wf(),
        ensures
            final(self).wf(),
            final(self).extends(old(self)),
            final(self).valid(r),
            shape_eq(final(self).entries@[r.0 as int], Type::VoidType),
            final(self).deep(r) == SType::Void,
    {
        self.intern(Type::VoidType)
    }

    /// The integer type of the given width.
    pub fn int_type(&mut self, bits: u32) -> (r: TypeRef)
        requires
            old(self).wf(),
        ensures
            final(self).wf(),
            final(self).extends(old(self)),
            final(self).valid(r),
            shape_eq(final(self).entries@[r.0 as int], Type::IntegerType { bits }),
            final(self).deep(r) == SType::Int(bits),
    {
        self.intern(Type::IntegerType { bits })
    }

    /// The one-bit integer type of comparison results.
    pub fn bool(&mut self) -> (r: TypeRef)
        requires
            old(self).wf(),
        ensures
            final(self).wf(),
            final(self).extends(old(self)),
            final(self).valid(r),
            shape_eq(final(self).entries@[r.0 as int], Type::IntegerType { bits: 1 }),
            final(self).deep(r) == SType::Int(1),
    {
        self.intern(Type::IntegerType { bits: 1 })
    }

    /// The floating-point type of the given kind.
    pub fn fp(&mut self, kind: FPType) -> (r: TypeRef)
        requires
            old(self).wf(),
        ensures
            final(self).wf(),
            final(self).extends(old(self)),
            final(self).valid(r),
            shape_eq(final(self).entries@[r.0 as int], Type::FPType(kind)),
            final(self).deep(r) == SType::FP(kind),
    {
        self.intern(Type::FPType(kind))
    }

    /// The type of basic-block labels.
    pub fn label_type(&mut self) -> (r: TypeRef)
        requires
            old(self).wf(),
        ensures
            final(self).wf(),
            final(self).extends(old(self)),
            final(self).valid(r),
            shape_eq(final(self).entries@[r.0 as int], Type::LabelType),
            final(self).deep(r) == SType::Label,
    {
        self.intern(Type::LabelType)
    }

    /// The token type.
    pub fn token_type(&mut self) -> (r: TypeRef)
        requires
            old(self).wf(),
        ensures
            final(self).wf(),
            final(self).extends(old(self)),
            final(self).valid(r),
            shape_eq(final(self).entries@[r.0 as int], Type::TokenType),
            final(self).deep(r) == SType::Token,
    {
        self.intern(Type::TokenType)
    }

    /// The metadata type.
    pub fn metadata_type(&mut self) -> (r: TypeRef)
        requires
            old(self).wf(),
        ensures
            final(self).wf(),
            final(self).extends(old(self)),
            final(self).valid(r),
            shape_eq(final(self).entries@[r.0 as int], Type::MetadataType),
            final(self).deep(r) == SType::Metadata,
    {
        self.intern(Type::MetadataType)
    }

    /// A reference, by name, to a named structure type.
    pub fn named_struct(&mut self, name: String) -> (r: TypeRef)
        requires
            old(self).wf(),
        ensures
            final(self).wf(),
            final(self).extends(old(self)),
            final(self).valid(r),
            shape_eq(final(self).entries@[r.0 as int], Type::NamedStructType { name }),
            final(self).deep(r) == SType::Named(name@),
    {
        self.intern(Type::NamedStructType { name })
    }

    /// A pointer to `t` in the default address space.
    pub fn pointer_to(&mut self, t: TypeRef) -> (r: TypeRef)
        requires
            old(self).wf(),
            old(self).valid(t),
        ensures
            final(self).wf(),
            final(self).extends(old(self)),
            final(self).valid(r),
            shape_eq(final(self).entries@[r.0 as int], Type::PointerType { pointee_type: t, addr_space: 0 }),
            final(self).deep(r) == SType::Pointer(Box::new(old(self).deep(t)), 0),
    {
        let r = self.intern(Type::PointerType { pointee_type: t, addr_space: 0 });
        proof {
            self.lemma_keeps_deep(old(self));
        }
        r
    }

    /// A pointer to `t` in the given address space.
    pub fn pointer_in(&mut self, t: TypeRef, addr_space: u32) -> (r: TypeRef)
        requires
            old(self).wf(),
            old(self).valid(t),
        ensures
            final(self).wf(),
            final(self).extends(old(self)),
            final(self).valid(r),
            shape_eq(final(self).entries@[r.0 as int], Type::PointerType { pointee_type: t, addr_space }),
            final(self).deep(r) == SType::Pointer(Box::new(old(self).deep(t)), addr_space),
    {
        let r = self.intern(Type::PointerType { pointee_type: t, addr_space });
        proof {
            self.lemma_keeps_deep(old(self));
        }
        r
    }

    /// A vector of `n` elements of type `t`.
    pub fn vector_of(&mut self, t: TypeRef, n: usize) -> (r: TypeRef)
        requires
            old(self).wf(),
            old(self).valid(t),
        ensures
            final(self).wf(),
            final(self).extends(old(self)),
            final(self).valid(r),
            shape_eq(final(self).entries@[r.0 as int], Type::VectorType { element_type: t, num_elements: n }),
            final(self).deep(r) == SType::Vector(Box::new(old(self).deep(t)), n as nat),
    {
        let r = self.intern(Type::VectorType { element_type: t, num_elements: n });
        proof {
            self.lemma_keeps_deep(old(self));
        }
        r
    }

    /// An array of `n` elements of type `t`.
    pub fn array_of(&mut self, t: TypeRef, n: usize) -> (r: TypeRef)
        requires
            old(self).wf(),
            old(self).valid(t),
        ensures
            final(self).wf(),
            final(self).extends(old(self)),
            final(self).valid(r),
            shape_eq(final(self).entries@[r.0 as int], Type::ArrayType { element_type: t, num_elements: n }),
            final(self).deep(r) == SType::Array(Box::new(old(self).deep(t)), n as nat),
    {
        let r = self.intern(Type::ArrayType { element_type: t, num_elements: n });
        proof {
            self.lemma_keeps_deep(old(self));
        }
        r
    }

    /// A literal (unnamed) structure of the given element types.
    pub fn struct_of(&mut self, element_types: Vec<TypeRef>, is_packed: bool) -> (r: TypeRef)
        requires
            old(self).wf(),
            forall|k: int| 0 <= k < element_types@.len() ==> old(self).valid(#[trigger] element_types@[k]),
        ensures
            final(self).wf(),
            final(self).extends(old(self)),
            final(self).valid(r),
            shape_eq(final(self).entries@[r.0 as int], Type::StructType { element_types, is_packed }),
            final(self).deep(r) == SType::Struct(old(self).deep_seq(element_types@), is_packed),
            final(self).entries@[r.0 as int] is StructType,
    {
        let ghost elems = element_types@;
        let r = self.intern(Type::StructType { element_types, is_packed });
        proof {
            self.lemma_keeps_deep(old(self));
            let ts = self.entries@;
            assert(all_below(elems, r.0 as int));
            lemma_deep_list_map(ts, elems, r.0 as int);
            assert forall|k: int| 0 <= k < elems.len() implies #[trigger] old(self).valid(elems[k]) by {}
            assert(deep_list(ts, elems, r.0 as int) =~= old(self).deep_seq(elems));
        }
        r
    }

    /// A function type.
    pub fn func_type(
        &mut self,
        result_type: TypeRef,
        param_types: Vec<TypeRef>,
        is_var_arg: bool,
    ) -> (r: TypeRef)
        requires
            old(self).wf(),
            old(self).valid(result_type),
            forall|k: int| 0 <= k < param_types@.len() ==> old(self).valid(#[trigger] param_types@[k]),
        ensures
            final(self).wf(),
            final(self).extends(old(self)),
            final(self).valid(r),
            shape_eq(final(self).entries@[r.0 as int], Type::FuncType { result_type, param_types, is_var_arg }),
            final(self).deep(r) == SType::Func(
                Box::new(old(self).deep(result_type)),
                old(self).deep_seq(param_types@),
                is_var_arg,
            ),
    {
        let ghost params = param_types@;
        let r = self.intern(Type::FuncType { result_type, param_types, is_var_arg });
        proof {
            self.lemma_keeps_deep(old(self));
            let ts = self.entries@;
            assert(all_below(params, r.0 as int));
            lemma_deep_list_map(ts, params, r.0 as int);
            assert forall|k: int| 0 <= k < params.len() implies #[trigger] old(self).valid(params[k]) by {}
            assert(deep_list(ts, params, r.0 as int) =~= old(self).deep_seq(params));
        }
        r
    }

    /// The index of the table entry for `name`, if any.
    fn find_named(&self, name: &String) -> (r: Option<usize>)
        ensures
            match r {
                Some(k) => k < self.named@.len() && self.named@[k as int].name@ == name@
                    && named_def(self.named@, name@) == Some(self.named@[k as int].def),
                None => named_def(self.named@, name@) is None,
            },
    {
        let mut i: usize = self.named.len();
        assert(self.named@.subrange(0, i as int) =~= self.named@);
        while i > 0
            invariant
                i <= self.named@.len(),
                named_def(self.named@, name@) == named_def(self.named@.subrange(0, i as int), name@),
            decreases i,
        {
            let ghost pre = self.named@.subrange(0, i as int);
            assert(pre.drop_last() =~= self.named@.subrange(0, i - 1));
            if self.named[i - 1].name == *name {
                return Some(i - 1);
            }
            i -= 1;
        }
        assert(self.named@.subrange(0, 0) =~= Seq::<NamedStructEntry>::empty());
        None
    }

    /// What the named-struct table holds for `name`: `None` for a name never
    /// recorded.
    pub fn named_struct_def(&self, name: &String) -> (r: Option<NamedStructDef>)
        ensures
            r == self.lookup(name@),
    {
        match self.find_named(name) {
            Some(k) => Some(self.named[k].def),
            None => None,
        }
    }

    /// Records `def` for `name`, replacing what the table held for it.
    pub fn set_named_struct_def(&mut self, name: String, def: NamedStructDef)
        requires
            old(self).wf(),
            match def {
                NamedStructDef::Defined(b) => old(self).valid(b) && old(self).entries@[b.0 as int] is StructType,
                NamedStructDef::Opaque => true,
            },
        ensures
            final(self).wf(),
            final(self).entries@ == old(self).entries@,
            final(self).lookup(name@) == Some(def),
            forall|n: Seq<char>| n != name@ ==> #[trigger] final(self).lookup(n) == old(self).lookup(n),
    {
        let ghost nm = name@;
        match self.find_named(&name) {
            Some(k) => {
                proof {
                    assert forall|j: int| 0 <= j < self.named@.len() && j != k implies (
                        #[trigger] self.named@[j]).name@ != nm by {
                        if j < k {
                            assert(self.named@[j].name@ != self.named@[k as int].name@);
                        } else {
                            assert(self.named@[k as int].name@ != self.named@[j].name@);
                        }
                    }
                }
                let e = NamedStructEntry { name, def };
                proof {
                    assert forall|n: Seq<char>| true implies named_def(self.named@.update(k as int, e), n)
                        == if n == nm { Some(def) } else { named_def(self.named@, n) } by {
                        lemma_named_update(self.named@, k as int, e, n);
                    }
                }
                self.named.set(k, e);
                assert forall|i: int, j: int|
                    0 <= i < j < self.named@.len() implies (#[trigger] self.named@[i]).name@ != (
                    #[trigger] self.named@[j]).name@ by {
                    if i != k && j != k {
                        assert(old(self).named@[i].name@ != old(self).named@[j].name@);
                    }
                }
            },
            None => {
                proof {
                    lemma_named_absent(self.named@, nm);
                }
                self.named.push(NamedStructEntry { name, def });
                let ghost nd = self.named@;
                assert(nd.drop_last() =~= old(self).named@);
                assert forall|i: int, j: int|
                    0 <= i < j < nd.len() implies (#[trigger] nd[i]).name@ != (
                    #[trigger] nd[j]).name@ by {
                    if j == nd.len() - 1 {
                        assert(old(self).named@[i] == nd[i]);
                    } else {
                        assert(old(self).named@[i].name@ != old(self).named@[j].name@);
                    }
                }
                assert forall|n: Seq<char>| n != nm implies #[trigger] named_def(nd, n) == named_def(
                    old(self).named@,
                    n,
                ) by {}
            },
        }
    }

    /// The element type and length of `t` when it is a vector.
    pub fn as_vector(&self, t: TypeRef) -> (r: Option<(TypeRef, usize)>)
        requires
            self.wf(),
            self.valid(t),
        ensures
            match r {
                Some((e, n)) => self.valid(e) && self.deep(t) == SType::Vector(
                    Box::new(self.deep(e)),
                    n as nat,
                ),
                None => !(self.deep(t) is Vector),
            },
    {
        match self.get(t) {
            Type::VectorType { element_type, num_elements } => Some((*element_type, *num_elements)),
            _ => None,
        }
    }

    /// The handle of an entry of the same shape as `t`, if there is one.
    fn find(&self, t: &Type) -> (r: Option<TypeRef>)
        ensures
            match r {
                Some(x) => self.valid(x) && shape_eq(self.entries@[x.0 as int], *t),
                None => forall|i: int|
                    0 <= i < self.entries@.len() ==> !shape_eq(#[trigger] self.entries@[i], *t),
            },
    {
        let mut i: usize = 0;
        while i < self.entries.len()
            invariant
                i <= self.entries@.len(),
                forall|j: int| 0 <= j < i ==> !shape_eq(#[trigger] self.entries@[j], *t),
            decreases self.entries@.len() - i,
        {
            if same_shape(&self.entries[i], t) {
                return Some(TypeRef(i));
            }
            i += 1;
        }
        None
    }

    /// The canonical handle for `t`: the existing one, or a new entry.
    fn intern(&mut self, t: Type) -> (r: TypeRef)
        requires
            old(self).wf(),
            refs_below(t, old(self).entries@.len() as int),
        ensures
            final(self).wf(),
            final(self).extends(old(self)),
            final(self).valid(r),
            shape_eq(final(self).entries@[r.0 as int], t),
            final(self).entries@.len() <= old(self).entries@.len() + 1,
    {
        match self.find(&t) {
            Some(r) => r,
            None => {
                let n = self.entries.len();
                self.entries.push(t);
                assert(forall|i: int| 0 <= i < n ==> self.entries@[i] == old(self).entries@[i]);
                assert(forall|k: int|
                    0 <= k < self.named@.len() ==> (#[trigger] self.named@[k]) == old(
                        self,
                    ).named@[k]);
                TypeRef(n)
            },
        }
    }
}

} // verus!
