use vstd::prelude::*;

verus! {

/// A value's identity: either an explicit textual name or a sequence number
/// assigned in traversal order within its scope.
#[derive(Debug)]
pub enum Name {
    Name(String),
    Number(usize),
}

/// The mathematical form of a `Name`.
pub enum NameView {
    Named(Seq<char>),
    Numbered(nat),
}

impl View for Name {
    type V = NameView;

    open spec fn view(&self) -> NameView {
        match self {
            Name::Name(s) => NameView::Named(s@),
            Name::Number(n) => NameView::Numbered(*n as nat),
        }
    }
}

impl Clone for Name {
    fn clone(&self) -> (r: Self)
        ensures
            r == *self,
    {
        match self {
            Name::Name(s) => Name::Name(s.clone()),
            Name::Number(n) => Name::Number(*n),
        }
    }
}

impl PartialEq for Name {
    fn eq(&self, other: &Name) -> (r: bool) {
        match (self, other) {
            (Name::Name(a), Name::Name(b)) => *a == *b,
            (Name::Number(a), Name::Number(b)) => *a == *b,
            _ => false,
        }
    }
}

impl vstd::std_specs::cmp::PartialEqSpecImpl for Name {
    open spec fn obeys_eq_spec() -> bool {
        true
    }

    open spec fn eq_spec(&self, other: &Name) -> bool {
        self@ == other@
    }
}

/// The name that a scope's numbering gives to the next object: its own name
/// if it has one, otherwise the current counter value.
pub open spec fn name_for(explicit: Option<Seq<char>>, ctr: nat) -> NameView {
    match explicit {
        Some(s) => NameView::Named(s),
        None => NameView::Numbered(ctr),
    }
}

/// The counter after one object: it advances only past unnamed objects.
pub open spec fn ctr_after(explicit: Option<Seq<char>>, ctr: nat) -> nat {
    if explicit is Some { ctr } else { ctr + 1 }
}

/// Names given to a sequence of objects, in order, starting from counter `ctr`.
pub open spec fn assign_names(explicit: Seq<Option<Seq<char>>>, ctr: nat) -> Seq<NameView>
    decreases explicit.len(),
{
    if explicit.len() == 0 {
        Seq::empty()
    } else {
        seq![name_for(explicit[0], ctr)] + assign_names(
            explicit.drop_first(),
            ctr_after(explicit[0], ctr),
        )
    }
}

/// The counter after numbering a whole sequence starting from `ctr`.
pub open spec fn ctr_after_all(explicit: Seq<Option<Seq<char>>>, ctr: nat) -> nat
    decreases explicit.len(),
{
    if explicit.len() == 0 {
        ctr
    } else {
        ctr_after_all(explicit.drop_first(), ctr_after(explicit[0], ctr))
    }
}

pub open spec fn opt_view(s: Option<String>) -> Option<Seq<char>> {
    match s {
        Some(t) => Some(t@),
        None => None,
    }
}

impl Name {
    /// The explicit name when there is one, else the counter's value, which
    /// then advances by one.
    pub fn name_or_num(explicit: Option<String>, ctr: &mut usize) -> (r: Name)
        requires
            explicit is None ==> *old(ctr) < usize::MAX,
        ensures
            r@ == name_for(opt_view(explicit), *old(ctr) as nat),
            *final(ctr) as nat == ctr_after(opt_view(explicit), *old(ctr) as nat),
    {
        match explicit {
            Some(s) => Name::Name(s),
            None => {
                let n = *ctr;
                *ctr = n + 1;
                Name::Number(n)
            },
        }
    }
}

/// Numbering a concatenation is numbering each part in turn, the counter
/// carried over: the names of the second part are those it gets on its own
/// when numbering starts where the first part left the counter.
pub proof fn lemma_assign_names_append(
    a: Seq<Option<Seq<char>>>,
    b: Seq<Option<Seq<char>>>,
    ctr: nat,
)
    ensures
        assign_names(a + b, ctr) == assign_names(a, ctr) + assign_names(
            b,
            ctr_after_all(a, ctr),
        ),
    decreases a.len(),
{
    if a.len() == 0 {
        assert(a + b =~= b);
        assert(assign_names(a, ctr) =~= Seq::<NameView>::empty());
        assert(assign_names(a, ctr) + assign_names(b, ctr) =~= assign_names(b, ctr));
    } else {
        assert((a + b).drop_first() =~= a.drop_first() + b);
        lemma_assign_names_append(a.drop_first(), b, ctr_after(a[0], ctr));
        assert(assign_names(a + b, ctr) =~= assign_names(a, ctr) + assign_names(
            b,
            ctr_after_all(a, ctr),
        ));
    }
}

/// Within a concatenation, each part is named as it would be on its own, the
/// second starting from the counter that the first leaves.
pub proof fn lemma_numbering_split(
    a: Seq<Option<Seq<char>>>,
    b: Seq<Option<Seq<char>>>,
    ctr: nat,
)
    ensures
        forall|k: int|
            0 <= k < a.len() ==> #[trigger] assign_names(a + b, ctr)[k] == assign_names(a, ctr)[k],
        forall|k: int|
            0 <= k < b.len() ==> #[trigger] assign_names(a + b, ctr)[a.len() + k] == assign_names(
                b,
                ctr_after_all(a, ctr),
            )[k],
        assign_names(a + b, ctr).len() == a.len() + b.len(),
{
    lemma_assign_names_append(a, b, ctr);
    lemma_assign_names_len(a, ctr);
    lemma_assign_names_len(b, ctr_after_all(a, ctr));
    lemma_assign_names_len(a + b, ctr);
}

pub proof fn lemma_ctr_after_all_append(
    a: Seq<Option<Seq<char>>>,
    b: Seq<Option<Seq<char>>>,
    ctr: nat,
)
    ensures
        ctr_after_all(a + b, ctr) == ctr_after_all(b, ctr_after_all(a, ctr)),
    decreases a.len(),
{
    if a.len() == 0 {
        assert(a + b =~= b);
    } else {
        assert((a + b).drop_first() =~= a.drop_first() + b);
        lemma_ctr_after_all_append(a.drop_first(), b, ctr_after(a[0], ctr));
    }
}

/// Numbering one more object extends the names by the one it gets.
pub proof fn lemma_assign_names_push(
    explicit: Seq<Option<Seq<char>>>,
    x: Option<Seq<char>>,
    ctr: nat,
)
    ensures
        assign_names(explicit.push(x), ctr) == assign_names(explicit, ctr).push(
            name_for(x, ctr_after_all(explicit, ctr)),
        ),
        ctr_after_all(explicit.push(x), ctr) == ctr_after(x, ctr_after_all(explicit, ctr)),
{
    let one = seq![x];
    assert(explicit.push(x) =~= explicit + one);
    lemma_assign_names_append(explicit, one, ctr);
    lemma_ctr_after_all_append(explicit, one, ctr);
    let c = ctr_after_all(explicit, ctr);
    let none = Seq::<Option<Seq<char>>>::empty();
    assert(one.drop_first() =~= none);
    assert(one[0] == x);
    assert(assign_names(none, ctr_after(x, c)) =~= Seq::<NameView>::empty());
    assert(ctr_after_all(none, ctr_after(x, c)) == ctr_after(x, c));
    assert(ctr_after_all(one, c) == ctr_after(x, c));
    assert(assign_names(one, c) =~= seq![name_for(x, c)]);
}

/// The counter never goes back.
pub proof fn lemma_ctr_after_all_grows(explicit: Seq<Option<Seq<char>>>, ctr: nat)
    ensures
        ctr_after_all(explicit, ctr) >= ctr,
    decreases explicit.len(),
{
    if explicit.len() > 0 {
        lemma_ctr_after_all_grows(explicit.drop_first(), ctr_after(explicit[0], ctr));
    }
}

/// Numbering a prefix leaves the counter no further than numbering the whole.
pub proof fn lemma_ctr_after_all_prefix(explicit: Seq<Option<Seq<char>>>, k: int, ctr: nat)
    requires
        0 <= k <= explicit.len(),
    ensures
        ctr_after_all(explicit.subrange(0, k), ctr) <= ctr_after_all(explicit, ctr),
{
    let a = explicit.subrange(0, k);
    let b = explicit.subrange(k, explicit.len() as int);
    assert(explicit =~= a + b);
    lemma_ctr_after_all_append(a, b, ctr);
    lemma_ctr_after_all_grows(b, ctr_after_all(a, ctr));
}

/// Each number given from counter `ctr` lies between `ctr` and the counter
/// that numbering leaves.
pub proof fn lemma_numbers_bounded(explicit: Seq<Option<Seq<char>>>, ctr: nat, k: int)
    requires
        0 <= k < explicit.len(),
        assign_names(explicit, ctr)[k] is Numbered,
    ensures
        ctr <= assign_names(explicit, ctr)[k]->Numbered_0 < ctr_after_all(explicit, ctr),
    decreases explicit.len(),
{
    let rest = explicit.drop_first();
    let c2 = ctr_after(explicit[0], ctr);
    lemma_assign_names_len(rest, c2);
    if k == 0 {
        lemma_ctr_after_all_grows(rest, c2);
    } else {
        assert(assign_names(explicit, ctr)[k] == assign_names(rest, c2)[k - 1]);
        lemma_numbers_bounded(rest, c2, k - 1);
    }
}

/// Numbering never gives one number twice.
pub proof fn lemma_numbers_distinct(explicit: Seq<Option<Seq<char>>>, ctr: nat, i: int, j: int)
    requires
        0 <= i < j < explicit.len(),
        assign_names(explicit, ctr)[i] is Numbered,
        assign_names(explicit, ctr)[j] is Numbered,
    ensures
        assign_names(explicit, ctr)[i] != assign_names(explicit, ctr)[j],
    decreases explicit.len(),
{
    let rest = explicit.drop_first();
    let c2 = ctr_after(explicit[0], ctr);
    lemma_assign_names_len(rest, c2);
    assert(assign_names(explicit, ctr)[j] == assign_names(rest, c2)[j - 1]);
    lemma_numbers_bounded(rest, c2, j - 1);
    if i > 0 {
        assert(assign_names(explicit, ctr)[i] == assign_names(rest, c2)[i - 1]);
        lemma_numbers_distinct(rest, c2, i - 1, j - 1);
    }
}

pub proof fn lemma_assign_names_len(explicit: Seq<Option<Seq<char>>>, ctr: nat)
    ensures
        assign_names(explicit, ctr).len() == explicit.len(),
    decreases explicit.len(),
{
    if explicit.len() > 0 {
        lemma_assign_names_len(explicit.drop_first(), ctr_after(explicit[0], ctr));
    }
}

} // verus!
