//! The shape of a type in the registry, as far as the logic here reads it.
use vstd::prelude::*;

use super::naming::{QualifiedNameView, QualifiedTypeName};

verus! {

/// The shape of a type: a reference to a registered type, a primitive, or a
/// container of other shapes.
#[derive(Debug)]
pub enum Format {
    /// A registered (named) type.
    TypeName(QualifiedTypeName),
    Unit,
    Bool,
    I8,
    I16,
    I32,
    I64,
    I128,
    U8,
    U16,
    U32,
    U64,
    U128,
    F32,
    F64,
    Char,
    Str,
    Bytes,
    Uuid,
    Option(Box<Format>),
    SeqOf(Box<Format>),
    SetOf(Box<Format>),
    MapOf { key: Box<Format>, value: Box<Format> },
    Tuple(Vec<Format>),
    TupleArray { content: Box<Format>, size: usize },
}

/// The names of the registered types `f` mentions, in the depth-first,
/// left-to-right order a visit of the format meets them, repeats included.
pub open spec fn names_in(f: Format) -> Seq<QualifiedNameView>
    decreases f,
{
    match f {
        Format::TypeName(name) => seq![name@],
        Format::Option(inner) => names_in(*inner),
        Format::SeqOf(inner) => names_in(*inner),
        Format::SetOf(inner) => names_in(*inner),
        Format::TupleArray { content, .. } => names_in(*content),
        Format::MapOf { key, value } => names_in(*key) + names_in(*value),
        Format::Tuple(formats) => names_in_all(formats@),
        _ => Seq::empty(),
    }
}

/// [`names_in`] of each format in turn, concatenated.
pub open spec fn names_in_all(formats: Seq<Format>) -> Seq<QualifiedNameView>
    decreases formats,
{
    if formats.len() == 0 {
        Seq::empty()
    } else {
        names_in_all(formats.drop_last()) + names_in(formats.last())
    }
}

/// `acc` followed by those of `names` it does not hold yet, each once, in
/// first-seen order.
pub open spec fn add_new<A>(acc: Seq<A>, names: Seq<A>) -> Seq<A>
    decreases names.len(),
{
    if names.len() == 0 {
        acc
    } else {
        let acc2 = add_new(acc, names.drop_last());
        if acc2.contains(names.last()) {
            acc2
        } else {
            acc2.push(names.last())
        }
    }
}

pub proof fn lemma_add_new_concat<A>(acc: Seq<A>, a: Seq<A>, b: Seq<A>)
    ensures
        add_new(acc, a + b) == add_new(add_new(acc, a), b),
    decreases b.len(),
{
    if b.len() == 0 {
        assert(a + b == a);
    } else {
        assert((a + b).drop_last() == a + b.drop_last());
        lemma_add_new_concat(acc, a, b.drop_last());
    }
}

pub proof fn lemma_add_new_one<A>(acc: Seq<A>, n: A)
    ensures
        add_new(acc, seq![n]) == if acc.contains(n) { acc } else { acc.push(n) },
{
    reveal_with_fuel(add_new, 2);
    assert(seq![n].drop_last() == Seq::<A>::empty());
}

/// Whether `names` already holds `name`.
fn holds_name(names: &Vec<QualifiedTypeName>, name: &QualifiedTypeName) -> (b: bool)
    ensures
        b == names@.map_values(|n: QualifiedTypeName| n@).contains(name@),
{
    let ghost views = names@.map_values(|n: QualifiedTypeName| n@);
    let mut i: usize = 0;
    while i < names.len()
        invariant
            0 <= i <= names@.len(),
            views == names@.map_values(|n: QualifiedTypeName| n@),
            forall|j: int| 0 <= j < i ==> views[j] != name@,
        decreases names.len() - i,
    {
        if names[i].same_as(name) {
            assert(views[i as int] == name@);
            return true;
        }
        i = i + 1;
    }
    false
}

impl Format {
    /// Add to `names` each registered type this format mentions that it does
    /// not hold yet, in the order a visit meets them.
    pub fn collect_names(&self, names: &mut Vec<QualifiedTypeName>)
        ensures
            final(names)@.map_values(|n: QualifiedTypeName| n@)
                == add_new(old(names)@.map_values(|n: QualifiedTypeName| n@), names_in(*self)),
        decreases self,
    {
        match self {
            Format::TypeName(name) => {
                proof {
                    lemma_add_new_one(names@.map_values(|n: QualifiedTypeName| n@), name@);
                }
                if !holds_name(names, name) {
                    names.push(name.copy());
                    assert(names@.map_values(|n: QualifiedTypeName| n@)
                        == old(names)@.map_values(|n: QualifiedTypeName| n@).push(name@));
                }
            },
            Format::Option(inner) => inner.collect_names(names),
            Format::SeqOf(inner) => inner.collect_names(names),
            Format::SetOf(inner) => inner.collect_names(names),
            Format::TupleArray { content, .. } => content.collect_names(names),
            Format::MapOf { key, value } => {
                proof {
                    lemma_add_new_concat(names@.map_values(|n: QualifiedTypeName| n@), names_in(**key), names_in(**value));
                }
                key.collect_names(names);
                value.collect_names(names);
            },
            Format::Tuple(formats) => {
                let mut i: usize = 0;
                let ghost start = names@.map_values(|n: QualifiedTypeName| n@);
                proof {
                    assert(formats@.subrange(0, 0) == Seq::<Format>::empty());
                }
                #[verifier::loop_isolation(false)]
                while i < formats.len()
                    invariant
                        0 <= i <= formats@.len(),
                        names@.map_values(|n: QualifiedTypeName| n@)
                            == add_new(start, names_in_all(formats@.subrange(0, i as int))),
                    decreases formats.len() - i,
                {
                    proof {
                        let pre = formats@.subrange(0, i as int);
                        let next = formats@.subrange(0, i + 1);
                        assert(next.drop_last() == pre);
                        lemma_add_new_concat(start, names_in_all(pre), names_in(formats@[i as int]));
                    }
                    proof {
                        assert(decreases_to!(*formats => formats@));
                        assert(decreases_to!(formats@ => formats@[i as int]));
                        assert(decreases_to!(*self => (*self)->Tuple_0));
                        assert(decreases_to!(*self => formats@[i as int]));
                    }
                    formats[i].collect_names(names);
                    i = i + 1;
                }
                assert(formats@.subrange(0, formats@.len() as int) == formats@);
            },
            _ => {
                assert(add_new(names@.map_values(|n: QualifiedTypeName| n@), Seq::empty())
                    == names@.map_values(|n: QualifiedTypeName| n@));
            },
        }
    }
}

} // verus!
