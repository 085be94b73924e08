//! The capability bound on the type parameters of the generated implementation.

use crate::derive::ignored::idents;
use crate::derive::shape::GenericParam;
use vstd::prelude::*;
use vstd::string::*;

verus! {

/// The bound that lets a type parameter be measured, as it is written in the
/// generated implementation.
pub const GET_SIZE_BOUND: &'static str = "::get_size2::GetSize";

/// Whether any of `ignored` spells `ident`.
pub fn is_ignored(ident: &String, ignored: &Vec<String>) -> (found: bool)
    ensures
        found == idents(ignored@).contains(ident@),
{
    for i in 0..ignored.len()
        invariant
            forall|j: int| 0 <= j < i ==> ignored@[j]@ != ident@,
    {
        if ignored[i] == *ident {
            assert(idents(ignored@)[i as int] == ident@);
            return true;
        }
    }
    false
}

/// Whether the generated implementation bounds `param`: it is a type
/// parameter, and the definition does not exempt it.
pub open spec fn needs_bound(param: GenericParam, ignored: Seq<Seq<char>>) -> bool {
    param matches GenericParam::Type(declared) && !ignored.contains(declared.ident@)
}

/// Whether `after` is `before` as the generated implementation declares it: a
/// parameter that needs the bound has it added behind the bounds it had, and
/// every other parameter is left as it was.
pub open spec fn bound_added(before: GenericParam, after: GenericParam, ignored: Seq<Seq<char>>) -> bool {
    if needs_bound(before, ignored) {
        &&& after is Type
        &&& after->Type_0.ident == before->Type_0.ident
        &&& after->Type_0.bounds@.len() == before->Type_0.bounds@.len() + 1
        &&& after->Type_0.bounds@.drop_last() == before->Type_0.bounds@
        &&& after->Type_0.bounds@.last()@ == GET_SIZE_BOUND@
    } else {
        after == before
    }
}

/// Adds the capability bound to every type parameter, unless the definition
/// exempts it. Lifetimes and constants are left alone, and so is the order of
/// the parameters.
pub fn add_trait_bounds(generics: Vec<GenericParam>, ignored: &Vec<String>) -> (bounded: Vec<
    GenericParam,
>)
    ensures
        bounded@.len() == generics@.len(),
        forall|i: int|
            0 <= i < generics@.len() ==> bound_added(
                #[trigger] generics@[i],
                bounded@[i],
                idents(ignored@),
            ),
{
    let ghost declared = generics@;
    let mut generics = generics;
    let count = generics.len();
    for i in 0..count
        invariant
            count == declared.len(),
            generics@.len() == declared.len(),
            forall|j: int|
                0 <= j < i ==> bound_added(#[trigger] declared[j], generics@[j], idents(ignored@)),
            forall|j: int| i <= j < declared.len() ==> generics@[j] == #[trigger] declared[j],
    {
        let ghost earlier = generics@;
        if let GenericParam::Type(type_param) = &mut generics[i] {
            if !is_ignored(&type_param.ident, ignored) {
                let ghost bounds = type_param.bounds@;
                type_param.bounds.push(String::from_str(GET_SIZE_BOUND));
                assert(type_param.bounds@.drop_last() == bounds);
            }
        }
        assert(generics@ == earlier.update(i as int, generics@[i as int]));
        assert(bound_added(declared[i as int], generics@[i as int], idents(ignored@)));
    }
    generics
}

} // verus!
