//! The type parameters that a definition exempts from the capability bound:
//! `#[get_size(ignore(A, B))]`.

use crate::derive::error::DeriveError;
use crate::derive::shape::{Attribute, Meta};
use vstd::prelude::*;

verus! {

/// The identifiers that a list of strings spells.
pub open spec fn idents(strings: Seq<String>) -> Seq<Seq<char>> {
    strings.map_values(|string: String| string@)
}

/// The identifiers that one parameter of an `ignore(..)` list names: every
/// segment of its path.
pub open spec fn param_idents(param: Meta) -> Seq<Seq<char>> {
    idents(param.path_spec().segments@)
}

/// Whether `item` is a list that is called `ignore`.
pub open spec fn is_ignore_list(item: Meta) -> bool {
    item is List && item.path_spec().is_ident_spec("ignore"@)
}

/// The identifiers that one item of a `get_size(..)` list exempts: those of an
/// `ignore(..)` list, and none for any other item.
pub open spec fn item_ignored(item: Meta) -> Seq<Seq<char>> {
    if is_ignore_list(item) {
        item->List_1@.flat_map(|param: Meta| param_idents(param))
    } else {
        Seq::empty()
    }
}

/// Whether one item of a `get_size(..)` list can be read: `ignore` has a list
/// of at least one path, each with nothing behind it, and any other item is a
/// path with nothing behind it.
pub open spec fn item_well_formed(item: Meta) -> bool {
    if item.path_spec().is_ident_spec("ignore"@) {
        &&& item is List
        &&& item->List_1@.len() > 0
        &&& forall|i: int| 0 <= i < item->List_1@.len() ==> #[trigger] item->List_1@[i] is Path
    } else {
        item is Path
    }
}

/// Whether `attr` is a list that is called `get_size`. No other attribute is
/// read.
pub open spec fn is_get_size_list(attr: Attribute) -> bool {
    attr.meta is List && attr.meta.path_spec().is_ident_spec("get_size"@)
}

/// The identifiers that one attribute exempts.
pub open spec fn attribute_ignored(attr: Attribute) -> Seq<Seq<char>> {
    if is_get_size_list(attr) {
        attr.meta->List_1@.flat_map(|item: Meta| item_ignored(item))
    } else {
        Seq::empty()
    }
}

/// Whether one attribute can be read: every item of a `get_size(..)` list is
/// well formed. An attribute of another name always is.
pub open spec fn attribute_well_formed(attr: Attribute) -> bool {
    is_get_size_list(attr) ==> forall|i: int|
        0 <= i < attr.meta->List_1@.len() ==> item_well_formed(#[trigger] attr.meta->List_1@[i])
}

/// The identifiers that the attributes of a definition exempt, in the order in
/// which they are written.
pub open spec fn ignored_generics(attrs: Seq<Attribute>) -> Seq<Seq<char>> {
    attrs.flat_map(|attr: Attribute| attribute_ignored(attr))
}

/// Whether every attribute of a definition can be read.
pub open spec fn attributes_well_formed(attrs: Seq<Attribute>) -> bool {
    forall|i: int| 0 <= i < attrs.len() ==> attribute_well_formed(#[trigger] attrs[i])
}

/// Mapping a prefix that is one item longer maps one item more.
proof fn lemma_map_take_push<A, B>(items: Seq<A>, f: spec_fn(A) -> B, i: int)
    requires
        0 <= i < items.len(),
    ensures
        items.take(i + 1).map_values(f) == items.take(i).map_values(f).push(f(items[i])),
{
    assert(items.take(i + 1).map_values(f) =~= items.take(i).map_values(f).push(f(items[i])));
}

/// Flattening the images of a prefix that is one item longer appends the image
/// of that item.
proof fn lemma_flat_map_take_push<A, B>(items: Seq<A>, f: spec_fn(A) -> Seq<B>, i: int)
    requires
        0 <= i < items.len(),
    ensures
        items.take(i + 1).flat_map(f) == items.take(i).flat_map(f) + f(items[i]),
{
    lemma_map_take_push(items, f, i);
    items.take(i).map_values(f).lemma_flatten_push(f(items[i]));
}

/// The identifiers of the paths that an `ignore(..)` list holds, or `None`
/// where one of its parameters is more than a path.
fn extract_ignored_params(params: &Vec<Meta>) -> (result: Option<Vec<String>>)
    ensures
        result is Some <==> forall|i: int| 0 <= i < params@.len() ==> #[trigger] params@[i] is Path,
        result matches Some(collection) ==> idents(collection@) == params@.flat_map(
            |param: Meta| param_idents(param),
        ),
{
    let ghost f = |param: Meta| param_idents(param);
    let mut collection: Vec<String> = Vec::new();
    for i in 0..params.len()
        invariant
            f == |param: Meta| param_idents(param),
            forall|j: int| 0 <= j < i ==> #[trigger] params@[j] is Path,
            idents(collection@) == params@.take(i as int).flat_map(f),
    {
        match &params[i] {
            Meta::Path(path) => {
                let ghost before = collection@;
                for k in 0..path.segments.len()
                    invariant
                        collection@ == before + path.segments@.take(k as int),
                {
                    collection.push(path.segments[k].clone());
                    assert(path.segments@.take(k + 1) == path.segments@.take(k as int).push(
                        path.segments@[k as int],
                    ));
                }
                proof {
                    assert(path.segments@.take(path.segments@.len() as int) == path.segments@);
                    assert(idents(collection@) == idents(before) + param_idents(params@[i as int]));
                    lemma_flat_map_take_push(params@, f, i as int);
                }
            },
            _ => {
                return None;
            },
        }
    }
    assert(params@.take(params@.len() as int) == params@);
    Some(collection)
}

/// The identifiers that one item of a `get_size(..)` list exempts, or `None`
/// where the item cannot be read.
fn extract_ignored_item(item: &Meta) -> (result: Option<Vec<String>>)
    ensures
        result is Some <==> item_well_formed(*item),
        result matches Some(collection) ==> idents(collection@) == item_ignored(*item),
{
    if item.path().is_ident("ignore") {
        match item {
            Meta::List(_, params) => {
                if params.len() == 0 {
                    None
                } else {
                    extract_ignored_params(params)
                }
            },
            _ => None,
        }
    } else {
        match item {
            Meta::Path(_) => {
                let collection: Vec<String> = Vec::new();
                assert(idents(collection@) == Seq::<Seq<char>>::empty());
                Some(collection)
            },
            _ => None,
        }
    }
}

/// Reads the type parameters that one attribute of a definition exempts from
/// the capability bound.
///
/// Only a list that is called `get_size` says anything: every `ignore(..)` in it
/// names parameters, by every segment of every path that it holds. The names
/// come in the order in which they are written. A `get_size(..)` list that
/// cannot be read is an error.
pub fn extract_ignored_generics(attr: &Attribute) -> (result: Result<Vec<String>, DeriveError>)
    ensures
        result is Ok <==> attribute_well_formed(*attr),
        result matches Ok(collection) ==> idents(collection@) == attribute_ignored(*attr),
        result matches Err(error) ==> error == DeriveError::MalformedIgnoreList,
{
    let mut collection: Vec<String> = Vec::new();
    // Skip all attributes which do not belong to us.
    if !attr.meta.path().is_ident("get_size") {
        assert(idents(collection@) == Seq::<Seq<char>>::empty());
        return Ok(collection);
    }
    // Make sure it is a list.
    match &attr.meta {
        Meta::List(_, items) => {
            let ghost f = |item: Meta| item_ignored(item);
            for i in 0..items.len()
                invariant
                    f == |item: Meta| item_ignored(item),
                    is_get_size_list(*attr),
                    attr.meta->List_1 == *items,
                    forall|j: int| 0 <= j < i ==> item_well_formed(#[trigger] items@[j]),
                    idents(collection@) == items@.take(i as int).flat_map(f),
            {
                match extract_ignored_item(&items[i]) {
                    Some(mut list) => {
                        proof {
                            lemma_flat_map_take_push(items@, f, i as int);
                            assert(idents(collection@ + list@) == idents(collection@) + idents(
                                list@,
                            ));
                        }
                        collection.append(&mut list);
                    },
                    None => {
                        assert(!item_well_formed(attr.meta->List_1@[i as int]));
                        return Err(DeriveError::MalformedIgnoreList);
                    },
                }
            }
            assert(items@.take(items@.len() as int) == items@);
            Ok(collection)
        },
        _ => {
            assert(idents(collection@) == Seq::<Seq<char>>::empty());
            Ok(collection)
        },
    }
}

/// Reads the type parameters that the attributes of a definition exempt from
/// the capability bound, in the order in which they are written.
pub fn extract_ignored_generics_list(list: &Vec<Attribute>) -> (result: Result<
    Vec<String>,
    DeriveError,
>)
    ensures
        result is Ok <==> attributes_well_formed(list@),
        result matches Ok(collection) ==> idents(collection@) == ignored_generics(list@),
        result matches Err(error) ==> error == DeriveError::MalformedIgnoreList,
{
    let ghost f = |attr: Attribute| attribute_ignored(attr);
    let mut collection: Vec<String> = Vec::new();
    for i in 0..list.len()
        invariant
            f == |attr: Attribute| attribute_ignored(attr),
            forall|j: int| 0 <= j < i ==> attribute_well_formed(#[trigger] list@[j]),
            idents(collection@) == list@.take(i as int).flat_map(f),
    {
        match extract_ignored_generics(&list[i]) {
            Ok(mut names) => {
                proof {
                    lemma_flat_map_take_push(list@, f, i as int);
                    assert(idents(collection@ + names@) == idents(collection@) + idents(names@));
                }
                collection.append(&mut names);
            },
            Err(error) => {
                return Err(error);
            },
        }
    }
    assert(list@.take(list@.len() as int) == list@);
    Ok(collection)
}

} // verus!
