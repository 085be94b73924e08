use get_size2::derive::bounds::{add_trait_bounds, is_ignored, GET_SIZE_BOUND};
use get_size2::derive::ignored::{extract_ignored_generics, extract_ignored_generics_list};
use get_size2::derive::traverse::traverse;
use get_size2::tracker::{NoTracker, StandardTracker};
use get_size2::derive::error::DeriveError;
use get_size2::derive::generate::{derive_get_size, GetSizeImpl, ImplBody, Step};
use get_size2::derive::shape::{
    Attribute, Data, DeriveInput, Field, FieldOverride, Fields, GenericParam, Meta, Path,
    StructFieldAttribute, TypeParam, Variant,
};
use std::mem::size_of;
use get_size2::size::GetSize;
use get_size2::tracker::GetSizeTracker;

fn plain() -> StructFieldAttribute {
    StructFieldAttribute { size: None, size_fn: None, ignore: false }
}

fn ignored() -> StructFieldAttribute {
    StructFieldAttribute { size: None, size_fn: None, ignore: true }
}

fn named(name: &str, attribute: StructFieldAttribute, type_params: &[&str]) -> Field {
    Field {
        ident: Some(name.to_string()),
        attribute,
        type_params: type_params.iter().map(|param| param.to_string()).collect(),
    }
}

fn unnamed(type_params: &[&str]) -> Field {
    Field {
        ident: None,
        attribute: plain(),
        type_params: type_params.iter().map(|param| param.to_string()).collect(),
    }
}

fn ident_path(name: &str) -> Path {
    Path { leading_colon: false, segments: vec![name.to_string()] }
}

fn ignore_attribute(params: &[&str]) -> Attribute {
    let params = params.iter().map(|param| Meta::Path(ident_path(param))).collect();
    Attribute {
        meta: Meta::List(ident_path("get_size"), vec![Meta::List(ident_path("ignore"), params)]),
    }
}

fn type_param(name: &str) -> GenericParam {
    GenericParam::Type(TypeParam { ident: name.to_string(), bounds: Vec::new() })
}

fn bounded(name: &str) -> GenericParam {
    GenericParam::Type(TypeParam { ident: name.to_string(), bounds: vec![GET_SIZE_BOUND.to_string()] })
}

fn variant(name: &str, fields: Fields) -> Variant {
    Variant { ident: name.to_string(), fields }
}

fn generate(input: DeriveInput) -> GetSizeImpl {
    derive_get_size(input).expect("the definition is accepted")
}

fn no_size_fn(_field: usize) -> usize {
    unreachable!("no field names a size function")
}

pub struct TestStruct {
    value1: String,
    value2: u64,
}

fn test_struct_input() -> DeriveInput {
    DeriveInput {
        attrs: Vec::new(),
        ident: "TestStruct".to_string(),
        generics: Vec::new(),
        data: Data::Struct(Fields::Named(vec![
            named("value1", plain(), &[]),
            named("value2", plain(), &[]),
        ])),
    }
}

impl GetSize for TestStruct {
    fn get_heap_size_with_tracker<T: GetSizeTracker>(&self, tracker: T) -> (usize, T) {
        generate(test_struct_input()).body.get_heap_size_with_tracker(
            0,
            &|field: usize, tracker: T| match field {
                0 => self.value1.get_heap_size_with_tracker(tracker),
                1 => self.value2.get_heap_size_with_tracker(tracker),
                _ => unreachable!(),
            },
            &no_size_fn,
            tracker,
        )
    }
}

#[test]
fn derive_struct() {
    let test = TestStruct { value1: "Hello".into(), value2: 123 };

    assert_eq!(test.get_heap_size(), 5);
}

#[test]
fn derive_struct_steps() {
    let generated = generate(test_struct_input());
    assert_eq!(generated.ident, "TestStruct");
    assert_eq!(generated.generics, Vec::new());
    assert_eq!(
        generated.body,
        ImplBody::Struct(vec![Step::Recurse { field: 0 }, Step::Recurse { field: 1 }])
    );
}

pub struct TestStructGenerics<A, B> {
    value1: A,
    value2: B,
}

fn test_struct_generics_input() -> DeriveInput {
    DeriveInput {
        attrs: Vec::new(),
        ident: "TestStructGenerics".to_string(),
        generics: vec![type_param("A"), type_param("B")],
        data: Data::Struct(Fields::Named(vec![
            named("value1", plain(), &["A"]),
            named("value2", plain(), &["B"]),
        ])),
    }
}

impl<A: GetSize, B: GetSize> GetSize for TestStructGenerics<A, B> {
    fn get_heap_size_with_tracker<T: GetSizeTracker>(&self, tracker: T) -> (usize, T) {
        generate(test_struct_generics_input()).body.get_heap_size_with_tracker(
            0,
            &|field: usize, tracker: T| match field {
                0 => self.value1.get_heap_size_with_tracker(tracker),
                1 => self.value2.get_heap_size_with_tracker(tracker),
                _ => unreachable!(),
            },
            &no_size_fn,
            tracker,
        )
    }
}

#[test]
fn derive_struct_with_generics() {
    let test: TestStructGenerics<String, u64> =
        TestStructGenerics { value1: "Hello".into(), value2: 123 };

    assert_eq!(test.get_heap_size(), 5);
    assert_eq!(generate(test_struct_generics_input()).generics, vec![bounded("A"), bounded("B")]);
}

struct TestStructGenericsIgnore<A, B, C> {
    value1: A,
    value2: B,
    value3: C,
}

struct TestStructNoGetSize {
    value: String,
}

fn test_struct_generics_ignore_input() -> DeriveInput {
    DeriveInput {
        attrs: vec![ignore_attribute(&["B", "C"])],
        ident: "TestStructGenericsIgnore".to_string(),
        generics: vec![type_param("A"), type_param("B"), type_param("C")],
        data: Data::Struct(Fields::Named(vec![
            named("value1", plain(), &["A"]),
            named("value2", ignored(), &["B"]),
            named("value3", ignored(), &["C"]),
        ])),
    }
}

impl<A: GetSize, B, C> GetSize for TestStructGenericsIgnore<A, B, C> {
    fn get_heap_size_with_tracker<T: GetSizeTracker>(&self, tracker: T) -> (usize, T) {
        generate(test_struct_generics_ignore_input()).body.get_heap_size_with_tracker(
            0,
            &|field: usize, tracker: T| match field {
                0 => self.value1.get_heap_size_with_tracker(tracker),
                _ => unreachable!("ignored fields are not measured"),
            },
            &no_size_fn,
            tracker,
        )
    }
}

#[test]
fn derive_struct_with_generics_and_ignore() {
    let no_impl = TestStructNoGetSize { value: "World!".into() };

    let test: TestStructGenericsIgnore<String, u64, TestStructNoGetSize> =
        TestStructGenericsIgnore { value1: "Hello".into(), value2: 123, value3: no_impl };

    assert_eq!(test.get_heap_size(), 5);
    assert_eq!(test.value2, 123);
    assert_eq!(test.value3.value, "World!");
    assert_eq!(
        generate(test_struct_generics_ignore_input()).generics,
        vec![bounded("A"), type_param("B"), type_param("C")]
    );
}

struct TestStructHelpers<A, B, C> {
    value1: A,
    value2: B,
    value3: C,
}

const fn get_size_helper<C>(_value: &C) -> usize {
    50
}

fn test_struct_helpers_input() -> DeriveInput {
    DeriveInput {
        attrs: vec![ignore_attribute(&["B", "C"])],
        ident: "TestStructHelpers".to_string(),
        generics: vec![type_param("A"), type_param("B"), type_param("C")],
        data: Data::Struct(Fields::Named(vec![
            named("value1", plain(), &["A"]),
            named(
                "value2",
                StructFieldAttribute { size: Some(100), size_fn: None, ignore: false },
                &["B"],
            ),
            named(
                "value3",
                StructFieldAttribute {
                    size: None,
                    size_fn: Some("get_size_helper".to_string()),
                    ignore: false,
                },
                &["C"],
            ),
        ])),
    }
}

impl<A: GetSize, B, C> GetSize for TestStructHelpers<A, B, C> {
    fn get_heap_size_with_tracker<T: GetSizeTracker>(&self, tracker: T) -> (usize, T) {
        generate(test_struct_helpers_input()).body.get_heap_size_with_tracker(
            0,
            &|field: usize, tracker: T| match field {
                0 => self.value1.get_heap_size_with_tracker(tracker),
                _ => unreachable!("fields with an override are not measured"),
            },
            &|field: usize| match field {
                2 => get_size_helper(&self.value3),
                _ => unreachable!("no other field names a size function"),
            },
            tracker,
        )
    }
}

#[test]
fn derive_struct_with_generics_and_helpers() {
    let no_impl = TestStructNoGetSize { value: "World!".into() };

    let test: TestStructHelpers<String, u64, TestStructNoGetSize> =
        TestStructHelpers { value1: "Hello".into(), value2: 123, value3: no_impl };

    assert_eq!(test.get_heap_size(), 5 + 100 + 50);
    assert_eq!(test.value2, 123);
    assert_eq!(
        generate(test_struct_helpers_input()).body,
        ImplBody::Struct(vec![
            Step::Recurse { field: 0 },
            Step::Fixed { bytes: 100 },
            Step::Computed { field: 2 },
        ])
    );
}

pub struct TestStructGenericsLifetimes<'a, A, B> {
    value1: A,
    value2: &'a B,
}

fn test_struct_generics_lifetimes_input() -> DeriveInput {
    DeriveInput {
        attrs: Vec::new(),
        ident: "TestStructGenericsLifetimes".to_string(),
        generics: vec![GenericParam::Lifetime("a".to_string()), type_param("A"), type_param("B")],
        data: Data::Struct(Fields::Named(vec![
            named("value1", plain(), &["A"]),
            named("value2", plain(), &["B"]),
        ])),
    }
}

impl<'a, A: GetSize, B: GetSize> GetSize for TestStructGenericsLifetimes<'a, A, B> {
    fn get_heap_size_with_tracker<T: GetSizeTracker>(&self, tracker: T) -> (usize, T) {
        generate(test_struct_generics_lifetimes_input()).body.get_heap_size_with_tracker(
            0,
            &|field: usize, tracker: T| match field {
                0 => self.value1.get_heap_size_with_tracker(tracker),
                1 => GetSize::get_heap_size_with_tracker(&self.value2, tracker),
                _ => unreachable!(),
            },
            &no_size_fn,
            tracker,
        )
    }
}

#[test]
fn derive_struct_with_generics_and_lifetimes() {
    let value = 123u64;

    let test: TestStructGenericsLifetimes<'_, String, u64> =
        TestStructGenericsLifetimes { value1: "Hello".into(), value2: &value };

    assert_eq!(test.get_heap_size(), 5);
    assert_eq!(
        generate(test_struct_generics_lifetimes_input()).generics,
        vec![GenericParam::Lifetime("a".to_string()), bounded("A"), bounded("B")]
    );
}

/// A floating-point number that is measured as the scalars of the library are.
pub struct Float(f64);

impl GetSize for Float {
    fn get_heap_size_with_tracker<T: GetSizeTracker>(&self, tracker: T) -> (usize, T) {
        (0, tracker)
    }
}

pub enum TestEnum {
    Variant1(u8, u16, u32),
    Variant2(String),
    Variant3(i64, Vec<u16>),
    Variant4(String, i32, Vec<u32>, bool, &'static str),
    Variant5(Float, TestStruct),
    Variant6,
    Variant7 { x: String, y: String },
}

fn tuple_fields(count: usize) -> Fields {
    Fields::Unnamed((0..count).map(|_| unnamed(&[])).collect())
}

fn test_enum_input() -> DeriveInput {
    DeriveInput {
        attrs: Vec::new(),
        ident: "TestEnum".to_string(),
        generics: Vec::new(),
        data: Data::Enum(vec![
            variant("Variant1", tuple_fields(3)),
            variant("Variant2", tuple_fields(1)),
            variant("Variant3", tuple_fields(2)),
            variant("Variant4", tuple_fields(5)),
            variant("Variant5", tuple_fields(2)),
            variant("Variant6", Fields::Unit),
            variant(
                "Variant7",
                Fields::Named(vec![named("x", plain(), &[]), named("y", plain(), &[])]),
            ),
        ]),
    }
}

impl GetSize for TestEnum {
    fn get_heap_size_with_tracker<T: GetSizeTracker>(&self, tracker: T) -> (usize, T) {
        let variant = match self {
            Self::Variant1(..) => 0,
            Self::Variant2(..) => 1,
            Self::Variant3(..) => 2,
            Self::Variant4(..) => 3,
            Self::Variant5(..) => 4,
            Self::Variant6 => 5,
            Self::Variant7 { .. } => 6,
        };
        generate(test_enum_input()).body.get_heap_size_with_tracker(
            variant,
            &|field: usize, tracker: T| match (self, field) {
                (Self::Variant1(v0, _, _), 0) => v0.get_heap_size_with_tracker(tracker),
                (Self::Variant1(_, v1, _), 1) => v1.get_heap_size_with_tracker(tracker),
                (Self::Variant1(_, _, v2), 2) => v2.get_heap_size_with_tracker(tracker),
                (Self::Variant2(v0), 0) => v0.get_heap_size_with_tracker(tracker),
                (Self::Variant3(v0, _), 0) => v0.get_heap_size_with_tracker(tracker),
                (Self::Variant3(_, v1), 1) => v1.get_heap_size_with_tracker(tracker),
                (Self::Variant4(v0, ..), 0) => v0.get_heap_size_with_tracker(tracker),
                (Self::Variant4(_, v1, ..), 1) => v1.get_heap_size_with_tracker(tracker),
                (Self::Variant4(_, _, v2, ..), 2) => v2.get_heap_size_with_tracker(tracker),
                (Self::Variant4(_, _, _, v3, _), 3) => v3.get_heap_size_with_tracker(tracker),
                (Self::Variant4(.., v4), 4) => GetSize::get_heap_size_with_tracker(v4, tracker),
                (Self::Variant5(v0, _), 0) => v0.get_heap_size_with_tracker(tracker),
                (Self::Variant5(_, v1), 1) => v1.get_heap_size_with_tracker(tracker),
                (Self::Variant7 { x, .. }, 0) => x.get_heap_size_with_tracker(tracker),
                (Self::Variant7 { y, .. }, 1) => y.get_heap_size_with_tracker(tracker),
                _ => unreachable!("no such field in the variant"),
            },
            &no_size_fn,
            tracker,
        )
    }
}

#[test]
fn derive_enum() {
    let test = TestEnum::Variant1(1, 2, 3);
    assert_eq!(test.get_heap_size(), 0);

    let test = TestEnum::Variant2("Hello".into());
    assert_eq!(test.get_heap_size(), 5);

    let test = TestEnum::Variant3(-12, vec![1, 2, 3]);
    assert_eq!(test.get_heap_size(), 6);

    let s: String = "Test".into();
    assert_eq!(s.get_heap_size(), 4);
    let v = vec![1, 2, 3, 4];
    assert_eq!(v.get_heap_size(), 16);
    let test = TestEnum::Variant4(s, -123, v, false, "Hello world!");
    assert_eq!(test.get_heap_size(), 4 + 16);

    let test_struct = TestStruct { value1: "Hello world".into(), value2: 123 };

    let test = TestEnum::Variant5(Float(12.34), test_struct);
    assert_eq!(test.get_heap_size(), 11);

    let test = TestEnum::Variant6;
    assert_eq!(test.get_heap_size(), 0);

    let test = TestEnum::Variant7 { x: "Hello".into(), y: "world".into() };
    assert_eq!(test.get_heap_size(), 5 + 5);
}

pub enum TestEnumGenerics<'a, A, B, C> {
    Variant1(A),
    Variant2(B),
    Variant3(&'a C),
}

fn test_enum_generics_input() -> DeriveInput {
    DeriveInput {
        attrs: Vec::new(),
        ident: "TestEnumGenerics".to_string(),
        generics: vec![
            GenericParam::Lifetime("a".to_string()),
            type_param("A"),
            type_param("B"),
            type_param("C"),
        ],
        data: Data::Enum(vec![
            variant("Variant1", Fields::Unnamed(vec![unnamed(&["A"])])),
            variant("Variant2", Fields::Unnamed(vec![unnamed(&["B"])])),
            variant("Variant3", Fields::Unnamed(vec![unnamed(&["C"])])),
        ]),
    }
}

impl<'a, A: GetSize, B: GetSize, C: GetSize> GetSize for TestEnumGenerics<'a, A, B, C> {
    fn get_heap_size_with_tracker<T: GetSizeTracker>(&self, tracker: T) -> (usize, T) {
        let variant = match self {
            Self::Variant1(..) => 0,
            Self::Variant2(..) => 1,
            Self::Variant3(..) => 2,
        };
        generate(test_enum_generics_input()).body.get_heap_size_with_tracker(
            variant,
            &|field: usize, tracker: T| match (self, field) {
                (Self::Variant1(v0), 0) => v0.get_heap_size_with_tracker(tracker),
                (Self::Variant2(v0), 0) => v0.get_heap_size_with_tracker(tracker),
                (Self::Variant3(v0), 0) => GetSize::get_heap_size_with_tracker(v0, tracker),
                _ => unreachable!("no such field in the variant"),
            },
            &no_size_fn,
            tracker,
        )
    }
}

#[test]
fn derive_enum_generics() {
    let test: TestEnumGenerics<'_, u64, String, TestStruct> = TestEnumGenerics::Variant1(123);
    assert_eq!(test.get_heap_size(), 0);

    let test: TestEnumGenerics<'_, u64, String, TestStruct> =
        TestEnumGenerics::Variant2("Hello".into());
    assert_eq!(test.get_heap_size(), 5);

    let test_struct = TestStruct { value1: "Hello world".into(), value2: 123 };

    let test: TestEnumGenerics<'_, u64, String, TestStruct> =
        TestEnumGenerics::Variant3(&test_struct);
    assert_eq!(test.get_heap_size(), 0); // It is a pointer.
}

const MINIMAL_NODE_SIZE: usize = 3;

#[derive(Clone)]
enum Node<T>
where
    T: Default,
{
    Block(T),
    Blocks(Box<[T; MINIMAL_NODE_SIZE * MINIMAL_NODE_SIZE * MINIMAL_NODE_SIZE]>),
    Nodes(Box<[Node<T>; 8]>),
}

fn node_input() -> DeriveInput {
    DeriveInput {
        attrs: Vec::new(),
        ident: "Node".to_string(),
        generics: vec![GenericParam::Type(TypeParam {
            ident: "T".to_string(),
            bounds: vec!["Default".to_string()],
        })],
        data: Data::Enum(vec![
            variant("Block", Fields::Unnamed(vec![unnamed(&["T"])])),
            variant("Blocks", Fields::Unnamed(vec![unnamed(&["T"])])),
            variant("Nodes", Fields::Unnamed(vec![unnamed(&["T"])])),
        ]),
    }
}

impl<T: Default + GetSize> GetSize for Node<T> {
    fn get_heap_size_with_tracker<TR: GetSizeTracker>(&self, tracker: TR) -> (usize, TR) {
        let variant = match self {
            Self::Block(..) => 0,
            Self::Blocks(..) => 1,
            Self::Nodes(..) => 2,
        };
        generate(node_input()).body.get_heap_size_with_tracker(
            variant,
            &|field: usize, tracker: TR| match (self, field) {
                (Self::Block(v0), 0) => v0.get_heap_size_with_tracker(tracker),
                (Self::Blocks(v0), 0) => v0.get_heap_size_with_tracker(tracker),
                (Self::Nodes(v0), 0) => v0.get_heap_size_with_tracker(tracker),
                _ => unreachable!("no such field in the variant"),
            },
            &no_size_fn,
            tracker,
        )
    }
}

#[test]
fn derive_enum_generics_issue1() {
    let test: Node<String> = Node::Block("test".into());
    assert_eq!(test.get_heap_size(), 4);

    let test: Node<u64> = Node::Blocks(Box::new([123; 27]));
    assert_eq!(test.get_heap_size(), 8 * 27);

    let t1: Node<u64> = Node::Block(123);
    let t2 = t1.clone();
    let t3 = t1.clone();
    let t4 = t1.clone();
    let t5 = t1.clone();
    let t6 = t1.clone();
    let t7 = t1.clone();
    let t8 = t1.clone();
    let test: Node<u64> = Node::Nodes(Box::new([t1, t2, t3, t4, t5, t6, t7, t8]));
    assert_eq!(test.get_heap_size(), 8 * std::mem::size_of::<Node<u64>>());
    assert_eq!(
        generate(node_input()).generics,
        vec![GenericParam::Type(TypeParam {
            ident: "T".to_string(),
            bounds: vec!["Default".to_string(), GET_SIZE_BOUND.to_string()],
        })]
    );
}

pub enum TestEnum2 {
    Zero,
    One,
    Two,
}

fn test_enum2_input() -> DeriveInput {
    DeriveInput {
        attrs: Vec::new(),
        ident: "TestEnum2".to_string(),
        generics: Vec::new(),
        data: Data::Enum(vec![
            variant("Zero", Fields::Unit),
            variant("One", Fields::Unit),
            variant("Two", Fields::Unit),
        ]),
    }
}

impl GetSize for TestEnum2 {
    fn get_heap_size_with_tracker<T: GetSizeTracker>(&self, tracker: T) -> (usize, T) {
        let variant = match self {
            Self::Zero => 0,
            Self::One => 1,
            Self::Two => 2,
        };
        generate(test_enum2_input()).body.get_heap_size_with_tracker(
            variant,
            &|_field: usize, _tracker: T| unreachable!("a unit variant has no field"),
            &no_size_fn,
            tracker,
        )
    }
}

#[test]
fn derive_enum_c_style() {
    let test = TestEnum2::Zero;
    assert_eq!(test.get_heap_size(), 0);

    let test = TestEnum2::One;
    assert_eq!(test.get_heap_size(), 0);

    let test = TestEnum2::Two;
    assert_eq!(test.get_heap_size(), 0);
}

pub struct TestNewType(u64);

fn test_new_type_input() -> DeriveInput {
    DeriveInput {
        attrs: Vec::new(),
        ident: "TestNewType".to_string(),
        generics: Vec::new(),
        data: Data::Struct(Fields::Unnamed(vec![unnamed(&[])])),
    }
}

impl GetSize for TestNewType {
    fn get_heap_size_with_tracker<T: GetSizeTracker>(&self, tracker: T) -> (usize, T) {
        generate(test_new_type_input()).body.get_heap_size_with_tracker(
            0,
            &|field: usize, tracker: T| match field {
                0 => self.0.get_heap_size_with_tracker(tracker),
                _ => unreachable!(),
            },
            &no_size_fn,
            tracker,
        )
    }
}

#[test]
fn derive_newtype() {
    let test = TestNewType(0);
    assert_eq!(u64::get_stack_size(), test.get_size());
}

#[test]
fn derive_rejects_union() {
    let input = DeriveInput {
        attrs: Vec::new(),
        ident: "Overlapping".to_string(),
        generics: Vec::new(),
        data: Data::Union,
    };
    assert_eq!(derive_get_size(input), Err(DeriveError::UnsupportedUnion));
}

fn fixed(bytes: usize) -> StructFieldAttribute {
    StructFieldAttribute { size: Some(bytes), size_fn: None, ignore: false }
}

fn computed(function: &str) -> StructFieldAttribute {
    StructFieldAttribute { size: None, size_fn: Some(function.to_string()), ignore: false }
}

fn struct_of(fields: Vec<Field>) -> DeriveInput {
    DeriveInput {
        attrs: Vec::new(),
        ident: "Subject".to_string(),
        generics: Vec::new(),
        data: Data::Struct(Fields::Named(fields)),
    }
}

#[test]
fn field_attributes_resolve_to_one_override() {
    assert_eq!(plain().field_override(), Some(FieldOverride::Recurse));
    assert_eq!(fixed(1024).field_override(), Some(FieldOverride::FixedSize(1024)));
    assert_eq!(
        computed("helper").field_override(),
        Some(FieldOverride::ComputedSize("helper".to_string()))
    );
    assert_eq!(ignored().field_override(), Some(FieldOverride::Ignored));
}

#[test]
fn conflicting_overrides_have_no_resolution() {
    let fixed_and_ignored = StructFieldAttribute { size: Some(8), size_fn: None, ignore: true };
    assert_eq!(fixed_and_ignored.field_override(), None);
    let fixed_and_computed =
        StructFieldAttribute { size: Some(8), size_fn: Some("helper".to_string()), ignore: false };
    assert_eq!(fixed_and_computed.field_override(), None);
    let computed_and_ignored =
        StructFieldAttribute { size: None, size_fn: Some("helper".to_string()), ignore: true };
    assert_eq!(computed_and_ignored.field_override(), None);
    let all = StructFieldAttribute { size: Some(0), size_fn: Some("f".to_string()), ignore: true };
    assert_eq!(all.field_override(), None);
}

#[test]
fn derive_rejects_fixed_size_with_ignore() {
    let conflicting = StructFieldAttribute { size: Some(8), size_fn: None, ignore: true };
    let input = struct_of(vec![named("id", plain(), &[]), named("buffer", conflicting, &[])]);
    assert_eq!(
        derive_get_size(input),
        Err(DeriveError::ConflictingOverrides { variant: 0, field: 1 })
    );
}

#[test]
fn derive_rejects_the_first_conflicting_field_of_an_enum() {
    let conflicting = StructFieldAttribute { size: Some(8), size_fn: None, ignore: true };
    let also = StructFieldAttribute { size: None, size_fn: Some("f".to_string()), ignore: true };
    let input = DeriveInput {
        attrs: Vec::new(),
        ident: "Subject".to_string(),
        generics: Vec::new(),
        data: Data::Enum(vec![
            variant("Fine", tuple_fields(2)),
            variant(
                "Broken",
                Fields::Named(vec![
                    named("a", plain(), &[]),
                    named("b", plain(), &[]),
                    named("c", conflicting, &[]),
                    named("d", also, &[]),
                ]),
            ),
            variant("Later", Fields::Named(vec![named("e", fixed(1), &[])])),
        ]),
    };
    assert_eq!(
        derive_get_size(input),
        Err(DeriveError::ConflictingOverrides { variant: 1, field: 2 })
    );
}

#[test]
fn derive_rejects_recursion_into_an_exempted_parameter() {
    let input = DeriveInput {
        attrs: vec![ignore_attribute(&["B"])],
        ident: "Subject".to_string(),
        generics: vec![type_param("A"), type_param("B")],
        data: Data::Struct(Fields::Named(vec![
            named("value1", plain(), &["A"]),
            named("value2", plain(), &["A", "B"]),
        ])),
    };
    assert_eq!(
        derive_get_size(input),
        Err(DeriveError::RecurseOnIgnoredGeneric { variant: 0, field: 1 })
    );
}

#[test]
fn derive_accepts_an_exempted_parameter_behind_an_override() {
    let input = DeriveInput {
        attrs: vec![ignore_attribute(&["B"])],
        ident: "Subject".to_string(),
        generics: vec![type_param("A"), type_param("B")],
        data: Data::Struct(Fields::Named(vec![
            named("value1", fixed(3), &["B"]),
            named("value2", computed("helper"), &["B"]),
            named("value3", ignored(), &["B"]),
            named("value4", plain(), &["A"]),
        ])),
    };
    let generated = generate(input);
    assert_eq!(generated.generics, vec![bounded("A"), type_param("B")]);
    assert_eq!(
        generated.body,
        ImplBody::Struct(vec![
            Step::Fixed { bytes: 3 },
            Step::Computed { field: 1 },
            Step::Recurse { field: 3 },
        ])
    );
}

#[test]
fn derive_rejects_a_malformed_ignore_list_before_anything_else() {
    let malformed =
        Attribute { meta: Meta::List(ident_path("get_size"), vec![Meta::Path(ident_path("ignore"))]) };
    let input = DeriveInput {
        attrs: vec![malformed],
        ident: "Subject".to_string(),
        generics: Vec::new(),
        data: Data::Union,
    };
    assert_eq!(derive_get_size(input), Err(DeriveError::MalformedIgnoreList));
}

#[test]
fn derive_gives_an_empty_routine_to_empty_types() {
    let empty_struct = struct_of(Vec::new());
    assert_eq!(generate(empty_struct).body, ImplBody::Empty);
    let unit_struct = DeriveInput {
        attrs: Vec::new(),
        ident: "Unit".to_string(),
        generics: Vec::new(),
        data: Data::Struct(Fields::Unit),
    };
    assert_eq!(generate(unit_struct).body, ImplBody::Empty);
    let empty_enum = DeriveInput {
        attrs: Vec::new(),
        ident: "Never".to_string(),
        generics: Vec::new(),
        data: Data::Enum(Vec::new()),
    };
    assert_eq!(generate(empty_enum).body, ImplBody::Empty);

    let (bytes, mut tracker) = ImplBody::Empty.get_heap_size_with_tracker(
        0,
        &|_field: usize, _tracker: StandardTracker| unreachable!(),
        &no_size_fn,
        StandardTracker::new(),
    );
    assert_eq!(bytes, 0);
    assert!(tracker.track(1, ()));
}

#[test]
fn derive_gives_every_variant_its_own_steps() {
    let generated = generate(test_enum_input());
    assert_eq!(
        generated.body,
        ImplBody::Enum(vec![
            vec![Step::Recurse { field: 0 }, Step::Recurse { field: 1 }, Step::Recurse { field: 2 }],
            vec![Step::Recurse { field: 0 }],
            vec![Step::Recurse { field: 0 }, Step::Recurse { field: 1 }],
            vec![
                Step::Recurse { field: 0 },
                Step::Recurse { field: 1 },
                Step::Recurse { field: 2 },
                Step::Recurse { field: 3 },
                Step::Recurse { field: 4 },
            ],
            vec![Step::Recurse { field: 0 }, Step::Recurse { field: 1 }],
            Vec::new(),
            vec![Step::Recurse { field: 0 }, Step::Recurse { field: 1 }],
        ])
    );
    assert_eq!(generated.body.steps_for(5), Some(&Vec::new()));
    assert_eq!(generated.body.steps_for(1), Some(&vec![Step::Recurse { field: 0 }]));
    assert_eq!(generated.body.steps_for(7), None);
    assert_eq!(ImplBody::Empty.steps_for(0), None);
}

#[test]
fn enum_payload_honours_overrides() {
    let input = DeriveInput {
        attrs: Vec::new(),
        ident: "Subject".to_string(),
        generics: Vec::new(),
        data: Data::Enum(vec![variant(
            "Only",
            Fields::Named(vec![
                named("a", ignored(), &[]),
                named("b", fixed(7), &[]),
                named("c", plain(), &[]),
            ]),
        )]),
    };
    assert_eq!(
        generate(input).body,
        ImplBody::Enum(vec![vec![Step::Fixed { bytes: 7 }, Step::Recurse { field: 2 }]])
    );
}

struct FixedBuffer {
    id: u64,
    buffer: Vec<u8>,
}

fn fixed_buffer_input() -> DeriveInput {
    struct_of(vec![named("id", plain(), &[]), named("buffer", fixed(1024), &[])])
}

impl GetSize for FixedBuffer {
    fn get_heap_size_with_tracker<T: GetSizeTracker>(&self, tracker: T) -> (usize, T) {
        generate(fixed_buffer_input()).body.get_heap_size_with_tracker(
            0,
            &|field: usize, tracker: T| match field {
                0 => self.id.get_heap_size_with_tracker(tracker),
                _ => unreachable!("fields with an override are not measured"),
            },
            &no_size_fn,
            tracker,
        )
    }
}

#[test]
fn fixed_size_counts_whatever_the_field_holds() {
    let empty = FixedBuffer { id: 1, buffer: Vec::new() };
    assert_eq!(empty.get_heap_size(), 1024);
    let full = FixedBuffer { id: 2, buffer: vec![0; 4096] };
    assert_eq!(full.get_heap_size(), 1024);
    assert_eq!(full.get_size(), size_of::<FixedBuffer>() + 1024);
    assert_eq!(empty.id + full.id, 3);
    assert!(empty.buffer.is_empty() && full.buffer.len() == 4096);
}

struct Borrowing<'a> {
    value: &'a String,
}

impl<'a> GetSize for Borrowing<'a> {
    fn get_heap_size_with_tracker<T: GetSizeTracker>(&self, tracker: T) -> (usize, T) {
        generate(struct_of(vec![named("value", plain(), &[])])).body.get_heap_size_with_tracker(
            0,
            &|field: usize, tracker: T| match field {
                // Fully qualified, so that the reference is measured and not the string.
                0 => GetSize::get_heap_size_with_tracker(&self.value, tracker),
                _ => unreachable!(),
            },
            &no_size_fn,
            tracker,
        )
    }
}

#[test]
fn borrowed_string_is_not_owned() {
    let value = String::from("hello");
    assert_eq!(value.get_heap_size(), 5);
    let test = Borrowing { value: &value };
    assert_eq!(test.get_heap_size(), 0);
}

#[test]
fn traversal_takes_the_steps_in_order() {
    let steps = vec![
        Step::Fixed { bytes: 100 },
        Step::Recurse { field: 4 },
        Step::Computed { field: 2 },
        Step::Recurse { field: 4 },
    ];
    let (bytes, mut tracker) = traverse(
        &steps,
        &|field: usize, mut tracker: StandardTracker| {
            let first = tracker.track(field, ());
            (if first { 10 } else { 1 }, tracker)
        },
        &|field: usize| field * 1000,
        StandardTracker::new(),
    );
    assert_eq!(bytes, 100 + 10 + 2000 + 1);
    assert!(!tracker.track(4, ()));
    assert!(tracker.track(2, ()));

    let (none, _) = traverse(
        &Vec::new(),
        &|_field: usize, tracker: NoTracker| (1, tracker),
        &|_field: usize| 1,
        NoTracker::new(),
    );
    assert_eq!(none, 0);
}

#[test]
fn traversal_saturates() {
    let steps = vec![Step::Fixed { bytes: usize::MAX }, Step::Fixed { bytes: 5 }];
    let (bytes, _) = traverse(
        &steps,
        &|_field: usize, tracker: NoTracker| (0, tracker),
        &|_field: usize| 0,
        NoTracker::new(),
    );
    assert_eq!(bytes, usize::MAX);
}

fn list(path: &str, items: Vec<Meta>) -> Meta {
    Meta::List(ident_path(path), items)
}

fn names(list: &[&str]) -> Vec<String> {
    list.iter().map(|name| name.to_string()).collect()
}

#[test]
fn ignored_generics_are_read_in_order() {
    assert_eq!(extract_ignored_generics(&ignore_attribute(&["B", "C"])), Ok(names(&["B", "C"])));
    let two_lists = Attribute {
        meta: list(
            "get_size",
            vec![
                list("ignore", vec![Meta::Path(ident_path("A"))]),
                Meta::Path(ident_path("other")),
                list("ignore", vec![Meta::Path(ident_path("C")), Meta::Path(ident_path("B"))]),
            ],
        ),
    };
    assert_eq!(extract_ignored_generics(&two_lists), Ok(names(&["A", "C", "B"])));
    let segments = Attribute {
        meta: list(
            "get_size",
            vec![list(
                "ignore",
                vec![Meta::Path(Path { leading_colon: true, segments: names(&["a", "B"]) })],
            )],
        ),
    };
    assert_eq!(extract_ignored_generics(&segments), Ok(names(&["a", "B"])));
    assert_eq!(
        extract_ignored_generics_list(&vec![
            ignore_attribute(&["A"]),
            Attribute { meta: Meta::Path(ident_path("inline")) },
            ignore_attribute(&["B"]),
        ]),
        Ok(names(&["A", "B"]))
    );
    assert_eq!(extract_ignored_generics_list(&Vec::new()), Ok(Vec::new()));
}

#[test]
fn other_attributes_exempt_nothing() {
    let other = Attribute { meta: list("derive", vec![list("ignore", vec![Meta::NameValue(ident_path("A"))])]) };
    assert_eq!(extract_ignored_generics(&other), Ok(Vec::new()));
    let path = Attribute { meta: Meta::Path(ident_path("get_size")) };
    assert_eq!(extract_ignored_generics(&path), Ok(Vec::new()));
    let value = Attribute { meta: Meta::NameValue(ident_path("get_size")) };
    assert_eq!(extract_ignored_generics(&value), Ok(Vec::new()));
    let empty = Attribute { meta: list("get_size", Vec::new()) };
    assert_eq!(extract_ignored_generics(&empty), Ok(Vec::new()));
    let qualified = Attribute {
        meta: Meta::List(
            Path { leading_colon: false, segments: names(&["get_size", "get_size"]) },
            vec![Meta::NameValue(ident_path("A"))],
        ),
    };
    assert_eq!(extract_ignored_generics(&qualified), Ok(Vec::new()));
}

#[test]
fn malformed_ignore_lists_are_rejected() {
    let malformed = [
        list("get_size", vec![Meta::Path(ident_path("ignore"))]),
        list("get_size", vec![list("ignore", Vec::new())]),
        list("get_size", vec![Meta::NameValue(ident_path("ignore"))]),
        list("get_size", vec![list("ignore", vec![Meta::NameValue(ident_path("A"))])]),
        list("get_size", vec![list("ignore", vec![list("A", Vec::new())])]),
        list("get_size", vec![Meta::NameValue(ident_path("size"))]),
        list("get_size", vec![list("other", vec![Meta::Path(ident_path("A"))])]),
        list(
            "get_size",
            vec![list("ignore", vec![Meta::Path(ident_path("A"))]), Meta::NameValue(ident_path("x"))],
        ),
    ];
    for meta in malformed {
        let attribute = Attribute { meta };
        assert_eq!(extract_ignored_generics(&attribute), Err(DeriveError::MalformedIgnoreList));
        assert_eq!(
            extract_ignored_generics_list(&vec![ignore_attribute(&["A"]), attribute]),
            Err(DeriveError::MalformedIgnoreList)
        );
    }
}

#[test]
fn paths_are_compared_as_single_identifiers() {
    assert!(ident_path("ignore").is_ident("ignore"));
    assert!(!ident_path("ignore").is_ident("ignored"));
    assert!(!Path { leading_colon: true, segments: names(&["ignore"]) }.is_ident("ignore"));
    assert!(!Path { leading_colon: false, segments: names(&["a", "ignore"]) }.is_ident("ignore"));
    assert!(!Path { leading_colon: false, segments: Vec::new() }.is_ident("ignore"));
    assert_eq!(list("a", Vec::new()).path(), &ident_path("a"));
}

#[test]
fn bounds_go_to_type_parameters_that_are_not_exempted() {
    let generics = vec![
        GenericParam::Lifetime("a".to_string()),
        type_param("A"),
        GenericParam::Const("N".to_string()),
        type_param("B"),
        GenericParam::Type(TypeParam { ident: "C".to_string(), bounds: names(&["Clone", "Default"]) }),
    ];
    let bounded_generics = add_trait_bounds(generics, &names(&["B", "N", "a"]));
    assert_eq!(
        bounded_generics,
        vec![
            GenericParam::Lifetime("a".to_string()),
            bounded("A"),
            GenericParam::Const("N".to_string()),
            type_param("B"),
            GenericParam::Type(TypeParam {
                ident: "C".to_string(),
                bounds: names(&["Clone", "Default", "::get_size2::GetSize"]),
            }),
        ]
    );
    assert_eq!(add_trait_bounds(Vec::new(), &names(&["A"])), Vec::new());
    assert!(is_ignored(&"B".to_string(), &names(&["A", "B"])));
    assert!(!is_ignored(&"C".to_string(), &names(&["A", "B"])));
    assert!(!is_ignored(&"A".to_string(), &Vec::new()));
}

#[test]
fn fields_are_counted() {
    assert_eq!(Fields::Unit.len(), 0);
    assert!(Fields::Unit.is_empty());
    assert_eq!(tuple_fields(3).len(), 3);
    assert!(!tuple_fields(1).is_empty());
    assert!(Fields::Named(Vec::new()).is_empty());
    assert_eq!(Fields::Named(vec![named("a", plain(), &[]), named("b", plain(), &[])]).len(), 2);
}

#[test]
fn positional_fields_keep_their_position() {
    let input = DeriveInput {
        attrs: Vec::new(),
        ident: "Tuple".to_string(),
        generics: Vec::new(),
        data: Data::Struct(Fields::Unnamed(vec![
            Field { ident: None, attribute: ignored(), type_params: Vec::new() },
            unnamed(&[]),
            Field { ident: None, attribute: computed("helper"), type_params: Vec::new() },
            unnamed(&[]),
        ])),
    };
    assert_eq!(
        generate(input).body,
        ImplBody::Struct(vec![
            Step::Recurse { field: 1 },
            Step::Computed { field: 2 },
            Step::Recurse { field: 3 },
        ])
    );
}
