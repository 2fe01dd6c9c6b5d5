use std::any::TypeId;

use proc_macro2::TokenStream;
use quote::ToTokens;
use spooler::derive::{
    derive_from, derive_parsed, derive_runtime_exposed, Data, DeriveError, DeriveInput, Derived,
    Field,
};
use spooler::logic::expose::{read_field, ExposedTypeBinder, ProxyFactory};
use spooler::logic::func::{Double, ExposedReturnable, Handle, ReturnValue};

struct BoundObj {
    clock: i32,
}

fn read_clock(external: Option<&BoundObj>) -> Option<i32> {
    let mut rv: ReturnValue<()> = ReturnValue::Undefined;
    read_field(external, |obj: &BoundObj| obj.clock, &mut rv);
    match rv {
        ReturnValue::Int32(value) => Some(value),
        _ => None,
    }
}

#[test]
fn expose_bind_trivial() {
    let mut binder: ExposedTypeBinder<BoundObj> = ExposedTypeBinder::new();
    assert_eq!(binder.set_accessor("clock"), 0);
    let mut obj = Box::new(BoundObj { clock: 21 });
    assert_eq!(read_clock(Some(&obj)), Some(21));
    obj.clock = 50;
    assert_eq!(read_clock(Some(&obj)), Some(50));
}

#[test]
fn reads_of_one_value_agree() {
    let obj = BoundObj { clock: 7 };
    assert_eq!(read_clock(Some(&obj)), Some(7));
    assert_eq!(read_clock(Some(&obj)), Some(7));
    assert_eq!(obj.clock, 7);
}

#[test]
fn an_unbound_instance_hands_back_nothing() {
    assert_eq!(read_clock(None), None);
    let mut rv: ReturnValue<()> = ReturnValue::Bool(true);
    read_field(None, |obj: &BoundObj| obj.clock, &mut rv);
    assert!(matches!(rv, ReturnValue::Bool(true)));
}

#[test]
fn accessors_read_a_field_that_instances_have() {
    let mut binder: ExposedTypeBinder<BoundObj> = ExposedTypeBinder::new();
    assert_eq!(binder.internal_field_count(), 1);
    for name in ["clock", "name", "clock"] {
        assert!(binder.set_accessor(name) < binder.internal_field_count());
    }
    let (accessors, binding) = binder.finish();
    assert_eq!(binding.field_num(), 0);
    let names: Vec<&str> = accessors.iter().map(|slot| slot.name.as_str()).collect();
    assert_eq!(names, vec!["clock", "name", "clock"]);
    assert!(accessors.iter().all(|slot| slot.field_num == 0));
}

#[test]
fn a_type_has_one_template() {
    let mut made = 0;
    let mut factory: ProxyFactory<i32> = ProxyFactory::default();
    for (id, expected) in [
        (TypeId::of::<BoundObj>(), 1),
        (TypeId::of::<String>(), 2),
        (TypeId::of::<BoundObj>(), 1),
        (TypeId::of::<String>(), 2),
    ] {
        let template = *factory.proxy(id, || {
            made += 1;
            made
        });
        assert_eq!(template, expected);
    }
    assert_eq!(made, 2);
}

fn returned<T: ExposedReturnable<char>>(value: T) -> ReturnValue<char> {
    let mut rv = ReturnValue::Undefined;
    value.set(&mut rv);
    rv
}

#[test]
fn values_are_handed_back_by_their_type() {
    assert!(matches!(returned(true), ReturnValue::Bool(true)));
    assert!(matches!(returned(-3i32), ReturnValue::Int32(-3)));
    assert!(matches!(
        returned(4_000_000_000u32),
        ReturnValue::Uint32(4_000_000_000)
    ));
    let bits = 1.5f64.to_bits();
    assert!(matches!(
        returned(Double { bits }),
        ReturnValue::Double(Double { bits: shown }) if shown == bits
    ));
    assert!(matches!(
        returned(Handle { handle: 'h' }),
        ReturnValue::Value('h')
    ));
    assert!(matches!(returned(Some(7i32)), ReturnValue::Int32(7)));
    assert!(matches!(returned(None::<i32>), ReturnValue::Null));
    assert!(matches!(returned(Some(None::<bool>)), ReturnValue::Null));
}

fn printed<T: ToTokens>(tree: &T) -> String {
    tree.to_token_stream().to_string()
}

fn field(name: &str, ty: &str) -> Field {
    Field {
        name: Some(name.to_owned()),
        ty: syn::parse_str(ty).unwrap(),
    }
}

fn declaration(ident: &str, data: Data) -> DeriveInput {
    DeriveInput {
        ident: ident.to_owned(),
        placed: syn::parse_str(ident).unwrap(),
        generics: syn::parse_str("<T: Copy>").unwrap(),
        data,
    }
}

fn derive_text(text: &str) -> Result<Derived, DeriveError> {
    let tokens: TokenStream = text.parse().unwrap();
    derive_from(tokens)
}

#[test]
fn derive_makes_an_accessor_for_each_field() {
    let input = declaration(
        "BoundObj",
        Data::Struct(vec![field("clock", "i32"), field("alive", "bool")]),
    );
    assert!(input.is_exposable());
    let derived = derive_runtime_exposed(input);
    assert_eq!(derived.struct_name, "BoundObj");
    assert_eq!(derived.placed.to_string(), "BoundObj");
    assert_eq!(printed(&derived.generics), "< T : Copy >");
    assert_eq!(
        derived.setup,
        vec![
            "BoundObjclockAccessor".to_owned(),
            "BoundObjaliveAccessor".to_owned()
        ]
    );
    assert_eq!(derived.accessors.len(), 2);
    let clock = &derived.accessors[0];
    assert_eq!(clock.accessor_type, "BoundObjclockAccessor");
    assert_eq!(clock.target, "BoundObj");
    assert_eq!(clock.source, "BoundObj");
    assert_eq!(clock.field_name, "clock");
    assert_eq!(clock.exposed_name, "clock");
    assert_eq!(printed(&clock.field_type), "i32");
    assert_eq!(derived.accessors[1].exposed_name, "alive");
    assert_eq!(printed(&derived.accessors[1].field_type), "bool");
}

#[test]
fn derive_of_an_empty_struct_makes_nothing() {
    let derived = derive_runtime_exposed(declaration("Empty", Data::Struct(Vec::new())));
    assert!(derived.setup.is_empty());
    assert!(derived.accessors.is_empty());
}

#[test]
fn enums_unions_and_tuples_are_not_exposable() {
    let tuple = Data::Struct(vec![
        field("a", "i32"),
        Field {
            name: None,
            ty: syn::parse_str("i32").unwrap(),
        },
    ]);
    for data in [Data::Enum, Data::Union, tuple] {
        let input = declaration("Other", data);
        assert!(!input.is_exposable());
        assert!(matches!(
            derive_parsed(Ok(input)),
            Err(DeriveError::NotExposable)
        ));
    }
}

#[test]
fn derive_reads_a_declaration() {
    let derived = derive_text(
        "#[derive(Clone)] pub struct Pair<'a, T: Copy = u8> where T: Default { \
         pub clock: i32, list: Vec<&'a T> }",
    )
    .ok()
    .unwrap();
    assert_eq!(derived.struct_name, "Pair");
    let (impl_generics, type_generics, where_clause) = derived.generics.split_for_impl();
    assert_eq!(printed(&impl_generics), "< 'a , T : Copy >");
    assert_eq!(printed(&type_generics), "< 'a , T >");
    assert_eq!(printed(&where_clause), "where T : Default");
    assert_eq!(
        derived.setup,
        vec!["PairclockAccessor".to_owned(), "PairlistAccessor".to_owned()]
    );
    assert_eq!(printed(&derived.accessors[0].field_type), "i32");
    assert_eq!(printed(&derived.accessors[1].field_type), "Vec < & 'a T >");
    assert_eq!(derived.accessors[1].field_name, "list");
    let unit = derive_text("struct Unit;").ok().unwrap();
    assert_eq!(unit.struct_name, "Unit");
    assert!(unit.accessors.is_empty());
}

#[test]
fn derive_refuses_other_tokens() {
    for text in ["", "struct", "fn f() {}", "struct A { a: }", "struct A {} struct B {}"] {
        assert!(matches!(derive_text(text), Err(DeriveError::Syntax(_))));
    }
    for text in ["enum A { B }", "union A { a: i32 }", "struct A(i32);"] {
        assert!(matches!(derive_text(text), Err(DeriveError::NotExposable)));
    }
    let error = syn::parse_str::<syn::Type>("").err().unwrap();
    assert!(matches!(
        derive_parsed(Err(error)),
        Err(DeriveError::Syntax(_))
    ));
}
