//! What `#[derive(RuntimeExposed)]` generates for a type.
use proc_macro2::TokenStream;
use vstd::prelude::*;
use vstd::string::*;

verus! {

/// `proc_macro2::TokenStream`, which is handed on unread.
#[verifier::external_type_specification]
#[verifier::external_body]
pub struct ExTokenStream(TokenStream);

/// `syn::Ident`, a name and the place where it stands.
#[verifier::external_type_specification]
#[verifier::external_body]
pub struct ExIdent(syn::Ident);

/// `syn::Type`, which is carried through unread.
#[verifier::external_type_specification]
#[verifier::external_body]
pub struct ExType(syn::Type);

/// `syn::Generics`, which is carried through unread.
#[verifier::external_type_specification]
#[verifier::external_body]
pub struct ExGenerics(syn::Generics);

/// `syn::Error`, which is carried through unread.
#[verifier::external_type_specification]
#[verifier::external_body]
pub struct ExSynError(syn::Error);

/// A field as it is declared.
pub struct Field {
    /// The name, which a field of a tuple struct lacks.
    pub name: Option<String>,
    pub ty: syn::Type,
}

/// The body of a type's declaration.
pub enum Data {
    Struct(Vec<Field>),
    Enum,
    Union,
}

/// A type's declaration.
pub struct DeriveInput {
    pub ident: String,
    /// The name with the place where it stands.
    pub placed: syn::Ident,
    /// The generics, with their `where` clause.
    pub generics: syn::Generics,
    pub data: Data,
}

/// What a field's declaration says.
pub struct FieldDeclaration {
    pub name: Option<Seq<char>>,
    pub ty: syn::Type,
}

/// What the body of a type's declaration says.
pub enum Body {
    Struct(Seq<FieldDeclaration>),
    Enum,
    Union,
}

/// What a type's declaration says.
pub struct Declaration {
    pub ident: Seq<char>,
    pub placed: syn::Ident,
    pub generics: syn::Generics,
    pub body: Body,
}

impl View for Field {
    type V = FieldDeclaration;

    open spec fn view(&self) -> FieldDeclaration {
        FieldDeclaration {
            name: match self.name {
                Some(name) => Some(name@),
                None => None,
            },
            ty: self.ty,
        }
    }
}

impl View for Data {
    type V = Body;

    open spec fn view(&self) -> Body {
        match self {
            Data::Struct(fields) => Body::Struct(fields@.map_values(|field: Field| field@)),
            Data::Enum => Body::Enum,
            Data::Union => Body::Union,
        }
    }
}

impl View for DeriveInput {
    type V = Declaration;

    open spec fn view(&self) -> Declaration {
        Declaration {
            ident: self.ident@,
            placed: self.placed,
            generics: self.generics,
            body: self.data@,
        }
    }
}

impl Declaration {
    /// Whether the type is a struct all of whose fields have names. Nothing can
    /// be derived for another type.
    pub open spec fn has_named_fields(self) -> bool {
        self.body matches Body::Struct(fields) && forall|i: int|
            0 <= i < fields.len() ==> (#[trigger] fields[i]).name is Some
    }

    /// The declared fields.
    pub open spec fn fields(self) -> Seq<FieldDeclaration> {
        match self.body {
            Body::Struct(fields) => fields,
            _ => Seq::empty(),
        }
    }
}

/// Whether `outcome` is a possible outcome of `syn::parse2` where it reads the
/// declaration of a type from the tokens: what the declaration says, or `None`
/// for an error. It is not said that there is only one.
pub uninterp spec fn reads_as(tokens: TokenStream, outcome: Option<Declaration>) -> bool;

/// `syn::parse2`, for the declaration of a type, with the syntax tree taken apart
/// as far as it is looked at: names are handed on as they print, and types,
/// generics and the placed name of the type as they are.
///
/// Taken on trust: what comes back is a possible outcome on these tokens. Nothing is said of which declarations are read without an
/// error, nor of how deeply one can be nested before the thread's stack, which
/// the function uses to read it, is used up.
#[verifier::external_body]
fn parse_declaration(tokens: TokenStream) -> (res: Result<DeriveInput, syn::Error>)
    ensures
        res is Ok ==> reads_as(tokens, Some(res->Ok_0@)),
        res is Err ==> reads_as(tokens, None),
{
    let ast: syn::DeriveInput = syn::parse2(tokens)?;
    let field = |f: syn::Field| Field { name: f.ident.map(|name| name.to_string()), ty: f.ty };
    Ok(DeriveInput {
        ident: ast.ident.to_string(),
        placed: ast.ident,
        generics: ast.generics,
        data: match ast.data {
            syn::Data::Struct(s) => Data::Struct(s.fields.into_iter().map(field).collect()),
            syn::Data::Enum(_) => Data::Enum,
            syn::Data::Union(_) => Data::Union,
        },
    })
}

impl DeriveInput {
    proof fn lemma_view_of_fields(&self)
        ensures
            self@.body is Struct <==> self.data is Struct,
            self.data matches Data::Struct(fields) ==> {
                &&& self@.fields().len() == fields@.len()
                &&& forall|i: int|
                    0 <= i < fields@.len() ==> {
                        &&& (#[trigger] self@.fields()[i]).ty == fields@[i].ty
                        &&& self@.fields()[i].name is Some <==> fields@[i].name is Some
                        &&& fields@[i].name is Some ==> self@.fields()[i].name->Some_0
                            == fields@[i].name->Some_0@
                    }
                &&& forall|i: int|
                    0 <= i < fields@.len() ==> ((#[trigger] fields@[i]).name is Some
                        <==> self@.fields()[i].name is Some)
            },
    {
    }

    /// Whether the type is a struct all of whose fields have names.
    pub fn is_exposable(&self) -> (exposable: bool)
        ensures
            exposable == self@.has_named_fields(),
            exposable <==> (self.data matches Data::Struct(fields) && forall|i: int|
                0 <= i < fields@.len() ==> (#[trigger] fields@[i]).name is Some),
    {
        proof {
            self.lemma_view_of_fields();
        }
        match &self.data {
            Data::Struct(fields) => {
                let mut i: usize = 0;
                while i < fields.len()
                    invariant
                        self.data == Data::Struct(*fields),
                        i <= fields@.len(),
                        forall|j: int| 0 <= j < i ==> (#[trigger] self@.fields()[j]).name is Some,
                    decreases fields@.len() - i,
                {
                    if fields[i].name.is_none() {
                        assert(self@.fields()[i as int].name is None);
                        return false;
                    }
                    i = i + 1;
                }
                true
            },
            Data::Enum => false,
            Data::Union => false,
        }
    }
}

/// An accessor type, which reads one field.
pub struct AccessorDef {
    /// The name of the accessor type.
    pub accessor_type: String,
    /// The type that the accessor is for.
    pub target: String,
    /// The type that its getter takes, which is always written the same.
    pub source: String,
    /// The field that the getter reads.
    pub field_name: String,
    /// The name under which scripts see the field.
    pub exposed_name: String,
    /// The type that the getter gives.
    pub field_type: syn::Type,
}

/// The generated items.
pub struct Derived {
    /// The type that `RuntimeExposed` is implemented for.
    pub struct_name: String,
    /// That type's name with the place where it stands, which is also taken for
    /// the place of the names of accessor types.
    pub placed: syn::Ident,
    /// The generics of the implementation, with their `where` clause.
    pub generics: syn::Generics,
    /// The accessor types that `setup_template` sets, in order.
    pub setup: Vec<String>,
    /// The accessor types themselves.
    pub accessors: Vec<AccessorDef>,
}

/// The name of the accessor type of a field.
pub open spec fn accessor_name(struct_name: Seq<char>, field: Seq<char>) -> Seq<char> {
    struct_name + field + "Accessor"@
}

impl AccessorDef {
    /// Whether this is the accessor of a field of the named struct.
    pub open spec fn reads(self, struct_name: Seq<char>, field: FieldDeclaration) -> bool {
        &&& field.name is Some
        &&& self.accessor_type@ == accessor_name(struct_name, field.name->Some_0)
        &&& self.target@ == struct_name
        &&& self.source@ == "BoundObj"@
        &&& self.field_name@ == field.name->Some_0
        &&& self.exposed_name@ == field.name->Some_0
        &&& self.field_type == field.ty
    }
}

impl Derived {
    /// Whether these are the items for a declaration: an accessor for each
    /// field, in the order of the fields, and each of them set in that order, for
    /// a type with the generics of the declaration.
    pub open spec fn exposes(self, input: Declaration) -> bool {
        &&& self.struct_name@ == input.ident
        &&& self.placed == input.placed
        &&& self.generics == input.generics
        &&& self.accessors@.len() == input.fields().len()
        &&& self.setup@.len() == input.fields().len()
        &&& forall|i: int|
            0 <= i < input.fields().len() ==> (#[trigger] self.accessors@[i]).reads(
                input.ident,
                input.fields()[i],
            )
        &&& forall|i: int|
            0 <= i < input.fields().len() ==> (#[trigger] self.setup@[i])@
                == self.accessors@[i].accessor_type@
    }
}

fn accessor_for(struct_name: &String, field_name: String, field_type: syn::Type) -> (def:
    AccessorDef)
    ensures
        def.accessor_type@ == accessor_name(struct_name@, field_name@),
        def.target@ == struct_name@,
        def.source@ == "BoundObj"@,
        def.field_name@ == field_name@,
        def.exposed_name@ == field_name@,
        def.field_type == field_type,
{
    let mut accessor_type: String = struct_name.clone();
    accessor_type.append(field_name.as_str());
    accessor_type.append("Accessor");
    AccessorDef {
        accessor_type,
        target: struct_name.clone(),
        source: "BoundObj".to_owned(),
        exposed_name: field_name.clone(),
        field_name,
        field_type,
    }
}

fn accessors_for(struct_name: &String, fields: Vec<Field>) -> (accessors: Vec<AccessorDef>)
    requires
        forall|i: int| 0 <= i < fields@.len() ==> (#[trigger] fields@[i]).name is Some,
    ensures
        accessors@.len() == fields@.len(),
        forall|i: int|
            0 <= i < fields@.len() ==> (#[trigger] accessors@[i]).reads(
                struct_name@,
                fields@[i]@,
            ),
{
    let mut accessors: Vec<AccessorDef> = Vec::new();
    for field in iter: fields.into_iter()
        invariant
            forall|i: int| 0 <= i < fields@.len() ==> (#[trigger] fields@[i]).name is Some,
            iter.seq() == fields@,
            accessors@.len() == iter.index(),
            forall|i: int|
                0 <= i < iter.index() ==> (#[trigger] accessors@[i]).reads(
                    struct_name@,
                    fields@[i]@,
                ),
    {
        assert(field == fields@[iter.index() as int]);
        if let Some(name) = field.name {
            accessors.push(accessor_for(struct_name, name, field.ty));
        }
    }
    accessors
}

/// The items that make a struct's fields readable from scripts.
pub fn derive_runtime_exposed(input: DeriveInput) -> (derived: Derived)
    requires
        input@.has_named_fields(),
    ensures
        derived.exposes(input@),
        input.data matches Data::Struct(fields) && {
            &&& derived.accessors@.len() == fields@.len()
            &&& derived.setup@.len() == fields@.len()
            &&& forall|i: int|
                0 <= i < fields@.len() ==> {
                    let accessor = #[trigger] derived.accessors@[i];
                    &&& fields@[i].name is Some
                    &&& accessor.field_name@ == fields@[i].name->Some_0@
                    &&& accessor.exposed_name@ == fields@[i].name->Some_0@
                    &&& accessor.field_type == fields@[i].ty
                    &&& accessor.target@ == input.ident@
                    &&& accessor.accessor_type@ == input.ident@ + fields@[i].name->Some_0@
                        + "Accessor"@
                }
            &&& forall|i: int|
                0 <= i < fields@.len() ==> (#[trigger] derived.setup@[i])@
                    == derived.accessors@[i].accessor_type@
        },
        derived.struct_name@ == input.ident@,
        derived.placed == input.placed,
        derived.generics == input.generics,
{
    let ghost declared = input@;
    proof {
        input.lemma_view_of_fields();
    }
    let DeriveInput { ident, placed, generics, data } = input;
    let accessors = match data {
        Data::Struct(fields) => {
            assert forall|i: int| 0 <= i < fields@.len() implies (
            #[trigger] fields@[i]).name is Some by {
                assert(declared.fields()[i] == fields@[i]@);
            }
            accessors_for(&ident, fields)
        },
        _ => Vec::new(),
    };
    let mut setup: Vec<String> = Vec::new();
    let mut i: usize = 0;
    while i < accessors.len()
        invariant
            i <= accessors@.len(),
            setup@.len() == i,
            forall|j: int| 0 <= j < i ==> (#[trigger] setup@[j])@ == accessors@[j].accessor_type@,
        decreases accessors@.len() - i,
    {
        setup.push(accessors[i].accessor_type.clone());
        i = i + 1;
    }
    Derived { struct_name: ident, placed, generics, setup, accessors }
}

/// Why nothing can be derived.
pub enum DeriveError {
    /// The tokens are not the declaration of a type.
    Syntax(syn::Error),
    /// The type is not a struct all of whose fields have names.
    NotExposable,
}

/// What deriving from a declaration comes to, once it was read or was found not
/// to be one.
pub fn derive_parsed(parsed: Result<DeriveInput, syn::Error>) -> (res: Result<
    Derived,
    DeriveError,
>)
    ensures
        match parsed {
            Ok(input) => if input@.has_named_fields() {
                res is Ok && res->Ok_0.exposes(input@)
            } else {
                res == Err::<Derived, DeriveError>(DeriveError::NotExposable)
            },
            Err(error) => res == Err::<Derived, DeriveError>(DeriveError::Syntax(error)),
        },
        parsed matches Ok(input) ==> {
            let named = input.data matches Data::Struct(fields) && forall|i: int|
                0 <= i < fields@.len() ==> (#[trigger] fields@[i]).name is Some;
            &&& res is Ok <==> named
            &&& res is Ok ==> res->Ok_0.accessors@.len() == input.data->Struct_0@.len()
        },
{
    match parsed {
        Ok(input) => if input.is_exposable() {
            Ok(derive_runtime_exposed(input))
        } else {
            Err(DeriveError::NotExposable)
        },
        Err(error) => Err(DeriveError::Syntax(error)),
    }
}

/// The items that make the fields of a struct readable from scripts, where
/// `tokens` are the struct's declaration.
pub fn derive_from(tokens: TokenStream) -> (res: Result<Derived, DeriveError>)
    ensures
        exists|outcome: Option<Declaration>| #[trigger]
            reads_as(tokens, outcome) && match outcome {
                Some(declaration) => if declaration.has_named_fields() {
                    res is Ok && res->Ok_0.exposes(declaration)
                } else {
                    res == Err::<Derived, DeriveError>(DeriveError::NotExposable)
                },
                None => res is Err && res->Err_0 is Syntax,
            },
{
    derive_parsed(parse_declaration(tokens))
}

/// Fields with different names have accessor types with different names.
pub proof fn accessors_of_a_struct_differ(
    struct_name: Seq<char>,
    field: Seq<char>,
    other: Seq<char>,
)
    ensures
        accessor_name(struct_name, field) == accessor_name(struct_name, other) <==> field == other,
{
    let left = accessor_name(struct_name, field);
    let right = accessor_name(struct_name, other);
    let start = struct_name.len() as int;
    if left == right {
        assert(left.len() == right.len());
        assert(field =~= left.subrange(start, start + field.len()));
        assert(other =~= right.subrange(start, start + other.len()));
    }
}

/// A struct all of whose fields have names can be exposed, however many it has.
/// An enum, a union or a struct with a nameless field cannot.
pub proof fn structs_with_named_fields_can_be_exposed(declaration: Declaration)
    ensures
        declaration.body matches Body::Struct(fields) ==> {
            &&& declaration.fields() == fields
            &&& declaration.has_named_fields() <==> forall|i: int|
                0 <= i < fields.len() ==> (#[trigger] fields[i]).name is Some
        },
        declaration.body is Enum ==> !declaration.has_named_fields()
            && declaration.fields().len() == 0,
        declaration.body is Union ==> !declaration.has_named_fields()
            && declaration.fields().len() == 0,
{
}

/// A declaration says what was declared: every field, in order, with its name and
/// type.
pub proof fn a_declaration_says_what_was_declared(input: DeriveInput, i: int)
    ensures
        input@.ident == input.ident@,
        input@.placed == input.placed,
        input@.generics == input.generics,
        input.data is Enum <==> input@.body is Enum,
        input.data is Union <==> input@.body is Union,
        input.data matches Data::Struct(fields) ==> {
            &&& input@.body is Struct
            &&& input@.body->Struct_0.len() == fields@.len()
            &&& 0 <= i < fields@.len() ==> {
                &&& input@.body->Struct_0[i].ty == fields@[i].ty
                &&& fields@[i].name is Some ==> input@.body->Struct_0[i].name == Some(
                    fields@[i].name->Some_0@,
                )
                &&& fields@[i].name is None ==> input@.body->Struct_0[i].name is None
            }
        },
{
}

/// The items for a declaration have one accessor for each field, in the order of
/// the fields, which gives the field's type, reads the field and is seen by
/// scripts under the field's name. Its own name begins with that of the struct,
/// goes on with that of the field and ends with `Accessor`.
pub proof fn every_field_has_its_accessor(derived: Derived, declaration: Declaration, i: int)
    requires
        derived.exposes(declaration),
        0 <= i < declaration.fields().len(),
    ensures
        derived.struct_name@ == declaration.ident,
        derived.placed == declaration.placed,
        derived.generics == declaration.generics,
        derived.accessors@.len() == declaration.fields().len(),
        derived.setup@.len() == declaration.fields().len(),
        derived.setup@[i]@ == derived.accessors@[i].accessor_type@,
        declaration.fields()[i].name is Some,
        derived.accessors@[i].field_name@ == declaration.fields()[i].name->Some_0,
        derived.accessors@[i].exposed_name@ == declaration.fields()[i].name->Some_0,
        derived.accessors@[i].field_type == declaration.fields()[i].ty,
        derived.accessors@[i].target@ == declaration.ident,
        derived.accessors@[i].source@ == "BoundObj"@,
        declaration.ident.is_prefix_of(derived.accessors@[i].accessor_type@),
        derived.accessors@[i].accessor_type@ == declaration.ident
            + declaration.fields()[i].name->Some_0 + "Accessor"@,
{
    assert(derived.accessors@[i].reads(declaration.ident, declaration.fields()[i]));
    assert(derived.setup@[i]@ == derived.accessors@[i].accessor_type@);
}

/// The name of an accessor type is that of the struct, then that of the field,
/// then `Accessor`, whatever the two names are.
pub proof fn an_accessor_is_named_after_its_field(struct_name: Seq<char>, field: Seq<char>)
    ensures
        accessor_name(struct_name, field) == struct_name + field + "Accessor"@,
        accessor_name(struct_name, field).len() == struct_name.len() + field.len() + 8,
        struct_name.is_prefix_of(accessor_name(struct_name, field)),
{
    reveal_strlit("Accessor");
}

} // verus!
