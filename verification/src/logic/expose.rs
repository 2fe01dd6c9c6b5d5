use std::any::TypeId;
use std::marker::PhantomData;
use vstd::prelude::*;

use super::func::{ExposedReturnable, ReturnValue};

verus! {

/// `std::any::TypeId`, the identity of a native type.
#[verifier::external_type_specification]
#[verifier::external_body]
pub struct ExTypeId(TypeId);

/// `==` on `std::any::TypeId`.
///
/// Taken on trust: it holds of two identities exactly when they are the same.
#[verifier::external_body]
fn same_type(left: &TypeId, right: &TypeId) -> (res: bool)
    ensures
        res == (*left == *right),
{
    left == right
}

/// The templates of the native types that scripts have been shown, one for each
/// type. `Template` is the script engine's handle to a template.
#[verifier::reject_recursive_types(Template)]
pub struct ProxyFactory<Template> {
    templates: Vec<(TypeId, Template)>,
}

spec fn by_type<Template>(templates: Seq<(TypeId, Template)>) -> Map<TypeId, Template> {
    Map::new(
        |id: TypeId| exists|i: int| 0 <= i < templates.len() && (#[trigger] templates[i]).0 == id,
        |id: TypeId|
            templates[choose|i: int|
                0 <= i < templates.len() && (#[trigger] templates[i]).0 == id].1,
    )
}

spec fn types_differ<Template>(templates: Seq<(TypeId, Template)>) -> bool {
    forall|i: int, j: int|
        0 <= i < j < templates.len() ==> (#[trigger] templates[i]).0 != (#[trigger] templates[j]).0
}

proof fn lemma_by_type_at<Template>(templates: Seq<(TypeId, Template)>, i: int)
    requires
        types_differ(templates),
        0 <= i < templates.len(),
    ensures
        by_type(templates).contains_key(templates[i].0),
        by_type(templates)[templates[i].0] == templates[i].1,
{
    let id = templates[i].0;
    let found = choose|k: int| 0 <= k < templates.len() && (#[trigger] templates[k]).0 == id;
    assert(0 <= found < templates.len() && templates[found].0 == id);
    assert(found == i);
}

proof fn lemma_by_type_push<Template>(
    templates: Seq<(TypeId, Template)>,
    id: TypeId,
    template: Template,
)
    requires
        types_differ(templates),
        !by_type(templates).contains_key(id),
    ensures
        types_differ(templates.push((id, template))),
        by_type(templates.push((id, template))) == by_type(templates).insert(id, template),
{
    let after = templates.push((id, template));
    assert forall|i: int, j: int| 0 <= i < j < after.len() implies (#[trigger] after[i]).0 != (
    #[trigger] after[j]).0 by {
        assert(after[i] == templates[i]);
    }
    lemma_by_type_at(after, templates.len() as int);
    let updated = by_type(templates).insert(id, template);
    assert forall|k: TypeId| #[trigger]
        by_type(after).contains_key(k) == updated.contains_key(k) && (updated.contains_key(k)
            ==> by_type(after)[k] == updated[k]) by {
        if k != id && by_type(templates).contains_key(k) {
            let i = choose|i: int| 0 <= i < templates.len() && (#[trigger] templates[i]).0 == k;
            assert(after[i] == templates[i]);
            lemma_by_type_at(templates, i);
            lemma_by_type_at(after, i);
        }
        if k != id && by_type(after).contains_key(k) {
            let i = choose|i: int| 0 <= i < after.len() && (#[trigger] after[i]).0 == k;
            assert(after[i] == templates[i]);
        }
    }
    assert(by_type(after) =~= updated);
}

/// The templates once the type `id` has been shown, for which `made` is made
/// where it has no template yet.
pub open spec fn with_template<Template>(
    templates: Map<TypeId, Template>,
    id: TypeId,
    made: Template,
) -> Map<TypeId, Template> {
    if templates.contains_key(id) {
        templates
    } else {
        templates.insert(id, made)
    }
}

/// The templates of a new factory once it has been shown a run of types. With
/// each type stands the template that was handed out for it.
pub open spec fn after_run<Template>(run: Seq<(TypeId, Template)>) -> Map<TypeId, Template>
    decreases run.len(),
{
    if run.len() == 0 {
        Map::empty()
    } else {
        with_template(after_run(run.drop_last()), run.last().0, run.last().1)
    }
}

/// Whether `run` can be what a new factory has handed out: a type that had a
/// template was given that one.
pub open spec fn handed_out<Template>(run: Seq<(TypeId, Template)>) -> bool {
    forall|i: int|
        0 <= i < run.len() && after_run(run.take(i)).contains_key((#[trigger] run[i]).0)
            ==> run[i].1 == after_run(run.take(i))[run[i].0]
}

/// Whether the type at `i` of a run was shown there for the first time.
pub open spec fn is_new<Template>(run: Seq<(TypeId, Template)>, i: int) -> bool {
    forall|j: int| 0 <= j < i ==> (#[trigger] run[j]).0 != run[i].0
}

proof fn lemma_types_after_run<Template>(run: Seq<(TypeId, Template)>, id: TypeId)
    ensures
        after_run(run).contains_key(id) <==> exists|i: int|
            0 <= i < run.len() && (#[trigger] run[i]).0 == id,
    decreases run.len(),
{
    if run.len() > 0 {
        let before = run.drop_last();
        lemma_types_after_run(before, id);
        if after_run(before).contains_key(id) {
            let i = choose|i: int| 0 <= i < before.len() && (#[trigger] before[i]).0 == id;
            assert(run[i].0 == id);
        }
        if run.last().0 == id {
            assert(run[run.len() - 1].0 == id);
        }
        if exists|i: int| 0 <= i < run.len() && (#[trigger] run[i]).0 == id {
            let i = choose|i: int| 0 <= i < run.len() && (#[trigger] run[i]).0 == id;
            if i < before.len() {
                assert(before[i].0 == id);
            }
        }
    }
}

proof fn lemma_templates_stay<Template>(run: Seq<(TypeId, Template)>, n: int, id: TypeId)
    requires
        0 <= n <= run.len(),
        after_run(run.take(n)).contains_key(id),
    ensures
        after_run(run).contains_key(id),
        after_run(run)[id] == after_run(run.take(n))[id],
    decreases run.len(),
{
    if n == run.len() {
        assert(run.take(n) =~= run);
    } else {
        assert(run.drop_last().take(n) =~= run.take(n));
        lemma_templates_stay(run.drop_last(), n, id);
    }
}

/// However often a new factory is shown types, each type gets one template, made
/// when the type is shown for the first time:
/// the types with a template are those that were shown; a type has one already,
/// so that none is made for it, exactly where it is not new; a template that was
/// made is kept for good; and all that is handed out for one type is the one
/// template that was made for it.
pub proof fn a_template_is_made_once<Template>(run: Seq<(TypeId, Template)>)
    requires
        handed_out(run),
    ensures
        forall|id: TypeId| #[trigger]
            after_run(run).contains_key(id) <==> exists|i: int|
                0 <= i < run.len() && (#[trigger] run[i]).0 == id,
        forall|i: int|
            0 <= i < run.len() ==> (after_run(run.take(i)).contains_key((#[trigger] run[i]).0)
                <==> !is_new(run, i)),
        forall|n: int, id: TypeId|
            0 <= n <= run.len() && after_run(#[trigger] run.take(n)).contains_key(id)
                ==> #[trigger] after_run(run)[id] == after_run(run.take(n))[id],
        forall|i: int|
            0 <= i < run.len() ==> (#[trigger] run[i]).1 == after_run(run)[run[i].0],
        forall|i: int, j: int|
            0 <= i < run.len() && 0 <= j < run.len() && (#[trigger] run[i]).0 == (
            #[trigger] run[j]).0 ==> run[i].1 == run[j].1,
{
    assert forall|id: TypeId| #[trigger]
        after_run(run).contains_key(id) <==> exists|i: int|
            0 <= i < run.len() && (#[trigger] run[i]).0 == id by {
        lemma_types_after_run(run, id);
    }
    assert forall|i: int| 0 <= i < run.len() implies (after_run(run.take(i)).contains_key(
        (#[trigger] run[i]).0,
    ) <==> !is_new(run, i)) by {
        let before = run.take(i);
        lemma_types_after_run(before, run[i].0);
        assert(forall|j: int| 0 <= j < i ==> #[trigger] before[j] == run[j]);
        if !is_new(run, i) {
            let j = choose|j: int| 0 <= j < i && (#[trigger] run[j]).0 == run[i].0;
            assert(before[j].0 == run[i].0);
        }
    }
    assert forall|n: int, id: TypeId|
        0 <= n <= run.len() && after_run(#[trigger] run.take(n)).contains_key(
            id,
        ) implies #[trigger] after_run(run)[id] == after_run(run.take(n))[id] by {
        lemma_templates_stay(run, n, id);
    }
    assert forall|i: int| 0 <= i < run.len() implies (#[trigger] run[i]).1 == after_run(
        run,
    )[run[i].0] by {
        let through = run.take(i + 1);
        assert(through.drop_last() =~= run.take(i));
        assert(through.last() == run[i]);
        lemma_templates_stay(run, i + 1, run[i].0);
    }
}

impl<Template> View for ProxyFactory<Template> {
    type V = Map<TypeId, Template>;

    /// The template of each type.
    closed spec fn view(&self) -> Map<TypeId, Template> {
        by_type(self.templates@)
    }
}

impl<Template> ProxyFactory<Template> {
    #[verifier::type_invariant]
    spec fn one_for_each(self) -> bool {
        types_differ(self.templates@)
    }

    fn position(&self, id: &TypeId) -> (found: Option<usize>)
        ensures
            match found {
                Some(i) => i < self.templates@.len() && self.templates@[i as int].0 == *id,
                None => forall|i: int|
                    0 <= i < self.templates@.len() ==> (#[trigger] self.templates@[i]).0 != *id,
            },
    {
        let mut i: usize = 0;
        while i < self.templates.len()
            invariant
                i <= self.templates@.len(),
                forall|j: int| 0 <= j < i ==> (#[trigger] self.templates@[j]).0 != *id,
            decreases self.templates@.len() - i,
        {
            if same_type(&self.templates[i].0, id) {
                return Some(i);
            }
            i = i + 1;
        }
        None
    }

    /// The template of a type: the one that is kept, or, for a type that has
    /// none, one that `create` makes and that is kept from then on. For a type
    /// that has one, `create` need not be callable: it is not called.
    pub fn proxy<Create: FnOnce() -> Template>(&mut self, id: TypeId, create: Create) -> (template:
        &Template)
        requires
            !old(self)@.contains_key(id) ==> create.requires(()),
        ensures
            final(self)@ == with_template(old(self)@, id, *template),
            old(self)@.contains_key(id) ==> *template == old(self)@[id],
            !old(self)@.contains_key(id) ==> create.ensures((), *template),
            old(self)@.contains_key(id) ==> final(self)@ == old(self)@,
            !old(self)@.contains_key(id) ==> final(self)@ == old(self)@.insert(id, *template),
    {
        proof {
            use_type_invariant(&*self);
        }
        match self.position(&id) {
            Some(i) => {
                proof {
                    lemma_by_type_at(self.templates@, i as int);
                }
                &self.templates[i].1
            },
            None => {
                let template = create();
                let mut templates: Vec<(TypeId, Template)> = Vec::new();
                std::mem::swap(&mut templates, &mut self.templates);
                proof {
                    lemma_by_type_push(templates@, id, template);
                }
                templates.push((id, template));
                self.templates = templates;
                proof {
                    lemma_by_type_at(self.templates@, self.templates@.len() - 1);
                }
                let last: usize = self.templates.len() - 1;
                &self.templates[last].1
            },
        }
    }
}

impl<Template> Default for ProxyFactory<Template> {
    /// A factory without templates.
    fn default() -> (factory: Self)
        ensures
            factory@ == Map::<TypeId, Template>::empty(),
    {
        let factory = ProxyFactory { templates: Vec::new() };
        assert(factory@ =~= Map::<TypeId, Template>::empty());
        factory
    }
}

/// Where the instances of a template keep the native value they stand for.
pub struct RuntimeExposedBinding<Type> {
    field_num: usize,
    _t: PhantomData<Type>,
}

impl<Type> RuntimeExposedBinding<Type> {
    pub closed spec fn slot(self) -> nat {
        self.field_num as nat
    }

    /// The binding to the first internal field.
    pub fn new() -> (binding: Self)
        ensures
            binding.slot() == 0,
    {
        RuntimeExposedBinding { field_num: 0, _t: PhantomData }
    }

    /// The number of the internal field that holds the value.
    pub fn field_num(&self) -> (field_num: usize)
        ensures
            field_num == self.slot(),
    {
        self.field_num
    }
}

/// A property of a template that reads the native value.
#[derive(Debug)]
pub struct AccessorSlot {
    /// The property's name.
    pub name: String,
    /// The internal field that holds the value.
    pub field_num: usize,
}

/// Collects what the template of a native type is made of.
pub struct ExposedTypeBinder<BoundType> {
    internal_field_count: usize,
    accessors: Vec<AccessorSlot>,
    binding: RuntimeExposedBinding<BoundType>,
}

impl<BoundType> ExposedTypeBinder<BoundType> {
    /// The number of internal fields of an instance.
    pub closed spec fn fields(self) -> nat {
        self.internal_field_count as nat
    }

    /// The names of the accessors, in the order in which they were set.
    pub closed spec fn names(self) -> Seq<Seq<char>> {
        self.accessors@.map_values(|slot: AccessorSlot| slot.name@)
    }

    /// The field that the instances' native values are bound to.
    pub closed spec fn slot(self) -> nat {
        self.binding.slot()
    }

    /// Every accessor reads the field that native values are bound to, and an
    /// instance has that field.
    #[verifier::type_invariant]
    spec fn in_bounds(self) -> bool {
        &&& self.binding.field_num < self.internal_field_count
        &&& forall|i: int|
            0 <= i < self.accessors@.len() ==> (#[trigger] self.accessors@[i]).field_num
                == self.binding.field_num
    }

    /// A template with one internal field, which holds the native value, and
    /// without accessors.
    pub fn new() -> (binder: Self)
        ensures
            binder.fields() == 1,
            binder.slot() == 0,
            binder.names() == Seq::<Seq<char>>::empty(),
    {
        let binder = ExposedTypeBinder {
            internal_field_count: 1,
            accessors: Vec::new(),
            binding: RuntimeExposedBinding::new(),
        };
        assert(binder.names() =~= Seq::<Seq<char>>::empty());
        binder
    }

    pub fn internal_field_count(&self) -> (count: usize)
        ensures
            count == self.fields(),
            self.slot() < count,
    {
        proof {
            use_type_invariant(self);
        }
        self.internal_field_count
    }

    /// Adds an accessor with the given name and says which field it reads.
    pub fn set_accessor(&mut self, name: &str) -> (field_num: usize)
        ensures
            final(self).names() == old(self).names().push(name@),
            final(self).fields() == old(self).fields(),
            final(self).slot() == old(self).slot(),
            field_num == old(self).slot(),
            field_num < final(self).fields(),
    {
        proof {
            use_type_invariant(&*self);
        }
        let field_num: usize = self.binding.field_num;
        let mut accessors: Vec<AccessorSlot> = Vec::new();
        std::mem::swap(&mut accessors, &mut self.accessors);
        accessors.push(AccessorSlot { name: name.to_owned(), field_num });
        self.accessors = accessors;
        assert(self.names() =~= old(self).names().push(name@));
        field_num
    }

    /// The accessors, in the order in which they were set, and where native
    /// values are bound.
    pub fn finish(self) -> (parts: (Vec<AccessorSlot>, RuntimeExposedBinding<BoundType>))
        ensures
            parts.0@.map_values(|slot: AccessorSlot| slot.name@) == self.names(),
            forall|i: int|
                0 <= i < parts.0@.len() ==> (#[trigger] parts.0@[i]).field_num == self.slot(),
            parts.1.slot() == self.slot(),
            self.slot() < self.fields(),
    {
        proof {
            use_type_invariant(&self);
        }
        (self.accessors, self.binding)
    }
}

/// What answering a script that reads an accessor comes to, where `before` was
/// handed back so far: an instance that is bound to a native value has what `get`
/// reads from it handed back, and one that is not has nothing handed back.
pub open spec fn answers_read<BoundType, H, Field, Get>(
    external: Option<&BoundType>,
    get: Get,
    before: ReturnValue<H>,
    after: ReturnValue<H>,
) -> bool where Field: ExposedReturnable<H>, Get: FnOnce(&BoundType) -> Field {
    match external {
        Some(bound) => exists|field: Field| #[trigger]
            get.ensures((bound,), field) && after == field.returned(),
        None => after == before,
    }
}

/// Every read shows the native value as it is at that read: where `get` reads
/// `field_of`, a read hands back the field of the value that it finds, so that a
/// write between two reads shows in the second, and two reads of one value agree.
pub proof fn a_read_shows_the_value_as_it_is<BoundType, H, Field, Get>(
    get: Get,
    field_of: spec_fn(BoundType) -> Field,
    first: BoundType,
    second: BoundType,
    before_first: ReturnValue<H>,
    after_first: ReturnValue<H>,
    before_second: ReturnValue<H>,
    after_second: ReturnValue<H>,
) where Field: ExposedReturnable<H>, Get: FnOnce(&BoundType) -> Field
    requires
        forall|bound: BoundType, field: Field| #[trigger]
            get.ensures((&bound,), field) ==> field == field_of(bound),
        answers_read::<BoundType, H, Field, Get>(Some(&first), get, before_first, after_first),
        answers_read::<BoundType, H, Field, Get>(Some(&second), get, before_second, after_second),
    ensures
        after_first == field_of(first).returned(),
        after_second == field_of(second).returned(),
        first == second ==> after_first == after_second,
{
}

/// Answers a script that reads an accessor. An instance that is bound to a
/// native value hands back what `get` reads from it; one that is not hands back
/// nothing.
pub fn read_field<BoundType, H, Field, Get>(
    external: Option<&BoundType>,
    get: Get,
    rv: &mut ReturnValue<H>,
) where Field: ExposedReturnable<H>, Get: FnOnce(&BoundType) -> Field
    requires
        external matches Some(bound) ==> get.requires((bound,)),
    ensures
        answers_read::<BoundType, H, Field, Get>(external, get, *old(rv), *final(rv)),
        external matches Some(bound) ==> exists|field: Field| #[trigger]
            get.ensures((bound,), field) && *final(rv) == field.returned(),
        external is None ==> *final(rv) == *old(rv),
{
    if let Some(bound) = external {
        let field = get(bound);
        field.set(rv);
    }
}

/// Showing a type adds its template where it has none, changes nothing where it
/// has one, and never touches another type.
pub proof fn showing_a_type_adds_its_template<Template>(
    templates: Map<TypeId, Template>,
    id: TypeId,
    made: Template,
    other: TypeId,
)
    ensures
        with_template(templates, id, made).contains_key(id),
        templates.contains_key(id) ==> with_template(templates, id, made) == templates,
        !templates.contains_key(id) ==> with_template(templates, id, made)[id] == made,
        other != id ==> with_template(templates, id, made).contains_key(other)
            == templates.contains_key(other),
        other != id && templates.contains_key(other) ==> with_template(templates, id, made)[other]
            == templates[other],
{
}

/// A read of an instance that is bound to nothing leaves what was handed back so
/// far as it is, and a read of one that is bound hands back a field of its value.
pub proof fn a_read_of_nothing_hands_back_nothing<BoundType, H, Field, Get>(
    bound: BoundType,
    get: Get,
    before: ReturnValue<H>,
    after: ReturnValue<H>,
) where Field: ExposedReturnable<H>, Get: FnOnce(&BoundType) -> Field
    ensures
        answers_read::<BoundType, H, Field, Get>(None, get, before, after) <==> after == before,
        answers_read::<BoundType, H, Field, Get>(Some(&bound), get, before, after) ==> exists|
            field: Field,
        | #[trigger]
            get.ensures((&bound,), field) && after == field.returned(),
{
}

} // verus!
