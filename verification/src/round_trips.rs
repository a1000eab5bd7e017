//! What the conversions of the entity types promise together: templates
//! round-trip through entities, wrapping picks the entity's own variant,
//! wrapped values compare by kind, and setting an alias changes nothing but
//! the alias.
use vstd::prelude::*;
use vstd::std_specs::convert::FromSpec;
use vstd::std_specs::cmp::PartialEqSpec;
use crate::collections::Piece;
use crate::entity_wrapper::{EntityWrapper, Label, Nothing, NothingProps, NothingTemplate, PropsWrapper};
use crate::external::{lower_form, shouty_snake_of};
use crate::objects::{
    Component, ComponentProps, ComponentTemplate, Group, GroupProps, GroupTemplate, HasComponent,
    HasComponentProps, HasComponentTemplate, MemberOf, MemberOfProps, MemberOfTemplate, Page, PageProps,
    PageTemplate, User, UserProps, UserTemplate,
};
use crate::patterns::relation_pattern;
use crate::traits::{Aliasable, Neo4gEntity, Paramable};

verus! {

/// Making a placeholder entity from a template (`from_template`) and reading its template
/// back (`from_entity`) gives the template's values.
pub proof fn law_nothing_template_round_trip(t: NothingTemplate, e: Nothing, r: NothingTemplate)
    requires
        e.nothing == NothingProps::Nothing(t.nothing),
        e.nothing == NothingProps::Nothing(r.nothing),
    ensures
        r.nothing == t.nothing,
{
}

/// Making a user from a template (`from_template`) and reading its template
/// back (`from_entity`) gives the template's values.
pub proof fn law_user_template_round_trip(t: UserTemplate, e: User, r: UserTemplate)
    requires
        e.id == UserProps::Id(t.id),
        e.name == UserProps::Name(t.name),
        e.password == UserProps::Password(t.password),
        e.forename == UserProps::Forename(t.forename),
        e.surname == UserProps::Surname(t.surname),
        e.deleted == UserProps::Deleted(t.deleted),
        e.example == UserProps::Example(t.example),
        e.groups == t.groups,
        e.id == UserProps::Id(r.id),
        e.name == UserProps::Name(r.name),
        e.password == UserProps::Password(r.password),
        e.forename == UserProps::Forename(r.forename),
        e.surname == UserProps::Surname(r.surname),
        e.deleted == UserProps::Deleted(r.deleted),
        e.example == UserProps::Example(r.example),
        r.groups@ == e.groups@,
    ensures
        r.id == t.id,
        r.name == t.name,
        r.password == t.password,
        r.forename == t.forename,
        r.surname == t.surname,
        r.deleted == t.deleted,
        r.example == t.example,
        r.groups@ == t.groups@,
{
}

/// Making a group from a template (`from_template`) and reading its template
/// back (`from_entity`) gives the template's values.
pub proof fn law_group_template_round_trip(t: GroupTemplate, e: Group, r: GroupTemplate)
    requires
        e.id == GroupProps::Id(t.id),
        e.name == GroupProps::Name(t.name),
        e.deleted == GroupProps::Deleted(t.deleted),
        e.id == GroupProps::Id(r.id),
        e.name == GroupProps::Name(r.name),
        e.deleted == GroupProps::Deleted(r.deleted),
    ensures
        r.id == t.id,
        r.name == t.name,
        r.deleted == t.deleted,
{
}

/// Making a membership from a template (`from_template`) and reading its template
/// back (`from_entity`) gives the template's values.
pub proof fn law_member_of_template_round_trip(t: MemberOfTemplate, e: MemberOf, r: MemberOfTemplate)
    requires
        e.deleted == MemberOfProps::Deleted(t.deleted),
        e.deleted == MemberOfProps::Deleted(r.deleted),
    ensures
        r.deleted == t.deleted,
{
}

/// Making a page-component link from a template (`from_template`) and reading its template
/// back (`from_entity`) gives the template's values.
pub proof fn law_has_component_template_round_trip(t: HasComponentTemplate, e: HasComponent, r: HasComponentTemplate)
    requires
        e.deleted == HasComponentProps::Deleted(t.deleted),
        e.deleted == HasComponentProps::Deleted(r.deleted),
    ensures
        r.deleted == t.deleted,
{
}

/// Making a page from a template (`from_template`) and reading its template
/// back (`from_entity`) gives the template's values.
pub proof fn law_page_template_round_trip(t: PageTemplate, e: Page, r: PageTemplate)
    requires
        e.id == PageProps::Id(t.id),
        e.path == PageProps::Path(t.path),
        e.components == t.components,
        e.id == PageProps::Id(r.id),
        e.path == PageProps::Path(r.path),
        r.components@ == e.components@,
    ensures
        r.id == t.id,
        r.path == t.path,
        r.components@ == t.components@,
{
}

/// Making a component from a template (`from_template`) and reading its template
/// back (`from_entity`) gives the template's values.
pub proof fn law_component_template_round_trip(t: ComponentTemplate, e: Component, r: ComponentTemplate)
    requires
        e.id == ComponentProps::Id(t.id),
        e.path == ComponentProps::Path(t.path),
        e.component_type == ComponentProps::ComponentType(t.component_type),
        e.id == ComponentProps::Id(r.id),
        e.path == ComponentProps::Path(r.path),
        e.component_type == ComponentProps::ComponentType(r.component_type),
    ensures
        r.id == t.id,
        r.path == t.path,
        r.component_type == t.component_type,
{
}

/// Wrapping an entity (`EntityWrapper::from`) gives the variant of its type,
/// which is of that type's kind.
pub proof fn law_wrapper_from_keeps_kind(nothing: Nothing, user: User, group: Group, member_of: MemberOf, has_component: HasComponent, page: Page, component: Component)
    ensures
        <EntityWrapper as FromSpec<Nothing>>::from_spec(nothing) == EntityWrapper::Nothing(nothing),
        EntityWrapper::Nothing(nothing).kind() == Label::Nothing,
        <EntityWrapper as FromSpec<User>>::from_spec(user) == EntityWrapper::User(user),
        EntityWrapper::User(user).kind() == Label::User,
        <EntityWrapper as FromSpec<Group>>::from_spec(group) == EntityWrapper::Group(group),
        EntityWrapper::Group(group).kind() == Label::Group,
        <EntityWrapper as FromSpec<MemberOf>>::from_spec(member_of) == EntityWrapper::MemberOf(member_of),
        EntityWrapper::MemberOf(member_of).kind() == Label::MemberOf,
        <EntityWrapper as FromSpec<HasComponent>>::from_spec(has_component) == EntityWrapper::HasComponent(has_component),
        EntityWrapper::HasComponent(has_component).kind() == Label::HasComponent,
        <EntityWrapper as FromSpec<Page>>::from_spec(page) == EntityWrapper::Page(page),
        EntityWrapper::Page(page).kind() == Label::Page,
        <EntityWrapper as FromSpec<Component>>::from_spec(component) == EntityWrapper::Component(component),
        EntityWrapper::Component(component).kind() == Label::Component,
{
}

/// Wrapping a property (`PropsWrapper::from`) gives the variant of its type.
pub proof fn law_props_wrapper_from(nothing: NothingProps, user: UserProps, group: GroupProps, member_of: MemberOfProps, has_component: HasComponentProps, page: PageProps, component: ComponentProps)
    ensures
        <PropsWrapper as FromSpec<NothingProps>>::from_spec(nothing) == PropsWrapper::NothingProps(nothing),
        <PropsWrapper as FromSpec<UserProps>>::from_spec(user) == PropsWrapper::UserProps(user),
        <PropsWrapper as FromSpec<GroupProps>>::from_spec(group) == PropsWrapper::GroupProps(group),
        <PropsWrapper as FromSpec<MemberOfProps>>::from_spec(member_of) == PropsWrapper::MemberOfProps(member_of),
        <PropsWrapper as FromSpec<HasComponentProps>>::from_spec(has_component) == PropsWrapper::HasComponentProps(has_component),
        <PropsWrapper as FromSpec<PageProps>>::from_spec(page) == PropsWrapper::PageProps(page),
        <PropsWrapper as FromSpec<ComponentProps>>::from_spec(component) == PropsWrapper::ComponentProps(component),
{
}

/// Two wrapped entities are equal (`==`) exactly when they are of the same
/// kind and not `Nothing`; the comparison is symmetric.
pub proof fn law_wrapper_equality_by_kind(a: EntityWrapper, b: EntityWrapper)
    ensures
        a.eq_spec(&b) <==> (a.kind() == b.kind() && a.kind() != Label::Nothing),
        a.eq_spec(&b) == b.eq_spec(&a),
{
}

/// After `set_alias(a)` an entity writes itself as it did before, only under
/// its new alias: the same label, properties, pattern and parameters.
pub proof fn law_set_alias_changes_only_alias<T: Neo4gEntity>(x: T, y: T, a: Seq<char>)
    requires
        y.alias_spec() == x.alias_after(a),
        y.uuid_spec() == x.uuid_spec(),
        y.same_but_alias(&x),
    ensures
        y.label_spec() == x.label_spec(),
        y.own_props() == x.own_props(),
        y.pattern_text(y.alias_spec(), y.own_props()) == x.pattern_text(x.alias_after(a), x.own_props()),
        y.pattern_params(y.alias_spec(), y.own_props()) == x.pattern_params(x.alias_after(a), x.own_props()),
{
    T::lemma_alias_free(&y, &x);
    assert(y.pattern_text(y.alias_spec(), y.own_props()) == x.pattern_text(y.alias_spec(), y.own_props()));
}

/// After `set_alias(a)` a membership is aliased `a` in lower case, refers to
/// itself by that alias with no ids or parameters, and writes itself as its
/// relation pattern under that alias with its own property.
pub proof fn law_member_of_set_alias(x: MemberOf, y: MemberOf, a: Seq<char>)
    requires
        y.alias_spec() == x.alias_after(a),
        y.uuid_spec() == x.uuid_spec(),
        y.same_but_alias(&x),
    ensures
        y.alias_spec() == lower_form(a),
        y.text_spec() == seq![Piece::Text(lower_form(a))],
        y.ids_spec() == Seq::<u128>::empty(),
        y.params_spec() == Map::<Seq<char>, neo4rs::BoltType>::empty(),
        y.pattern_text(y.alias_spec(), y.own_props()) == relation_pattern(
            shouty_snake_of("MemberOf"@),
            lower_form(a),
            seq![x.deleted],
        ),
{
}

} // verus!
