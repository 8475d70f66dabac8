use vstd::prelude::*;

use crate::attribute_store::{
    attribute_type_lines, attributes_view, name_lines, store_ref_text, AddAttributeStore,
    AddAttributeStoreAttributes, AttributeView, ChangeAttribute, EntityIdType, RemoveAttributes,
    store_table_name,
};
use crate::instance::{trend_store_view, AddTrendStore};
use crate::trend_store_change::{
    modification_lines, modifications_view, part_names_of, part_view, trend_store_text,
    trend_type_lines, trends_view, AddTrendStorePart, AddTrends, ModifyTrendDataTypes,
    ModifyTrendExtraData, RemoveTrendStorePart, RemoveTrends, TrendStorePartView, TrendView,
};
use crate::time::Duration;
use crate::entity_type::{AddPrimaryAlias, ChangePrimaryAlias, RemovePrimaryAlias};
use crate::text::{decimal, strings_view};
use crate::trend_materialization::{
    materialization_text, view_name_of, AddTrendMaterialization, RemoveTrendMaterialization, TrendFunctionMaterializationView,
    TrendMaterializationView, TrendViewMaterializationView, UpdateFunction,
    UpdateTrendFunctionMaterializationAttributes, UpdateTrendMaterialization,
    UpdateTrendViewMaterializationAttributes, UpdateView,
};

verus! {

/// The kinds of existing object that a change can point to.
#[derive(Clone, Copy, Debug, PartialEq, Eq, Structural)]
pub enum ObjectKind {
    TrendStorePart,
    TrendFunctionMaterialization,
    AttributeStore,
    AttributeMaterialization,
    TrendViewMaterialization,
    Relation,
    VirtualEntity,
}

/// Points to an existing object by type and name.
pub enum MinervaObjectRef {
    TrendStorePart(String),
    TrendFunctionMaterialization(String),
    AttributeStore(String),
    AttributeMaterialization(String),
    TrendViewMaterialization(String),
    Relation(String),
    VirtualEntity(String),
}

impl View for MinervaObjectRef {
    type V = (ObjectKind, Seq<char>);

    open spec fn view(&self) -> (ObjectKind, Seq<char>) {
        match self {
            MinervaObjectRef::TrendStorePart(n) => (ObjectKind::TrendStorePart, n@),
            MinervaObjectRef::TrendFunctionMaterialization(n) => (
                ObjectKind::TrendFunctionMaterialization,
                n@,
            ),
            MinervaObjectRef::AttributeStore(n) => (ObjectKind::AttributeStore, n@),
            MinervaObjectRef::AttributeMaterialization(n) => (
                ObjectKind::AttributeMaterialization,
                n@,
            ),
            MinervaObjectRef::TrendViewMaterialization(n) => (
                ObjectKind::TrendViewMaterialization,
                n@,
            ),
            MinervaObjectRef::Relation(n) => (ObjectKind::Relation, n@),
            MinervaObjectRef::VirtualEntity(n) => (ObjectKind::VirtualEntity, n@),
        }
    }
}

/// The label with which an object of a kind is written.
pub open spec fn object_label(kind: ObjectKind) -> Seq<char> {
    match kind {
        ObjectKind::TrendStorePart => "TrendStorePart"@,
        ObjectKind::TrendFunctionMaterialization => "TrendFunctionMaterialization"@,
        ObjectKind::AttributeStore => "AttributeStore"@,
        ObjectKind::AttributeMaterialization => "AttributeMaterialization"@,
        ObjectKind::TrendViewMaterialization => "TrendViewMaterialization"@,
        ObjectKind::Relation => "Relation"@,
        ObjectKind::VirtualEntity => "VirtualEntity"@,
    }
}

/// How a reference to an object is written: the label of its kind, then its name in
/// round brackets.
pub open spec fn object_text(r: (ObjectKind, Seq<char>)) -> Seq<char> {
    object_label(r.0) + "("@ + r.1 + ")"@
}

impl MinervaObjectRef {
    /// The name of the object.
    pub fn name(&self) -> (r: &str)
        ensures
            r@ == self@.1,
    {
        match self {
            MinervaObjectRef::TrendStorePart(n) => n.as_str(),
            MinervaObjectRef::TrendFunctionMaterialization(n) => n.as_str(),
            MinervaObjectRef::AttributeStore(n) => n.as_str(),
            MinervaObjectRef::AttributeMaterialization(n) => n.as_str(),
            MinervaObjectRef::TrendViewMaterialization(n) => n.as_str(),
            MinervaObjectRef::Relation(n) => n.as_str(),
            MinervaObjectRef::VirtualEntity(n) => n.as_str(),
        }
    }

    /// How the reference is written, such as `Relation(node->cell)`.
    pub fn to_display_string(&self) -> (r: String)
        ensures
            r@ == object_text(self@),
    {
        let label = match self {
            MinervaObjectRef::TrendStorePart(_) => "TrendStorePart",
            MinervaObjectRef::TrendFunctionMaterialization(_) => "TrendFunctionMaterialization",
            MinervaObjectRef::AttributeStore(_) => "AttributeStore",
            MinervaObjectRef::AttributeMaterialization(_) => "AttributeMaterialization",
            MinervaObjectRef::TrendViewMaterialization(_) => "TrendViewMaterialization",
            MinervaObjectRef::Relation(_) => "Relation",
            MinervaObjectRef::VirtualEntity(_) => "VirtualEntity",
        };
        proof {
            reveal_strlit("TrendStorePart");
            reveal_strlit("TrendFunctionMaterialization");
            reveal_strlit("AttributeStore");
            reveal_strlit("AttributeMaterialization");
            reveal_strlit("TrendViewMaterialization");
            reveal_strlit("Relation");
            reveal_strlit("VirtualEntity");
            reveal_strlit("(");
            reveal_strlit(")");
        }
        let mut s = label.to_owned();
        s.append("(");
        s.append(self.name());
        s.append(")");
        s
    }
}

/// A change to an instance, as the comparison of two instances finds them.
pub enum Change {
    AddAttributeStoreAttributes(AddAttributeStoreAttributes),
    RemoveAttributes(RemoveAttributes),
    ChangeAttribute(ChangeAttribute),
    AddAttributeStore(AddAttributeStore),
    UpdateView(UpdateView),
    UpdateTrendViewMaterializationAttributes(UpdateTrendViewMaterializationAttributes),
    UpdateFunction(UpdateFunction),
    UpdateTrendFunctionMaterializationAttributes(UpdateTrendFunctionMaterializationAttributes),
    AddTrendMaterialization(AddTrendMaterialization),
    RemoveTrendMaterialization(RemoveTrendMaterialization),
    UpdateTrendMaterialization(UpdateTrendMaterialization),
    AddPrimaryAlias(AddPrimaryAlias),
    RemovePrimaryAlias(RemovePrimaryAlias),
    ChangePrimaryAlias(ChangePrimaryAlias),
    AddTrendStore(AddTrendStore),
    AddTrendStorePart(AddTrendStorePart),
    RemoveTrendStorePart(RemoveTrendStorePart),
    AddTrends(AddTrends),
    RemoveTrends(RemoveTrends),
    ModifyTrendDataTypes(ModifyTrendDataTypes),
    ModifyTrendExtraData(ModifyTrendExtraData),
}

/// A change, mathematically.
pub enum ChangeView {
    AddAttributeStoreAttributes { store: (Seq<char>, Seq<char>), attributes: Seq<AttributeView> },
    RemoveAttributes { store: (Seq<char>, Seq<char>), names: Seq<Seq<char>> },
    ChangeAttribute { store: (Seq<char>, Seq<char>), name: Seq<char>, data_type: Seq<char> },
    AddAttributeStore {
        data_source: Seq<char>,
        entity_type: Seq<char>,
        attributes: Seq<AttributeView>,
        entity_id_type: EntityIdType,
    },
    UpdateView { materialization: TrendViewMaterializationView },
    UpdateTrendViewMaterializationAttributes { materialization: TrendViewMaterializationView },
    UpdateFunction {
        original_definition: Seq<char>,
        new_definition: Seq<char>,
        materialization: TrendFunctionMaterializationView,
    },
    UpdateTrendFunctionMaterializationAttributes {
        materialization: TrendFunctionMaterializationView,
    },
    AddTrendMaterialization { materialization: TrendMaterializationView },
    RemoveTrendMaterialization { name: Seq<char> },
    UpdateTrendMaterialization { materialization: TrendMaterializationView },
    AddPrimaryAlias { entity_type: Seq<char>, primary_alias: Seq<char> },
    RemovePrimaryAlias { entity_type: Seq<char> },
    ChangePrimaryAlias { entity_type: Seq<char>, primary_alias: Seq<char> },
    AddTrendStore { trend_store: (Seq<char>, Seq<char>, Duration, Seq<TrendStorePartView>) },
    AddTrendStorePart { trend_store: (Seq<char>, Seq<char>, Duration), part: TrendStorePartView },
    RemoveTrendStorePart { name: Seq<char> },
    AddTrends { part: Seq<char>, trends: Seq<TrendView> },
    RemoveTrends { part: Seq<char>, trends: Seq<Seq<char>> },
    ModifyTrendDataTypes {
        part: Seq<char>,
        modifications: Seq<(Seq<char>, Seq<char>, Seq<char>)>,
        total_trend_count: nat,
    },
    ModifyTrendExtraData { part: Seq<char>, trend: Seq<char>, from: Seq<char>, to: Seq<char> },
}

impl View for Change {
    type V = ChangeView;

    open spec fn view(&self) -> ChangeView {
        match self {
            Change::AddAttributeStoreAttributes(c) => ChangeView::AddAttributeStoreAttributes {
                store: c.attribute_store@,
                attributes: attributes_view(c.attributes@),
            },
            Change::RemoveAttributes(c) => ChangeView::RemoveAttributes {
                store: c.attribute_store@,
                names: strings_view(c.attributes@),
            },
            Change::ChangeAttribute(c) => ChangeView::ChangeAttribute {
                store: c.attribute_store@,
                name: c.attribute_name@,
                data_type: c.data_type@,
            },
            Change::AddAttributeStore(c) => ChangeView::AddAttributeStore {
                data_source: c.attribute_store.data_source@,
                entity_type: c.attribute_store.entity_type@,
                attributes: attributes_view(c.attribute_store.attributes@),
                entity_id_type: c.attribute_store.entity_id_type,
            },
            Change::UpdateView(c) => ChangeView::UpdateView {
                materialization: c.trend_view_materialization@,
            },
            Change::UpdateTrendViewMaterializationAttributes(c) => {
                ChangeView::UpdateTrendViewMaterializationAttributes {
                    materialization: c.trend_view_materialization@,
                }
            },
            Change::UpdateFunction(c) => ChangeView::UpdateFunction {
                original_definition: c.original_definition@,
                new_definition: c.new_definition@,
                materialization: c.trend_function_materialization@,
            },
            Change::UpdateTrendFunctionMaterializationAttributes(c) => {
                ChangeView::UpdateTrendFunctionMaterializationAttributes {
                    materialization: c.trend_function_materialization@,
                }
            },
            Change::AddTrendMaterialization(c) => ChangeView::AddTrendMaterialization {
                materialization: c.trend_materialization@,
            },
            Change::RemoveTrendMaterialization(c) => ChangeView::RemoveTrendMaterialization {
                name: c.name@,
            },
            Change::UpdateTrendMaterialization(c) => ChangeView::UpdateTrendMaterialization {
                materialization: c.trend_materialization@,
            },
            Change::AddPrimaryAlias(c) => ChangeView::AddPrimaryAlias {
                entity_type: c.entity_type@,
                primary_alias: c.primary_alias@,
            },
            Change::RemovePrimaryAlias(c) => ChangeView::RemovePrimaryAlias {
                entity_type: c.entity_type@,
            },
            Change::ChangePrimaryAlias(c) => ChangeView::ChangePrimaryAlias {
                entity_type: c.entity_type@,
                primary_alias: c.primary_alias@,
            },
            Change::AddTrendStore(c) => ChangeView::AddTrendStore {
                trend_store: trend_store_view(c.trend_store),
            },
            Change::AddTrendStorePart(c) => ChangeView::AddTrendStorePart {
                trend_store: c.trend_store@,
                part: part_view(c.trend_store_part),
            },
            Change::RemoveTrendStorePart(c) => ChangeView::RemoveTrendStorePart { name: c.name@ },
            Change::AddTrends(c) => ChangeView::AddTrends {
                part: c.trend_store_part_name@,
                trends: trends_view(c.trends@),
            },
            Change::RemoveTrends(c) => ChangeView::RemoveTrends {
                part: c.trend_store_part_name@,
                trends: strings_view(c.trends@),
            },
            Change::ModifyTrendDataTypes(c) => ChangeView::ModifyTrendDataTypes {
                part: c.trend_store_part_name@,
                modifications: modifications_view(c.modifications@),
                total_trend_count: c.total_trend_count as nat,
            },
            Change::ModifyTrendExtraData(c) => ChangeView::ModifyTrendExtraData {
                part: c.trend_store_part_name@,
                trend: c.trend_name@,
                from: c.from_extra_data@,
                to: c.to_extra_data@,
            },
        }
    }
}

/// The views of a list of changes.
pub open spec fn changes_view(changes: Seq<Change>) -> Seq<ChangeView> {
    changes.map_values(|c: Change| c@)
}

/// The existing object that a change works on, if it names one.
pub open spec fn existing_object_of(change: ChangeView) -> Option<(ObjectKind, Seq<char>)> {
    match change {
        ChangeView::ChangeAttribute { store, .. } => Some(
            (ObjectKind::AttributeStore, store_table_name(store)),
        ),
        ChangeView::UpdateFunction { materialization, .. } => Some(
            (ObjectKind::TrendFunctionMaterialization, materialization.target_trend_store_part),
        ),
        ChangeView::ModifyTrendDataTypes { part, .. } => Some((ObjectKind::TrendStorePart, part)),
        _ => None,
    }
}

/// How a change is written: the text of the change it holds.
pub open spec fn change_text(c: ChangeView) -> Seq<char> {
    match c {
        ChangeView::AddAttributeStoreAttributes { store, attributes } => "AddAttributes("@
            + store_ref_text(store) + ", "@ + decimal(attributes.len()) + "):\n"@
            + attribute_type_lines(attributes),
        ChangeView::RemoveAttributes { store, names } => "RemoveAttributes("@ + store_ref_text(store)
            + ", "@ + decimal(names.len()) + ")\n"@ + name_lines(names),
        ChangeView::ChangeAttribute { store, name, .. } => "ChangeAttribute("@ + store_ref_text(store)
            + ", "@ + name + ")"@,
        ChangeView::AddAttributeStore { data_source, entity_type, .. } => "AddAttributeStore("@
            + store_ref_text((data_source, entity_type)) + ")"@,
        ChangeView::UpdateView { materialization } => "UpdateView("@
            + materialization.target_trend_store_part + ", "@ + view_name_of(
            materialization.target_trend_store_part,
        ) + ")"@,
        ChangeView::UpdateTrendViewMaterializationAttributes { materialization } =>
            "UpdateTrendViewMaterializationAttributes("@ + materialization.target_trend_store_part
            + ")"@,
        ChangeView::UpdateFunction { materialization, .. } => "UpdateFunction("@
            + materialization.target_trend_store_part + ", "@ + materialization.target_trend_store_part
            + ")"@,
        ChangeView::UpdateTrendFunctionMaterializationAttributes { materialization } =>
            "UpdateTrendFunctionMaterializationAttributes("@
            + materialization.target_trend_store_part + ")"@,
        ChangeView::AddTrendMaterialization { materialization } => "AddTrendMaterialization("@
            + materialization_text(materialization) + ")"@,
        ChangeView::RemoveTrendMaterialization { name } => "RemoveTrendMaterialization("@ + name
            + ")"@,
        ChangeView::UpdateTrendMaterialization { materialization } => "UpdateTrendMaterialization("@
            + materialization_text(materialization) + ")"@,
        ChangeView::AddPrimaryAlias { entity_type, primary_alias } => "AddPrimaryAlias("@
            + entity_type + ", "@ + primary_alias + "):\n"@,
        ChangeView::RemovePrimaryAlias { entity_type } => "RemovePrimaryAlias("@ + entity_type
            + "):\n"@,
        ChangeView::ChangePrimaryAlias { entity_type, primary_alias } => "ChangePrimaryAlias("@
            + entity_type + ", "@ + primary_alias + "):\n"@,
        ChangeView::AddTrendStore { trend_store } => "AddTrendStore("@ + trend_store_text(
            (trend_store.0, trend_store.1, trend_store.2),
        ) + ")\n"@ + name_lines(part_names_of(trend_store.3)),
        ChangeView::AddTrendStorePart { trend_store, part } => "AddTrendStorePart("@
            + trend_store_text(trend_store) + ", "@ + part.name + ")"@,
        ChangeView::RemoveTrendStorePart { name } => "RemoveTrendStorePart("@ + name + ")"@,
        ChangeView::AddTrends { part, trends } => "AddTrends(TrendStorePart("@ + part + "), "@
            + decimal(trends.len()) + "):\n"@ + trend_type_lines(trends),
        ChangeView::RemoveTrends { part, trends } => "RemoveTrends(TrendStorePart("@ + part + "), "@
            + decimal(trends.len()) + "):\n"@ + name_lines(trends),
        ChangeView::ModifyTrendDataTypes { part, modifications, total_trend_count } =>
            "ModifyTrendDataTypes("@ + part + ", "@ + decimal(modifications.len()) + "/"@ + decimal(
            total_trend_count,
        ) + "):\n"@ + modification_lines(modifications),
        ChangeView::ModifyTrendExtraData { part, trend, .. } => "Trend("@ + part + "."@ + trend
            + ")"@,
    }
}

impl Change {
    /// How the change is written (see `change_text`).
    pub fn to_display_string(&self) -> (r: String)
        ensures
            r@ == change_text(self@),
    {
        match self {
            Change::AddAttributeStoreAttributes(c) => c.to_display_string(),
            Change::RemoveAttributes(c) => c.to_display_string(),
            Change::ChangeAttribute(c) => c.to_display_string(),
            Change::AddAttributeStore(c) => c.to_display_string(),
            Change::UpdateView(c) => c.to_display_string(),
            Change::UpdateTrendViewMaterializationAttributes(c) => c.to_display_string(),
            Change::UpdateFunction(c) => c.to_display_string(),
            Change::UpdateTrendFunctionMaterializationAttributes(c) => c.to_display_string(),
            Change::AddTrendMaterialization(c) => c.to_display_string(),
            Change::RemoveTrendMaterialization(c) => c.to_display_string(),
            Change::UpdateTrendMaterialization(c) => c.to_display_string(),
            Change::AddPrimaryAlias(c) => c.to_display_string(),
            Change::RemovePrimaryAlias(c) => c.to_display_string(),
            Change::ChangePrimaryAlias(c) => c.to_display_string(),
            Change::AddTrendStore(c) => c.to_display_string(),
            Change::AddTrendStorePart(c) => c.to_display_string(),
            Change::RemoveTrendStorePart(c) => c.to_display_string(),
            Change::AddTrends(c) => c.to_display_string(),
            Change::RemoveTrends(c) => c.to_display_string(),
            Change::ModifyTrendDataTypes(c) => c.to_display_string(),
            Change::ModifyTrendExtraData(c) => c.to_display_string(),
        }
    }

    /// The existing object that the change works on, if it names one.
    pub fn existing_object(&self) -> (r: Option<MinervaObjectRef>)
        ensures
            match r {
                Some(o) => existing_object_of(self@) == Some(o@),
                None => existing_object_of(self@) is None,
            },
    {
        match self {
            Change::ChangeAttribute(c) => Some(
                MinervaObjectRef::AttributeStore(c.attribute_store.table_name()),
            ),
            Change::UpdateFunction(c) => Some(
                MinervaObjectRef::TrendFunctionMaterialization(
                    c.trend_function_materialization.target_trend_store_part.clone(),
                ),
            ),
            Change::ModifyTrendDataTypes(c) => Some(
                MinervaObjectRef::TrendStorePart(c.trend_store_part_name.clone()),
            ),
            _ => None,
        }
    }
}

/// Appends a change to a list of changes.
pub fn push_change(changes: &mut Vec<Change>, change: Change)
    ensures
        changes_view(final(changes)@) == changes_view(old(changes)@).push(change@),
{
    let ghost prev = changes@;
    changes.push(change);
    assert(changes_view(changes@) =~= changes_view(prev).push(change@)) by {
        assert forall|j: int| 0 <= j < prev.len() implies changes_view(changes@)[j]
            == changes_view(prev)[j] by {
            assert(changes@[j] == prev[j]);
        }
    }
}

/// Appends the changes of `more` to `changes`.
pub fn append_changes(changes: &mut Vec<Change>, more: Vec<Change>)
    ensures
        changes_view(final(changes)@) == changes_view(old(changes)@) + changes_view(more@),
{
    let ghost start = changes_view(changes@);
    let ghost all = changes_view(more@);
    let mut more = more;
    let mut rest: Vec<Change> = Vec::new();
    // Take the items from the back, so that they can be pushed in their order.
    while more.len() > 0
        invariant
            changes_view(rest@) == all.skip(more.len() as int).reverse(),
            changes_view(more@) == all.take(more.len() as int),
            more.len() <= all.len(),
        decreases more.len(),
    {
        let ghost before_more = more@;
        let ghost before_rest = rest@;
        let c = more.pop().unwrap();
        assert(c@ == all[more.len() as int]) by {
            assert(changes_view(before_more)[more.len() as int] == before_more[more.len() as int]@);
        }
        push_change(&mut rest, c);
        proof {
            assert(changes_view(more@) =~= all.take(more.len() as int)) by {
                assert forall|j: int| 0 <= j < more.len() implies changes_view(more@)[j]
                    == all.take(more.len() as int)[j] by {
                    assert(more@[j] == before_more[j]);
                    assert(changes_view(before_more)[j] == all.take(before_more.len() as int)[j]);
                }
            }
            assert(changes_view(rest@) =~= all.skip(more.len() as int).reverse());
        }
    }
    assert(changes_view(rest@) =~= all.reverse());
    while rest.len() > 0
        invariant
            changes_view(changes@) == start + all.take(all.len() - rest.len()),
            changes_view(rest@) == all.skip(all.len() - rest.len()).reverse(),
            rest.len() <= all.len(),
        decreases rest.len(),
    {
        let ghost before_rest = rest@;
        let c = rest.pop().unwrap();
        assert(c@ == all[all.len() - before_rest.len()]) by {
            assert(changes_view(before_rest)[rest.len() as int] == before_rest[rest.len() as int]@);
        }
        push_change(changes, c);
        proof {
            assert(changes_view(changes@) =~= start + all.take(all.len() - rest.len()));
            assert(changes_view(rest@) =~= all.skip(all.len() - rest.len()).reverse()) by {
                assert forall|j: int| 0 <= j < rest.len() implies changes_view(rest@)[j]
                    == all.skip(all.len() - rest.len()).reverse()[j] by {
                    assert(rest@[j] == before_rest[j]);
                    assert(changes_view(before_rest)[j] == all.skip(all.len() - before_rest.len()).reverse()[j]);
                }
            }
        }
    }
    assert(all.take(all.len() as int) =~= all);
}

} // verus!
