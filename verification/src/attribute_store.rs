use vstd::prelude::*;

use serde_json::Value;

use crate::change::{changes_view, push_change, Change, ChangeView};
use crate::json::clone_json;
use crate::text::{
    decimal, find_first, lemma_find_first_at, lemma_find_first_none, same_text, strings_view,
    u64_to_decimal,
};

verus! {

/// The type of the entity ids of an attribute store.
#[derive(Clone, Copy, Debug, PartialEq, Eq, Structural)]
pub enum EntityIdType {
    I32,
    I64,
}

/// The entity id type that the database names `name` (as `format_type` writes it), if
/// it is one of the known ones.
pub open spec fn entity_id_type_named(name: Seq<char>) -> Option<EntityIdType> {
    if name == "int4"@ || name == "integer"@ {
        Some(EntityIdType::I32)
    } else if name == "int8"@ || name == "bigint"@ {
        Some(EntityIdType::I64)
    } else {
        None
    }
}

/// The entity id type that the database names `name`, or `None` for a name it does not
/// know.
pub fn entity_id_type_from_name(name: &str) -> (r: Option<EntityIdType>)
    ensures
        r == entity_id_type_named(name@),
{
    let n = name.to_owned();
    proof {
        reveal_strlit("int4");
        reveal_strlit("integer");
        reveal_strlit("int8");
        reveal_strlit("bigint");
    }
    if same_text(&n, "int4") || same_text(&n, "integer") {
        Some(EntityIdType::I32)
    } else if same_text(&n, "int8") || same_text(&n, "bigint") {
        Some(EntityIdType::I64)
    } else {
        None
    }
}

/// An attribute of an attribute store. The data type is held by its name, such as
/// `text` or `integer`.
pub struct Attribute {
    pub name: String,
    pub data_type: String,
    pub description: String,
    pub extra_data: Value,
}

/// An attribute, mathematically.
pub struct AttributeView {
    pub name: Seq<char>,
    pub data_type: Seq<char>,
    pub description: Seq<char>,
    pub extra_data: Value,
}

impl View for Attribute {
    type V = AttributeView;

    open spec fn view(&self) -> AttributeView {
        AttributeView {
            name: self.name@,
            data_type: self.data_type@,
            description: self.description@,
            extra_data: self.extra_data,
        }
    }
}

impl Attribute {
    /// An attribute equal to this one.
    pub fn duplicate(&self) -> (r: Attribute)
        ensures
            r@ == self@,
    {
        Attribute {
            name: self.name.clone(),
            data_type: self.data_type.clone(),
            description: self.description.clone(),
            extra_data: clone_json(&self.extra_data),
        }
    }

    /// How the attribute is written: `Attribute(name: data_type)`.
    pub fn to_display_string(&self) -> (r: String)
        ensures
            r@ == "Attribute("@ + self.name@ + ": "@ + self.data_type@ + ")"@,
    {
        let mut s = "Attribute(".to_owned();
        s.append(self.name.as_str());
        s.append(": ");
        s.append(self.data_type.as_str());
        s.append(")");
        proof {
            reveal_strlit("Attribute(");
            reveal_strlit(": ");
            reveal_strlit(")");
        }
        s
    }
}

/// The views of a list of attributes.
pub open spec fn attributes_view(attributes: Seq<Attribute>) -> Seq<AttributeView> {
    attributes.map_values(|a: Attribute| a@)
}

/// The names of a list of attributes, in order.
pub open spec fn attribute_names(attributes: Seq<AttributeView>) -> Seq<Seq<char>> {
    attributes.map_values(|a: AttributeView| a.name)
}

/// Copies a list of attributes.
pub fn duplicate_attributes(attributes: &Vec<Attribute>) -> (r: Vec<Attribute>)
    ensures
        attributes_view(r@) == attributes_view(attributes@),
{
    let mut r: Vec<Attribute> = Vec::new();
    let mut i: usize = 0;
    while i < attributes.len()
        invariant
            i <= attributes.len(),
            r.len() == i,
            attributes_view(r@) == attributes_view(attributes@).take(i as int),
        decreases attributes.len() - i,
    {
        let ghost prev = r@;
        r.push(attributes[i].duplicate());
        proof {
            assert forall|j: int| 0 <= j < i + 1 implies attributes_view(r@)[j]
                == attributes_view(attributes@).take(i + 1)[j] by {
                if j < i {
                    assert(r@[j] == prev[j]);
                    assert(attributes_view(prev)[j] == attributes_view(attributes@).take(i as int)[j]);
                }
            }
            assert(attributes_view(r@) =~= attributes_view(attributes@).take(i + 1));
        }
        i = i + 1;
    }
    assert(attributes_view(attributes@).take(attributes.len() as int) =~= attributes_view(
        attributes@,
    ));
    r
}

/// Copies a list of strings.
pub fn duplicate_strings(items: &Vec<String>) -> (r: Vec<String>)
    ensures
        strings_view(r@) == strings_view(items@),
{
    let mut r: Vec<String> = Vec::new();
    let mut i: usize = 0;
    while i < items.len()
        invariant
            i <= items.len(),
            r.len() == i,
            strings_view(r@) == strings_view(items@).take(i as int),
        decreases items.len() - i,
    {
        let ghost prev = r@;
        r.push(items[i].clone());
        proof {
            assert forall|j: int| 0 <= j < i + 1 implies strings_view(r@)[j]
                == strings_view(items@).take(i + 1)[j] by {
                if j < i {
                    assert(r@[j] == prev[j]);
                    assert(strings_view(prev)[j] == strings_view(items@).take(i as int)[j]);
                }
            }
            assert(strings_view(r@) =~= strings_view(items@).take(
                i + 1,
            ));
        }
        i = i + 1;
    }
    assert(strings_view(items@).take(items.len() as int) =~= strings_view(items@));
    r
}

/// A reference to an attribute store, by data source and entity type.
pub struct AttributeStoreRef {
    pub data_source: String,
    pub entity_type: String,
}

impl View for AttributeStoreRef {
    type V = (Seq<char>, Seq<char>);

    open spec fn view(&self) -> (Seq<char>, Seq<char>) {
        (self.data_source@, self.entity_type@)
    }
}

/// How a reference to an attribute store is written: `AttributeStore(data_source,
/// entity_type)`.
pub open spec fn store_ref_text(r: (Seq<char>, Seq<char>)) -> Seq<char> {
    "AttributeStore("@ + r.0 + ", "@ + r.1 + ")"@
}

/// The name of the table of an attribute store: `data_source_entity_type`.
pub open spec fn store_table_name(r: (Seq<char>, Seq<char>)) -> Seq<char> {
    r.0 + "_"@ + r.1
}

impl AttributeStoreRef {
    /// A reference equal to this one.
    pub fn duplicate(&self) -> (r: AttributeStoreRef)
        ensures
            r@ == self@,
    {
        AttributeStoreRef { data_source: self.data_source.clone(), entity_type: self.entity_type.clone() }
    }

    /// How the reference is written.
    pub fn to_display_string(&self) -> (r: String)
        ensures
            r@ == store_ref_text(self@),
    {
        let mut s = "AttributeStore(".to_owned();
        s.append(self.data_source.as_str());
        s.append(", ");
        s.append(self.entity_type.as_str());
        s.append(")");
        proof {
            reveal_strlit("AttributeStore(");
            reveal_strlit(", ");
            reveal_strlit(")");
        }
        s
    }

    /// The name of the store's table.
    pub fn table_name(&self) -> (r: String)
        ensures
            r@ == store_table_name(self@),
    {
        let mut s = self.data_source.clone();
        s.append("_");
        s.append(self.entity_type.as_str());
        proof {
            reveal_strlit("_");
        }
        s
    }
}

/// An attribute store: the attributes of one entity type from one data source.
pub struct AttributeStore {
    pub data_source: String,
    pub entity_type: String,
    pub attributes: Vec<Attribute>,
    pub entity_id_type: EntityIdType,
}

impl AttributeStore {
    /// A reference to the store.
    pub fn store_ref(&self) -> (r: AttributeStoreRef)
        ensures
            r@ == (self.data_source@, self.entity_type@),
    {
        AttributeStoreRef { data_source: self.data_source.clone(), entity_type: self.entity_type.clone() }
    }

    /// A store equal to this one.
    pub fn duplicate(&self) -> (r: AttributeStore)
        ensures
            r.data_source@ == self.data_source@,
            r.entity_type@ == self.entity_type@,
            attributes_view(r.attributes@) == attributes_view(self.attributes@),
            r.entity_id_type == self.entity_id_type,
    {
        AttributeStore {
            data_source: self.data_source.clone(),
            entity_type: self.entity_type.clone(),
            attributes: duplicate_attributes(&self.attributes),
            entity_id_type: self.entity_id_type,
        }
    }

    /// How the store is written: `AttributeStore(data_source, entity_type)`.
    pub fn to_display_string(&self) -> (r: String)
        ensures
            r@ == store_ref_text((self.data_source@, self.entity_type@)),
    {
        self.store_ref().to_display_string()
    }
}

/// Options of the comparison of two attribute stores.
pub struct AttributeStoreDiffOptions {
    pub ignore_deletions: bool,
}

/// Adding attributes to an attribute store.
pub struct AddAttributeStoreAttributes {
    pub attribute_store: AttributeStoreRef,
    pub attributes: Vec<Attribute>,
}

/// The lines that list attributes with their data types, each ` - name: data_type`.
pub open spec fn attribute_type_lines(attributes: Seq<AttributeView>) -> Seq<char>
    decreases attributes.len(),
{
    if attributes.len() == 0 {
        Seq::empty()
    } else {
        attribute_type_lines(attributes.drop_last()) + " - "@ + attributes.last().name + ": "@
            + attributes.last().data_type + "\n"@
    }
}

/// The lines that list names, each ` - name`.
pub open spec fn name_lines(names: Seq<Seq<char>>) -> Seq<char>
    decreases names.len(),
{
    if names.len() == 0 {
        Seq::empty()
    } else {
        name_lines(names.drop_last()) + " - "@ + names.last() + "\n"@
    }
}

/// Appends ` - name: data_type` lines for the attributes.
fn append_attribute_type_lines(s: &mut String, attributes: &Vec<Attribute>)
    ensures
        final(s)@ == old(s)@ + attribute_type_lines(attributes_view(attributes@)),
{
    let ghost start = s@;
    let ghost views = attributes_view(attributes@);
    let mut i: usize = 0;
    while i < attributes.len()
        invariant
            i <= attributes.len(),
            views == attributes_view(attributes@),
            s@ == start + attribute_type_lines(views.take(i as int)),
        decreases attributes.len() - i,
    {
        s.append(" - ");
        s.append(attributes[i].name.as_str());
        s.append(": ");
        s.append(attributes[i].data_type.as_str());
        s.append("\n");
        proof {
            reveal_strlit(" - ");
            reveal_strlit(": ");
            reveal_strlit("\n");
            assert(views.take(i + 1).drop_last() =~= views.take(i as int));
            assert(views.take(i + 1).last() == attributes@[i as int]@);
            assert(s@ =~= start + attribute_type_lines(views.take(i + 1)));
        }
        i = i + 1;
    }
    assert(views.take(attributes.len() as int) =~= views);
}

/// Appends ` - name` lines for the names.
fn append_name_lines(s: &mut String, names: &Vec<String>)
    ensures
        final(s)@ == old(s)@ + name_lines(strings_view(names@)),
{
    let ghost start = s@;
    let ghost views = strings_view(names@);
    let mut i: usize = 0;
    while i < names.len()
        invariant
            i <= names.len(),
            views == strings_view(names@),
            s@ == start + name_lines(views.take(i as int)),
        decreases names.len() - i,
    {
        s.append(" - ");
        s.append(names[i].as_str());
        s.append("\n");
        proof {
            reveal_strlit(" - ");
            reveal_strlit("\n");
            assert(views.take(i + 1).drop_last() =~= views.take(i as int));
            assert(views.take(i + 1).last() == names@[i as int]@);
            assert(s@ =~= start + name_lines(views.take(i + 1)));
        }
        i = i + 1;
    }
    assert(views.take(names.len() as int) =~= views);
}

impl AddAttributeStoreAttributes {
    /// How the change is written: a first line `AddAttributes(store, count):` and a line
    /// ` - name: data_type` for each attribute.
    pub fn to_display_string(&self) -> (r: String)
        ensures
            r@ == "AddAttributes("@ + store_ref_text(self.attribute_store@) + ", "@ + decimal(
                self.attributes.len() as nat,
            ) + "):\n"@ + attribute_type_lines(attributes_view(self.attributes@)),
    {
        let mut s = "AddAttributes(".to_owned();
        s.append(self.attribute_store.to_display_string().as_str());
        s.append(", ");
        s.append(u64_to_decimal(self.attributes.len() as u64).as_str());
        s.append("):\n");
        proof {
            reveal_strlit("AddAttributes(");
            reveal_strlit(", ");
            reveal_strlit("):\n");
        }
        append_attribute_type_lines(&mut s, &self.attributes);
        s
    }

    /// What applying the change reports: the names of the attributes added, in order.
    pub fn outcome(&self) -> (r: AddedAttributes)
        ensures
            r.attribute_store@ == self.attribute_store@,
            strings_view(r.attributes@) == attribute_names(
                attributes_view(self.attributes@),
            ),
    {
        let mut names: Vec<String> = Vec::new();
        let mut i: usize = 0;
        while i < self.attributes.len()
            invariant
                i <= self.attributes.len(),
                names.len() == i,
                strings_view(names@) == attribute_names(
                    attributes_view(self.attributes@),
                ).take(i as int),
            decreases self.attributes.len() - i,
        {
            let ghost prev = names@;
            names.push(self.attributes[i].name.clone());
            proof {
                assert forall|j: int| 0 <= j < i + 1 implies strings_view(names@)[j]
                    == attribute_names(attributes_view(self.attributes@)).take(i + 1)[j] by {
                    if j < i {
                        assert(names@[j] == prev[j]);
                        assert(strings_view(prev)[j] == attribute_names(
                            attributes_view(self.attributes@),
                        ).take(i as int)[j]);
                    }
                }
                assert(strings_view(names@) =~= attribute_names(
                    attributes_view(self.attributes@),
                ).take(i + 1));
            }
            i = i + 1;
        }
        assert(attribute_names(attributes_view(self.attributes@)).take(
            self.attributes.len() as int,
        ) =~= attribute_names(attributes_view(self.attributes@)));
        AddedAttributes { attribute_store: self.attribute_store.duplicate(), attributes: names }
    }
}

/// The report of attributes added to a store.
pub struct AddedAttributes {
    pub attribute_store: AttributeStoreRef,
    pub attributes: Vec<String>,
}

impl AddedAttributes {
    /// How the report is written.
    pub fn to_display_string(&self) -> (r: String)
        ensures
            r@ == "Added attributes to attribute store '"@ + store_ref_text(self.attribute_store@)
                + "'"@,
    {
        let mut s = "Added attributes to attribute store '".to_owned();
        s.append(self.attribute_store.to_display_string().as_str());
        s.append("'");
        proof {
            reveal_strlit("Added attributes to attribute store '");
            reveal_strlit("'");
        }
        s
    }

    /// The change that undoes the addition: removing the same attributes.
    pub fn revert(&self) -> (r: RemoveAttributes)
        ensures
            r.attribute_store@ == self.attribute_store@,
            strings_view(r.attributes@) == strings_view(self.attributes@),
    {
        RemoveAttributes {
            attribute_store: self.attribute_store.duplicate(),
            attributes: duplicate_strings(&self.attributes),
        }
    }
}

/// Removing attributes, by name, from an attribute store.
pub struct RemoveAttributes {
    pub attribute_store: AttributeStoreRef,
    pub attributes: Vec<String>,
}

impl RemoveAttributes {
    /// How the change is written: a first line `RemoveAttributes(store, count)` and a
    /// line ` - name` for each attribute.
    pub fn to_display_string(&self) -> (r: String)
        ensures
            r@ == "RemoveAttributes("@ + store_ref_text(self.attribute_store@) + ", "@ + decimal(
                self.attributes.len() as nat,
            ) + ")\n"@ + name_lines(strings_view(self.attributes@)),
    {
        let mut s = "RemoveAttributes(".to_owned();
        s.append(self.attribute_store.to_display_string().as_str());
        s.append(", ");
        s.append(u64_to_decimal(self.attributes.len() as u64).as_str());
        s.append(")\n");
        proof {
            reveal_strlit("RemoveAttributes(");
            reveal_strlit(", ");
            reveal_strlit(")\n");
        }
        append_name_lines(&mut s, &self.attributes);
        s
    }

    /// What applying the change reports, given the attributes as they were loaded before
    /// their removal.
    pub fn outcome(&self, removed: Vec<Attribute>) -> (r: RemovedAttributes)
        ensures
            r.attribute_store@ == self.attribute_store@,
            attributes_view(r.attributes@) == attributes_view(removed@),
    {
        RemovedAttributes { attribute_store: self.attribute_store.duplicate(), attributes: removed }
    }
}

/// The report of attributes removed from a store, with their definitions.
pub struct RemovedAttributes {
    pub attribute_store: AttributeStoreRef,
    pub attributes: Vec<Attribute>,
}

impl RemovedAttributes {
    /// How the report is written.
    pub fn to_display_string(&self) -> (r: String)
        ensures
            r@ == "Removed "@ + decimal(self.attributes.len() as nat)
                + " attributes from attribute store '"@ + store_ref_text(self.attribute_store@)
                + "'"@,
    {
        let mut s = "Removed ".to_owned();
        s.append(u64_to_decimal(self.attributes.len() as u64).as_str());
        s.append(" attributes from attribute store '");
        s.append(self.attribute_store.to_display_string().as_str());
        s.append("'");
        proof {
            reveal_strlit("Removed ");
            reveal_strlit(" attributes from attribute store '");
            reveal_strlit("'");
        }
        s
    }

    /// The change that undoes the removal: adding the same attributes back.
    pub fn revert(&self) -> (r: AddAttributeStoreAttributes)
        ensures
            r.attribute_store@ == self.attribute_store@,
            attributes_view(r.attributes@) == attributes_view(self.attributes@),
    {
        AddAttributeStoreAttributes {
            attribute_store: self.attribute_store.duplicate(),
            attributes: duplicate_attributes(&self.attributes),
        }
    }
}

/// Changing the data type of an attribute.
pub struct ChangeAttribute {
    pub attribute_store: AttributeStoreRef,
    pub attribute_name: String,
    pub data_type: String,
}

impl ChangeAttribute {
    /// How the change is written: `ChangeAttribute(store, name)`.
    pub fn to_display_string(&self) -> (r: String)
        ensures
            r@ == "ChangeAttribute("@ + store_ref_text(self.attribute_store@) + ", "@
                + self.attribute_name@ + ")"@,
    {
        let mut s = "ChangeAttribute(".to_owned();
        s.append(self.attribute_store.to_display_string().as_str());
        s.append(", ");
        s.append(self.attribute_name.as_str());
        s.append(")");
        proof {
            reveal_strlit("ChangeAttribute(");
            reveal_strlit(", ");
            reveal_strlit(")");
        }
        s
    }

    /// What applying the change reports, given the data type that the attribute had.
    pub fn outcome(&self, original_data_type: String) -> (r: ChangedAttributeDataType)
        ensures
            r.attribute_store@ == self.attribute_store@,
            r.attribute_name@ == self.attribute_name@,
            r.original_data_type@ == original_data_type@,
            r.new_data_type@ == self.data_type@,
    {
        ChangedAttributeDataType {
            attribute_store: self.attribute_store.duplicate(),
            attribute_name: self.attribute_name.clone(),
            original_data_type,
            new_data_type: self.data_type.clone(),
        }
    }
}

/// The report of an attribute whose data type was changed.
pub struct ChangedAttributeDataType {
    pub attribute_store: AttributeStoreRef,
    pub attribute_name: String,
    pub original_data_type: String,
    pub new_data_type: String,
}

impl ChangedAttributeDataType {
    /// How the report is written.
    pub fn to_display_string(&self) -> (r: String)
        ensures
            r@ == "Changed type of attribute '"@ + self.attribute_name@ + "' in store '"@
                + store_ref_text(self.attribute_store@) + "'"@,
    {
        let mut s = "Changed type of attribute '".to_owned();
        s.append(self.attribute_name.as_str());
        s.append("' in store '");
        s.append(self.attribute_store.to_display_string().as_str());
        s.append("'");
        proof {
            reveal_strlit("Changed type of attribute '");
            reveal_strlit("' in store '");
            reveal_strlit("'");
        }
        s
    }

    /// The change that undoes this one: setting the original data type back.
    pub fn revert(&self) -> (r: ChangeAttribute)
        ensures
            r.attribute_store@ == self.attribute_store@,
            r.attribute_name@ == self.attribute_name@,
            r.data_type@ == self.original_data_type@,
    {
        ChangeAttribute {
            attribute_store: self.attribute_store.duplicate(),
            attribute_name: self.attribute_name.clone(),
            data_type: self.original_data_type.clone(),
        }
    }
}

/// Creating an attribute store.
pub struct AddAttributeStore {
    pub attribute_store: AttributeStore,
}

impl AddAttributeStore {
    /// How the change is written: `AddAttributeStore(AttributeStore(ds, et))`.
    pub fn to_display_string(&self) -> (r: String)
        ensures
            r@ == "AddAttributeStore("@ + store_ref_text(
                (self.attribute_store.data_source@, self.attribute_store.entity_type@),
            ) + ")"@,
    {
        let mut s = "AddAttributeStore(".to_owned();
        s.append(self.attribute_store.to_display_string().as_str());
        s.append(")");
        proof {
            reveal_strlit("AddAttributeStore(");
            reveal_strlit(")");
        }
        s
    }

    /// What applying the change reports: the store created.
    pub fn outcome(&self) -> (r: AddedAttributeStore)
        ensures
            r.attribute_store@ == (
                self.attribute_store.data_source@,
                self.attribute_store.entity_type@,
            ),
    {
        AddedAttributeStore { attribute_store: self.attribute_store.store_ref() }
    }
}

/// The report of a created attribute store.
pub struct AddedAttributeStore {
    pub attribute_store: AttributeStoreRef,
}

impl AddedAttributeStore {
    /// How the report is written.
    pub fn to_display_string(&self) -> (r: String)
        ensures
            r@ == "Created attribute store '"@ + store_ref_text(self.attribute_store@) + "'"@,
    {
        let mut s = "Created attribute store '".to_owned();
        s.append(self.attribute_store.to_display_string().as_str());
        s.append("'");
        proof {
            reveal_strlit("Created attribute store '");
            reveal_strlit("'");
        }
        s
    }

    /// The change that undoes the creation: removing the store.
    pub fn revert(&self) -> (r: RemoveAttributeStore)
        ensures
            r.attribute_store@ == self.attribute_store@,
    {
        RemoveAttributeStore { attribute_store: self.attribute_store.duplicate() }
    }
}

/// Removing an attribute store.
pub struct RemoveAttributeStore {
    pub attribute_store: AttributeStoreRef,
}

impl RemoveAttributeStore {
    /// How the change is written: `RemoveAttributeStore(AttributeStore(ds, et))`.
    pub fn to_display_string(&self) -> (r: String)
        ensures
            r@ == "RemoveAttributeStore("@ + store_ref_text(self.attribute_store@) + ")"@,
    {
        let mut s = "RemoveAttributeStore(".to_owned();
        s.append(self.attribute_store.to_display_string().as_str());
        s.append(")");
        proof {
            reveal_strlit("RemoveAttributeStore(");
            reveal_strlit(")");
        }
        s
    }
}

/// Whether an attribute is called `name`.
pub open spec fn named(name: Seq<char>) -> spec_fn(AttributeView) -> bool {
    |a: AttributeView| a.name == name
}

/// The first attribute of `attributes` called `name`, if there is one.
pub open spec fn attribute_named(attributes: Seq<AttributeView>, name: Seq<char>) -> Option<
    AttributeView,
> {
    find_first(attributes, named(name))
}

/// The data type changes that turn `mine` into `other`: for each attribute of `other`,
/// in order, whose name the first attribute of `mine` with that name has with another
/// data type.
pub open spec fn type_changes(
    store: (Seq<char>, Seq<char>),
    mine: Seq<AttributeView>,
    other: Seq<AttributeView>,
) -> Seq<ChangeView>
    decreases other.len(),
{
    if other.len() == 0 {
        Seq::empty()
    } else {
        let rest = type_changes(store, mine, other.drop_last());
        let a = other.last();
        match attribute_named(mine, a.name) {
            Some(m) => if m.data_type != a.data_type {
                rest.push(ChangeView::ChangeAttribute { store, name: a.name, data_type: a.data_type })
            } else {
                rest
            },
            None => rest,
        }
    }
}

/// The attributes of `other`, in order, whose name no attribute of `mine` has.
pub open spec fn new_attributes(mine: Seq<AttributeView>, other: Seq<AttributeView>) -> Seq<
    AttributeView,
>
    decreases other.len(),
{
    if other.len() == 0 {
        Seq::empty()
    } else {
        let rest = new_attributes(mine, other.drop_last());
        if attribute_named(mine, other.last().name) is None {
            rest.push(other.last())
        } else {
            rest
        }
    }
}

/// The names of the attributes of `mine`, in order, that no attribute of `other` has.
pub open spec fn removed_names(mine: Seq<AttributeView>, other: Seq<AttributeView>) -> Seq<
    Seq<char>,
>
    decreases mine.len(),
{
    if mine.len() == 0 {
        Seq::empty()
    } else {
        let rest = removed_names(mine.drop_last(), other);
        if attribute_named(other, mine.last().name) is None {
            rest.push(mine.last().name)
        } else {
            rest
        }
    }
}

/// The changes that turn the attributes `mine` of a store into `other`: the data type
/// changes, then one addition of all new attributes if there are any, then, unless
/// deletions are ignored, one removal of all attributes that are gone if there are any.
pub open spec fn attribute_store_changes(
    store: (Seq<char>, Seq<char>),
    mine: Seq<AttributeView>,
    other: Seq<AttributeView>,
    ignore_deletions: bool,
) -> Seq<ChangeView> {
    let added = new_attributes(mine, other);
    let removed = removed_names(mine, other);
    type_changes(store, mine, other) + (if added.len() > 0 {
        seq![ChangeView::AddAttributeStoreAttributes { store, attributes: added }]
    } else {
        Seq::empty()
    }) + (if !ignore_deletions && removed.len() > 0 {
        seq![ChangeView::RemoveAttributes { store, names: removed }]
    } else {
        Seq::empty()
    })
}

/// The index of the first attribute called `name`, if there is one.
pub fn find_attribute(attributes: &Vec<Attribute>, name: &String) -> (r: Option<usize>)
    ensures
        match r {
            Some(i) => i < attributes.len() && attribute_named(attributes_view(attributes@), name@)
                == Some(attributes@[i as int]@),
            None => attribute_named(attributes_view(attributes@), name@) is None,
        },
{
    let ghost views = attributes_view(attributes@);
    let mut i: usize = 0;
    while i < attributes.len()
        invariant
            i <= attributes.len(),
            views == attributes_view(attributes@),
            forall|j: int| 0 <= j < i ==> !(named(name@))(#[trigger] views[j]),
        decreases attributes.len() - i,
    {
        if attributes[i].name == *name {
            proof {
                lemma_find_first_at(views, named(name@), i as int);
            }
            return Some(i);
        }
        assert(!(named(name@))(views[i as int]));
        i = i + 1;
    }
    proof {
        lemma_find_first_none(views, named(name@));
    }
    None
}

impl AttributeStore {
    /// The changes that turn this store into `other`: a change of data type for each
    /// attribute of `other` that this store has with another data type; one addition of
    /// the attributes of `other` that this store does not have, if there are any; and,
    /// unless `options` ignores deletions, one removal of the attributes that `other`
    /// does not have, if there are any. Attributes are matched by name.
    pub fn diff(&self, other: &AttributeStore, options: AttributeStoreDiffOptions) -> (changes: Vec<
        Change,
    >)
        ensures
            changes_view(changes@) == attribute_store_changes(
                (self.data_source@, self.entity_type@),
                attributes_view(self.attributes@),
                attributes_view(other.attributes@),
                options.ignore_deletions,
            ),
    {
        let ghost store = (self.data_source@, self.entity_type@);
        let ghost mine = attributes_view(self.attributes@);
        let ghost theirs = attributes_view(other.attributes@);
        let mut changes: Vec<Change> = Vec::new();
        let mut added: Vec<Attribute> = Vec::new();
        let mut i: usize = 0;
        while i < other.attributes.len()
            invariant
                i <= other.attributes.len(),
                store == (self.data_source@, self.entity_type@),
                mine == attributes_view(self.attributes@),
                theirs == attributes_view(other.attributes@),
                changes_view(changes@) == type_changes(store, mine, theirs.take(i as int)),
                attributes_view(added@) == new_attributes(mine, theirs.take(i as int)),
            decreases other.attributes.len() - i,
        {
            let ghost pre = theirs.take(i as int);
            assert(theirs.take(i + 1).drop_last() =~= pre);
            assert(theirs.take(i + 1).last() == other.attributes@[i as int]@);
            let other_attribute = &other.attributes[i];
            match find_attribute(&self.attributes, &other_attribute.name) {
                Some(j) => {
                    if self.attributes[j].data_type != other_attribute.data_type {
                        push_change(
                            &mut changes,
                            Change::ChangeAttribute(
                                ChangeAttribute {
                                    attribute_store: self.store_ref(),
                                    attribute_name: other_attribute.name.clone(),
                                    data_type: other_attribute.data_type.clone(),
                                },
                            ),
                        );
                    }
                },
                None => {
                    let ghost prev = added@;
                    added.push(other_attribute.duplicate());
                    proof {
                        assert forall|k: int| 0 <= k < prev.len() implies attributes_view(added@)[k]
                            == attributes_view(prev)[k] by {
                            assert(added@[k] == prev[k]);
                        }
                        assert(attributes_view(added@) =~= attributes_view(prev).push(
                            other_attribute@,
                        ));
                    }
                },
            }
            i = i + 1;
        }
        assert(theirs.take(other.attributes.len() as int) =~= theirs);
        if added.len() > 0 {
            push_change(
                &mut changes,
                Change::AddAttributeStoreAttributes(
                    AddAttributeStoreAttributes { attribute_store: self.store_ref(), attributes: added },
                ),
            );
        }
        let mut removed: Vec<String> = Vec::new();
        let mut i: usize = 0;
        while i < self.attributes.len()
            invariant
                i <= self.attributes.len(),
                mine == attributes_view(self.attributes@),
                theirs == attributes_view(other.attributes@),
                strings_view(removed@) == removed_names(mine.take(i as int), theirs),
            decreases self.attributes.len() - i,
        {
            let ghost pre = mine.take(i as int);
            assert(mine.take(i + 1).drop_last() =~= pre);
            assert(mine.take(i + 1).last() == self.attributes@[i as int]@);
            match find_attribute(&other.attributes, &self.attributes[i].name) {
                Some(_) => {},
                None => {
                    let ghost prev = removed@;
                    removed.push(self.attributes[i].name.clone());
                    proof {
                        assert forall|k: int| 0 <= k < prev.len() implies strings_view(removed@)[k]
                            == strings_view(prev)[k] by {
                            assert(removed@[k] == prev[k]);
                        }
                        assert(strings_view(removed@) =~= strings_view(prev).push(
                            self.attributes@[i as int].name@,
                        ));
                    }
                },
            }
            i = i + 1;
        }
        assert(mine.take(self.attributes.len() as int) =~= mine);
        if !options.ignore_deletions && removed.len() > 0 {
            push_change(
                &mut changes,
                Change::RemoveAttributes(
                    RemoveAttributes { attribute_store: self.store_ref(), attributes: removed },
                ),
            );
        }
        proof {
            let added_v = new_attributes(mine, theirs);
            let removed_v = removed_names(mine, theirs);
            assert(changes_view(changes@) =~= attribute_store_changes(
                store,
                mine,
                theirs,
                options.ignore_deletions,
            ));
        }
        changes
    }
}

/// In a list of attributes whose names are all different, the first attribute with the
/// name of an attribute is that attribute.
pub proof fn lemma_attribute_named_own(attributes: Seq<AttributeView>, i: int)
    requires
        attribute_names(attributes).no_duplicates(),
        0 <= i < attributes.len(),
    ensures
        attribute_named(attributes, attributes[i].name) == Some(attributes[i]),
{
    assert forall|j: int| 0 <= j < i implies !(named(attributes[i].name))(#[trigger] attributes[j]) by {
        assert(attribute_names(attributes)[j] == attributes[j].name);
        assert(attribute_names(attributes)[i] == attributes[i].name);
    }
    lemma_find_first_at(attributes, named(attributes[i].name), i);
}

/// A store compared with itself gives no change, when its attributes have different
/// names.
pub proof fn lemma_attribute_store_diff_self(
    store: (Seq<char>, Seq<char>),
    attributes: Seq<AttributeView>,
    ignore_deletions: bool,
)
    requires
        attribute_names(attributes).no_duplicates(),
    ensures
        attribute_store_changes(store, attributes, attributes, ignore_deletions) == Seq::<
            ChangeView,
        >::empty(),
{
    lemma_self_parts_empty(store, attributes, attributes.len() as int);
    assert(attributes.take(attributes.len() as int) =~= attributes);
    assert(attribute_store_changes(store, attributes, attributes, ignore_deletions) =~= Seq::<
        ChangeView,
    >::empty());
}

/// Each prefix of a store's attributes, compared with the whole list, gives no data
/// type change, no new attribute and no removed name.
proof fn lemma_self_parts_empty(store: (Seq<char>, Seq<char>), attributes: Seq<AttributeView>, n: int)
    requires
        attribute_names(attributes).no_duplicates(),
        0 <= n <= attributes.len(),
    ensures
        type_changes(store, attributes, attributes.take(n)) == Seq::<ChangeView>::empty(),
        new_attributes(attributes, attributes.take(n)) == Seq::<AttributeView>::empty(),
        removed_names(attributes.take(n), attributes) == Seq::<Seq<char>>::empty(),
    decreases n,
{
    if n > 0 {
        lemma_self_parts_empty(store, attributes, n - 1);
        let t = attributes.take(n);
        assert(t.drop_last() =~= attributes.take(n - 1));
        assert(t.last() == attributes[n - 1]);
        lemma_attribute_named_own(attributes, n - 1);
    }
}


/// Whether no two attributes share a name, stated over the attributes themselves.
pub open spec fn distinct_attribute_names(attributes: Seq<AttributeView>) -> bool {
    forall|i: int, j: int|
        0 <= i < j < attributes.len() ==> (#[trigger] attributes[i]).name != (#[trigger] attributes[j]).name
}

/// Some attribute of `attributes` carries `name`, so there is a first one.
proof fn lemma_named_found(attributes: Seq<AttributeView>, name: Seq<char>, i: int)
    requires
        0 <= i < attributes.len(),
        attributes[i].name == name,
    ensures
        attribute_named(attributes, name) is Some,
{
    if attribute_named(attributes, name) is None {
        crate::text::lemma_find_first_none_all(attributes, named(name));
        assert(!(named(name))(attributes[i]));
    }
}

/// In a list without two attributes of one name, the first attribute called as
/// `attributes[i]` is `attributes[i]`.
proof fn lemma_named_is_own(attributes: Seq<AttributeView>, i: int)
    requires
        distinct_attribute_names(attributes),
        0 <= i < attributes.len(),
    ensures
        attribute_named(attributes, attributes[i].name) == Some(attributes[i]),
{
    assert forall|j: int| 0 <= j < i implies !(named(attributes[i].name))(#[trigger] attributes[j]) by {
        assert(attributes[j].name != attributes[i].name);
    }
    lemma_find_first_at(attributes, named(attributes[i].name), i);
}

/// The data type changes of a prefix of `other` hold a change for attribute `i`
/// wherever its namesake in `mine` has another data type.
proof fn lemma_type_change_reported(
    store: (Seq<char>, Seq<char>),
    mine: Seq<AttributeView>,
    other: Seq<AttributeView>,
    i: int,
    j: int,
)
    requires
        distinct_attribute_names(mine),
        0 <= i < other.len(),
        0 <= j < mine.len(),
        mine[j].name == other[i].name,
        mine[j].data_type != other[i].data_type,
    ensures
        type_changes(store, mine, other).contains(
            ChangeView::ChangeAttribute { store, name: other[i].name, data_type: other[i].data_type },
        ),
    decreases other.len(),
{
    let x = ChangeView::ChangeAttribute { store, name: other[i].name, data_type: other[i].data_type };
    lemma_named_is_own(mine, j);
    let rest = type_changes(store, mine, other.drop_last());
    if i == other.len() - 1 {
        assert(type_changes(store, mine, other) == rest.push(x));
        assert(rest.push(x)[rest.len() as int] == x);
    } else {
        assert(other.drop_last()[i] == other[i]);
        lemma_type_change_reported(store, mine, other.drop_last(), i, j);
        let k = choose|k: int| 0 <= k < rest.len() && rest[k] == x;
        let all = type_changes(store, mine, other);
        assert(all == rest || all =~= rest.push(all.last()));
        assert(all[k] == x);
    }
}

/// Comparing attribute stores reports every change of data type: for each attribute of
/// `other` whose name an attribute of `mine` has with another data type, the changes
/// hold a `ChangeAttribute` for that name with the data type of `other`.
pub proof fn lemma_attribute_store_diff_reports_type_change(
    store: (Seq<char>, Seq<char>),
    mine: Seq<AttributeView>,
    other: Seq<AttributeView>,
    ignore_deletions: bool,
    i: int,
    j: int,
)
    requires
        distinct_attribute_names(mine),
        0 <= i < other.len(),
        0 <= j < mine.len(),
        mine[j].name == other[i].name,
        mine[j].data_type != other[i].data_type,
    ensures
        attribute_store_changes(store, mine, other, ignore_deletions).contains(
            ChangeView::ChangeAttribute { store, name: other[i].name, data_type: other[i].data_type },
        ),
{
    let x = ChangeView::ChangeAttribute { store, name: other[i].name, data_type: other[i].data_type };
    lemma_type_change_reported(store, mine, other, i, j);
    let tc = type_changes(store, mine, other);
    let k = choose|k: int| 0 <= k < tc.len() && tc[k] == x;
    let all = attribute_store_changes(store, mine, other, ignore_deletions);
    assert(all[k] == tc[k]);
}

/// The attribute `a` with data type `t`.
pub open spec fn with_data_type(a: AttributeView, t: Seq<char>) -> AttributeView {
    AttributeView { data_type: t, ..a }
}

/// Prefixes of a store's attributes compared with the store where attribute `j` has
/// another data type.
proof fn lemma_one_type_change_prefix(
    store: (Seq<char>, Seq<char>),
    mine: Seq<AttributeView>,
    j: int,
    t: Seq<char>,
    n: int,
)
    requires
        distinct_attribute_names(mine),
        0 <= j < mine.len(),
        t != mine[j].data_type,
        0 <= n <= mine.len(),
    ensures
        type_changes(store, mine, mine.update(j, with_data_type(mine[j], t)).take(n)) == if n > j {
            seq![ChangeView::ChangeAttribute { store, name: mine[j].name, data_type: t }]
        } else {
            Seq::<ChangeView>::empty()
        },
        new_attributes(mine, mine.update(j, with_data_type(mine[j], t)).take(n)) == Seq::<
            AttributeView,
        >::empty(),
        removed_names(mine.take(n), mine.update(j, with_data_type(mine[j], t))) == Seq::<
            Seq<char>,
        >::empty(),
    decreases n,
{
    let other = mine.update(j, with_data_type(mine[j], t));
    if n > 0 {
        lemma_one_type_change_prefix(store, mine, j, t, n - 1);
        assert(other.take(n).drop_last() =~= other.take(n - 1));
        assert(mine.take(n).drop_last() =~= mine.take(n - 1));
        assert(other.take(n).last() == other[n - 1]);
        assert(mine.take(n).last() == mine[n - 1]);
        lemma_named_is_own(mine, n - 1);
        assert(other[n - 1].name == mine[n - 1].name);
        lemma_named_found(other, mine[n - 1].name, n - 1);
        if n - 1 == j {
            assert(type_changes(store, mine, other.take(n)) =~= seq![
                ChangeView::ChangeAttribute { store, name: mine[j].name, data_type: t },
            ]);
        } else {
            assert(other[n - 1] == mine[n - 1]);
        }
    } else {
        assert(other.take(0) =~= Seq::<AttributeView>::empty());
        assert(mine.take(0) =~= Seq::<AttributeView>::empty());
    }
}

/// Two stores whose attributes differ only in the data type of one attribute give
/// exactly one change: a `ChangeAttribute` for that attribute with the new data type.
pub proof fn lemma_attribute_store_diff_one_type_change(
    store: (Seq<char>, Seq<char>),
    mine: Seq<AttributeView>,
    j: int,
    t: Seq<char>,
    ignore_deletions: bool,
)
    requires
        distinct_attribute_names(mine),
        0 <= j < mine.len(),
        t != mine[j].data_type,
    ensures
        attribute_store_changes(store, mine, mine.update(j, with_data_type(mine[j], t)), ignore_deletions)
            == seq![ChangeView::ChangeAttribute { store, name: mine[j].name, data_type: t }],
{
    let other = mine.update(j, with_data_type(mine[j], t));
    lemma_one_type_change_prefix(store, mine, j, t, mine.len() as int);
    assert(other.take(mine.len() as int) =~= other);
    assert(mine.take(mine.len() as int) =~= mine);
    assert(attribute_store_changes(store, mine, other, ignore_deletions) =~= seq![
        ChangeView::ChangeAttribute { store, name: mine[j].name, data_type: t },
    ]);
}

/// The attributes of `other` whose name `mine` lacks are among the new attributes.
proof fn lemma_new_attribute_listed(mine: Seq<AttributeView>, other: Seq<AttributeView>, i: int)
    requires
        0 <= i < other.len(),
        forall|j: int| 0 <= j < mine.len() ==> (#[trigger] mine[j]).name != other[i].name,
    ensures
        new_attributes(mine, other).contains(other[i]),
    decreases other.len(),
{
    let rest = new_attributes(mine, other.drop_last());
    let all = new_attributes(mine, other);
    if i == other.len() - 1 {
        crate::text::lemma_find_first_none(mine, named(other[i].name));
        assert(all[rest.len() as int] == other[i]);
    } else {
        assert(other.drop_last()[i] == other[i]);
        lemma_new_attribute_listed(mine, other.drop_last(), i);
        let k = choose|k: int| 0 <= k < rest.len() && rest[k] == other[i];
        assert(all[k] == rest[k]);
    }
}

/// The names of the attributes of `mine` that `other` lacks are among the removed names.
proof fn lemma_removed_name_listed(mine: Seq<AttributeView>, other: Seq<AttributeView>, i: int)
    requires
        0 <= i < mine.len(),
        forall|j: int| 0 <= j < other.len() ==> (#[trigger] other[j]).name != mine[i].name,
    ensures
        removed_names(mine, other).contains(mine[i].name),
    decreases mine.len(),
{
    let rest = removed_names(mine.drop_last(), other);
    let all = removed_names(mine, other);
    if i == mine.len() - 1 {
        crate::text::lemma_find_first_none(other, named(mine[i].name));
        assert(all[rest.len() as int] == mine[i].name);
    } else {
        assert(mine.drop_last()[i] == mine[i]);
        lemma_removed_name_listed(mine.drop_last(), other, i);
        let k = choose|k: int| 0 <= k < rest.len() && rest[k] == mine[i].name;
        assert(all[k] == rest[k]);
    }
}

/// Comparing attribute stores adds every attribute of `other` whose name no attribute
/// of `mine` has: the changes hold an `AddAttributeStoreAttributes` whose attributes
/// include it.
pub proof fn lemma_attribute_store_diff_adds_attribute(
    store: (Seq<char>, Seq<char>),
    mine: Seq<AttributeView>,
    other: Seq<AttributeView>,
    ignore_deletions: bool,
    i: int,
)
    requires
        0 <= i < other.len(),
        forall|j: int| 0 <= j < mine.len() ==> (#[trigger] mine[j]).name != other[i].name,
    ensures
        exists|k: int|
            0 <= k < attribute_store_changes(store, mine, other, ignore_deletions).len() && (#[trigger] attribute_store_changes(
                store,
                mine,
                other,
                ignore_deletions,
            )[k] matches ChangeView::AddAttributeStoreAttributes { store: s, attributes } && s == store
                && attributes.contains(other[i])),
{
    lemma_new_attribute_listed(mine, other, i);
    let all = attribute_store_changes(store, mine, other, ignore_deletions);
    let tc = type_changes(store, mine, other);
    assert(all[tc.len() as int] == ChangeView::AddAttributeStoreAttributes {
        store,
        attributes: new_attributes(mine, other),
    });
}

/// Comparing attribute stores without ignoring deletions removes every attribute of
/// `mine` whose name no attribute of `other` has: the changes hold a `RemoveAttributes`
/// whose names include it. Ignoring deletions, no change removes attributes.
pub proof fn lemma_attribute_store_diff_removes_attribute(
    store: (Seq<char>, Seq<char>),
    mine: Seq<AttributeView>,
    other: Seq<AttributeView>,
    i: int,
)
    requires
        0 <= i < mine.len(),
        forall|j: int| 0 <= j < other.len() ==> (#[trigger] other[j]).name != mine[i].name,
    ensures
        exists|k: int|
            0 <= k < attribute_store_changes(store, mine, other, false).len() && (#[trigger] attribute_store_changes(
                store,
                mine,
                other,
                false,
            )[k] matches ChangeView::RemoveAttributes { store: s, names } && s == store && names.contains(
                mine[i].name,
            )),
        forall|k: int|
            0 <= k < attribute_store_changes(store, mine, other, true).len() ==> !(#[trigger] attribute_store_changes(
                store,
                mine,
                other,
                true,
            )[k] is RemoveAttributes),
{
    lemma_removed_name_listed(mine, other, i);
    let all = attribute_store_changes(store, mine, other, false);
    assert(all[all.len() - 1] == ChangeView::RemoveAttributes { store, names: removed_names(mine, other) });
    lemma_no_removal_ignoring_deletions(store, mine, other);
}

/// The data type changes are all `ChangeAttribute` changes.
proof fn lemma_type_changes_kind(store: (Seq<char>, Seq<char>), mine: Seq<AttributeView>, other: Seq<AttributeView>)
    ensures
        forall|k: int|
            0 <= k < type_changes(store, mine, other).len() ==> (#[trigger] type_changes(store, mine, other)[k]) is ChangeAttribute,
    decreases other.len(),
{
    if other.len() > 0 {
        lemma_type_changes_kind(store, mine, other.drop_last());
    }
}

/// Ignoring deletions, no change removes attributes.
proof fn lemma_no_removal_ignoring_deletions(store: (Seq<char>, Seq<char>), mine: Seq<AttributeView>, other: Seq<AttributeView>)
    ensures
        forall|k: int|
            0 <= k < attribute_store_changes(store, mine, other, true).len() ==> !(#[trigger] attribute_store_changes(
                store,
                mine,
                other,
                true,
            )[k] is RemoveAttributes),
{
    lemma_type_changes_kind(store, mine, other);
    let all = attribute_store_changes(store, mine, other, true);
    let tc = type_changes(store, mine, other);
    assert forall|k: int| 0 <= k < all.len() implies !(#[trigger] all[k] is RemoveAttributes) by {
        if k < tc.len() {
            assert(all[k] == tc[k]);
        }
    }
}
} // verus!
