use vstd::prelude::*;

use crate::attribute_store::{
    AddAttributeStore, AddAttributeStoreAttributes, Attribute, ChangeAttribute, RemoveAttributes,
};
use crate::sql::{concat, params_view, SqlParam, SqlParamView, SqlStep, SqlStepView};

verus! {

/// The statement that makes Citus run changes to distributed tables one shard at a time,
/// which attribute store changes run first.
pub const SEQUENTIAL_MODE_STATEMENT: &'static str = "SET citus.multi_shard_modify_mode TO 'sequential'";

/// The statement that adds an attribute to an attribute store.
pub const CREATE_ATTRIBUTE_STATEMENT: &'static str = "SELECT attribute_directory.create_attribute(attribute_store, $1::name, $2::text, $3::text) FROM attribute_directory.attribute_store JOIN directory.data_source ON data_source.id = attribute_store.data_source_id JOIN directory.entity_type ON entity_type.id = attribute_store.entity_type_id WHERE data_source.name = $4 AND entity_type.name = $5";

/// The statement that removes an attribute from an attribute store.
pub const DROP_ATTRIBUTE_STATEMENT: &'static str = "SELECT attribute_directory.drop_attribute(attribute_store, $1) FROM attribute_directory.attribute_store JOIN directory.data_source ON data_source.id = attribute_store.data_source_id JOIN directory.entity_type ON entity_type.id = attribute_store.entity_type_id WHERE data_source.name = $2 AND entity_type.name = $3";

/// The statement that changes the data type of an attribute.
pub const CHANGE_DATA_TYPE_STATEMENT: &'static str = "UPDATE attribute_directory.attribute SET data_type = $1 FROM attribute_directory.attribute_store JOIN directory.data_source ON data_source.id = attribute_store.data_source_id JOIN directory.entity_type ON entity_type.id = attribute_store.entity_type_id WHERE attribute.attribute_store_id = attribute_store.id AND attribute.name = $2 AND data_source.name = $3 AND entity_type.name = $4";

/// The query for an attribute of an attribute store: its name, data type, description
/// and extra data.
pub const ATTRIBUTE_QUERY: &'static str = "SELECT att.name, att.data_type, att.description, att.extra_data FROM attribute_directory.attribute att JOIN attribute_directory.attribute_store ast ON att.attribute_store_id = ast.id JOIN directory.data_source ds ON ds.id = ast.data_source_id JOIN directory.entity_type et ON et.id = ast.entity_type_id WHERE ds.name = $1 AND et.name = $2 AND att.name = $3";

/// The statement that creates an attribute store with its attributes.
pub const CREATE_ATTRIBUTE_STORE_STATEMENT: &'static str = "CALL attribute_directory.create_attribute_store($1::text, $2::text, $3::attribute_directory.attribute_descr[])";

/// The statement that adds an attribute to the store `(data_source, entity_type)`.
pub open spec fn add_attribute_step_view(store: (Seq<char>, Seq<char>), a: Attribute) -> SqlStepView {
    (
        CREATE_ATTRIBUTE_STATEMENT@,
        seq![
            SqlParamView::Text(a.name@),
            SqlParamView::Text(a.data_type@),
            SqlParamView::Text(a.description@),
            SqlParamView::Text(store.0),
            SqlParamView::Text(store.1),
        ],
        "Error adding attributes to attribute store"@,
    )
}

/// The views of statements.
pub open spec fn steps_of(steps: Seq<SqlStep>) -> Seq<SqlStepView> {
    steps.map_values(|s: SqlStep| s@)
}

impl AddAttributeStoreAttributes {
    /// The statements that add the attributes, one for each, in order; they run after
    /// `SEQUENTIAL_MODE_STATEMENT` in one transaction.
    pub fn apply_steps(&self) -> (r: Vec<SqlStep>)
        ensures
            steps_of(r@) == self.attributes@.map_values(|a: Attribute| add_attribute_step_view(self.attribute_store@, a)),
    {
        let ghost want = self.attributes@.map_values(|a: Attribute| add_attribute_step_view(self.attribute_store@, a));
        let mut r: Vec<SqlStep> = Vec::new();
        let mut i: usize = 0;
        proof {
            reveal_strlit("Error adding attributes to attribute store");
        }
        while i < self.attributes.len()
            invariant
                i <= self.attributes.len(),
                want == self.attributes@.map_values(|a: Attribute| add_attribute_step_view(self.attribute_store@, a)),
                r.len() == i,
                steps_of(r@) == want.take(i as int),
            decreases self.attributes.len() - i,
        {
            let a = &self.attributes[i];
            let mut params: Vec<SqlParam> = Vec::new();
            params.push(SqlParam::Text(a.name.clone()));
            params.push(SqlParam::Text(a.data_type.clone()));
            params.push(SqlParam::Text(a.description.clone()));
            params.push(SqlParam::Text(self.attribute_store.data_source.clone()));
            params.push(SqlParam::Text(self.attribute_store.entity_type.clone()));
            let step = SqlStep {
                statement: CREATE_ATTRIBUTE_STATEMENT.to_owned(),
                params,
                failure: "Error adding attributes to attribute store".to_owned(),
            };
            assert(params_view(step.params@) =~= add_attribute_step_view(self.attribute_store@, *a).1);
            let ghost prev = r@;
            let ghost sv = step@;
            r.push(step);
            proof {
                assert(sv == want[i as int]);
                assert forall|k: int| 0 <= k < i + 1 implies steps_of(r@)[k] == want.take(i + 1)[k] by {
                    if k < i {
                        assert(r@[k] == prev[k]);
                        assert(steps_of(prev)[k] == want.take(i as int)[k]);
                    }
                }
                assert(steps_of(r@) =~= want.take(i + 1));
            }
            i = i + 1;
        }
        assert(want.take(self.attributes.len() as int) =~= want);
        r
    }
}

/// The statement that removes the attribute `name` from the store
/// `(data_source, entity_type)`.
pub open spec fn remove_attribute_step_view(store: (Seq<char>, Seq<char>), name: Seq<char>) -> SqlStepView {
    (
        DROP_ATTRIBUTE_STATEMENT@,
        seq![SqlParamView::Text(name), SqlParamView::Text(store.0), SqlParamView::Text(store.1)],
        "Error removing attribute '"@ + name + "' from attribute store"@,
    )
}

impl RemoveAttributes {
    /// The statement that removes the attribute at `index`; before it runs, the
    /// attribute is loaded (with `ATTRIBUTE_QUERY`) for the report of the change.
    pub fn remove_step(&self, index: usize) -> (r: SqlStep)
        requires
            index < self.attributes.len(),
        ensures
            r@ == remove_attribute_step_view(self.attribute_store@, self.attributes@[index as int]@),
    {
        let name = &self.attributes[index];
        let mut params: Vec<SqlParam> = Vec::new();
        params.push(SqlParam::Text(name.clone()));
        params.push(SqlParam::Text(self.attribute_store.data_source.clone()));
        params.push(SqlParam::Text(self.attribute_store.entity_type.clone()));
        let mut failure = concat("Error removing attribute '", name.as_str());
        failure.append("' from attribute store");
        proof {
            reveal_strlit("Error removing attribute '");
            reveal_strlit("' from attribute store");
        }
        let step = SqlStep { statement: DROP_ATTRIBUTE_STATEMENT.to_owned(), params, failure };
        assert(params_view(step.params@) =~= remove_attribute_step_view(self.attribute_store@, name@).1);
        step
    }
}

/// The statement that gives an attribute of the store `(data_source, entity_type)` a
/// new data type.
pub open spec fn change_data_type_step_view(store: (Seq<char>, Seq<char>), name: Seq<char>, data_type: Seq<char>) -> SqlStepView {
    (
        CHANGE_DATA_TYPE_STATEMENT@,
        seq![
            SqlParamView::Text(data_type),
            SqlParamView::Text(name),
            SqlParamView::Text(store.0),
            SqlParamView::Text(store.1),
        ],
        "Error changing attribute data type"@,
    )
}

impl ChangeAttribute {
    /// The statement that applies the change; before it runs, the attribute is loaded
    /// (with `ATTRIBUTE_QUERY`) for its original data type.
    pub fn apply_step(&self) -> (r: SqlStep)
        ensures
            r@ == change_data_type_step_view(self.attribute_store@, self.attribute_name@, self.data_type@),
    {
        let mut params: Vec<SqlParam> = Vec::new();
        params.push(SqlParam::Text(self.data_type.clone()));
        params.push(SqlParam::Text(self.attribute_name.clone()));
        params.push(SqlParam::Text(self.attribute_store.data_source.clone()));
        params.push(SqlParam::Text(self.attribute_store.entity_type.clone()));
        proof {
            reveal_strlit("Error changing attribute data type");
        }
        let step = SqlStep {
            statement: CHANGE_DATA_TYPE_STATEMENT.to_owned(),
            params,
            failure: "Error changing attribute data type".to_owned(),
        };
        assert(params_view(step.params@) =~= change_data_type_step_view(
            self.attribute_store@,
            self.attribute_name@,
            self.data_type@,
        ).1);
        step
    }
}

/// The message of an attribute that the store `(data_source, entity_type)` lacks.
pub fn no_such_attribute_message(data_source: &str, entity_type: &str, name: &str) -> (r: String)
    ensures
        r@ == "No such attribute '"@ + data_source@ + "_"@ + entity_type@ + "'.'"@ + name@ + "'"@,
{
    let mut s = concat("No such attribute '", data_source);
    s.append("_");
    s.append(entity_type);
    s.append("'.'");
    s.append(name);
    s.append("'");
    proof {
        reveal_strlit("No such attribute '");
        reveal_strlit("_");
        reveal_strlit("'.'");
        reveal_strlit("'");
    }
    s
}

impl AddAttributeStore {
    /// The message of a failure to create the attribute store, given the database's
    /// message; the store is written `AttributeStore(data_source, entity_type)`.
    pub fn failure_message(&self, error: &str) -> (r: String)
        ensures
            r@ == "Error creating attribute store 'AttributeStore("@ + self.attribute_store.data_source@ + ", "@
                + self.attribute_store.entity_type@ + ")': "@ + error@,
    {
        let mut s = concat("Error creating attribute store 'AttributeStore(", self.attribute_store.data_source.as_str());
        s.append(", ");
        s.append(self.attribute_store.entity_type.as_str());
        s.append(")': ");
        s.append(error);
        proof {
            reveal_strlit("Error creating attribute store 'AttributeStore(");
            reveal_strlit(", ");
            reveal_strlit(")': ");
        }
        s
    }
}

} // verus!
