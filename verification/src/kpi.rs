use vstd::prelude::*;

verus! {

/// Adding a KPI data column to a trigger.
pub struct AddKpiData {
    pub trigger_name: String,
    pub kpi_column: String,
    pub data_type: String,
}

impl AddKpiData {
    /// How the change is written: `AddKpiData { trigger_name: <name>, kpi_column:
    /// <column>}`.
    pub fn to_display_string(&self) -> (r: String)
        ensures
            r@ == "AddKpiData { trigger_name: "@ + self.trigger_name@ + ", kpi_column: "@
                + self.kpi_column@ + "}"@,
    {
        let mut s = "AddKpiData { trigger_name: ".to_owned();
        s.append(self.trigger_name.as_str());
        s.append(", kpi_column: ");
        s.append(self.kpi_column.as_str());
        s.append("}");
        proof {
            reveal_strlit("AddKpiData { trigger_name: ");
            reveal_strlit(", kpi_column: ");
            reveal_strlit("}");
        }
        s
    }
}

/// Changing the data type of a KPI data column of a trigger.
pub struct ChangeKpiData {
    pub trigger_name: String,
    pub kpi_column: String,
    pub data_type: String,
}

/// Removing a KPI data column from a trigger.
pub struct RemoveKpiData {
    pub trigger_name: String,
    pub kpi_column: String,
}

} // verus!
