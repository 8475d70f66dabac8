use vstd::prelude::*;

use crate::change::{append_changes, changes_view, push_change, Change, ChangeView};
use crate::attribute_store::name_lines;
use crate::humantime_text::{format_duration_text, formatted_duration};
use crate::instance::{AddTrendStore, TrendStore, TrendStorePart};
use crate::text::{
    escape_identifier, find_first, join_seqs, lemma_find_first_at, lemma_find_first_none,
    lemma_find_first_none_all, quote_ident, strings_view, u64_to_decimal, decimal,
};
use crate::time::Duration;

verus! {

/// A trend of a trend store part: its name, its data type and its extra data (as JSON
/// text).
pub struct Trend {
    pub name: String,
    pub data_type: String,
    pub extra_data: String,
}

/// A trend, mathematically.
pub struct TrendView {
    pub name: Seq<char>,
    pub data_type: Seq<char>,
    pub extra_data: Seq<char>,
}

impl View for Trend {
    type V = TrendView;

    open spec fn view(&self) -> TrendView {
        TrendView { name: self.name@, data_type: self.data_type@, extra_data: self.extra_data@ }
    }
}

/// The views of a list of trends.
pub open spec fn trends_view(trends: Seq<Trend>) -> Seq<TrendView> {
    trends.map_values(|t: Trend| t@)
}

/// A trend store part, mathematically: its name and its trends.
pub struct TrendStorePartView {
    pub name: Seq<char>,
    pub trends: Seq<TrendView>,
}

/// The view of a trend store part.
pub open spec fn part_view(p: TrendStorePart) -> TrendStorePartView {
    TrendStorePartView { name: p.name@, trends: trends_view(p.trends@) }
}

/// The views of a list of trend store parts.
pub open spec fn parts_view(parts: Seq<TrendStorePart>) -> Seq<TrendStorePartView> {
    parts.map_values(|p: TrendStorePart| part_view(p))
}

impl Trend {
    /// A trend equal to this one.
    pub fn duplicate(&self) -> (r: Trend)
        ensures
            r@ == self@,
    {
        Trend {
            name: self.name.clone(),
            data_type: self.data_type.clone(),
            extra_data: self.extra_data.clone(),
        }
    }
}

/// A list of trends equal to `trends`.
pub fn duplicate_trends(trends: &Vec<Trend>) -> (r: Vec<Trend>)
    ensures
        trends_view(r@) == trends_view(trends@),
{
    let mut r: Vec<Trend> = Vec::new();
    let mut i: usize = 0;
    while i < trends.len()
        invariant
            i <= trends.len(),
            r.len() == i,
            trends_view(r@) == trends_view(trends@).take(i as int),
        decreases trends.len() - i,
    {
        let ghost prev = r@;
        r.push(trends[i].duplicate());
        proof {
            assert forall|j: int| 0 <= j < prev.len() implies trends_view(r@)[j] == trends_view(prev)[j] by {
                assert(r@[j] == prev[j]);
            }
            assert(trends_view(r@)[i as int] == trends_view(trends@)[i as int]);
            assert(trends_view(r@) =~= trends_view(trends@).take(i + 1));
        }
        i = i + 1;
    }
    assert(trends_view(trends@).take(trends.len() as int) =~= trends_view(trends@));
    r
}

impl TrendStorePart {
    /// A part equal to this one.
    pub fn duplicate(&self) -> (r: TrendStorePart)
        ensures
            part_view(r) == part_view(*self),
    {
        TrendStorePart { name: self.name.clone(), trends: duplicate_trends(&self.trends) }
    }
}

/// A list of parts equal to `parts`.
pub fn duplicate_parts(parts: &Vec<TrendStorePart>) -> (r: Vec<TrendStorePart>)
    ensures
        parts_view(r@) == parts_view(parts@),
{
    let mut r: Vec<TrendStorePart> = Vec::new();
    let mut i: usize = 0;
    while i < parts.len()
        invariant
            i <= parts.len(),
            r.len() == i,
            parts_view(r@) == parts_view(parts@).take(i as int),
        decreases parts.len() - i,
    {
        let ghost prev = r@;
        r.push(parts[i].duplicate());
        proof {
            assert forall|j: int| 0 <= j < prev.len() implies parts_view(r@)[j] == parts_view(prev)[j] by {
                assert(r@[j] == prev[j]);
            }
            assert(parts_view(r@)[i as int] == parts_view(parts@)[i as int]);
            assert(parts_view(r@) =~= parts_view(parts@).take(i + 1));
        }
        i = i + 1;
    }
    assert(parts_view(parts@).take(parts.len() as int) =~= parts_view(parts@));
    r
}

/// A reference to a trend store: data source, entity type and granularity.
pub struct TrendStoreRef {
    pub data_source: String,
    pub entity_type: String,
    pub granularity: Duration,
}

impl View for TrendStoreRef {
    type V = (Seq<char>, Seq<char>, Duration);

    open spec fn view(&self) -> (Seq<char>, Seq<char>, Duration) {
        (self.data_source@, self.entity_type@, self.granularity)
    }
}

/// What to leave out when comparing two trend stores.
#[derive(Clone, Copy)]
pub struct TrendStoreDiffOptions {
    pub ignore_trend_extra_data: bool,
    pub ignore_trend_data_type: bool,
    pub ignore_deletions: bool,
}

/// The change of the data type of one trend.
pub struct ModifyTrendDataType {
    pub trend_name: String,
    pub from_type: String,
    pub to_type: String,
}

impl View for ModifyTrendDataType {
    type V = (Seq<char>, Seq<char>, Seq<char>);

    open spec fn view(&self) -> (Seq<char>, Seq<char>, Seq<char>) {
        (self.trend_name@, self.from_type@, self.to_type@)
    }
}

/// The views of a list of data type changes.
pub open spec fn modifications_view(m: Seq<ModifyTrendDataType>) -> Seq<(Seq<char>, Seq<char>, Seq<char>)> {
    m.map_values(|x: ModifyTrendDataType| x@)
}

/// The change of the data types of some trends of one trend store part, applied as one
/// statement; `total_trend_count` is the number of trends of the part.
pub struct ModifyTrendDataTypes {
    pub trend_store_part_name: String,
    pub modifications: Vec<ModifyTrendDataType>,
    pub total_trend_count: usize,
}

/// The outcome of a change of data types.
pub struct ModifiedTrendDataTypes {
    pub trend_store_part_name: String,
    pub modifications: Vec<ModifyTrendDataType>,
    pub total_trend_count: usize,
}

/// Adding trends to a trend store part.
pub struct AddTrends {
    pub trend_store_part_name: String,
    pub trends: Vec<Trend>,
}

/// Removing trends, by name, from a trend store part.
pub struct RemoveTrends {
    pub trend_store_part_name: String,
    pub trends: Vec<String>,
}

/// Changing the extra data of a trend.
pub struct ModifyTrendExtraData {
    pub trend_name: String,
    pub trend_store_part_name: String,
    pub from_extra_data: String,
    pub to_extra_data: String,
}

/// Adding a part to a trend store.
pub struct AddTrendStorePart {
    pub trend_store: TrendStoreRef,
    pub trend_store_part: TrendStorePart,
}

/// Removing a trend store part, by name.
pub struct RemoveTrendStorePart {
    pub name: String,
}

/// How the type change of one trend is written in an `ALTER TABLE` statement.
pub open spec fn alter_type_part(m: (Seq<char>, Seq<char>, Seq<char>)) -> Seq<char> {
    "ALTER \""@ + m.0 + "\" TYPE "@ + m.2 + " USING CAST(\""@ + m.0 + "\" AS "@ + m.2 + ")"@
}

/// The statement that changes the data types of trends of a part:
/// `ALTER TABLE trend."part" ALTER "a" TYPE t USING CAST("a" AS t), ...`.
pub open spec fn modify_statement(part: Seq<char>, mods: Seq<(Seq<char>, Seq<char>, Seq<char>)>) -> Seq<
    char,
> {
    "ALTER TABLE trend."@ + quote_ident(part) + " "@ + join_seqs(
        mods.map_values(|m: (Seq<char>, Seq<char>, Seq<char>)| alter_type_part(m)),
        ", "@,
    )
}

/// The statement that sets the data type of a trend in the trend directory; its
/// parameters are the new type, the part's name and the trend's name.
pub const UPDATE_TREND_DATA_TYPE_STATEMENT: &'static str =
    "UPDATE trend_directory.table_trend tt SET data_type = $1 FROM trend_directory.trend_store_part tsp WHERE tsp.id = tt.trend_store_part_id AND tsp.name = $2 AND tt.name = $3";

/// The statement that lifts the statement timeout of the session.
pub const NO_STATEMENT_TIMEOUT_STATEMENT: &'static str = "SET SESSION statement_timeout = 0";

/// The statement that sets the lock timeout of the session.
pub const LOCK_TIMEOUT_STATEMENT: &'static str = "SET SESSION lock_timeout = '10min'";

/// The type change of one trend swapped around.
pub open spec fn swapped(m: (Seq<char>, Seq<char>, Seq<char>)) -> (Seq<char>, Seq<char>, Seq<char>) {
    (m.0, m.2, m.1)
}

/// How one type change is written: `Trend(name, from->to)`.
pub open spec fn modification_text(m: (Seq<char>, Seq<char>, Seq<char>)) -> Seq<char> {
    "Trend("@ + m.0 + ", "@ + m.1 + "->"@ + m.2 + ")"@
}

/// The lines that list type changes, each ` - name: from -> to`.
pub open spec fn modification_lines(mods: Seq<(Seq<char>, Seq<char>, Seq<char>)>) -> Seq<char>
    decreases mods.len(),
{
    if mods.len() == 0 {
        Seq::empty()
    } else {
        modification_lines(mods.drop_last()) + " - "@ + mods.last().0 + ": "@ + mods.last().1
            + " -> "@ + mods.last().2 + "\n"@
    }
}

impl ModifyTrendDataType {
    /// A change equal to this one.
    pub fn duplicate(&self) -> (r: ModifyTrendDataType)
        ensures
            r@ == self@,
    {
        ModifyTrendDataType {
            trend_name: self.trend_name.clone(),
            from_type: self.from_type.clone(),
            to_type: self.to_type.clone(),
        }
    }

    /// How the change is written, such as `Trend(x, int4->int8)`.
    pub fn to_display_string(&self) -> (r: String)
        ensures
            r@ == modification_text(self@),
    {
        proof {
            reveal_strlit("Trend(");
            reveal_strlit(", ");
            reveal_strlit("->");
            reveal_strlit(")");
        }
        let mut s = "Trend(".to_owned();
        s.append(self.trend_name.as_str());
        s.append(", ");
        s.append(self.from_type.as_str());
        s.append("->");
        s.append(self.to_type.as_str());
        s.append(")");
        s
    }
}

/// The list of type changes with each one swapped around.
fn swapped_modifications(mods: &Vec<ModifyTrendDataType>) -> (r: Vec<ModifyTrendDataType>)
    ensures
        modifications_view(r@) == modifications_view(mods@).map_values(
            |m: (Seq<char>, Seq<char>, Seq<char>)| swapped(m),
        ),
{
    let ghost target = modifications_view(mods@).map_values(
        |m: (Seq<char>, Seq<char>, Seq<char>)| swapped(m),
    );
    let mut r: Vec<ModifyTrendDataType> = Vec::new();
    let mut i: usize = 0;
    while i < mods.len()
        invariant
            i <= mods.len(),
            target == modifications_view(mods@).map_values(
                |m: (Seq<char>, Seq<char>, Seq<char>)| swapped(m),
            ),
            r.len() == i,
            modifications_view(r@) == target.take(i as int),
        decreases mods.len() - i,
    {
        let ghost prev = r@;
        r.push(
            ModifyTrendDataType {
                trend_name: mods[i].trend_name.clone(),
                from_type: mods[i].to_type.clone(),
                to_type: mods[i].from_type.clone(),
            },
        );
        proof {
            assert forall|j: int| 0 <= j < prev.len() implies modifications_view(r@)[j]
                == modifications_view(prev)[j] by {
                assert(r@[j] == prev[j]);
            }
            assert(target[i as int] == swapped(mods@[i as int]@));
            assert(modifications_view(r@)[i as int] == target[i as int]);
            assert(modifications_view(r@) =~= target.take(i + 1));
        }
        i = i + 1;
    }
    assert(target.take(mods.len() as int) =~= target);
    r
}

/// A list of type changes equal to `mods`.
fn duplicate_modifications(mods: &Vec<ModifyTrendDataType>) -> (r: Vec<ModifyTrendDataType>)
    ensures
        modifications_view(r@) == modifications_view(mods@),
{
    let mut r: Vec<ModifyTrendDataType> = Vec::new();
    let mut i: usize = 0;
    while i < mods.len()
        invariant
            i <= mods.len(),
            r.len() == i,
            modifications_view(r@) == modifications_view(mods@).take(i as int),
        decreases mods.len() - i,
    {
        let ghost prev = r@;
        r.push(mods[i].duplicate());
        proof {
            assert forall|j: int| 0 <= j < prev.len() implies modifications_view(r@)[j] == modifications_view(prev)[j] by {
                assert(r@[j] == prev[j]);
            }
            assert(modifications_view(r@)[i as int] == modifications_view(mods@)[i as int]);
            assert(modifications_view(r@) =~= modifications_view(mods@).take(i + 1));
        }
        i = i + 1;
    }
    assert(modifications_view(mods@).take(mods.len() as int) =~= modifications_view(mods@));
    r
}

impl ModifyTrendDataTypes {
    /// The statement that changes the column types of the part's table.
    #[verifier::spinoff_prover]
    #[verifier::rlimit(40)]
    pub fn alter_statement(&self) -> (r: String)
        ensures
            r@ == modify_statement(self.trend_store_part_name@, modifications_view(self.modifications@)),
    {
        let ghost mods = modifications_view(self.modifications@);
        let ghost parts = mods.map_values(|m: (Seq<char>, Seq<char>, Seq<char>)| alter_type_part(m));
        proof {
            reveal_strlit("ALTER TABLE trend.");
            reveal_strlit(" ");
            reveal_strlit("ALTER \"");
            reveal_strlit("\" TYPE ");
            reveal_strlit(" USING CAST(\"");
            reveal_strlit("\" AS ");
            reveal_strlit(")");
            reveal_strlit(", ");
        }
        let mut s = "ALTER TABLE trend.".to_owned();
        let q = escape_identifier(self.trend_store_part_name.as_str());
        s.append(q.as_str());
        s.append(" ");
        let ghost head = s@;
        let mut i: usize = 0;
        while i < self.modifications.len()
            invariant
                i <= self.modifications.len(),
                mods == modifications_view(self.modifications@),
                parts == mods.map_values(|m: (Seq<char>, Seq<char>, Seq<char>)| alter_type_part(m)),
                s@ == head + join_seqs(parts.take(i as int), ", "@),
            decreases self.modifications.len() - i,
        {
            assert(parts.take(i + 1).drop_last() =~= parts.take(i as int));
            if i != 0 {
                s.append(", ");
            }
            let m = &self.modifications[i];
            s.append("ALTER \"");
            s.append(m.trend_name.as_str());
            s.append("\" TYPE ");
            s.append(m.to_type.as_str());
            s.append(" USING CAST(\"");
            s.append(m.trend_name.as_str());
            s.append("\" AS ");
            s.append(m.to_type.as_str());
            s.append(")");
            proof {
                assert(parts.take(i + 1).last() == alter_type_part(mods[i as int]));
                if i == 0 {
                    assert(join_seqs(parts.take(1), ", "@) == parts.take(1)[0]);
                }
            }
            i = i + 1;
        }
        assert(parts.take(self.modifications.len() as int) =~= parts);
        s
    }

    /// How the change is written: a first line
    /// `ModifyTrendDataTypes(part, changed/total):` and a line for each type change.
    pub fn to_display_string(&self) -> (r: String)
        requires
            self.modifications.len() <= u64::MAX,
        ensures
            r@ == "ModifyTrendDataTypes("@ + self.trend_store_part_name@ + ", "@ + decimal(
                self.modifications.len() as nat,
            ) + "/"@ + decimal(self.total_trend_count as nat) + "):\n"@ + modification_lines(
                modifications_view(self.modifications@),
            ),
    {
        let ghost mods = modifications_view(self.modifications@);
        proof {
            reveal_strlit("ModifyTrendDataTypes(");
            reveal_strlit(", ");
            reveal_strlit("/");
            reveal_strlit("):\n");
            reveal_strlit(" - ");
            reveal_strlit(": ");
            reveal_strlit(" -> ");
            reveal_strlit("\n");
        }
        let mut s = "ModifyTrendDataTypes(".to_owned();
        s.append(self.trend_store_part_name.as_str());
        s.append(", ");
        s.append(u64_to_decimal(self.modifications.len() as u64).as_str());
        s.append("/");
        s.append(u64_to_decimal(self.total_trend_count as u64).as_str());
        s.append("):\n");
        let ghost head = s@;
        let mut i: usize = 0;
        while i < self.modifications.len()
            invariant
                i <= self.modifications.len(),
                mods == modifications_view(self.modifications@),
                s@ == head + modification_lines(mods.take(i as int)),
            decreases self.modifications.len() - i,
        {
            assert(mods.take(i + 1).drop_last() =~= mods.take(i as int));
            let m = &self.modifications[i];
            s.append(" - ");
            s.append(m.trend_name.as_str());
            s.append(": ");
            s.append(m.from_type.as_str());
            s.append(" -> ");
            s.append(m.to_type.as_str());
            s.append("\n");
            i = i + 1;
        }
        assert(mods.take(self.modifications.len() as int) =~= mods);
        s
    }

    /// The outcome of applying the change: the same part, type changes and count.
    pub fn outcome(&self) -> (r: ModifiedTrendDataTypes)
        ensures
            r.trend_store_part_name@ == self.trend_store_part_name@,
            modifications_view(r.modifications@) == modifications_view(self.modifications@),
            r.total_trend_count == self.total_trend_count,
    {
        ModifiedTrendDataTypes {
            trend_store_part_name: self.trend_store_part_name.clone(),
            modifications: duplicate_modifications(&self.modifications),
            total_trend_count: self.total_trend_count,
        }
    }
}

impl ModifiedTrendDataTypes {
    /// The change that undoes this one: each trend set back from its new type to its
    /// old one.
    pub fn revert(&self) -> (r: ModifyTrendDataTypes)
        ensures
            r.trend_store_part_name@ == self.trend_store_part_name@,
            modifications_view(r.modifications@) == modifications_view(self.modifications@).map_values(
                |m: (Seq<char>, Seq<char>, Seq<char>)| swapped(m),
            ),
            r.total_trend_count == self.total_trend_count,
    {
        ModifyTrendDataTypes {
            trend_store_part_name: self.trend_store_part_name.clone(),
            modifications: swapped_modifications(&self.modifications),
            total_trend_count: self.total_trend_count,
        }
    }
}

/// Reverting the outcome of a change of data types, and reverting the outcome of that,
/// gives back the original change.
pub proof fn lemma_revert_twice(mods: Seq<(Seq<char>, Seq<char>, Seq<char>)>)
    ensures
        mods.map_values(|m: (Seq<char>, Seq<char>, Seq<char>)| swapped(m)).map_values(
            |m: (Seq<char>, Seq<char>, Seq<char>)| swapped(m),
        ) == mods,
{
    assert(mods.map_values(|m: (Seq<char>, Seq<char>, Seq<char>)| swapped(m)).map_values(
        |m: (Seq<char>, Seq<char>, Seq<char>)| swapped(m),
    ) =~= mods);
}

/// How a trend store is named in the text of a change:
/// `TrendStore(data_source, entity_type, granularity)`, the granularity as humantime
/// writes it.
pub open spec fn trend_store_text(store: (Seq<char>, Seq<char>, Duration)) -> Seq<char> {
    "TrendStore("@ + store.0 + ", "@ + store.1 + ", "@ + formatted_duration(store.2@.0, store.2@.1)
        + ")"@
}

/// The lines that list trends with their data types, each ` - name: data_type`.
pub open spec fn trend_type_lines(trends: Seq<TrendView>) -> Seq<char>
    decreases trends.len(),
{
    if trends.len() == 0 {
        Seq::empty()
    } else {
        trend_type_lines(trends.drop_last()) + " - "@ + trends.last().name + ": "@
            + trends.last().data_type + "\n"@
    }
}

/// The names of the parts of a trend store, in order.
pub open spec fn part_names_of(parts: Seq<TrendStorePartView>) -> Seq<Seq<char>> {
    parts.map_values(|p: TrendStorePartView| p.name)
}

/// The text of a trend store reference.
fn trend_store_ref_text(data_source: &str, entity_type: &str, granularity: Duration) -> (r: String)
    ensures
        r@ == trend_store_text((data_source@, entity_type@, granularity)),
{
    proof {
        reveal_strlit("TrendStore(");
        reveal_strlit(", ");
        reveal_strlit(")");
    }
    let mut s = "TrendStore(".to_owned();
    s.append(data_source);
    s.append(", ");
    s.append(entity_type);
    s.append(", ");
    s.append(format_duration_text(granularity).as_str());
    s.append(")");
    s
}

/// Appends a ` - name` line for each name.
fn append_name_lines(s: &mut String, names: &Vec<String>)
    ensures
        final(s)@ == old(s)@ + name_lines(strings_view(names@)),
{
    let ghost head = s@;
    let ghost nv = strings_view(names@);
    proof {
        reveal_strlit(" - ");
        reveal_strlit("\n");
        assert(nv.take(0) =~= Seq::<Seq<char>>::empty());
        assert(s@ =~= head + name_lines(nv.take(0)));
    }
    let mut i: usize = 0;
    while i < names.len()
        invariant
            i <= names.len(),
            nv == strings_view(names@),
            s@ == head + name_lines(nv.take(i as int)),
        decreases names.len() - i,
    {
        assert(nv.take(i + 1).drop_last() =~= nv.take(i as int));
        s.append(" - ");
        s.append(names[i].as_str());
        s.append("\n");
        i = i + 1;
    }
    assert(nv.take(names.len() as int) =~= nv);
}

impl AddTrends {
    /// How the change is written: a first line `AddTrends(TrendStorePart(part), n):`
    /// and a line ` - name: data_type` for each trend.
    pub fn to_display_string(&self) -> (r: String)
        ensures
            r@ == "AddTrends(TrendStorePart("@ + self.trend_store_part_name@ + "), "@ + decimal(
                self.trends.len() as nat,
            ) + "):\n"@ + trend_type_lines(trends_view(self.trends@)),
    {
        let ghost tv = trends_view(self.trends@);
        proof {
            reveal_strlit("AddTrends(TrendStorePart(");
            reveal_strlit("), ");
            reveal_strlit("):\n");
            reveal_strlit(" - ");
            reveal_strlit(": ");
            reveal_strlit("\n");
        }
        let mut s = "AddTrends(TrendStorePart(".to_owned();
        s.append(self.trend_store_part_name.as_str());
        s.append("), ");
        s.append(u64_to_decimal(self.trends.len() as u64).as_str());
        s.append("):\n");
        let ghost head = s@;
        let mut i: usize = 0;
        while i < self.trends.len()
            invariant
                i <= self.trends.len(),
                tv == trends_view(self.trends@),
                s@ == head + trend_type_lines(tv.take(i as int)),
            decreases self.trends.len() - i,
        {
            assert(tv.take(i + 1).drop_last() =~= tv.take(i as int));
            s.append(" - ");
            s.append(self.trends[i].name.as_str());
            s.append(": ");
            s.append(self.trends[i].data_type.as_str());
            s.append("\n");
            i = i + 1;
        }
        assert(tv.take(self.trends.len() as int) =~= tv);
        s
    }
}

impl RemoveTrends {
    /// How the change is written: a first line `RemoveTrends(TrendStorePart(part), n):`
    /// and a line ` - name` for each trend.
    pub fn to_display_string(&self) -> (r: String)
        ensures
            r@ == "RemoveTrends(TrendStorePart("@ + self.trend_store_part_name@ + "), "@ + decimal(
                self.trends.len() as nat,
            ) + "):\n"@ + name_lines(strings_view(self.trends@)),
    {
        proof {
            reveal_strlit("RemoveTrends(TrendStorePart(");
            reveal_strlit("), ");
            reveal_strlit("):\n");
        }
        let mut s = "RemoveTrends(TrendStorePart(".to_owned();
        s.append(self.trend_store_part_name.as_str());
        s.append("), ");
        s.append(u64_to_decimal(self.trends.len() as u64).as_str());
        s.append("):\n");
        append_name_lines(&mut s, &self.trends);
        s
    }
}

impl ModifyTrendExtraData {
    /// How the change is written: `Trend(part.trend)`.
    pub fn to_display_string(&self) -> (r: String)
        ensures
            r@ == "Trend("@ + self.trend_store_part_name@ + "."@ + self.trend_name@ + ")"@,
    {
        proof {
            reveal_strlit("Trend(");
            reveal_strlit(".");
            reveal_strlit(")");
        }
        let mut s = "Trend(".to_owned();
        s.append(self.trend_store_part_name.as_str());
        s.append(".");
        s.append(self.trend_name.as_str());
        s.append(")");
        s
    }
}

impl RemoveTrendStorePart {
    /// How the change is written: `RemoveTrendStorePart(name)`.
    pub fn to_display_string(&self) -> (r: String)
        ensures
            r@ == "RemoveTrendStorePart("@ + self.name@ + ")"@,
    {
        proof {
            reveal_strlit("RemoveTrendStorePart(");
            reveal_strlit(")");
        }
        let mut s = "RemoveTrendStorePart(".to_owned();
        s.append(self.name.as_str());
        s.append(")");
        s
    }
}

impl AddTrendStorePart {
    /// How the change is written: `AddTrendStorePart(TrendStore(...), part)`.
    pub fn to_display_string(&self) -> (r: String)
        ensures
            r@ == "AddTrendStorePart("@ + trend_store_text(self.trend_store@) + ", "@
                + self.trend_store_part.name@ + ")"@,
    {
        proof {
            reveal_strlit("AddTrendStorePart(");
            reveal_strlit(", ");
            reveal_strlit(")");
        }
        let mut s = "AddTrendStorePart(".to_owned();
        s.append(
            trend_store_ref_text(
                self.trend_store.data_source.as_str(),
                self.trend_store.entity_type.as_str(),
                self.trend_store.granularity,
            ).as_str(),
        );
        s.append(", ");
        s.append(self.trend_store_part.name.as_str());
        s.append(")");
        s
    }
}

impl AddTrendStore {
    /// How the change is written: a first line `AddTrendStore(TrendStore(...))` and a
    /// line ` - part` for each part.
    pub fn to_display_string(&self) -> (r: String)
        ensures
            r@ == "AddTrendStore("@ + trend_store_text(
                (self.trend_store.data_source@, self.trend_store.entity_type@, self.trend_store.granularity),
            ) + ")\n"@ + name_lines(part_names_of(parts_view(self.trend_store.parts@))),
    {
        let ghost pn = part_names_of(parts_view(self.trend_store.parts@));
        proof {
            reveal_strlit("AddTrendStore(");
            reveal_strlit(")\n");
            reveal_strlit(" - ");
            reveal_strlit("\n");
        }
        let mut s = "AddTrendStore(".to_owned();
        s.append(
            trend_store_ref_text(
                self.trend_store.data_source.as_str(),
                self.trend_store.entity_type.as_str(),
                self.trend_store.granularity,
            ).as_str(),
        );
        s.append(")\n");
        let ghost head = s@;
        let mut i: usize = 0;
        while i < self.trend_store.parts.len()
            invariant
                i <= self.trend_store.parts.len(),
                pn == part_names_of(parts_view(self.trend_store.parts@)),
                s@ == head + name_lines(pn.take(i as int)),
            decreases self.trend_store.parts.len() - i,
        {
            assert(pn.take(i + 1).drop_last() =~= pn.take(i as int));
            s.append(" - ");
            s.append(self.trend_store.parts[i].name.as_str());
            s.append("\n");
            i = i + 1;
        }
        assert(pn.take(self.trend_store.parts.len() as int) =~= pn);
        s
    }
}

/// Whether a trend is called `name`.
pub open spec fn trend_named(name: Seq<char>) -> spec_fn(TrendView) -> bool {
    |t: TrendView| t.name == name
}

/// Whether a part is called `name`.
pub open spec fn part_named(name: Seq<char>) -> spec_fn(TrendStorePartView) -> bool {
    |p: TrendStorePartView| p.name == name
}

/// The trends of `other` that `mine` has no trend of the same name of, in order.
pub open spec fn added_trends(mine: Seq<TrendView>, other: Seq<TrendView>) -> Seq<TrendView>
    decreases other.len(),
{
    if other.len() == 0 {
        Seq::empty()
    } else {
        added_trends(mine, other.drop_last()) + if find_first(mine, trend_named(other.last().name)) is None {
            seq![other.last()]
        } else {
            Seq::empty()
        }
    }
}

/// The names of the trends of `mine` that `other` has no trend of the same name of, in
/// order.
pub open spec fn removed_trends(mine: Seq<TrendView>, other: Seq<TrendView>) -> Seq<Seq<char>>
    decreases mine.len(),
{
    if mine.len() == 0 {
        Seq::empty()
    } else {
        removed_trends(mine.drop_last(), other) + if find_first(other, trend_named(mine.last().name)) is None {
            seq![mine.last().name]
        } else {
            Seq::empty()
        }
    }
}

/// For each trend of `other` whose first namesake in `mine` has another data type, in
/// order: its name, the old type and the new type.
pub open spec fn type_modifications(mine: Seq<TrendView>, other: Seq<TrendView>) -> Seq<
    (Seq<char>, Seq<char>, Seq<char>),
>
    decreases other.len(),
{
    if other.len() == 0 {
        Seq::empty()
    } else {
        let o = other.last();
        type_modifications(mine, other.drop_last()) + match find_first(mine, trend_named(o.name)) {
            Some(m) => if m.data_type != o.data_type {
                seq![(o.name, m.data_type, o.data_type)]
            } else {
                Seq::empty()
            },
            None => Seq::empty(),
        }
    }
}

/// For each trend of `other` whose first namesake in `mine` has other extra data, in
/// order, the change of its extra data.
pub open spec fn extra_data_changes(part: Seq<char>, mine: Seq<TrendView>, other: Seq<TrendView>) -> Seq<
    ChangeView,
>
    decreases other.len(),
{
    if other.len() == 0 {
        Seq::empty()
    } else {
        let o = other.last();
        extra_data_changes(part, mine, other.drop_last()) + match find_first(mine, trend_named(o.name)) {
            Some(m) => if m.extra_data != o.extra_data {
                seq![
                    ChangeView::ModifyTrendExtraData {
                        part: part,
                        trend: o.name,
                        from: m.extra_data,
                        to: o.extra_data,
                    },
                ]
            } else {
                Seq::empty()
            },
            None => Seq::empty(),
        }
    }
}

/// The changes that turn the trends `mine` of part `part` into `other`: the added
/// trends, the removed ones (unless deletions are ignored), the type changes (unless
/// data types are ignored), each as one change where there is any, then a change of
/// extra data for each trend whose extra data differ (unless extra data are ignored).
pub open spec fn part_changes(
    part: Seq<char>,
    mine: Seq<TrendView>,
    other: Seq<TrendView>,
    options: TrendStoreDiffOptions,
) -> Seq<ChangeView> {
    let added = added_trends(mine, other);
    let removed = removed_trends(mine, other);
    let mods = type_modifications(mine, other);
    (if added.len() > 0 {
        seq![ChangeView::AddTrends { part: part, trends: added }]
    } else {
        Seq::empty()
    }) + (if !options.ignore_deletions && removed.len() > 0 {
        seq![ChangeView::RemoveTrends { part: part, trends: removed }]
    } else {
        Seq::empty()
    }) + (if !options.ignore_trend_data_type && mods.len() > 0 {
        seq![
            ChangeView::ModifyTrendDataTypes {
                part: part,
                modifications: mods,
                total_trend_count: other.len(),
            },
        ]
    } else {
        Seq::empty()
    }) + (if !options.ignore_trend_extra_data {
        extra_data_changes(part, mine, other)
    } else {
        Seq::empty()
    })
}

/// The changes for the parts of `other`: those of the first part of `mine` with the
/// same name, or the addition of the part where there is none.
pub open spec fn parts_changes(
    store: (Seq<char>, Seq<char>, Duration),
    mine: Seq<TrendStorePartView>,
    other: Seq<TrendStorePartView>,
    options: TrendStoreDiffOptions,
) -> Seq<ChangeView>
    decreases other.len(),
{
    if other.len() == 0 {
        Seq::empty()
    } else {
        let o = other.last();
        parts_changes(store, mine, other.drop_last(), options) + match find_first(mine, part_named(o.name)) {
            Some(m) => part_changes(o.name, m.trends, o.trends, options),
            None => seq![ChangeView::AddTrendStorePart { trend_store: store, part: o }],
        }
    }
}

/// The removal of each part of `mine` that `other` has no part of the same name of.
pub open spec fn removed_parts(mine: Seq<TrendStorePartView>, other: Seq<TrendStorePartView>) -> Seq<
    ChangeView,
>
    decreases mine.len(),
{
    if mine.len() == 0 {
        Seq::empty()
    } else {
        removed_parts(mine.drop_last(), other) + if find_first(other, part_named(mine.last().name)) is None {
            seq![ChangeView::RemoveTrendStorePart { name: mine.last().name }]
        } else {
            Seq::empty()
        }
    }
}

/// The changes that turn trend store `mine` into `other`: the changes of the parts of
/// `other`, then the removal of the parts that `other` lacks (unless deletions are
/// ignored).
pub open spec fn trend_store_diff(mine: TrendStore, other: TrendStore, options: TrendStoreDiffOptions) -> Seq<
    ChangeView,
> {
    parts_changes(
        (mine.data_source@, mine.entity_type@, mine.granularity),
        parts_view(mine.parts@),
        parts_view(other.parts@),
        options,
    ) + if options.ignore_deletions {
        Seq::empty()
    } else {
        removed_parts(parts_view(mine.parts@), parts_view(other.parts@))
    }
}

/// The index of the first trend of `trends` called `name`.
fn trend_index(trends: &Vec<Trend>, name: &String) -> (r: Option<usize>)
    ensures
        match r {
            Some(i) => i < trends.len() && find_first(trends_view(trends@), trend_named(name@)) == Some(
                trends_view(trends@)[i as int],
            ),
            None => find_first(trends_view(trends@), trend_named(name@)) is None,
        },
{
    let ghost tv = trends_view(trends@);
    let mut i: usize = 0;
    while i < trends.len()
        invariant
            i <= trends.len(),
            tv == trends_view(trends@),
            forall|j: int| 0 <= j < i ==> !trend_named(name@)(#[trigger] tv[j]),
        decreases trends.len() - i,
    {
        if trends[i].name == *name {
            proof {
                lemma_find_first_at(tv, trend_named(name@), i as int);
            }
            return Some(i);
        }
        i = i + 1;
    }
    proof {
        lemma_find_first_none(tv, trend_named(name@));
    }
    None
}

/// The index of the first part of `parts` called `name`.
fn part_index(parts: &Vec<TrendStorePart>, name: &String) -> (r: Option<usize>)
    ensures
        match r {
            Some(i) => i < parts.len() && find_first(parts_view(parts@), part_named(name@)) == Some(
                parts_view(parts@)[i as int],
            ),
            None => find_first(parts_view(parts@), part_named(name@)) is None,
        },
{
    let ghost pv = parts_view(parts@);
    let mut i: usize = 0;
    while i < parts.len()
        invariant
            i <= parts.len(),
            pv == parts_view(parts@),
            forall|j: int| 0 <= j < i ==> !part_named(name@)(#[trigger] pv[j]),
        decreases parts.len() - i,
    {
        if parts[i].name == *name {
            proof {
                lemma_find_first_at(pv, part_named(name@), i as int);
            }
            return Some(i);
        }
        i = i + 1;
    }
    proof {
        lemma_find_first_none(pv, part_named(name@));
    }
    None
}

/// The trends of `other` that `mine` has no trend of the same name of.
fn added_trend_list(mine: &Vec<Trend>, other: &Vec<Trend>) -> (r: Vec<Trend>)
    ensures
        trends_view(r@) == added_trends(trends_view(mine@), trends_view(other@)),
{
    let ghost mv = trends_view(mine@);
    let ghost ov = trends_view(other@);
    let mut r: Vec<Trend> = Vec::new();
    let mut i: usize = 0;
    while i < other.len()
        invariant
            i <= other.len(),
            mv == trends_view(mine@),
            ov == trends_view(other@),
            trends_view(r@) == added_trends(mv, ov.take(i as int)),
        decreases other.len() - i,
    {
        assert(ov.take(i + 1).drop_last() =~= ov.take(i as int));
        assert(ov.take(i + 1).last() == ov[i as int]);
        if trend_index(mine, &other[i].name).is_none() {
            r.push(other[i].duplicate());
        }
        assert(trends_view(r@) =~= added_trends(mv, ov.take(i + 1)));
        i = i + 1;
    }
    assert(ov.take(other.len() as int) =~= ov);
    r
}

/// The names of the trends of `mine` that `other` has no trend of the same name of.
fn removed_trend_names(mine: &Vec<Trend>, other: &Vec<Trend>) -> (r: Vec<String>)
    ensures
        strings_view(r@) == removed_trends(trends_view(mine@), trends_view(other@)),
{
    let ghost mv = trends_view(mine@);
    let ghost ov = trends_view(other@);
    let mut r: Vec<String> = Vec::new();
    let mut i: usize = 0;
    while i < mine.len()
        invariant
            i <= mine.len(),
            mv == trends_view(mine@),
            ov == trends_view(other@),
            strings_view(r@) == removed_trends(mv.take(i as int), ov),
        decreases mine.len() - i,
    {
        assert(mv.take(i + 1).drop_last() =~= mv.take(i as int));
        assert(mv.take(i + 1).last() == mv[i as int]);
        if trend_index(other, &mine[i].name).is_none() {
            r.push(mine[i].name.clone());
        }
        assert(strings_view(r@) =~= removed_trends(mv.take(i + 1), ov));
        i = i + 1;
    }
    assert(mv.take(mine.len() as int) =~= mv);
    r
}

/// The type changes from the trends `mine` to `other`.
fn type_modification_list(mine: &Vec<Trend>, other: &Vec<Trend>) -> (r: Vec<ModifyTrendDataType>)
    ensures
        modifications_view(r@) == type_modifications(trends_view(mine@), trends_view(other@)),
{
    let ghost mv = trends_view(mine@);
    let ghost ov = trends_view(other@);
    let mut r: Vec<ModifyTrendDataType> = Vec::new();
    let mut i: usize = 0;
    while i < other.len()
        invariant
            i <= other.len(),
            mv == trends_view(mine@),
            ov == trends_view(other@),
            modifications_view(r@) == type_modifications(mv, ov.take(i as int)),
        decreases other.len() - i,
    {
        assert(ov.take(i + 1).drop_last() =~= ov.take(i as int));
        assert(ov.take(i + 1).last() == ov[i as int]);
        match trend_index(mine, &other[i].name) {
            Some(j) => {
                if mine[j].data_type != other[i].data_type {
                    r.push(
                        ModifyTrendDataType {
                            trend_name: other[i].name.clone(),
                            from_type: mine[j].data_type.clone(),
                            to_type: other[i].data_type.clone(),
                        },
                    );
                }
            },
            None => {},
        }
        assert(modifications_view(r@) =~= type_modifications(mv, ov.take(i + 1)));
        i = i + 1;
    }
    assert(ov.take(other.len() as int) =~= ov);
    r
}

/// The changes of extra data from the trends `mine` to `other` of part `part`.
fn extra_data_change_list(part: &String, mine: &Vec<Trend>, other: &Vec<Trend>) -> (r: Vec<Change>)
    ensures
        changes_view(r@) == extra_data_changes(part@, trends_view(mine@), trends_view(other@)),
{
    let ghost mv = trends_view(mine@);
    let ghost ov = trends_view(other@);
    let mut r: Vec<Change> = Vec::new();
    let mut i: usize = 0;
    while i < other.len()
        invariant
            i <= other.len(),
            mv == trends_view(mine@),
            ov == trends_view(other@),
            changes_view(r@) == extra_data_changes(part@, mv, ov.take(i as int)),
        decreases other.len() - i,
    {
        assert(ov.take(i + 1).drop_last() =~= ov.take(i as int));
        assert(ov.take(i + 1).last() == ov[i as int]);
        match trend_index(mine, &other[i].name) {
            Some(j) => {
                if mine[j].extra_data != other[i].extra_data {
                    push_change(
                        &mut r,
                        Change::ModifyTrendExtraData(
                            ModifyTrendExtraData {
                                trend_name: other[i].name.clone(),
                                trend_store_part_name: part.clone(),
                                from_extra_data: mine[j].extra_data.clone(),
                                to_extra_data: other[i].extra_data.clone(),
                            },
                        ),
                    );
                }
            },
            None => {},
        }
        assert(changes_view(r@) =~= extra_data_changes(part@, mv, ov.take(i + 1)));
        i = i + 1;
    }
    assert(ov.take(other.len() as int) =~= ov);
    r
}

impl TrendStorePart {
    /// The changes that turn this part's trends into those of `other` (see
    /// `part_changes`); the part keeps the name of `other`.
    pub fn diff(&self, other: &TrendStorePart, options: TrendStoreDiffOptions) -> (r: Vec<Change>)
        ensures
            changes_view(r@) == part_changes(
                other.name@,
                trends_view(self.trends@),
                trends_view(other.trends@),
                options,
            ),
    {
        let mut r: Vec<Change> = Vec::new();
        let added = added_trend_list(&self.trends, &other.trends);
        if added.len() > 0 {
            push_change(
                &mut r,
                Change::AddTrends(AddTrends { trend_store_part_name: other.name.clone(), trends: added }),
            );
        }
        if !options.ignore_deletions {
            let removed = removed_trend_names(&self.trends, &other.trends);
            if removed.len() > 0 {
                push_change(
                    &mut r,
                    Change::RemoveTrends(
                        RemoveTrends { trend_store_part_name: other.name.clone(), trends: removed },
                    ),
                );
            }
        }
        if !options.ignore_trend_data_type {
            let mods = type_modification_list(&self.trends, &other.trends);
            if mods.len() > 0 {
                push_change(
                    &mut r,
                    Change::ModifyTrendDataTypes(
                        ModifyTrendDataTypes {
                            trend_store_part_name: other.name.clone(),
                            modifications: mods,
                            total_trend_count: other.trends.len(),
                        },
                    ),
                );
            }
        }
        if !options.ignore_trend_extra_data {
            let more = extra_data_change_list(&other.name, &self.trends, &other.trends);
            append_changes(&mut r, more);
        }
        assert(changes_view(r@) =~= part_changes(
            other.name@,
            trends_view(self.trends@),
            trends_view(other.trends@),
            options,
        ));
        r
    }
}

impl TrendStore {
    /// The changes that turn this trend store into `other` (see `trend_store_diff`).
    pub fn diff(&self, other: &TrendStore, options: TrendStoreDiffOptions) -> (r: Vec<Change>)
        ensures
            changes_view(r@) == trend_store_diff(*self, *other, options),
    {
        let ghost store = (self.data_source@, self.entity_type@, self.granularity);
        let ghost mv = parts_view(self.parts@);
        let ghost ov = parts_view(other.parts@);
        let mut r: Vec<Change> = Vec::new();
        let mut i: usize = 0;
        while i < other.parts.len()
            invariant
                i <= other.parts.len(),
                store == (self.data_source@, self.entity_type@, self.granularity),
                mv == parts_view(self.parts@),
                ov == parts_view(other.parts@),
                changes_view(r@) == parts_changes(store, mv, ov.take(i as int), options),
            decreases other.parts.len() - i,
        {
            assert(ov.take(i + 1).drop_last() =~= ov.take(i as int));
            assert(ov.take(i + 1).last() == ov[i as int]);
            match part_index(&self.parts, &other.parts[i].name) {
                Some(j) => {
                    let more = self.parts[j].diff(&other.parts[i], options);
                    append_changes(&mut r, more);
                },
                None => {
                    push_change(
                        &mut r,
                        Change::AddTrendStorePart(
                            AddTrendStorePart {
                                trend_store: TrendStoreRef {
                                    data_source: self.data_source.clone(),
                                    entity_type: self.entity_type.clone(),
                                    granularity: self.granularity,
                                },
                                trend_store_part: other.parts[i].duplicate(),
                            },
                        ),
                    );
                },
            }
            assert(changes_view(r@) =~= parts_changes(store, mv, ov.take(i + 1), options));
            i = i + 1;
        }
        assert(ov.take(other.parts.len() as int) =~= ov);
        if !options.ignore_deletions {
            let ghost first = changes_view(r@);
            let mut k: usize = 0;
            assert(first + removed_parts(mv.take(0), ov) =~= first);
            while k < self.parts.len()
                invariant
                    k <= self.parts.len(),
                    mv == parts_view(self.parts@),
                    ov == parts_view(other.parts@),
                    changes_view(r@) == first + removed_parts(mv.take(k as int), ov),
                decreases self.parts.len() - k,
            {
                assert(mv.take(k + 1).drop_last() =~= mv.take(k as int));
                assert(mv.take(k + 1).last() == mv[k as int]);
                if part_index(&other.parts, &self.parts[k].name).is_none() {
                    push_change(
                        &mut r,
                        Change::RemoveTrendStorePart(
                            RemoveTrendStorePart { name: self.parts[k].name.clone() },
                        ),
                    );
                }
                assert(changes_view(r@) =~= first + removed_parts(mv.take(k + 1), ov));
                k = k + 1;
            }
            assert(mv.take(self.parts.len() as int) =~= mv);
        }
        assert(changes_view(r@) =~= trend_store_diff(*self, *other, options));
        r
    }
}

/// Whether no two trends of a list share a name.
pub open spec fn distinct_trend_names(ts: Seq<TrendView>) -> bool {
    forall|i: int, j: int| 0 <= i < j < ts.len() ==> (#[trigger] ts[i]).name != (#[trigger] ts[j]).name
}

/// Whether no two parts of a trend store share a name and no part has two trends of one
/// name.
pub open spec fn trend_store_names_distinct(t: TrendStore) -> bool {
    let pv = parts_view(t.parts@);
    &&& forall|i: int, j: int| 0 <= i < j < pv.len() ==> (#[trigger] pv[i]).name != (#[trigger] pv[j]).name
    &&& forall|i: int| 0 <= i < pv.len() ==> distinct_trend_names(#[trigger] pv[i].trends)
}

/// In a list without two trends of one name, the first trend called as `ts[k]` is
/// `ts[k]`.
proof fn lemma_find_own_trend(ts: Seq<TrendView>, k: int)
    requires
        distinct_trend_names(ts),
        0 <= k < ts.len(),
    ensures
        find_first(ts, trend_named(ts[k].name)) == Some(ts[k]),
{
    assert forall|j: int| 0 <= j < k implies !trend_named(ts[k].name)(#[trigger] ts[j]) by {
        assert(ts[j].name != ts[k].name);
    }
    lemma_find_first_at(ts, trend_named(ts[k].name), k);
}

/// Any trend has a first namesake in a list that holds it.
proof fn lemma_find_some_trend(ts: Seq<TrendView>, k: int)
    requires
        0 <= k < ts.len(),
    ensures
        find_first(ts, trend_named(ts[k].name)) is Some,
{
    if find_first(ts, trend_named(ts[k].name)) is None {
        lemma_find_first_none_all(ts, trend_named(ts[k].name));
        assert(!trend_named(ts[k].name)(ts[k]));
    }
}

/// The trends of a part compared with themselves give no change.
proof fn lemma_part_changes_self(part: Seq<char>, ts: Seq<TrendView>, options: TrendStoreDiffOptions)
    requires
        distinct_trend_names(ts),
    ensures
        part_changes(part, ts, ts, options) == Seq::<ChangeView>::empty(),
{
    lemma_trend_lists_self(ts, ts.len() as int);
    assert(ts.take(ts.len() as int) =~= ts);
    assert(part_changes(part, ts, ts, options) =~= Seq::<ChangeView>::empty());
}

/// Every prefix of a list of trends compared with the whole list gives no addition, no
/// removal, no type change and no change of extra data.
proof fn lemma_trend_lists_self(ts: Seq<TrendView>, n: int)
    requires
        distinct_trend_names(ts),
        0 <= n <= ts.len(),
    ensures
        added_trends(ts, ts.take(n)) == Seq::<TrendView>::empty(),
        removed_trends(ts.take(n), ts) == Seq::<Seq<char>>::empty(),
        type_modifications(ts, ts.take(n)) == Seq::<(Seq<char>, Seq<char>, Seq<char>)>::empty(),
        forall|part: Seq<char>| extra_data_changes(part, ts, ts.take(n)) == Seq::<ChangeView>::empty(),
    decreases n,
{
    if n > 0 {
        lemma_trend_lists_self(ts, n - 1);
        assert(ts.take(n).drop_last() =~= ts.take(n - 1));
        assert(ts.take(n).last() == ts[n - 1]);
        lemma_find_own_trend(ts, n - 1);
        lemma_find_some_trend(ts, n - 1);
        assert(added_trends(ts, ts.take(n)) =~= Seq::<TrendView>::empty());
        assert(removed_trends(ts.take(n), ts) =~= Seq::<Seq<char>>::empty());
        assert(type_modifications(ts, ts.take(n)) =~= Seq::<(Seq<char>, Seq<char>, Seq<char>)>::empty());
        assert forall|part: Seq<char>| extra_data_changes(part, ts, ts.take(n)) == Seq::<ChangeView>::empty() by {
            assert(extra_data_changes(part, ts, ts.take(n - 1)) == Seq::<ChangeView>::empty());
            assert(extra_data_changes(part, ts, ts.take(n)) =~= Seq::<ChangeView>::empty());
        }
    } else {
        assert(ts.take(0) =~= Seq::<TrendView>::empty());
    }
}

/// Every prefix of the parts of a trend store compared with all of them gives no change.
proof fn lemma_parts_self(
    store: (Seq<char>, Seq<char>, Duration),
    pv: Seq<TrendStorePartView>,
    n: int,
    options: TrendStoreDiffOptions,
)
    requires
        forall|i: int, j: int| 0 <= i < j < pv.len() ==> (#[trigger] pv[i]).name != (#[trigger] pv[j]).name,
        forall|i: int| 0 <= i < pv.len() ==> distinct_trend_names(#[trigger] pv[i].trends),
        0 <= n <= pv.len(),
    ensures
        parts_changes(store, pv, pv.take(n), options) == Seq::<ChangeView>::empty(),
        removed_parts(pv.take(n), pv) == Seq::<ChangeView>::empty(),
    decreases n,
{
    if n > 0 {
        lemma_parts_self(store, pv, n - 1, options);
        assert(pv.take(n).drop_last() =~= pv.take(n - 1));
        assert(pv.take(n).last() == pv[n - 1]);
        let k = n - 1;
        assert forall|j: int| 0 <= j < k implies !part_named(pv[k].name)(#[trigger] pv[j]) by {
            assert(pv[j].name != pv[k].name);
        }
        lemma_find_first_at(pv, part_named(pv[k].name), k);
        lemma_part_changes_self(pv[k].name, pv[k].trends, options);
        assert(parts_changes(store, pv, pv.take(n), options) =~= Seq::<ChangeView>::empty());
        assert(removed_parts(pv.take(n), pv) =~= Seq::<ChangeView>::empty());
    } else {
        assert(pv.take(0) =~= Seq::<TrendStorePartView>::empty());
    }
}

/// A trend store compared with itself gives no change, when no two of its parts share a
/// name and no part has two trends of one name.
pub proof fn lemma_trend_store_diff_self(t: TrendStore, options: TrendStoreDiffOptions)
    requires
        trend_store_names_distinct(t),
    ensures
        trend_store_diff(t, t, options) == Seq::<ChangeView>::empty(),
{
    let pv = parts_view(t.parts@);
    lemma_parts_self((t.data_source@, t.entity_type@, t.granularity), pv, pv.len() as int, options);
    assert(pv.take(pv.len() as int) =~= pv);
    assert(trend_store_diff(t, t, options) =~= Seq::<ChangeView>::empty());
}

} // verus!
