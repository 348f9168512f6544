//! Table definitions: the record layout of a topic and the plan of a view.
use vstd::prelude::*;

verus! {

/// The element type of a column.
#[derive(PartialEq, Eq, Structural, Clone, Copy, Debug)]
pub enum TensorType {
    Bool,
    Int8,
    Int16,
    Int32,
    Int64,
    UInt8,
    UInt16,
    UInt32,
    UInt64,
    Float32,
    Float64,
    Timestamp,
    Duration,
    String,
}

/// The two kinds of table.
#[derive(PartialEq, Eq, Structural, Clone, Copy, Debug)]
pub enum TableKind {
    Topic,
    View,
}

/// One column of a topic's record layout.
#[derive(Debug)]
pub struct ColumnInfo {
    pub name: String,
    pub data_type: TensorType,
    /// The shape of one row of the column (empty for a scalar column).
    pub row_shape: Vec<usize>,
    pub nullable: bool,
}

pub type ColumnModel = (Seq<char>, TensorType, Seq<usize>, bool);

impl View for ColumnInfo {
    type V = ColumnModel;

    open spec fn view(&self) -> ColumnModel {
        (self.name@, self.data_type, self.row_shape@, self.nullable)
    }
}

/// The definition of a topic: its columns in order.
#[derive(Debug)]
pub struct TopicInfo {
    pub columns: Vec<ColumnInfo>,
}

/// The definition of a view: the query that computes it.
#[derive(Debug)]
pub struct ViewInfo {
    pub plan: String,
    pub materialized: bool,
}

/// The definition of a table of either kind.
#[derive(Debug)]
pub enum TableInfo {
    Topic(TopicInfo),
    View(ViewInfo),
}

/// The mathematical value of a table definition.
pub enum InfoModel {
    Topic(Seq<ColumnModel>),
    View(Seq<char>, bool),
}

impl InfoModel {
    pub open spec fn kind(self) -> TableKind {
        match self {
            InfoModel::Topic(_) => TableKind::Topic,
            InfoModel::View(_, _) => TableKind::View,
        }
    }
}

impl View for TopicInfo {
    type V = Seq<ColumnModel>;

    open spec fn view(&self) -> Seq<ColumnModel> {
        self.columns@.map_values(|c: ColumnInfo| c@)
    }
}

impl View for ViewInfo {
    type V = (Seq<char>, bool);

    open spec fn view(&self) -> (Seq<char>, bool) {
        (self.plan@, self.materialized)
    }
}

impl View for TableInfo {
    type V = InfoModel;

    open spec fn view(&self) -> InfoModel {
        match self {
            TableInfo::Topic(t) => InfoModel::Topic(t@),
            TableInfo::View(v) => InfoModel::View(v.plan@, v.materialized),
        }
    }
}

impl ColumnInfo {
    pub fn new(name: &str, data_type: TensorType, row_shape: &[usize], nullable: bool) -> (r: ColumnInfo)
        ensures
            r@ == (name@, data_type, row_shape@, nullable),
    {
        ColumnInfo {
            name: name.to_owned(),
            data_type,
            row_shape: vstd::slice::slice_to_vec(row_shape),
            nullable,
        }
    }

    pub fn duplicate(&self) -> (r: ColumnInfo)
        ensures
            r@ == self@,
    {
        ColumnInfo {
            name: self.name.clone(),
            data_type: self.data_type,
            row_shape: vstd::slice::slice_to_vec(self.row_shape.as_slice()),
            nullable: self.nullable,
        }
    }
}

impl TopicInfo {
    pub fn new(columns: Vec<ColumnInfo>) -> (r: TopicInfo)
        ensures
            r.columns@ == columns@,
    {
        TopicInfo { columns }
    }

    pub fn duplicate(&self) -> (r: TopicInfo)
        ensures
            r@ == self@,
    {
        let mut columns: Vec<ColumnInfo> = Vec::new();
        let mut i: usize = 0;
        while i < self.columns.len()
            invariant
                i <= self.columns.len(),
                columns@.len() == i,
                forall|j: int| 0 <= j < i ==> columns@[j]@ == #[trigger] self.columns@[j]@,
            decreases self.columns.len() - i,
        {
            columns.push(self.columns[i].duplicate());
            i += 1;
        }
        let r = TopicInfo { columns };
        assert(r@ =~= self@);
        r
    }
}

impl ViewInfo {
    pub fn new(plan: &str, materialized: bool) -> (r: ViewInfo)
        ensures
            r@ == (plan@, materialized),
    {
        ViewInfo { plan: plan.to_owned(), materialized }
    }

    pub fn duplicate(&self) -> (r: ViewInfo)
        ensures
            r@ == self@,
    {
        ViewInfo { plan: self.plan.clone(), materialized: self.materialized }
    }
}

impl TableInfo {
    pub fn kind(&self) -> (r: TableKind)
        ensures
            r == self@.kind(),
    {
        match self {
            TableInfo::Topic(_) => TableKind::Topic,
            TableInfo::View(_) => TableKind::View,
        }
    }

    pub fn duplicate(&self) -> (r: TableInfo)
        ensures
            r@ == self@,
    {
        match self {
            TableInfo::Topic(t) => TableInfo::Topic(t.duplicate()),
            TableInfo::View(v) => TableInfo::View(v.duplicate()),
        }
    }
}

} // verus!
