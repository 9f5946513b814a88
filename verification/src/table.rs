//! The kinds of catalog tables and the metadata reported for a table.
use vstd::prelude::*;

use datafusion_expr::TableType;

verus! {

/// The kind of a table in DataFusion.
#[verifier::external_type_specification]
#[verifier::external_body]
pub struct ExTableType(TableType);

/// The three kinds of DataFusion's `TableType`, one for one.
#[derive(Clone, Copy, Debug, PartialEq, Eq, Structural)]
pub enum TableKind {
    Base,
    View,
    Temporary,
}

/// Which of its three variants a `TableType` is.
pub uninterp spec fn table_type_kind(t: TableType) -> TableKind;

/// The kind of `t`: tells the variants of `TableType` apart.
#[verifier::external_body]
fn kind_of(t: TableType) -> (k: TableKind)
    ensures
        k == table_type_kind(t),
{
    match t {
        TableType::Base => TableKind::Base,
        TableType::View => TableKind::View,
        TableType::Temporary => TableKind::Temporary,
    }
}

/// The `TableType` variant of kind `k`. The variants of `TableType` carry no
/// data, so it is the one `TableType` of that kind.
#[verifier::external_body]
fn table_type_of(k: TableKind) -> (t: TableType)
    ensures
        table_type_kind(t) == k,
        forall|u: TableType| table_type_kind(u) == k ==> u == t,
{
    match k {
        TableKind::Base => TableType::Base,
        TableKind::View => TableType::View,
        TableKind::Temporary => TableType::Temporary,
    }
}

/// The kind of table as the catalog reports it.
#[allow(non_camel_case_types, clippy::upper_case_acronyms)]
#[derive(Debug, Clone, Copy, PartialEq, Eq, Structural)]
pub enum TableTypeName {
    EXTERNAL,
    MANAGED,
    VIEW,
    TEMPORARY,
}

/// The reported name of a DataFusion table kind: a base table is managed.
pub open spec fn name_of_kind(k: TableKind) -> TableTypeName {
    match k {
        TableKind::Base => TableTypeName::MANAGED,
        TableKind::Temporary => TableTypeName::TEMPORARY,
        TableKind::View => TableTypeName::VIEW,
    }
}

/// The DataFusion table kind of a reported name: external and managed tables
/// are base tables.
pub open spec fn kind_of_name(n: TableTypeName) -> TableKind {
    match n {
        TableTypeName::EXTERNAL => TableKind::Base,
        TableTypeName::MANAGED => TableKind::Base,
        TableTypeName::VIEW => TableKind::View,
        TableTypeName::TEMPORARY => TableKind::Temporary,
    }
}

/// The text of a reported name: the variant's name.
pub open spec fn type_name_text(n: TableTypeName) -> Seq<char> {
    match n {
        TableTypeName::EXTERNAL => "EXTERNAL"@,
        TableTypeName::MANAGED => "MANAGED"@,
        TableTypeName::VIEW => "VIEW"@,
        TableTypeName::TEMPORARY => "TEMPORARY"@,
    }
}

impl From<TableType> for TableTypeName {
    fn from(table_type: TableType) -> (res: Self) {
        match kind_of(table_type) {
            TableKind::Base => TableTypeName::MANAGED,
            TableKind::Temporary => TableTypeName::TEMPORARY,
            TableKind::View => TableTypeName::VIEW,
        }
    }
}

impl vstd::std_specs::convert::FromSpecImpl<TableType> for TableTypeName {
    open spec fn obeys_from_spec() -> bool {
        true
    }

    open spec fn from_spec(table_type: TableType) -> Self {
        name_of_kind(table_type_kind(table_type))
    }
}

impl TableTypeName {
    /// The DataFusion `TableType` of this name: external and managed tables
    /// are `Base`. Every `TableType` whose reported name is this name comes
    /// back from the round trip unchanged.
    pub fn to_table_type(self) -> (t: TableType)
        ensures
            table_type_kind(t) == kind_of_name(self),
            forall|u: TableType| name_of_kind(table_type_kind(u)) == self ==> u == t,
    {
        match self {
            TableTypeName::EXTERNAL => table_type_of(TableKind::Base),
            TableTypeName::MANAGED => table_type_of(TableKind::Base),
            TableTypeName::VIEW => table_type_of(TableKind::View),
            TableTypeName::TEMPORARY => table_type_of(TableKind::Temporary),
        }
    }

    /// The name as text, such as `MANAGED`.
    pub fn to_string(&self) -> (s: String)
        ensures
            s@ == type_name_text(*self),
    {
        match self {
            TableTypeName::EXTERNAL => "EXTERNAL".to_owned(),
            TableTypeName::MANAGED => "MANAGED".to_owned(),
            TableTypeName::VIEW => "VIEW".to_owned(),
            TableTypeName::TEMPORARY => "TEMPORARY".to_owned(),
        }
    }
}

/// Law: a DataFusion table kind survives the trip to its reported name and
/// back.
pub proof fn law_kind_name_round_trip(k: TableKind)
    ensures
        kind_of_name(name_of_kind(k)) == k,
{
}

/// Law: a reported name survives the trip to its DataFusion table kind and
/// back, except `EXTERNAL`, which comes back as `MANAGED`.
pub proof fn law_name_kind_round_trip(n: TableTypeName)
    ensures
        name_of_kind(kind_of_name(n)) == if n == TableTypeName::EXTERNAL {
            TableTypeName::MANAGED
        } else {
            n
        },
{
}

/// The metadata of a table, as the catalog lists it.
#[derive(Debug, Clone)]
pub struct TableMetadata {
    pub name: String,
    pub catalog: Option<String>,
    pub namespace: Option<Vec<String>>,
    pub description: Option<String>,
    pub table_type: String,
    pub is_temporary: bool,
}

/// Whether `m` is the metadata of table `table` of database `database` in
/// catalog `catalog`, of kind `table_type`: temporary tables and views have
/// neither catalog nor namespace, other tables have the catalog and the
/// one-part namespace of the database; there is no description; the type is
/// the reported name of the kind.
pub open spec fn describes(
    m: TableMetadata,
    catalog: Seq<char>,
    database: Seq<char>,
    table: Seq<char>,
    table_type: TableType,
) -> bool {
    let kind = name_of_kind(table_type_kind(table_type));
    let unplaced = kind == TableTypeName::TEMPORARY || kind == TableTypeName::VIEW;
    &&& m.name@ == table
    &&& m.catalog is Some <==> !unplaced
    &&& m.catalog matches Some(c) ==> c@ == catalog
    &&& m.namespace is Some <==> !unplaced
    &&& m.namespace matches Some(ns) ==> ns.deep_view() == seq![database]
    &&& m.description is None
    &&& m.table_type@ == type_name_text(kind)
    &&& m.is_temporary == (kind == TableTypeName::TEMPORARY)
}

impl TableMetadata {
    /// The metadata of table `table_name` of database `database_name` in
    /// catalog `catalog_name`, of kind `table_type`. Temporary tables and views
    /// have neither catalog nor namespace; other tables have the catalog and
    /// the database as their one-part namespace. No description is given.
    pub fn new(catalog_name: &str, database_name: &str, table_name: &str, table_type: TableType) -> (res: Self)
        ensures
            describes(res, catalog_name@, database_name@, table_name@, table_type),
    {
        let table_type = TableTypeName::from(table_type);
        let (catalog, namespace) = if table_type == TableTypeName::TEMPORARY || table_type
            == TableTypeName::VIEW {
            (None, None)
        } else {
            (Some(catalog_name.to_owned()), Some(vec![database_name.to_owned()]))
        };
        let res = Self {
            name: table_name.to_owned(),
            catalog,
            namespace,
            description: None,
            table_type: table_type.to_string(),
            is_temporary: table_type == TableTypeName::TEMPORARY,
        };
        proof {
            if res.namespace is Some {
                assert(res.namespace->0.deep_view() =~= seq![database_name@]);
            }
        }
        res
    }
}

/// The metadata of the tables listed in database `database_name` of catalog
/// `catalog_name`, given the name and kind of each table found there, in
/// order.
pub fn list_table_metadata(
    catalog_name: &str,
    database_name: &str,
    tables: &Vec<(String, TableType)>,
) -> (res: Vec<TableMetadata>)
    ensures
        res.len() == tables.len(),
        forall|i: int|
            0 <= i < tables.len() ==> describes(
                #[trigger] res[i],
                catalog_name@,
                database_name@,
                tables[i].0@,
                tables[i].1,
            ),
{
    let mut res: Vec<TableMetadata> = Vec::new();
    let mut i: usize = 0;
    while i < tables.len()
        invariant
            0 <= i <= tables.len(),
            res.len() == i,
            forall|k: int|
                0 <= k < i ==> describes(
                    #[trigger] res[k],
                    catalog_name@,
                    database_name@,
                    tables[k].0@,
                    tables[k].1,
                ),
        decreases tables.len() - i,
    {
        let (name, table_type) = &tables[i];
        res.push(TableMetadata::new(catalog_name, database_name, name.as_str(), *table_type));
        i = i + 1;
    }
    res
}

/// Whether a table may be dropped: dropping with `PURGE` is refused, with
/// the message `DROP TABLE ... PURGE is not supported`.
pub fn check_drop_table(purge: bool) -> (res: Result<(), String>)
    ensures
        res is Err <==> purge,
        res matches Err(m) ==> m@ == "DROP TABLE ... PURGE is not supported"@,
{
    if purge {
        Err("DROP TABLE ... PURGE is not supported".to_owned())
    } else {
        Ok(())
    }
}

} // verus!
