//! The row that describes a loaded plugin in the start-up table.
use vstd::prelude::*;
use crate::metadata::{ContributorsList, PluginMetadataV0};
use crate::text::{decimal, decimal_string, join_strings, joined};

verus! {

/// One row of the plugin table: load order, identifier, version, name,
/// description and authors.
#[derive(Debug, Clone)]
pub struct PluginRow {
    pub order: String,
    pub id: String,
    pub version: String,
    pub name: String,
    pub description: String,
    pub authors: String,
}

/// The text of an optional field, empty when it is absent.
pub open spec fn text_or_empty(s: Option<String>) -> Seq<char> {
    match s {
        Some(t) => t@,
        None => Seq::empty(),
    }
}

/// The names of the contributors, in the order they are listed.
pub open spec fn contributor_names(c: ContributorsList) -> Seq<Seq<char>> {
    match c {
        ContributorsList::Plain(names) => names@.map_values(|n: String| n@),
        ContributorsList::WithRoles(entries) => entries@.map_values(|e: (String, crate::metadata::StringOrStringVec)| e.0@),
    }
}

/// The authors column: the contributor names joined by ", ".
pub open spec fn authors_text(m: PluginMetadataV0) -> Seq<char> {
    match m.cauldron.metadata {
        Some(meta) => match meta.contributors {
            Some(c) => joined(contributor_names(c), seq![',', ' ']),
            None => Seq::empty(),
        },
        None => Seq::empty(),
    }
}

fn clone_or_empty(s: &Option<String>) -> (r: String)
    ensures
        r@ == text_or_empty(*s),
{
    match s {
        Some(t) => t.clone(),
        None => String::new(),
    }
}

/// The row describing the plugin at position `index` of the load order.
pub fn plugin_row(index: usize, m: &PluginMetadataV0) -> (r: PluginRow)
    ensures
        r.order@ == decimal(index as nat),
        r.id@ == m.cauldron.id@,
        r.version@ == m.cauldron.version@,
        r.name@ == (match m.cauldron.metadata {
            Some(meta) => text_or_empty(meta.name),
            None => Seq::empty(),
        }),
        r.description@ == (match m.cauldron.metadata {
            Some(meta) => text_or_empty(meta.description),
            None => Seq::empty(),
        }),
        r.authors@ == authors_text(*m),
{
    let mut name = String::new();
    let mut description = String::new();
    let mut authors = String::new();
    proof {
        reveal_strlit(", ");
    }
    match &m.cauldron.metadata {
        Some(meta) => {
            name = clone_or_empty(&meta.name);
            description = clone_or_empty(&meta.description);
            match &meta.contributors {
                Some(ContributorsList::Plain(names)) => {
                    authors = join_strings(names, ", ");
                },
                Some(ContributorsList::WithRoles(entries)) => {
                    let mut keys: Vec<String> = Vec::new();
                    let mut i: usize = 0;
                    while i < entries.len()
                        invariant
                            i <= entries.len(),
                            keys.len() == i,
                            forall|q: int| 0 <= q < i ==> (#[trigger] keys@[q])@ == entries@[q].0@,
                        decreases entries.len() - i,
                    {
                        keys.push(entries[i].0.clone());
                        i = i + 1;
                    }
                    authors = join_strings(&keys, ", ");
                    proof {
                        assert(keys@.map_values(|n: String| n@) =~= entries@.map_values(
                            |e: (String, crate::metadata::StringOrStringVec)| e.0@,
                        ));
                    }
                },
                None => {},
            }
            proof {
                assert(", "@ =~= seq![',', ' ']);
            }
        },
        None => {},
    }
    PluginRow {
        order: decimal_string(index),
        id: m.cauldron.id.clone(),
        version: m.cauldron.version.clone(),
        name,
        description,
        authors,
    }
}

/// The text of the table that `tabled` builds from `records`, one row per
/// record and one column per field (`tabled::builder::Builder::from`, then
/// `build`, displayed).
pub uninterp spec fn tabled_text(records: Seq<Seq<Seq<char>>>) -> Seq<char>;

/// The records of a table as character sequences.
pub open spec fn records_view(records: Seq<Vec<String>>) -> Seq<Seq<Seq<char>>> {
    records.map_values(|r: Vec<String>| r@.map_values(|t: String| t@))
}

/// `tabled::builder::Builder::from(records).build()`, displayed: the table
/// text, which `tabled_text` names.
#[verifier::external_body]
fn table_text(records: Vec<Vec<String>>) -> (r: String)
    ensures
        r@ == tabled_text(records_view(records@)),
{
    tabled::builder::Builder::from(records).build().to_string()
}

/// The columns of the plugin table.
pub open spec fn table_header() -> Seq<Seq<char>> {
    seq!["Order"@, "Id"@, "Version"@, "Name"@, "Description"@, "Authors"@]
}

/// The name column of a plugin.
pub open spec fn name_text(m: PluginMetadataV0) -> Seq<char> {
    match m.cauldron.metadata {
        Some(meta) => text_or_empty(meta.name),
        None => Seq::empty(),
    }
}

/// The description column of a plugin.
pub open spec fn description_text(m: PluginMetadataV0) -> Seq<char> {
    match m.cauldron.metadata {
        Some(meta) => text_or_empty(meta.description),
        None => Seq::empty(),
    }
}

/// The cells of the row of the plugin at position `index`.
pub open spec fn row_text(index: int, m: PluginMetadataV0) -> Seq<Seq<char>> {
    seq![decimal(index as nat), m.cauldron.id@, m.cauldron.version@, name_text(m), description_text(m), authors_text(m)]
}

/// The records of the plugin table: the header, then one row per plugin in load order.
pub open spec fn plugin_table_records(plugins: Seq<PluginMetadataV0>) -> Seq<Seq<Seq<char>>> {
    seq![table_header()] + Seq::new(plugins.len(), |i: int| row_text(i, plugins[i]))
}

fn push_owned(v: &mut Vec<String>, t: &str)
    ensures
        final(v)@.len() == old(v)@.len() + 1,
        forall|q: int| 0 <= q < old(v)@.len() ==> final(v)@[q] == old(v)@[q],
        final(v)@[old(v)@.len() as int]@ == t@,
{
    v.push(t.to_owned());
}

/// The table of the loaded plugins that is logged at start-up (see
/// `plugin_table_records`), as `tabled` lays it out.
pub fn plugin_table(plugins: &Vec<PluginMetadataV0>) -> (r: String)
    ensures
        r@ == tabled_text(plugin_table_records(plugins@)),
{
    let mut header: Vec<String> = Vec::new();
    push_owned(&mut header, "Order");
    push_owned(&mut header, "Id");
    push_owned(&mut header, "Version");
    push_owned(&mut header, "Name");
    push_owned(&mut header, "Description");
    push_owned(&mut header, "Authors");
    proof {
        assert(header@.map_values(|t: String| t@) =~= table_header());
    }
    let mut records: Vec<Vec<String>> = Vec::new();
    records.push(header);
    let mut i: usize = 0;
    while i < plugins.len()
        invariant
            i <= plugins.len(),
            records.len() == i + 1,
            records_view(records@) =~= plugin_table_records(plugins@.subrange(0, i as int)),
        decreases plugins.len() - i,
    {
        let row = plugin_row(i, &plugins[i]);
        let mut cells: Vec<String> = Vec::new();
        cells.push(row.order);
        cells.push(row.id);
        cells.push(row.version);
        cells.push(row.name);
        cells.push(row.description);
        cells.push(row.authors);
        proof {
            assert(cells@.map_values(|t: String| t@) =~= row_text(i as int, plugins@[i as int]));
        }
        let ghost before = records@;
        records.push(cells);
        proof {
            assert(records_view(records@) =~= records_view(before).push(row_text(i as int, plugins@[i as int])));
            assert(plugin_table_records(plugins@.subrange(0, i + 1)) =~= plugin_table_records(
                plugins@.subrange(0, i as int),
            ).push(row_text(i as int, plugins@[i as int])));
        }
        i = i + 1;
    }
    proof {
        assert(plugins@.subrange(0, plugins.len() as int) =~= plugins@);
    }
    table_text(records)
}

} // verus!
