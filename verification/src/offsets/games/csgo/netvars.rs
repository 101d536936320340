//! Lookup of network variable offsets by table name and variable name.
use vstd::prelude::*;

use super::table::{spec_table_offset, RecvTable};
use crate::utils::text::str_eq;

verus! {

/// The index of the last table in `tables` named `name`.
pub open spec fn last_table_named(tables: Seq<RecvTable>, name: Seq<char>) -> Option<int>
    decreases tables.len(),
{
    if tables.len() == 0 {
        None
    } else if tables.last().name@ == name {
        Some(tables.len() - 1)
    } else {
        last_table_named(tables.drop_last(), name)
    }
}

/// The offset of variable `netvar` in the table named `table`: where several
/// tables share that name, the last one added counts.
pub open spec fn spec_netvar_offset(tables: Seq<RecvTable>, table: Seq<char>, netvar: Seq<char>) -> Option<i32> {
    match last_table_named(tables, table) {
        Some(i) => spec_table_offset(tables[i], netvar),
        None => None,
    }
}

/// The parent receive tables of a game, by name.
#[derive(Debug)]
pub struct NetvarManager {
    tables: Vec<RecvTable>,
}

impl NetvarManager {
    /// The tables the manager holds, in the order they were added.
    pub closed spec fn tables(&self) -> Seq<RecvTable> {
        self.tables@
    }

    /// A manager over the given parent tables; a later table replaces an
    /// earlier one of the same name.
    pub fn from_tables(tables: Vec<RecvTable>) -> (res: Self)
        ensures
            res.tables() == tables@,
    {
        NetvarManager { tables }
    }

    /// The number of tables added.
    pub fn len(&self) -> (res: usize)
        ensures
            res == self.tables().len(),
    {
        self.tables.len()
    }

    /// The offset of `netvar_name` within the table `table_name`, searching
    /// its nested tables; `None` if there is no such table or variable.
    pub fn get_offset(&self, table_name: &str, netvar_name: &str) -> (res: Option<i32>)
        ensures
            res == spec_netvar_offset(self.tables(), table_name@, netvar_name@),
    {
        let mut i = self.tables.len();
        assert(self.tables@.take(i as int) =~= self.tables@);
        while i > 0
            invariant
                i <= self.tables@.len(),
                last_table_named(self.tables@, table_name@) == last_table_named(
                    self.tables@.take(i as int),
                    table_name@,
                ),
            decreases i,
        {
            let t = &self.tables[i - 1];
            assert(self.tables@.take(i as int).drop_last() =~= self.tables@.take(i - 1));
            if str_eq(t.name.as_str(), table_name) {
                return t.get_offset(netvar_name);
            }
            i = i - 1;
        }
        assert(self.tables@.take(0) =~= Seq::<RecvTable>::empty());
        None
    }
}

/// A table added later answers for its name, and leaves every other name
/// as it was.
pub proof fn lemma_later_table_replaces(tables: Seq<RecvTable>, t: RecvTable, name: Seq<char>, netvar: Seq<char>)
    ensures
        name == t.name@ ==> spec_netvar_offset(tables.push(t), name, netvar) == spec_table_offset(
            t,
            netvar,
        ),
        name != t.name@ ==> spec_netvar_offset(tables.push(t), name, netvar) == spec_netvar_offset(
            tables,
            name,
            netvar,
        ),
{
    assert(tables.push(t).drop_last() =~= tables);
    assert(tables.push(t).last() == t);
    lemma_last_table_named_in_range(tables, name);
}

proof fn lemma_last_table_named_in_range(tables: Seq<RecvTable>, name: Seq<char>)
    ensures
        last_table_named(tables, name) matches Some(i) ==> 0 <= i < tables.len() && tables[i].name@
            == name,
    decreases tables.len(),
{
    if tables.len() > 0 && tables.last().name@ != name {
        lemma_last_table_named_in_range(tables.drop_last(), name);
    }
}

} // verus!
