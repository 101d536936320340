//! Receive tables: the nested lists of named network properties, each at an
//! offset from the start of its object.
use vstd::prelude::*;

use crate::utils::text::str_eq;

verus! {

/// A property of a receive table: its name, its offset, and, for a property
/// that is itself a structure, the table of its members.
#[derive(Debug)]
pub struct RecvProp {
    pub name: String,
    pub offset: i32,
    pub table: Option<Box<RecvTable>>,
}

/// A named list of properties.
#[derive(Debug)]
pub struct RecvTable {
    pub name: String,
    pub props: Vec<RecvProp>,
}

/// The offset of the property `name` found by searching the properties of `t`
/// from index `i` on, in order and depth first: a property of that name gives
/// its own offset; a nested table that holds the name gives the inner offset
/// plus the offset of the property that holds the table (wrapping).
pub open spec fn spec_props_offset(t: RecvTable, i: int, name: Seq<char>) -> Option<i32>
    decreases t, t.props@.len() - i,
{
    if i < 0 || i >= t.props@.len() {
        None
    } else {
        let p = t.props@[i];
        if p.name@ == name {
            Some(p.offset)
        } else {
            match p.table {
                Some(sub) => {
                    proof {
                        assert(decreases_to!(t => *sub)) by {
                            assert(decreases_to!(t => t.props));
                            assert(decreases_to!(t.props => t.props@));
                            assert(decreases_to!(t.props@ => t.props@[i]));
                            assert(decreases_to!(p => p.table));
                        }
                    }
                    match spec_props_offset(*sub, 0, name) {
                        Some(o) => Some(vstd::wrapping::i32_specs::wrapping_add(o, p.offset)),
                        None => spec_props_offset(t, i + 1, name),
                    }
                },
                None => spec_props_offset(t, i + 1, name),
            }
        }
    }
}

/// The offset of the property `name` within table `t`, if it holds one.
pub open spec fn spec_table_offset(t: RecvTable, name: Seq<char>) -> Option<i32> {
    spec_props_offset(t, 0, name)
}

/// No property of `t` before index `i` is named `name` or holds it through
/// its nested tables.
pub open spec fn none_before_holds(t: RecvTable, i: int, name: Seq<char>) -> bool {
    forall|j: int|
        0 <= j < i ==> #[trigger] t.props@[j].name@ != name && (t.props@[j].table matches Some(
            sub,
        ) ==> spec_table_offset(*sub, name) is None)
}

proof fn lemma_named_prop_from(t: RecvTable, j: int, i: int, name: Seq<char>)
    requires
        0 <= j <= i < t.props@.len(),
        t.props@[i].name@ == name,
        none_before_holds(t, i, name),
    ensures
        spec_props_offset(t, j, name) == Some(t.props@[i].offset),
    decreases i - j,
{
    if j < i {
        lemma_named_prop_from(t, j + 1, i, name);
        assert(t.props@[j].name@ != name);
    }
}

/// A property is found by its own name: when property `i` of `t` is named
/// `name` and no earlier property is named so or holds it through nested
/// tables, looking `name` up gives property `i`'s own offset, whether or not
/// that property holds a table itself.
pub proof fn lemma_named_prop_gives_own_offset(t: RecvTable, i: int, name: Seq<char>)
    requires
        0 <= i < t.props@.len(),
        t.props@[i].name@ == name,
        none_before_holds(t, i, name),
    ensures
        spec_table_offset(t, name) == Some(t.props@[i].offset),
{
    lemma_named_prop_from(t, 0, i, name);
}

impl RecvTable {
    /// The offset of the property `netvar_name`, searching nested tables
    /// depth first and adding the offsets along the way.
    pub fn get_offset(&self, netvar_name: &str) -> (res: Option<i32>)
        ensures
            res == spec_table_offset(*self, netvar_name@),
        decreases *self,
    {
        self.props_offset_from(0, netvar_name)
    }

    fn props_offset_from(&self, start: usize, netvar_name: &str) -> (res: Option<i32>)
        requires
            start <= self.props@.len(),
        ensures
            res == spec_props_offset(*self, start as int, netvar_name@),
        decreases *self, self.props@.len() - start,
    {
        let mut i = start;
        while i < self.props.len()
            invariant
                start <= i <= self.props@.len(),
                spec_props_offset(*self, start as int, netvar_name@) == spec_props_offset(
                    *self,
                    i as int,
                    netvar_name@,
                ),
            decreases self.props@.len() - i,
        {
            let prop = &self.props[i];
            if str_eq(prop.name.as_str(), netvar_name) {
                return Some(prop.offset);
            }
            match &prop.table {
                Some(sub) => {
                    proof {
                        assert(decreases_to!(*self => **sub)) by {
                            assert(decreases_to!(*self => self.props));
                            assert(decreases_to!(self.props => self.props@));
                            assert(decreases_to!(self.props@ => self.props@[i as int]));
                            assert(decreases_to!(self.props@[i as int] => self.props@[i as int].table));
                        }
                    }
                    match sub.get_offset(netvar_name) {
                        Some(o) => {
                            return Some(o.wrapping_add(prop.offset));
                        },
                        None => {},
                    }
                },
                None => {},
            }
            i = i + 1;
        }
        None
    }
}

} // verus!
