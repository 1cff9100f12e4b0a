//! The one-line description of a test that a listing prints.

use vstd::prelude::*;
use vstd::string::StringExecFns;

use crate::model::{string_views, TestDefinition, TestView};

verus! {

/// Names separated by a comma and a space.
pub open spec fn joined(names: Seq<Seq<char>>) -> Seq<char>
    decreases names.len(),
{
    if names.len() == 0 {
        seq![]
    } else if names.len() == 1 {
        names[0]
    } else {
        joined(names.drop_last()) + ", "@ + names.last()
    }
}

/// `path::Class::name` (or `path::name` outside a class), followed by the
/// fixtures the test uses.
pub open spec fn description(t: TestView) -> Seq<char> {
    let head = match t.class_name {
        Some(c) => t.path + "::"@ + c + "::"@ + t.name,
        None => t.path + "::"@ + t.name,
    };
    if t.fixture_names.len() == 0 {
        head + " (uses no fixtures)"@
    } else {
        head + " (uses "@ + joined(t.fixture_names) + ")"@
    }
}

impl TestDefinition {
    /// Describes the test on one line, as a listing of collected items shows it.
    pub fn describe(&self) -> (r: String)
        ensures
            r@ == description(self@),
    {
        let mut s = self.path.clone();
        s.append("::");
        match &self.class_name {
            Some(c) => {
                s.append(c.as_str());
                s.append("::");
            },
            None => {},
        }
        s.append(self.name.as_str());
        let ghost head = s@;
        assert(head =~= match self@.class_name {
            Some(c) => self@.path + "::"@ + c + "::"@ + self@.name,
            None => self@.path + "::"@ + self@.name,
        });
        let names = &self.fixture_names;
        if names.len() == 0 {
            s.append(" (uses no fixtures)");
        } else {
            s.append(" (uses ");
            let ghost start = s@;
            let mut i: usize = 0;
            while i < names.len()
                invariant
                    i <= names@.len(),
                    s@ == start + joined(string_views(names@).take(i as int)),
                decreases names@.len() - i,
            {
                let ghost v = string_views(names@);
                assert(v.take(i + 1).drop_last() =~= v.take(i as int));
                if i > 0 {
                    s.append(", ");
                }
                s.append(names[i].as_str());
                if i == 0 {
                    assert(v.take(1) =~= seq![v[0]]);
                    assert(s@ =~= start + joined(v.take(i + 1)));
                } else {
                    assert(s@ =~= start + joined(v.take(i + 1)));
                }
                i += 1;
            }
            assert(string_views(names@).take(names@.len() as int) =~= string_views(names@));
            s.append(")");
        }
        s
    }
}

} // verus!
