use vstd::prelude::*;

verus! {

/// The native operations of the language.
#[derive(Clone, Copy, Debug, PartialEq, Eq, Structural)]
pub enum Builtin {
    Round,
    Ceil,
    Floor,
    /// `len(x)`
    Len,
    /// `get(set, i)`
    Get,
    /// `set(set, i, v)`
    Put,
    Sum,
    Product,
    /// `map(sets..., f)`
    MapOver,
}

/// The registry of native operations, by name. A lookup finds the first entry
/// with the name.
#[derive(Debug)]
pub struct StandardLibrary {
    pub map: Vec<(String, Builtin)>,
}

/// The number of operations that `init_std` registers.
pub const STANDARD_COUNT: usize = 9;

/// The operation registered at position `i` by `init_std`.
pub open spec fn standard_builtin(i: int) -> Builtin {
    if i == 0 {
        Builtin::Round
    } else if i == 1 {
        Builtin::Ceil
    } else if i == 2 {
        Builtin::Floor
    } else if i == 3 {
        Builtin::Len
    } else if i == 4 {
        Builtin::Get
    } else if i == 5 {
        Builtin::Put
    } else if i == 6 {
        Builtin::Sum
    } else if i == 7 {
        Builtin::Product
    } else {
        Builtin::MapOver
    }
}

/// The name under which `init_std` registers `b`.
pub open spec fn builtin_name(b: Builtin) -> Seq<char> {
    match b {
        Builtin::Round => seq!['r', 'o', 'u', 'n', 'd'],
        Builtin::Ceil => seq!['c', 'e', 'i', 'l'],
        Builtin::Floor => seq!['f', 'l', 'o', 'o', 'r'],
        Builtin::Len => seq!['l', 'e', 'n'],
        Builtin::Get => seq!['g', 'e', 't'],
        Builtin::Put => seq!['s', 'e', 't'],
        Builtin::Sum => seq!['s', 'u', 'm'],
        Builtin::Product => seq!['p', 'r', 'o', 'd', 'u', 'c', 't'],
        Builtin::MapOver => seq!['m', 'a', 'p'],
    }
}

impl StandardLibrary {
    /// An empty registry.
    pub fn new() -> (r: StandardLibrary)
        ensures
            r.map@.len() == 0,
    {
        StandardLibrary { map: Vec::new() }
    }

    /// A registry holding the given entries.
    pub fn from_map(map: Vec<(String, Builtin)>) -> (r: StandardLibrary)
        ensures
            r.map == map,
    {
        StandardLibrary { map }
    }

    /// Appends the standard operations under their names.
    pub fn init_std(&mut self)
        ensures
            final(self).map@.len() == old(self).map@.len() + STANDARD_COUNT,
            forall|i: int|
                0 <= i < old(self).map@.len() ==> final(self).map@[i] == old(self).map@[i],
            forall|i: int|
                0 <= i < STANDARD_COUNT ==> {
                    let entry = #[trigger] final(self).map@[old(self).map@.len() + i];
                    &&& entry.1 == standard_builtin(i)
                    &&& entry.0@ == builtin_name(standard_builtin(i))
                },
    {
        let ghost n: int = self.map@.len() as int;
        proof {
            reveal_strlit("round");
            reveal_strlit("ceil");
            reveal_strlit("floor");
            reveal_strlit("len");
            reveal_strlit("get");
            reveal_strlit("set");
            reveal_strlit("sum");
            reveal_strlit("product");
            reveal_strlit("map");
        }
        self.map.push(("round".to_string(), Builtin::Round));
        self.map.push(("ceil".to_string(), Builtin::Ceil));
        self.map.push(("floor".to_string(), Builtin::Floor));
        self.map.push(("len".to_string(), Builtin::Len));
        self.map.push(("get".to_string(), Builtin::Get));
        self.map.push(("set".to_string(), Builtin::Put));
        self.map.push(("sum".to_string(), Builtin::Sum));
        self.map.push(("product".to_string(), Builtin::Product));
        self.map.push(("map".to_string(), Builtin::MapOver));
        assert(self.map@[n + 8].0@ == builtin_name(Builtin::MapOver));
    }
}

} // verus!
