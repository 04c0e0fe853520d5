//! The host method names under which a registered class's operations are
//! dispatched, computed from the class name alone.
use vstd::prelude::*;
use vstd::string::StringExecFns;

verus! {

/// The method names for class `c`, in the order show, length, subset,
/// extend: `format.c`, `length.c`, `` `[.c` `` and `c.c`.
pub open spec fn method_names_spec(c: Seq<char>) -> Seq<Seq<char>> {
    seq![
        seq!['f', 'o', 'r', 'm', 'a', 't', '.'] + c,
        seq!['l', 'e', 'n', 'g', 't', 'h', '.'] + c,
        seq!['`', '[', '.'] + c + seq!['`'],
        seq!['c', '.'] + c,
    ]
}

/// `prefix` followed by `class` and then `suffix`.
fn joined(prefix: &str, class: &str, suffix: &str) -> (r: String)
    ensures
        r@ == prefix@ + class@ + suffix@,
{
    let mut r = String::from_str(prefix);
    r.append(class);
    r.append(suffix);
    r
}

/// The host method names of class `class`: show, length, subset, extend.
pub fn method_names(class: &str) -> (r: Vec<String>)
    ensures
        r@.map_values(|s: String| s@) == method_names_spec(class@),
{
    proof {
        reveal_strlit("format.");
        reveal_strlit("length.");
        reveal_strlit("`[.");
        reveal_strlit("`");
        reveal_strlit("c.");
        reveal_strlit("");
        assert("format."@ =~= seq!['f', 'o', 'r', 'm', 'a', 't', '.']);
        assert("length."@ =~= seq!['l', 'e', 'n', 'g', 't', 'h', '.']);
        assert("`[."@ =~= seq!['`', '[', '.']);
        assert("`"@ =~= seq!['`']);
        assert("c."@ =~= seq!['c', '.']);
        assert(""@ =~= Seq::<char>::empty());
    }
    let r = vec![
        joined("format.", class, ""),
        joined("length.", class, ""),
        joined("`[.", class, "`"),
        joined("c.", class, ""),
    ];
    assert(r@[0]@ =~= method_names_spec(class@)[0]);
    assert(r@[1]@ =~= method_names_spec(class@)[1]);
    assert(r@[3]@ =~= method_names_spec(class@)[3]);
    assert(r@.map_values(|s: String| s@) =~= method_names_spec(class@));
    r
}

} // verus!
