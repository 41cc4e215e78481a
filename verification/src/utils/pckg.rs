use vstd::prelude::*;

verus! {

/// The fully qualified name of `name` inside `package`.
pub open spec fn qualified(package: Seq<char>, name: Seq<char>) -> Seq<char> {
    package + "::"@ + name
}

/// Joins a package and a name with `::`.
pub fn concat(package: &str, name: &str) -> (fqn: String)
    ensures
        fqn@ == qualified(package@, name@),
{
    let mut fqn = String::from_str(package);
    fqn.append("::");
    fqn.append(name);
    fqn
}

} // verus!
