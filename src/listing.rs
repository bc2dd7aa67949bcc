use vstd::prelude::*;
use vstd::string::StringExecFns;

verus! {

/// Two spaces for each level below the listed directory.
pub open spec fn indent_of(depth: nat) -> Seq<char>
    decreases depth,
{
    if depth == 0 {
        Seq::empty()
    } else {
        indent_of((depth - 1) as nat) + "  "@
    }
}

/// The indentation of an entry `depth` levels down.
pub fn indent(depth: usize) -> (r: String)
    ensures
        r@ == indent_of(depth as nat),
{
    let mut r = String::new();
    let mut i: usize = 0;
    while i < depth
        invariant
            0 <= i <= depth,
            r@ == indent_of(i as nat),
        decreases depth - i,
    {
        r.append("  ");
        i = i + 1;
    }
    r
}

/// One line of a directory listing: the indentation, `|--`, the name.
pub fn format_filename(name: &str, indent: &str) -> (r: String)
    ensures
        r@ == indent@ + "|--"@ + name@ + "\n"@,
{
    let r = String::from_str(indent);
    let r = r.concat("|--");
    let r = r.concat(name);
    r.concat("\n")
}

/// Whether a walk limited to `expect_deep` levels (0: no limit) goes on at
/// level `deep`.
pub fn within_depth(deep: u8, expect_deep: u8) -> (r: bool)
    ensures
        r == (expect_deep == 0 || deep <= expect_deep),
{
    expect_deep == 0 || deep <= expect_deep
}

} // verus!
