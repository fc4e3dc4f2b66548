//! Names of the entries in backup archives.
use vstd::prelude::*;


verus! {

/// `s` with every backslash turned into a forward slash.
pub open spec fn forward_slashes(s: Seq<char>) -> Seq<char> {
    s.map_values(|c: char| if c == '\\' { '/' } else { c })
}

/// The name of the archive entry for a path relative to the archived
/// directory: separators written as forward slashes, and a trailing slash
/// for a directory.
pub open spec fn zip_entry_name_spec(rel: Seq<char>, is_dir: bool) -> Seq<char> {
    if is_dir {
        forward_slashes(rel) + "/"@
    } else {
        forward_slashes(rel)
    }
}

/// The archive entry name for the relative path `rel`.
pub fn zip_entry_name(rel: &str, is_dir: bool) -> (r: String)
    ensures
        r@ == zip_entry_name_spec(rel@, is_dir),
{
    let n = rel.unicode_len();
    let mut out = String::new();
    let mut start: usize = 0;
    let mut i: usize = 0;
    proof {
        reveal_strlit("/");
    }
    while i < n
        invariant
            n == rel@.len(),
            start <= i <= n,
            out@ == forward_slashes(rel@.subrange(0, start as int)),
            forall|k: int| start <= k < i ==> rel@[k] != '\\',
            "/"@ == seq!['/'],
        decreases n - i,
    {
        if rel.get_char(i) == '\\' {
            let seg = rel.substring_char(start, i);
            out.append(seg);
            out.append("/");
            assert(forward_slashes(rel@.subrange(0, i + 1)) =~= forward_slashes(
                rel@.subrange(0, start as int),
            ) + seg@ + "/"@);
            start = i + 1;
        }
        i = i + 1;
    }
    let seg = rel.substring_char(start, n);
    out.append(seg);
    assert(out@ =~= forward_slashes(rel@.subrange(0, n as int)));
    assert(rel@.subrange(0, n as int) =~= rel@);
    if is_dir {
        out.append("/");
    }
    out
}

} // verus!
