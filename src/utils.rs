//! Path and listing helpers.

use vstd::prelude::*;
use crate::text::{chars_of, decimal, push_decimal, same_text, string_of};

verus! {

/// The position of the last `/` in `s`, or -1 where there is none.
pub open spec fn last_slash(s: Seq<char>) -> int
    decreases s.len(),
{
    if s.len() == 0 {
        -1
    } else if s.last() == '/' {
        s.len() - 1
    } else {
        last_slash(s.drop_last())
    }
}

/// The final component of a `/`-separated path, as `Path::file_name` gives it:
/// empty and `.` components are passed over, and a path that ends in `..` or has
/// no component has no name.
pub open spec fn file_name_of(s: Seq<char>) -> Option<Seq<char>>
    decreases s.len(),
{
    if s.len() == 0 {
        None
    } else {
        let k = last_slash(s);
        let seg = s.subrange(k + 1, s.len() as int);
        if seg.len() == 0 || seg == "."@ {
            if k < 0 || k >= s.len() {
                None
            } else {
                file_name_of(s.subrange(0, k))
            }
        } else if seg == ".."@ {
            None
        } else {
            Some(seg)
        }
    }
}

proof fn lemma_last_slash_bounds(s: Seq<char>)
    ensures
        -1 <= last_slash(s) < s.len(),
        last_slash(s) >= 0 ==> s[last_slash(s)] == '/',
    decreases s.len(),
{
    if s.len() > 0 && s.last() != '/' {
        lemma_last_slash_bounds(s.drop_last());
    }
}

fn is_text(v: &Vec<char>, from: usize, to: usize, t: &str) -> (r: bool)
    requires
        from <= to <= v@.len(),
    ensures
        r == (v@.subrange(from as int, to as int) == t@),
{
    let s = string_of(v, from, to);
    same_text(s.as_str(), t)
}

/// The actor name that a directory path gives: its final component.
pub fn actor_name_from_path(path: &str) -> (r: Option<String>)
    ensures
        opt_text(r) == file_name_of(path@),
{
    let v = chars_of(path);
    let mut end: usize = v.len();
    assert(v@.subrange(0, end as int) =~= path@);
    loop
        invariant
            end <= v@.len(),
            file_name_of(path@) == file_name_of(v@.subrange(0, end as int)),
        decreases end,
    {
        let ghost s = v@.subrange(0, end as int);
        if end == 0 {
            return None;
        }
        let mut j: usize = end;
        while j > 0 && v[j - 1] != '/'
            invariant
                j <= end <= v@.len(),
                s == v@.subrange(0, end as int),
                last_slash(s) == last_slash(v@.subrange(0, j as int)),
            decreases j,
        {
            assert(v@.subrange(0, j as int).drop_last() =~= v@.subrange(0, j - 1));
            j = j - 1;
        }
        proof {
            lemma_last_slash_bounds(s);
            if j > 0 {
                assert(v@.subrange(0, j as int).last() == '/');
            }
            assert(last_slash(s) == j - 1);
            assert(s.subrange(j as int, end as int) =~= v@.subrange(j as int, end as int));
        }
        let empty_or_dot = j == end || is_text(&v, j, end, ".");
        if empty_or_dot {
            if j == 0 {
                return None;
            }
            assert(s.subrange(0, j - 1) =~= v@.subrange(0, j - 1));
            end = j - 1;
        } else {
            if is_text(&v, j, end, "..") {
                return None;
            }
            return Some(string_of(&v, j, end));
        }
    }
}

/// The view of an optional string.
pub open spec fn opt_text(o: Option<String>) -> Option<Seq<char>> {
    match o {
        Some(s) => Some(s@),
        None => None,
    }
}

/// The path, relative to the registry root, of a file of kind `file_type` in the
/// actor `actor_name`.
pub open spec fn actor_file_path_of(actor_name: Seq<char>, file_type: Seq<char>) -> Seq<char> {
    actor_name + if file_type == "manifest"@ {
        "/manifest.toml"@
    } else if file_type == "cargo"@ {
        "/Cargo.toml"@
    } else if file_type == "src"@ {
        "/src/lib.rs"@
    } else if file_type == "readme"@ {
        "/README.md"@
    } else if file_type == "flake"@ {
        "/flake.nix"@
    } else {
        "/"@ + file_type
    }
}

/// The path, relative to the registry root, of a file of an actor: `manifest`,
/// `cargo`, `src`, `readme` and `flake` name its usual files, any other kind is
/// taken as a file name.
pub fn get_actor_file_path(actor_name: &str, file_type: &str) -> (r: String)
    ensures
        r@ == actor_file_path_of(actor_name@, file_type@),
{
    let mut s = String::from_str(actor_name);
    if same_text(file_type, "manifest") {
        s.append("/manifest.toml");
    } else if same_text(file_type, "cargo") {
        s.append("/Cargo.toml");
    } else if same_text(file_type, "src") {
        s.append("/src/lib.rs");
    } else if same_text(file_type, "readme") {
        s.append("/README.md");
    } else if same_text(file_type, "flake") {
        s.append("/flake.nix");
    } else {
        s.append("/");
        s.append(file_type);
        assert(s@ =~= actor_file_path_of(actor_name@, file_type@));
    }
    s
}

/// `names` joined with `sep`, each with `prefix` before it.
pub open spec fn joined_with(names: Seq<Seq<char>>, prefix: Seq<char>, sep: Seq<char>) -> Seq<char>
    decreases names.len(),
{
    if names.len() == 0 {
        Seq::empty()
    } else if names.len() == 1 {
        prefix + names[0]
    } else {
        joined_with(names.drop_last(), prefix, sep) + sep + prefix + names.last()
    }
}

/// The text that lists actor names: "No actors found" for none; in detail, a
/// count line and one bulleted line per name; otherwise the names separated by
/// commas.
pub open spec fn actor_list_text(names: Seq<Seq<char>>, detailed: bool) -> Seq<char> {
    if names.len() == 0 {
        "No actors found"@
    } else if detailed {
        "Found "@ + decimal(names.len()) + " actors:\n\n"@ + joined_with(names, "- "@, "\n"@)
    } else {
        joined_with(names, ""@, ", "@)
    }
}

/// Lists actor names for display.
pub fn format_actor_list(names: &Vec<String>, detailed: bool) -> (r: String)
    ensures
        r@ == actor_list_text(names@.map_values(|s: String| s@), detailed),
{
    let ghost ns = names@.map_values(|s: String| s@);
    if names.len() == 0 {
        return String::from_str("No actors found");
    }
    let mut s = String::new();
    let prefix: &str = if detailed {
        "- "
    } else {
        ""
    };
    let sep: &str = if detailed {
        "\n"
    } else {
        ", "
    };
    if detailed {
        s.append("Found ");
        push_decimal(&mut s, names.len() as u64);
        s.append(" actors:\n\n");
    }
    let ghost head = s@;
    let mut i: usize = 0;
    while i < names.len()
        invariant
            i <= names@.len(),
            ns == names@.map_values(|s: String| s@),
            s@ == head + joined_with(ns.subrange(0, i as int), prefix@, sep@),
        decreases names@.len() - i,
    {
        if i > 0 {
            s.append(sep);
        }
        s.append(prefix);
        s.append(names[i].as_str());
        proof {
            let sub = ns.subrange(0, i + 1);
            assert(sub.drop_last() =~= ns.subrange(0, i as int));
            assert(sub.last() == names@[i as int]@);
            assert(s@ =~= head + joined_with(sub, prefix@, sep@));
        }
        i = i + 1;
    }
    proof {
        assert(ns.subrange(0, names@.len() as int) =~= ns);
        if detailed {
            assert(s@ =~= actor_list_text(ns, detailed));
        } else {
            assert(head =~= Seq::<char>::empty());
            assert(s@ =~= actor_list_text(ns, detailed));
        }
    }
    s
}

} // verus!
