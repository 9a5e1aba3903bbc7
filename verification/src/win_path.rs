use vstd::prelude::*;

verus! {

/// A path separator as the target platform accepts it: backslash or slash.
pub open spec fn is_separator(c: char) -> bool {
    c == '\\' || c == '/'
}

/// An ASCII drive letter, upper or lower case.
pub open spec fn is_drive_letter(c: char) -> bool {
    ||| 'A' as u32 <= c as u32 && c as u32 <= 'Z' as u32
    ||| 'a' as u32 <= c as u32 && c as u32 <= 'z' as u32
}

/// An absolute path: drive-rooted (`C:\...` or `C:/...`) or UNC
/// (`\\server\...`, which also covers verbatim `\\?\...` paths).
pub open spec fn is_absolute_spec(path: Seq<char>) -> bool {
    ||| path.len() >= 3 && is_drive_letter(path[0]) && path[1] == ':' && is_separator(path[2])
    ||| path.len() >= 2 && path[0] == '\\' && path[1] == '\\'
}

/// The index of the last separator strictly before `end`, or -1 when there
/// is none.
pub open spec fn last_separator_before(path: Seq<char>, end: int) -> int
    decreases end,
{
    if end <= 0 || end > path.len() {
        -1
    } else if is_separator(path[end - 1]) {
        end - 1
    } else {
        last_separator_before(path, end - 1)
    }
}

/// The index of the last separator of the path, or -1 when there is none.
pub open spec fn last_separator(path: Seq<char>) -> int {
    last_separator_before(path, path.len() as int)
}

/// The parent directory of a path: the prefix before its last separator.
/// The separator is kept when it is the root separator of a drive path, so
/// the parent of `C:\calc.exe` is `C:\` while the parent of
/// `C:\Windows\calc.exe` is `C:\Windows`.
pub open spec fn parent_spec(path: Seq<char>) -> Seq<char>
    recommends
        is_absolute_spec(path),
{
    let i = last_separator(path);
    if i < 0 {
        path
    } else if i == 2 && path.len() >= 3 && path[1] == ':' {
        path.subrange(0, 3)
    } else {
        path.subrange(0, i)
    }
}

/// A separator anywhere before `end` bounds `last_separator_before` from
/// below.
proof fn lemma_last_separator_at_least(path: Seq<char>, end: int, i: int)
    requires
        0 <= i < end <= path.len(),
        is_separator(path[i]),
    ensures
        last_separator_before(path, end) >= i,
    decreases end,
{
    if end - 1 == i {
    } else if is_separator(path[end - 1]) {
    } else {
        lemma_last_separator_at_least(path, end - 1, i);
    }
}

/// An absolute path always holds a separator: at index 2 when drive-rooted,
/// at index 0 when UNC.
pub proof fn lemma_absolute_has_separator(path: Seq<char>)
    requires
        is_absolute_spec(path),
    ensures
        last_separator(path) >= 0,
{
    if path.len() >= 3 && is_drive_letter(path[0]) && path[1] == ':' && is_separator(path[2]) {
        lemma_last_separator_at_least(path, path.len() as int, 2);
    } else {
        lemma_last_separator_at_least(path, path.len() as int, 0);
    }
}

/// Whether the path is absolute: drive-rooted or UNC.
pub fn is_absolute_path(path: &str) -> (r: bool)
    ensures
        r == is_absolute_spec(path@),
{
    let n = path.unicode_len();
    if n >= 2 {
        let c0 = path.get_char(0);
        let c1 = path.get_char(1);
        if c0 == '\\' && c1 == '\\' {
            return true;
        }
        if n >= 3 {
            let code0 = c0 as u32;
            let drive = (65 <= code0 && code0 <= 90) || (97 <= code0 && code0 <= 122);
            let c2 = path.get_char(2);
            return drive && c1 == ':' && (c2 == '\\' || c2 == '/');
        }
    }
    false
}

/// The parent directory of an absolute path, as `parent_spec` defines it.
pub fn parent_directory(path: &str) -> (r: String)
    requires
        is_absolute_spec(path@),
    ensures
        r@ == parent_spec(path@),
{
    let n = path.unicode_len();
    let mut end = n;
    while end > 0
        invariant
            end <= n,
            n == path@.len(),
            is_absolute_spec(path@),
            last_separator(path@) == last_separator_before(path@, end as int),
        decreases end,
    {
        let c = path.get_char(end - 1);
        if c == '\\' || c == '/' {
            let idx = end - 1;
            if idx == 2 && path.get_char(1) == ':' {
                return path.substring_char(0, 3).to_owned();
            }
            return path.substring_char(0, idx).to_owned();
        }
        end = end - 1;
    }
    proof {
        lemma_absolute_has_separator(path@);
    }
    unreached()
}

} // verus!
