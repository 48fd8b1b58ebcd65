use vstd::prelude::*;
use vstd::string::*;

verus! {

/// Index of the last occurrence of `c` in `s`, or -1 when `c` does not occur.
pub open spec fn spec_last_index_of(s: Seq<char>, c: char) -> int
    decreases s.len(),
{
    if s.len() == 0 {
        -1
    } else if s[s.len() - 1] == c {
        s.len() - 1
    } else {
        spec_last_index_of(s.drop_last(), c)
    }
}

/// `spec_last_index_of` finds an occurrence of `c` and nothing after it.
pub proof fn lemma_last_index_of(s: Seq<char>, c: char)
    ensures
        -1 <= spec_last_index_of(s, c) < s.len(),
        spec_last_index_of(s, c) >= 0 ==> s[spec_last_index_of(s, c)] == c,
        forall|i: int| spec_last_index_of(s, c) < i < s.len() ==> s[i] != c,
    decreases s.len(),
{
    if s.len() == 0 {
    } else if s[s.len() - 1] == c {
    } else {
        lemma_last_index_of(s.drop_last(), c);
        assert forall|i: int| spec_last_index_of(s, c) < i < s.len() implies s[i] != c by {
            if i < s.len() - 1 {
                assert(s.drop_last()[i] == s[i]);
            }
        }
    }
}

/// Appending characters other than `c` does not move the last occurrence of `c`.
pub proof fn lemma_last_index_of_append_no_hit(s: Seq<char>, t: Seq<char>, c: char)
    requires
        forall|i: int| 0 <= i < t.len() ==> t[i] != c,
    ensures
        spec_last_index_of(s + t, c) == spec_last_index_of(s, c),
    decreases t.len(),
{
    if t.len() == 0 {
        assert(s + t =~= s);
    } else {
        assert((s + t)[(s + t).len() - 1] == t[t.len() - 1]);
        assert((s + t).drop_last() =~= s + t.drop_last());
        lemma_last_index_of_append_no_hit(s, t.drop_last(), c);
    }
}

/// The directory part of `path`: everything before the last `/`, the lone
/// root `/` when the last `/` opens a longer path, and nothing when the
/// path has no `/` at all or is the root `/` alone.
pub open spec fn spec_parent(path: Seq<char>) -> Option<Seq<char>> {
    let i = spec_last_index_of(path, '/');
    if i < 0 {
        None
    } else if i == 0 {
        if path.len() == 1 {
            None
        } else {
            Some(path.subrange(0, 1))
        }
    } else {
        Some(path.subrange(0, i))
    }
}

/// The final component of `path`: everything after the last `/` (the whole
/// path when there is none), and nothing when that part is empty.
pub open spec fn spec_file_name(path: Seq<char>) -> Option<Seq<char>> {
    let i = spec_last_index_of(path, '/');
    let tail = path.subrange(i + 1, path.len() as int);
    if tail.len() == 0 {
        None
    } else {
        Some(tail)
    }
}

/// The extension of `path`: what follows the last `.` of the file name,
/// provided that `.` neither opens the file name nor is missing.
pub open spec fn spec_extension(path: Seq<char>) -> Option<Seq<char>> {
    match spec_file_name(path) {
        None => None,
        Some(name) => {
            let j = spec_last_index_of(name, '.');
            if j <= 0 {
                None
            } else {
                Some(name.subrange(j + 1, name.len() as int))
            }
        },
    }
}

/// `dir` and `name` joined with a single `/` separator.
pub open spec fn spec_join(dir: Seq<char>, name: Seq<char>) -> Seq<char> {
    if dir.len() > 0 && dir[dir.len() - 1] == '/' {
        dir + name
    } else {
        dir + seq!['/'] + name
    }
}

/// Joining a slash-free, non-empty `name` onto any directory yields a path
/// whose file name is `name` again, and whose extension is therefore the
/// extension of `name`.
pub proof fn lemma_join_keeps_file_name(dir: Seq<char>, name: Seq<char>)
    requires
        name.len() > 0,
        forall|i: int| 0 <= i < name.len() ==> name[i] != '/',
    ensures
        spec_file_name(spec_join(dir, name)) == Some(name),
{
    let dest = spec_join(dir, name);
    if dir.len() > 0 && dir[dir.len() - 1] == '/' {
        lemma_last_index_of_append_no_hit(dir, name, '/');
        assert(spec_last_index_of(dir, '/') == dir.len() - 1);
        assert(dest.subrange(dir.len() as int, dest.len() as int) =~= name);
    } else {
        let dirs = dir + seq!['/'];
        assert(dest =~= dirs + name);
        lemma_last_index_of_append_no_hit(dirs, name, '/');
        assert(dirs[dirs.len() - 1] == '/');
        assert(spec_last_index_of(dirs, '/') == dirs.len() - 1);
        assert(dest.subrange(dirs.len() as int, dest.len() as int) =~= name);
    }
}

/// Finds the last occurrence of `c` in `s`, if any.
pub fn last_index_of(s: &str, c: char) -> (r: Option<usize>)
    ensures
        match r {
            Some(i) => spec_last_index_of(s@, c) == i as int,
            None => spec_last_index_of(s@, c) == -1,
        },
{
    let n = s.unicode_len();
    let mut i: usize = n;
    proof {
        assert(s@.subrange(0, n as int) =~= s@);
    }
    while i > 0
        invariant
            i <= n,
            n == s@.len(),
            spec_last_index_of(s@, c) == spec_last_index_of(s@.subrange(0, i as int), c),
        decreases i,
    {
        let ch = s.get_char(i - 1);
        if ch == c {
            proof {
                assert(s@.subrange(0, i as int)[i - 1] == c);
            }
            return Some(i - 1);
        }
        proof {
            assert(s@.subrange(0, i as int).drop_last() =~= s@.subrange(0, i as int - 1));
        }
        i = i - 1;
    }
    proof {
        assert(s@.subrange(0, 0).len() == 0);
    }
    None
}

/// Computes the directory part of `path`, as `spec_parent` describes it.
pub fn parent_of(path: &str) -> (r: Option<String>)
    ensures
        match r {
            Some(p) => spec_parent(path@) == Some(p@),
            None => spec_parent(path@) is None,
        },
{
    proof {
        lemma_last_index_of(path@, '/');
    }
    match last_index_of(path, '/') {
        None => None,
        Some(i) => {
            if i == 0 {
                if path.unicode_len() == 1 {
                    None
                } else {
                    Some(String::from_str(path.substring_char(0, 1)))
                }
            } else {
                Some(String::from_str(path.substring_char(0, i)))
            }
        },
    }
}

/// Computes the final component of `path`, as `spec_file_name` describes it.
pub fn file_name_of(path: &str) -> (r: Option<String>)
    ensures
        match r {
            Some(p) => spec_file_name(path@) == Some(p@),
            None => spec_file_name(path@) is None,
        },
{
    proof {
        lemma_last_index_of(path@, '/');
    }
    let n = path.unicode_len();
    let start: usize = match last_index_of(path, '/') {
        None => 0,
        Some(i) => i + 1,
    };
    if start == n {
        None
    } else {
        Some(String::from_str(path.substring_char(start, n)))
    }
}

/// Computes the extension of `path`, as `spec_extension` describes it.
pub fn extension_of(path: &str) -> (r: Option<String>)
    ensures
        match r {
            Some(e) => spec_extension(path@) == Some(e@),
            None => spec_extension(path@) is None,
        },
{
    match file_name_of(path) {
        None => None,
        Some(name) => {
            proof {
                lemma_last_index_of(name@, '.');
            }
            let name_str = name.as_str();
            match last_index_of(name_str, '.') {
                None => None,
                Some(j) => {
                    if j == 0 {
                        None
                    } else {
                        let n = name_str.unicode_len();
                        Some(String::from_str(name_str.substring_char(j + 1, n)))
                    }
                },
            }
        },
    }
}

/// Joins `dir` and `name` with a single `/` separator.
pub fn join_path(dir: &str, name: &str) -> (r: String)
    ensures
        r@ == spec_join(dir@, name@),
{
    let n = dir.unicode_len();
    if n > 0 && dir.get_char(n - 1) == '/' {
        String::from_str(dir).concat(name)
    } else {
        proof {
            reveal_strlit("/");
            assert(("/")@ =~= seq!['/']);
        }
        String::from_str(dir).concat("/").concat(name)
    }
}

/// ASCII upper-case letters mapped to lower case; all else unchanged.
pub open spec fn spec_lower_char(c: char) -> char {
    if 'A' <= c && c <= 'Z' {
        ((c as int) + 32) as char
    } else {
        c
    }
}

/// `s` with every character lowered by `spec_lower_char`.
pub open spec fn spec_lower(s: Seq<char>) -> Seq<char> {
    s.map_values(|c: char| spec_lower_char(c))
}

/// Lowers one character, as `spec_lower_char` describes it.
pub fn lower_char(c: char) -> (r: char)
    ensures
        r == spec_lower_char(c),
{
    match c {
        'A' => 'a',
        'B' => 'b',
        'C' => 'c',
        'D' => 'd',
        'E' => 'e',
        'F' => 'f',
        'G' => 'g',
        'H' => 'h',
        'I' => 'i',
        'J' => 'j',
        'K' => 'k',
        'L' => 'l',
        'M' => 'm',
        'N' => 'n',
        'O' => 'o',
        'P' => 'p',
        'Q' => 'q',
        'R' => 'r',
        'S' => 's',
        'T' => 't',
        'U' => 'u',
        'V' => 'v',
        'W' => 'w',
        'X' => 'x',
        'Y' => 'y',
        'Z' => 'z',
        _ => c,
    }
}

/// Compares two strings for equality up to ASCII case.
pub fn eq_ignore_ascii_case(a: &str, b: &str) -> (r: bool)
    ensures
        r == (spec_lower(a@) == spec_lower(b@)),
{
    let na = a.unicode_len();
    let nb = b.unicode_len();
    if na != nb {
        proof {
            assert(spec_lower(a@).len() != spec_lower(b@).len());
        }
        return false;
    }
    let mut i: usize = 0;
    while i < na
        invariant
            i <= na,
            na == a@.len(),
            na == b@.len(),
            forall|j: int| 0 <= j < i ==> spec_lower(a@)[j] == spec_lower(b@)[j],
        decreases na - i,
    {
        let ca = lower_char(a.get_char(i));
        let cb = lower_char(b.get_char(i));
        if ca != cb {
            proof {
                assert(spec_lower(a@)[i as int] != spec_lower(b@)[i as int]);
            }
            return false;
        }
        i = i + 1;
    }
    proof {
        assert(spec_lower(a@) =~= spec_lower(b@));
    }
    true
}

} // verus!
