use vstd::prelude::*;

verus! {

/// A regular file with an execute bit set for someone.
pub open spec fn executable_spec(is_file: bool, mode: u32) -> bool {
    is_file && (mode & 0o111u32) != 0
}

/// Whether a file with these metadata can be executed.
pub fn is_executable(is_file: bool, mode: u32) -> (r: bool)
    ensures
        r == executable_spec(is_file, mode),
{
    is_file && (mode & 0o111u32) != 0
}

/// `dir` and `name` joined by one separator.
pub open spec fn joined(dir: Seq<char>, name: Seq<char>) -> Seq<char> {
    if dir.len() == 0 {
        name
    } else if dir.last() == '/' {
        dir + name
    } else {
        dir + "/"@ + name
    }
}

pub fn join_path(dir: &String, name: &String) -> (r: String)
    ensures
        r@ == joined(dir@, name@),
{
    let n = dir.as_str().unicode_len();
    if n == 0 {
        return name.clone();
    }
    let mut r = dir.clone();
    if dir.as_str().get_char(n - 1) != '/' {
        r.append("/");
    }
    r.append(name.as_str());
    r
}

/// The paths tried, in order, to find `prog`: the name itself, then, when it
/// holds no `/`, the name under each directory of the search path.
pub open spec fn candidates_spec(prog: Seq<char>, dirs: Seq<Seq<char>>) -> Seq<Seq<char>> {
    if prog.contains('/') {
        seq![prog]
    } else {
        seq![prog] + dirs.map_values(|d: Seq<char>| joined(d, prog))
    }
}

pub open spec fn strings_of(v: Seq<String>) -> Seq<Seq<char>> {
    v.map_values(|s: String| s@)
}

fn contains_slash(s: &String) -> (r: bool)
    ensures
        r == s@.contains('/'),
{
    let n = s.as_str().unicode_len();
    let mut i: usize = 0;
    while i < n
        invariant
            n == s@.len(),
            forall|j: int| 0 <= j < i ==> s@[j] != '/',
        decreases n - i,
    {
        if s.as_str().get_char(i) == '/' {
            assert(s@[i as int] == '/');
            return true;
        }
        i = i + 1;
    }
    false
}

/// The paths to test for an executable `prog`, first match wins.
pub fn executable_candidates(prog: &String, dirs: &Vec<String>) -> (r: Vec<String>)
    ensures
        strings_of(r@) == candidates_spec(prog@, strings_of(dirs@)),
{
    let mut r: Vec<String> = Vec::new();
    r.push(prog.clone());
    if contains_slash(prog) {
        assert(strings_of(r@) =~= seq![prog@]);
        return r;
    }
    let ghost ds = strings_of(dirs@);
    let mut i: usize = 0;
    while i < dirs.len()
        invariant
            i <= dirs@.len(),
            ds == strings_of(dirs@),
            strings_of(r@) == seq![prog@] + ds.subrange(0, i as int).map_values(|d: Seq<char>| joined(d, prog@)),
        decreases dirs.len() - i,
    {
        let ghost prev = strings_of(r@);
        let p = join_path(&dirs[i], prog);
        r.push(p);
        assert(strings_of(r@) =~= prev.push(p@));
        assert(ds.subrange(0, i + 1).map_values(|d: Seq<char>| joined(d, prog@)) =~= ds.subrange(
            0,
            i as int,
        ).map_values(|d: Seq<char>| joined(d, prog@)).push(joined(ds[i as int], prog@)));
        i = i + 1;
    }
    assert(ds.subrange(0, i as int) =~= ds);
    r
}

} // verus!
