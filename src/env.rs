use vstd::prelude::*;

verus! {

/// An environment as a sequence of (name, value) pairs.
pub open spec fn env_view(s: Seq<(String, String)>) -> Seq<(Seq<char>, Seq<char>)> {
    s.map_values(|p: (String, String)| (p.0@, p.1@))
}

pub open spec fn has_key(s: Seq<(Seq<char>, Seq<char>)>, k: Seq<char>) -> bool {
    exists|i: int| 0 <= i < s.len() && (#[trigger] s[i]).0 == k
}

/// `i` is the first position holding the name `k`.
pub open spec fn first_key(s: Seq<(Seq<char>, Seq<char>)>, k: Seq<char>, i: int) -> bool {
    &&& 0 <= i < s.len()
    &&& s[i].0 == k
    &&& forall|j: int| 0 <= j < i ==> (#[trigger] s[j]).0 != k
}

/// Sets `k` to `v`: the first entry named `k` takes the new value, or the
/// pair is appended when no entry has that name.
pub open spec fn env_set(s: Seq<(Seq<char>, Seq<char>)>, k: Seq<char>, v: Seq<char>) -> Seq<
    (Seq<char>, Seq<char>),
> {
    if exists|i: int| first_key(s, k, i) {
        s.update(choose|i: int| first_key(s, k, i), (k, v))
    } else {
        s.push((k, v))
    }
}

/// Adds `k = v` only when no entry is named `k`.
pub open spec fn env_default(s: Seq<(Seq<char>, Seq<char>)>, k: Seq<char>, v: Seq<char>) -> Seq<
    (Seq<char>, Seq<char>),
> {
    if has_key(s, k) {
        s
    } else {
        s.push((k, v))
    }
}

/// No two entries share a name.
pub open spec fn keys_unique(s: Seq<(Seq<char>, Seq<char>)>) -> bool {
    forall|i: int, j: int| 0 <= i < j < s.len() ==> (#[trigger] s[i]).0 != (#[trigger] s[j]).0
}

pub open spec fn default_home() -> Seq<char> {
    "/"@
}

pub open spec fn default_path() -> Seq<char> {
    "/usr/local/bin:/usr/bin:/bin"@
}

pub open spec fn default_term() -> Seq<char> {
    "xterm"@
}

/// The environment the program starts with: the configured entries, then
/// `HOME`, `PATH` and `TERM` for those it does not set.
pub open spec fn env_with_defaults(s: Seq<(Seq<char>, Seq<char>)>) -> Seq<(Seq<char>, Seq<char>)> {
    env_default(
        env_default(env_default(s, "HOME"@, default_home()), "PATH"@, default_path()),
        "TERM"@,
        default_term(),
    )
}

/// The position of the first entry named `k`.
pub fn find_key(env: &Vec<(String, String)>, k: &String) -> (r: Option<usize>)
    ensures
        r matches Some(i) ==> first_key(env_view(env@), k@, i as int),
        r is None <==> !has_key(env_view(env@), k@),
{
    let ghost s = env_view(env@);
    let mut i: usize = 0;
    while i < env.len()
        invariant
            s == env_view(env@),
            forall|j: int| 0 <= j < i ==> (#[trigger] s[j]).0 != k@,
        decreases env.len() - i,
    {
        if env[i].0.eq(k) {
            assert(s[i as int].0 == k@);
            return Some(i);
        }
        i = i + 1;
    }
    None
}

/// Sets `k` to `v` in `env`.
pub fn setenv(env: &mut Vec<(String, String)>, k: String, v: String)
    ensures
        env_view(final(env)@) == env_set(env_view(old(env)@), k@, v@),
        keys_unique(env_view(old(env)@)) ==> keys_unique(env_view(final(env)@)),
{
    let ghost s = env_view(env@);
    let ghost kv = k@;
    let ghost vv = v@;
    match find_key(env, &k) {
        Some(i) => {
            proof {
                let c = choose|c: int| first_key(s, kv, c);
                if c < i {
                    assert(s[c].0 != kv);
                }
                if i < c {
                    assert(s[i as int].0 != kv);
                }
                assert(c == i);
            }
            env.set(i, (k, v));
            assert(env_view(env@) =~= s.update(i as int, (kv, vv)));
        },
        None => {
            env.push((k, v));
            assert(env_view(env@) =~= s.push((kv, vv)));
            assert(!exists|i: int| first_key(s, kv, i));
        },
    }
}

fn set_default(env: &mut Vec<(String, String)>, k: String, v: String)
    ensures
        env_view(final(env)@) == env_default(env_view(old(env)@), k@, v@),
{
    let ghost s = env_view(env@);
    if find_key(env, &k).is_none() {
        env.push((k, v));
        assert(env_view(env@) =~= s.push((k@, v@)));
    }
}

/// Adds `HOME`, `PATH` and `TERM` where `env` does not set them.
pub fn apply_default_env(env: &mut Vec<(String, String)>)
    ensures
        env_view(final(env)@) == env_with_defaults(env_view(old(env)@)),
{
    set_default(env, String::from_str("HOME"), String::from_str("/"));
    set_default(env, String::from_str("PATH"), String::from_str("/usr/local/bin:/usr/bin:/bin"));
    set_default(env, String::from_str("TERM"), String::from_str("xterm"));
}

/// `entries` set one after another, in order, on top of `s`.
pub open spec fn env_set_all(
    s: Seq<(Seq<char>, Seq<char>)>,
    entries: Seq<(Seq<char>, Seq<char>)>,
) -> Seq<(Seq<char>, Seq<char>)>
    decreases entries.len(),
{
    if entries.len() == 0 {
        s
    } else {
        let init = env_set_all(s, entries.drop_last());
        env_set(init, entries.last().0, entries.last().1)
    }
}

/// Setting the entries of an environment whose names are all distinct, one
/// by one, on an empty environment gives that environment back: no entry
/// overrides another, so the order of iteration does not matter.
pub proof fn lemma_set_all_distinct(entries: Seq<(Seq<char>, Seq<char>)>)
    requires
        keys_unique(entries),
    ensures
        env_set_all(Seq::empty(), entries) == entries,
    decreases entries.len(),
{
    if entries.len() > 0 {
        let init = entries.drop_last();
        assert(keys_unique(init));
        lemma_set_all_distinct(init);
        let k = entries.last().0;
        assert forall|i: int| 0 <= i < init.len() implies (#[trigger] init[i]).0 != k by {
            assert(entries[i] == init[i]);
            assert(entries[entries.len() - 1] == entries.last());
        }
        assert(!exists|i: int| first_key(init, k, i));
        assert(init.push(entries.last()) =~= entries);
    }
}

} // verus!
