use vstd::prelude::*;

verus! {

/// `pat` occurs in `s`.
pub open spec fn occurs(s: Seq<char>, pat: Seq<char>) -> bool {
    exists|i: int| 0 <= i && i + pat.len() <= s.len() && #[trigger] s.subrange(i, i + pat.len()) == pat
}

/// Whether `pat` occurs in `s`.
pub fn contains_str(s: &str, pat: &str) -> (r: bool)
    ensures
        r == occurs(s@, pat@),
{
    let n = s.unicode_len();
    let m = pat.unicode_len();
    if m > n {
        assert forall|i: int| 0 <= i && i + pat@.len() <= s@.len() implies #[trigger] s@.subrange(i, i + pat@.len()) != pat@ by {}
        return false;
    }
    let mut i: usize = 0;
    while i <= n - m
        invariant
            n == s@.len(),
            m == pat@.len(),
            m <= n,
            i <= n - m + 1,
            forall|j: int| 0 <= j < i ==> #[trigger] s@.subrange(j, j + m) != pat@,
        decreases n - m + 1 - i,
    {
        let mut k: usize = 0;
        let mut same = true;
        while k < m
            invariant
                n == s@.len(),
                m == pat@.len(),
                i + m <= n,
                k <= m,
                same == (forall|t: int| 0 <= t < k ==> s@[i + t] == pat@[t]),
            decreases m - k,
        {
            if s.get_char(i + k) != pat.get_char(k) {
                same = false;
            }
            k = k + 1;
        }
        if same {
            assert(s@.subrange(i as int, i + m) =~= pat@);
            return true;
        }
        assert(s@.subrange(i as int, i + m) != pat@) by {
            let t = choose|t: int| 0 <= t < m && s@[i + t] != pat@[t];
            assert(s@.subrange(i as int, i + m)[t] == s@[i + t]);
        }
        i = i + 1;
    }
    assert forall|j: int| 0 <= j && j + pat@.len() <= s@.len() implies #[trigger] s@.subrange(j, j + pat@.len()) != pat@ by {
        assert(j < i);
    }
    false
}

/// The flags an interactive shell is started with: bash and zsh skip their
/// start-up files, and any shell is made interactive. A minimal
/// environment adds none.
pub open spec fn shell_flags_spec(shell: Seq<char>, minimal_env: bool) -> Seq<Seq<char>> {
    if minimal_env {
        Seq::empty()
    } else if occurs(shell, "bash"@) {
        seq!["--noprofile"@, "--norc"@, "-i"@]
    } else if occurs(shell, "zsh"@) {
        seq!["--no-rcs"@, "-i"@]
    } else if occurs(shell, "sh"@) {
        seq!["-i"@]
    } else {
        Seq::empty()
    }
}

pub open spec fn strings_of(v: Seq<String>) -> Seq<Seq<char>> {
    Seq::new(v.len(), |i: int| v[i]@)
}

/// The flags an interactive shell is started with.
pub fn shell_flags(shell: &str, minimal_env: bool) -> (r: Vec<String>)
    ensures
        strings_of(r@) == shell_flags_spec(shell@, minimal_env),
{
    let mut v: Vec<String> = Vec::new();
    if minimal_env {
    } else if contains_str(shell, "bash") {
        v.push(String::from_str("--noprofile"));
        v.push(String::from_str("--norc"));
        v.push(String::from_str("-i"));
    } else if contains_str(shell, "zsh") {
        v.push(String::from_str("--no-rcs"));
        v.push(String::from_str("-i"));
    } else if contains_str(shell, "sh") {
        v.push(String::from_str("-i"));
    }
    assert(strings_of(v@) =~= shell_flags_spec(shell@, minimal_env));
    v
}

pub open spec fn or_default(v: Option<String>, d: Seq<char>) -> Seq<char> {
    match v {
        Some(s) => s@,
        None => d,
    }
}

fn value_or(v: Option<String>, d: &str) -> (r: String)
    ensures
        r@ == or_default(v, d@),
{
    match v {
        Some(s) => s,
        None => String::from_str(d),
    }
}

pub open spec fn pairs_of(v: Seq<(String, String)>) -> Seq<(Seq<char>, Seq<char>)> {
    Seq::new(v.len(), |i: int| (v[i].0@, v[i].1@))
}

/// The environment of a spawned shell: the terminal type and color support,
/// the shell, the user, home and search path of the caller, each with a
/// default when the caller has none, and a prompt showing user, host and
/// directory.
pub open spec fn shell_env_spec(
    shell: Seq<char>,
    user: Option<String>,
    home: Option<String>,
    path: Option<String>,
) -> Seq<(Seq<char>, Seq<char>)> {
    seq![
        ("TERM"@, "xterm-256color"@),
        ("COLORTERM"@, "truecolor"@),
        ("SHELL"@, shell),
        ("USER"@, or_default(user, "user"@)),
        ("HOME"@, or_default(home, "/tmp"@)),
        ("PATH"@, or_default(path, "/usr/local/bin:/usr/bin:/bin"@)),
        ("PS1"@, "\\u@\\h:\\w\\$ "@),
    ]
}

/// The environment of a spawned shell, given the caller's user, home and
/// search path where it has them.
pub fn shell_environment(shell: &str, user: Option<String>, home: Option<String>, path: Option<String>) -> (r: Vec<
    (String, String),
>)
    ensures
        pairs_of(r@) == shell_env_spec(shell@, user, home, path),
{
    let mut v: Vec<(String, String)> = Vec::new();
    v.push((String::from_str("TERM"), String::from_str("xterm-256color")));
    v.push((String::from_str("COLORTERM"), String::from_str("truecolor")));
    v.push((String::from_str("SHELL"), String::from_str(shell)));
    v.push((String::from_str("USER"), value_or(user, "user")));
    v.push((String::from_str("HOME"), value_or(home, "/tmp")));
    v.push((String::from_str("PATH"), value_or(path, "/usr/local/bin:/usr/bin:/bin")));
    v.push((String::from_str("PS1"), String::from_str("\\u@\\h:\\w\\$ ")));
    assert(pairs_of(v@) =~= shell_env_spec(shell@, user, home, path));
    v
}

/// The shell to spawn: the caller's own, else `/bin/sh`.
pub fn default_shell(from_env: Option<String>) -> (r: String)
    ensures
        r@ == or_default(from_env, "/bin/sh"@),
{
    value_or(from_env, "/bin/sh")
}

/// `key=value`.
pub open spec fn assignment(key: Seq<char>, value: Seq<char>) -> Seq<char> {
    key + "="@ + value
}

fn assign(key: &str, value: &str) -> (r: String)
    ensures
        r@ == assignment(key@, value@),
{
    let mut s = String::from_str(key);
    s.append("=");
    s.append(value);
    s
}

/// The `key=value` arguments of `env -i` for a shell started with a minimal
/// environment: the caller's search path (or a default), the terminal type,
/// and a fixed home and user.
pub open spec fn minimal_env_spec(path: Option<String>) -> Seq<Seq<char>> {
    seq![
        assignment("PATH"@, or_default(path, "/usr/local/bin:/usr/bin:/bin"@)),
        assignment("TERM"@, "xterm-256color"@),
        assignment("HOME"@, "/tmp"@),
        assignment("USER"@, "user"@),
    ]
}

/// The `key=value` arguments of `env -i` for a minimal environment.
pub fn minimal_env_args(path: Option<String>) -> (r: Vec<String>)
    ensures
        strings_of(r@) == minimal_env_spec(path),
{
    let ghost p = path;
    let path_value = value_or(path, "/usr/local/bin:/usr/bin:/bin");
    let mut v: Vec<String> = Vec::new();
    v.push(assign("PATH", path_value.as_str()));
    v.push(assign("TERM", "xterm-256color"));
    v.push(assign("HOME", "/tmp"));
    v.push(assign("USER", "user"));
    assert(strings_of(v@) =~= minimal_env_spec(p));
    v
}

} // verus!
