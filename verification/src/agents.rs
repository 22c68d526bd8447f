//! An ACP agent as a program on this machine: where an install lives, which
//! relative paths a registry may hand us, and how an installed agent is run.
//!
//! Paths are text here, joined the way a Unix `PathBuf::push` joins them: an
//! absolute part replaces what came before, a relative one is added after a
//! separator unless the base is empty or already ends in one.

use vstd::prelude::*;
use std::collections::BTreeMap;
use crate::text::{owned, push_char, push_text};

verus! {

/// The characters of `s`, in order.
fn chars_of(s: &str) -> (v: Vec<char>)
    ensures
        v@ == s@,
{
    let n = s.unicode_len();
    let mut v: Vec<char> = Vec::new();
    let mut i: usize = 0;
    while i < n
        invariant
            n == s@.len(),
            i <= n,
            v@ == s@.subrange(0, i as int),
        decreases n - i,
    {
        v.push(s.get_char(i));
        i += 1;
        assert(v@ =~= s@.subrange(0, i as int));
    }
    assert(s@.subrange(0, n as int) =~= s@);
    v
}

/// The text of `cs[from..to]`.
fn text_of(cs: &Vec<char>, from: usize, to: usize) -> (s: String)
    requires
        from <= to <= cs@.len(),
    ensures
        s@ == cs@.subrange(from as int, to as int),
{
    let mut s = String::new();
    let mut i: usize = from;
    while i < to
        invariant
            from <= i <= to <= cs@.len(),
            s@ == cs@.subrange(from as int, i as int),
        decreases to - i,
    {
        push_char(&mut s, cs[i]);
        i += 1;
        assert(s@ =~= cs@.subrange(from as int, i as int));
    }
    s
}

/// The index of the last `c` in `s`, or -1 when there is none.
pub open spec fn last_index_of(s: Seq<char>, c: char) -> int
    decreases s.len(),
{
    if s.len() == 0 {
        -1
    } else if s.last() == c {
        s.len() - 1
    } else {
        last_index_of(s.drop_last(), c)
    }
}

/// The package a spec like `@scope/name@1.2.3` names: the version separator
/// is the last `@` that is not the scope's leading one.
pub open spec fn package_of(spec: Seq<char>) -> Seq<char> {
    let ix = last_index_of(spec, '@');
    if ix > 0 {
        spec.subrange(0, ix)
    } else {
        spec
    }
}

/// The package name in a spec like `@scope/name@1.2.3`.
pub fn package_name(spec: &str) -> (name: &str)
    ensures
        name@ == package_of(spec@),
{
    let n = spec.unicode_len();
    let mut i: usize = n;
    assert(spec@.subrange(0, n as int) =~= spec@);
    while i > 0
        invariant
            n == spec@.len(),
            i <= n,
            last_index_of(spec@, '@') == last_index_of(spec@.subrange(0, i as int), '@'),
        decreases i,
    {
        let c = spec.get_char(i - 1);
        if c == '@' {
            assert(spec@.subrange(0, i as int).last() == '@');
            if i - 1 > 0 {
                return spec.substring_char(0, i - 1);
            }
            return spec;
        }
        assert(spec@.subrange(0, i as int).drop_last() =~= spec@.subrange(0, i - 1));
        i -= 1;
    }
    spec
}

/// `base` with `part` added, as `PathBuf::push` does it on Unix.
pub open spec fn joined(base: Seq<char>, part: Seq<char>) -> Seq<char> {
    if part.len() > 0 && part[0] == '/' {
        part
    } else if base.len() == 0 || base.last() == '/' {
        base + part
    } else {
        base + seq!['/'] + part
    }
}

fn join(base: &str, part: &str) -> (p: String)
    ensures
        p@ == joined(base@, part@),
{
    let pn = part.unicode_len();
    if pn > 0 && part.get_char(0) == '/' {
        return owned(part);
    }
    let bn = base.unicode_len();
    let mut p = owned(base);
    if bn > 0 && base.get_char(bn - 1) != '/' {
        push_char(&mut p, '/');
    }
    push_text(&mut p, part);
    p
}

/// Where the agent `id` is installed under `data_dir`.
pub open spec fn agent_dir_of(data_dir: Seq<char>, id: Seq<char>) -> Seq<char> {
    joined(joined(data_dir, "agents"@), id)
}

/// The directory the agent `id` is installed in.
pub fn agent_dir(data_dir: &str, id: &str) -> (d: String)
    ensures
        d@ == agent_dir_of(data_dir@, id@),
{
    let agents = join(data_dir, "agents");
    join(agents.as_str(), id)
}

/// The record of the agent's installation.
pub fn record_file(data_dir: &str, id: &str) -> (f: String)
    ensures
        f@ == joined(agent_dir_of(data_dir@, id@), "install.json"@),
{
    let dir = agent_dir(data_dir, id);
    join(dir.as_str(), "install.json")
}

/// `rel` with every leading `./` taken off.
pub open spec fn trim_dot_slash(rel: Seq<char>) -> Seq<char>
    decreases rel.len(),
{
    if rel.len() >= 2 && rel[0] == '.' && rel[1] == '/' {
        trim_dot_slash(rel.subrange(2, rel.len() as int))
    } else {
        rel
    }
}

/// How many characters of `s` come before its first `/`.
pub open spec fn segment_len(s: Seq<char>) -> nat
    decreases s.len(),
{
    if s.len() == 0 || s[0] == '/' {
        0
    } else {
        1 + segment_len(s.subrange(1, s.len() as int))
    }
}

/// The pieces of `s` between its separators, empty ones included.
pub open spec fn segments(s: Seq<char>) -> Seq<Seq<char>>
    decreases s.len(),
{
    let k = segment_len(s);
    if k >= s.len() {
        seq![s]
    } else {
        seq![s.subrange(0, k as int)] + segments(s.subrange(k + 1int, s.len() as int))
    }
}

/// A piece that names something: neither empty, nor `.`, nor `..`.
pub open spec fn is_name(piece: Seq<char>) -> bool {
    piece.len() > 0 && piece != seq!['.'] && piece != seq!['.', '.']
}

/// A letter of the ASCII alphabet.
pub open spec fn is_ascii_letter(c: char) -> bool {
    ('a' <= c && c <= 'z') || ('A' <= c && c <= 'Z')
}

/// Whether `t` could mean something else on Windows: it holds a `\`, which
/// Windows reads as a separator, or it starts with a drive such as `C:`.
pub open spec fn has_windows_form(t: Seq<char>) -> bool {
    ||| exists|i: int| 0 <= i < t.len() && t[i] == '\\'
    ||| (t.len() >= 2 && t[1] == ':' && is_ascii_letter(t[0]))
}

/// Whether `rel`, once its leading `./`s are gone, is a path inside whatever
/// it is joined to: it does not start at the root, no piece of it climbs out
/// with `..`, at least one piece is a plain name, and it holds nothing that
/// Windows would read as a separator or a drive.
pub open spec fn stays_inside(rel: Seq<char>) -> bool {
    let t = trim_dot_slash(rel);
    let parts = segments(t);
    &&& !(t.len() > 0 && t[0] == '/')
    &&& !has_windows_form(t)
    &&& forall|k: int| 0 <= k < parts.len() ==> parts[k] != seq!['.', '.']
    &&& exists|k: int| 0 <= k < parts.len() && is_name(#[trigger] parts[k])
}

/// Why installing an agent could not go on.
#[derive(Debug, Clone, PartialEq, Eq)]
pub enum InstallError {
    /// A registry path that would leave the directory it was given.
    NotInside { rel: String, dir: String },
    /// A package whose manifest names no executable.
    NoExecutable { name: String },
}

impl InstallError {
    /// The message shown for the error.
    pub fn describe(&self) -> (s: String)
        ensures
            s@ == (match *self {
                InstallError::NotInside { rel, dir } => rel@ + " is not a path inside "@ + dir@,
                InstallError::NoExecutable { name } => name@ + " declares no executable"@,
            }),
    {
        match self {
            InstallError::NotInside { rel, dir } => {
                let mut s = owned(rel.as_str());
                push_text(&mut s, " is not a path inside ");
                push_text(&mut s, dir.as_str());
                s
            },
            InstallError::NoExecutable { name } => {
                let mut s = owned(name.as_str());
                push_text(&mut s, " declares no executable");
                s
            },
        }
    }
}

proof fn lemma_segment_len(s: Seq<char>, k: int)
    requires
        0 <= k <= s.len(),
        forall|x: int| 0 <= x < k ==> s[x] != '/',
        k == s.len() || s[k] == '/',
    ensures
        segment_len(s) == k,
    decreases k,
{
    if k > 0 {
        let rest = s.subrange(1, s.len() as int);
        assert forall|x: int| 0 <= x < k - 1 implies rest[x] != '/' by {
            assert(rest[x] == s[x + 1]);
        }
        lemma_segment_len(rest, k - 1);
    }
}

proof fn lemma_trimmed(s: Seq<char>)
    requires
        !(s.len() >= 2 && s[0] == '.' && s[1] == '/'),
    ensures
        trim_dot_slash(s) == s,
{
}

/// `dir` joined with a relative path a registry supplied: at least one piece,
/// every one a plain name. An id or a command that climbs out, or an empty one
/// naming `dir` itself, would aim an install, or the removal that undoes one,
/// somewhere it was never given. Pieces are split at `/`; a path holding a
/// `\\` or starting with a drive is refused outright, so that it cannot climb
/// out where Windows reads those as a separator or a root.
pub fn contained(dir: &str, rel: &str) -> (r: Result<String, InstallError>)
    ensures
        stays_inside(rel@) ==> (r matches Ok(p) && p@ == joined(dir@, trim_dot_slash(rel@))),
        !stays_inside(rel@) ==> (r matches Err(e) && e matches InstallError::NotInside { rel: t, dir: d }
            && t@ == trim_dot_slash(rel@) && d@ == dir@),
{
    let c = chars_of(rel);
    let n = c.len();
    let mut i: usize = 0;
    assert(c@.subrange(0, n as int) =~= c@);
    while n - i >= 2 && c[i] == '.' && c[i + 1] == '/'
        invariant
            n == c@.len(),
            i <= n,
            trim_dot_slash(rel@) == trim_dot_slash(c@.subrange(i as int, n as int)),
        decreases n - i,
    {
        let ghost s = c@.subrange(i as int, n as int);
        assert(s.subrange(2, s.len() as int) =~= c@.subrange(i + 2, n as int));
        i += 2;
    }
    let start = i;
    let ghost t = c@.subrange(start as int, n as int);
    proof {
        lemma_trimmed(t);
    }
    assert(trim_dot_slash(rel@) == t);
    let trimmed = text_of(&c, start, n);
    if start < n && c[start] == '/' {
        assert(t[0] == '/');
        return Err(InstallError::NotInside { rel: trimmed, dir: owned(dir) });
    }
    if n - start >= 2 && c[start + 1] == ':' && (('a' <= c[start] && c[start] <= 'z') || (
    'A' <= c[start] && c[start] <= 'Z')) {
        assert(t[1] == ':' && is_ascii_letter(t[0]));
        return Err(InstallError::NotInside { rel: trimmed, dir: owned(dir) });
    }
    let mut k: usize = start;
    while k < n
        invariant
            n == c@.len(),
            start <= k <= n,
            t == c@.subrange(start as int, n as int),
            trim_dot_slash(rel@) == t,
            trimmed@ == t,
            forall|x: int| start <= x < k ==> c@[x] != '\\',
        decreases n - k,
    {
        if c[k] == '\\' {
            assert(t[k - start] == '\\');
            return Err(InstallError::NotInside { rel: trimmed, dir: owned(dir) });
        }
        k += 1;
    }
    assert(!has_windows_form(t)) by {
        assert forall|x: int| 0 <= x < t.len() implies t[x] != '\\' by {
            assert(t[x] == c@[start + x]);
        }
    }
    let mut found = false;
    let ghost mut done: Seq<Seq<char>> = Seq::empty();
    assert(t =~= c@.subrange(i as int, n as int));
    loop
        invariant
            n == c@.len(),
            start <= i <= n,
            t == c@.subrange(start as int, n as int),
            trim_dot_slash(rel@) == t,
            trimmed@ == t,
            !(t.len() > 0 && t[0] == '/'),
            !has_windows_form(t),
            segments(t) == done + segments(c@.subrange(i as int, n as int)),
            forall|k: int| 0 <= k < done.len() ==> done[k] != seq!['.', '.'],
            found == exists|k: int| 0 <= k < done.len() && is_name(#[trigger] done[k]),
        decreases n - i,
    {
        let mut j: usize = i;
        while j < n && c[j] != '/'
            invariant
                n == c@.len(),
                i <= j <= n,
                forall|x: int| i <= x < j ==> c@[x] != '/',
            decreases n - j,
        {
            j += 1;
        }
        let ghost s = c@.subrange(i as int, n as int);
        let ghost piece = c@.subrange(i as int, j as int);
        proof {
            lemma_segment_len(s, (j - i) as int);
            assert(s.subrange(0, (j - i) as int) =~= piece);
        }
        let dotdot = j - i == 2 && c[i] == '.' && c[i + 1] == '.';
        let dot = j - i == 1 && c[i] == '.';
        proof {
            if dotdot {
                assert(piece =~= seq!['.', '.']);
            } else {
                assert(piece != seq!['.', '.']) by {
                    if piece.len() == 2 {
                        assert(piece[0] == c@[i as int] && piece[1] == c@[i + 1]);
                    }
                }
            }
            if dot {
                assert(piece =~= seq!['.']);
            } else {
                assert(piece != seq!['.']) by {
                    if piece.len() == 1 {
                        assert(piece[0] == c@[i as int]);
                    }
                }
            }
        }
        let ghost next = done.push(piece);
        if j == n {
            assert(s =~= piece);
            assert(segments(s) == seq![piece]);
            assert(segments(t) =~= next);
        } else {
            assert(s.subrange((j - i) + 1, s.len() as int) =~= c@.subrange(j + 1, n as int));
            assert(segments(s) == seq![piece] + segments(c@.subrange(j + 1, n as int)));
            assert(segments(t) =~= next + segments(c@.subrange(j + 1, n as int)));
        }
        if dotdot {
            assert(segments(t)[done.len() as int] == piece);
            return Err(InstallError::NotInside { rel: trimmed, dir: owned(dir) });
        }
        if j > i && !dot {
            assert(is_name(next[done.len() as int]));
            found = true;
        }
        proof {
            assert(found == exists|k: int| 0 <= k < next.len() && is_name(#[trigger] next[k])) by {
                if exists|k: int| 0 <= k < done.len() && is_name(#[trigger] done[k]) {
                    let k = choose|k: int| 0 <= k < done.len() && is_name(#[trigger] done[k]);
                    assert(next[k] == done[k]);
                }
                if exists|k: int| 0 <= k < next.len() && is_name(#[trigger] next[k]) {
                    let k = choose|k: int| 0 <= k < next.len() && is_name(#[trigger] next[k]);
                    if k < done.len() {
                        assert(next[k] == done[k]);
                    }
                }
            }
            assert forall|k: int| 0 <= k < next.len() implies next[k] != seq!['.', '.'] by {
                if k < done.len() {
                    assert(next[k] == done[k]);
                }
            }
            done = next;
        }
        if j == n {
            assert(segments(t) == done);
            if !found {
                return Err(InstallError::NotInside { rel: trimmed, dir: owned(dir) });
            }
            return Ok(join(dir, trimmed.as_str()));
        }
        i = j + 1;
    }
}

/// A local installation: the command to spawn and its arguments.
#[derive(Debug, Clone)]
pub struct Installed {
    pub id: String,
    pub version: String,
    pub command: String,
    pub args: Vec<String>,
}

/// What an installed package's manifest says under `bin`.
#[derive(Debug, Clone, PartialEq, Eq)]
pub enum BinField {
    /// One executable, named after the package.
    Text,
    /// Executables by name, in the order the parsed manifest yields its keys;
    /// the first is the one run.
    Table(Vec<String>),
    /// Anything else, or nothing.
    Other,
}

/// What follows the last `/` of `name`, or all of it when there is none.
pub open spec fn last_piece(name: Seq<char>) -> Seq<char> {
    name.subrange(last_index_of(name, '/') + 1, name.len() as int)
}

/// The executable npm linked for `package`, as its manifest's `bin` names it:
/// the package's own last name for a single entry, the first name for a table.
pub fn bin_name(package: &str, bin: &BinField) -> (r: Result<String, InstallError>)
    ensures
        (match *bin {
            BinField::Text => r matches Ok(s) && s@ == last_piece(package_of(package@)),
            BinField::Table(names) => if names@.len() > 0 {
                r matches Ok(s) && s@ == names@[0]@
            } else {
                r matches Err(e) && e matches InstallError::NoExecutable { name }
                    && name@ == package_of(package@)
            },
            BinField::Other => r matches Err(e) && e matches InstallError::NoExecutable { name }
                && name@ == package_of(package@),
        }),
{
    let name = package_name(package);
    match bin {
        BinField::Text => {
            let c = chars_of(name);
            let n = c.len();
            let mut i: usize = n;
            assert(c@.subrange(0, n as int) =~= c@);
            while i > 0 && c[i - 1] != '/'
                invariant
                    n == c@.len(),
                    i <= n,
                    last_index_of(c@, '/') == last_index_of(c@.subrange(0, i as int), '/'),
                decreases i,
            {
                assert(c@.subrange(0, i as int).drop_last() =~= c@.subrange(0, i - 1));
                i -= 1;
            }
            proof {
                if i > 0 {
                    assert(c@.subrange(0, i as int).last() == '/');
                }
            }
            Ok(text_of(&c, i, n))
        },
        BinField::Table(names) => {
            if names.len() > 0 {
                Ok(names[0].clone())
            } else {
                Err(InstallError::NoExecutable { name: owned(name) })
            }
        },
        BinField::Other => Err(InstallError::NoExecutable { name: owned(name) }),
    }
}

/// How to start an agent.
#[derive(Debug, Clone, Default)]
pub struct Launch {
    pub command: String,
    pub args: Vec<String>,
    pub env: BTreeMap<String, String>,
}

impl Launch {
    /// Run `command` with no arguments and nothing added to its environment.
    pub fn new(command: String) -> (l: Launch)
        ensures
            l.command@ == command@,
            l.args@.len() == 0,
            l.env@ == Map::<String, String>::empty(),
    {
        Launch { command, args: Vec::new(), env: BTreeMap::new() }
    }

    /// Run an agent this crate installed, as it was recorded.
    pub fn from_installed(installed: &Installed) -> (l: Launch)
        ensures
            l.command@ == installed.command@,
            l.args@.len() == installed.args@.len(),
            forall|i: int| 0 <= i < l.args@.len() ==> l.args@[i]@ == installed.args@[i]@,
            l.env@ == Map::<String, String>::empty(),
    {
        let mut args: Vec<String> = Vec::new();
        let mut i: usize = 0;
        while i < installed.args.len()
            invariant
                i <= installed.args@.len(),
                args@.len() == i,
                forall|k: int| 0 <= k < i ==> args@[k]@ == installed.args@[k]@,
            decreases installed.args@.len() - i,
        {
            args.push(installed.args[i].clone());
            i += 1;
        }
        Launch { command: installed.command.clone(), args, env: BTreeMap::new() }
    }
}

/// What `contained` hands back starts with the directory it was given: a
/// relative path that stays inside cannot replace it.
pub proof fn lemma_contained_paths_start_at_dir(dir: Seq<char>, rel: Seq<char>)
    requires
        stays_inside(rel),
    ensures
        joined(dir, trim_dot_slash(rel)).len() >= dir.len(),
        joined(dir, trim_dot_slash(rel)).subrange(0, dir.len() as int) == dir,
{
    assert(joined(dir, trim_dot_slash(rel)).subrange(0, dir.len() as int) =~= dir);
}

/// An agent's installation record sits in its own directory.
pub proof fn lemma_record_sits_in_agent_dir(data_dir: Seq<char>, id: Seq<char>)
    ensures
        joined(agent_dir_of(data_dir, id), "install.json"@).subrange(
            0,
            agent_dir_of(data_dir, id).len() as int,
        ) == agent_dir_of(data_dir, id),
{
    reveal_strlit("install.json");
    let d = agent_dir_of(data_dir, id);
    assert(joined(d, "install.json"@).subrange(0, d.len() as int) =~= d);
}

/// A package name is the front of the spec it came from.
pub proof fn lemma_package_is_a_prefix(spec: Seq<char>)
    ensures
        package_of(spec).len() <= spec.len(),
        package_of(spec) == spec.subrange(0, package_of(spec).len() as int),
{
    lemma_last_index_in_range(spec, '@');
    assert(spec.subrange(0, spec.len() as int) =~= spec);
}

proof fn lemma_last_index_in_range(s: Seq<char>, c: char)
    ensures
        -1 <= last_index_of(s, c) < s.len(),
        last_index_of(s, c) >= 0 ==> s[last_index_of(s, c)] == c,
    decreases s.len(),
{
    if s.len() > 0 && s.last() != c {
        lemma_last_index_in_range(s.drop_last(), c);
    }
}

} // verus!
