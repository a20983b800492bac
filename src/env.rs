//! Environment Resolver: the variables handed to the companion process, seeded
//! with the listening port and extended from an optional override file of
//! `KEY=VALUE` lines.
use vstd::prelude::*;
use crate::text::{decimal, decimal_string, trim, trim_bounds};

verus! {

/// First index `j >= i` with `s[j] == c`, or `s.len()` when there is none.
pub open spec fn next_index(s: Seq<char>, c: char, i: int) -> int
    decreases s.len() - i,
{
    if i < 0 || i >= s.len() || s[i] == c {
        i
    } else {
        next_index(s, c, i + 1)
    }
}

pub proof fn lemma_next_index_bounds(s: Seq<char>, c: char, i: int)
    requires
        0 <= i <= s.len(),
    ensures
        i <= next_index(s, c, i) <= s.len(),
        next_index(s, c, i) < s.len() ==> s[next_index(s, c, i)] == c,
    decreases s.len() - i,
{
    if i < s.len() && s[i] != c {
        lemma_next_index_bounds(s, c, i + 1);
    }
}

/// What one line of an override file contributes: nothing for a blank line, a
/// comment (first non-space character `#`) or a line without `=`; otherwise the
/// text before the first `=` and the text after it, both trimmed.
pub open spec fn parse_line(line: Seq<char>) -> Option<(Seq<char>, Seq<char>)> {
    let t = trim(line);
    let k = next_index(t, '=', 0);
    if t.len() == 0 || t[0] == '#' || k >= t.len() {
        None
    } else {
        Some((trim(t.take(k)), trim(t.skip(k + 1))))
    }
}

/// The entries of the lines of `s` that start at or after index `i`, in order.
/// Lines are separated by `\n`; a `\r` before it is whitespace and trimmed.
pub open spec fn entries_from(s: Seq<char>, i: int) -> Seq<(Seq<char>, Seq<char>)>
    decreases s.len() - i,
    via entries_from_decreases
{
    if i < 0 || i > s.len() {
        Seq::empty()
    } else {
        let j = next_index(s, '\n', i);
        let here = match parse_line(s.subrange(i, j)) {
            Some(e) => seq![e],
            None => Seq::empty(),
        };
        if j >= s.len() {
            here
        } else {
            here + entries_from(s, j + 1)
        }
    }
}

#[via_fn]
proof fn entries_from_decreases(s: Seq<char>, i: int) {
    if 0 <= i <= s.len() {
        lemma_next_index_bounds(s, '\n', i);
    }
}

/// A blank line or a comment line contributes no entry, whatever else the
/// file holds.
pub proof fn lemma_blank_and_comment_lines_add_nothing(line: Seq<char>)
    requires
        trim(line).len() == 0 || trim(line)[0] == '#',
    ensures
        parse_line(line) is None,
{
}

/// The entries of an override file, in the order of its lines.
pub open spec fn parse_entries(s: Seq<char>) -> Seq<(Seq<char>, Seq<char>)> {
    entries_from(s, 0)
}

/// The views of a sequence of string pairs.
pub open spec fn pair_views(v: Seq<(String, String)>) -> Seq<(Seq<char>, Seq<char>)> {
    v.map_values(|p: (String, String)| (p.0@, p.1@))
}

fn chars_of(s: &str) -> (r: Vec<char>)
    ensures
        r@ == s@,
{
    let n = s.unicode_len();
    let mut r: Vec<char> = Vec::new();
    let mut i: usize = 0;
    while i < n
        invariant
            n == s@.len(),
            i <= n,
            r@ == s@.take(i as int),
        decreases n - i,
    {
        r.push(s.get_char(i));
        i = i + 1;
        assert(r@ =~= s@.take(i as int));
    }
    assert(r@ =~= s@);
    r
}

fn find_char(s: &Vec<char>, c: char, from: usize, to: usize) -> (r: usize)
    requires
        from <= to <= s@.len(),
    ensures
        from <= r <= to,
        r < to ==> s@[r as int] == c,
        forall|j: int| from <= j < r ==> s@[j] != c,
{
    let mut k = from;
    while k < to && s[k] != c
        invariant
            from <= k <= to <= s@.len(),
            forall|j: int| from <= j < k ==> s@[j] != c,
        decreases to - k,
    {
        k = k + 1;
    }
    k
}

proof fn lemma_next_index_is_first(s: Seq<char>, c: char, i: int, r: int)
    requires
        0 <= i <= r <= s.len(),
        r < s.len() ==> s[r] == c,
        forall|j: int| i <= j < r ==> s[j] != c,
    ensures
        next_index(s, c, i) == r,
    decreases r - i,
{
    if i < r {
        lemma_next_index_is_first(s, c, i + 1, r);
    }
}

fn substring(text: &str, from: usize, to: usize) -> (r: String)
    requires
        from <= to <= text@.len(),
    ensures
        r@ == text@.subrange(from as int, to as int),
{
    String::from_str(text.substring_char(from, to))
}

/// Parses an override file: one `KEY=VALUE` pair per line, blank lines and
/// lines starting with `#` ignored, key and value trimmed.
pub fn parse_env_file(text: &str) -> (r: Vec<(String, String)>)
    ensures
        pair_views(r@) == parse_entries(text@),
{
    let s = chars_of(text);
    let n = s.len();
    let mut acc: Vec<(String, String)> = Vec::new();
    let mut i: usize = 0;
    loop
        invariant_except_break
            parse_entries(text@) == pair_views(acc@) + entries_from(text@, i as int),
        invariant
            s@ == text@,
            n == s@.len(),
            i <= n,
        ensures
            parse_entries(text@) == pair_views(acc@),
        decreases n - i,
    {
        let j = find_char(&s, '\n', i, n);
        proof {
            lemma_next_index_is_first(s@, '\n', i as int, j as int);
        }
        let ghost line = s@.subrange(i as int, j as int);
        let ghost before = pair_views(acc@);
        let (lo, hi) = trim_bounds(&s, i, j);
        let ghost t = s@.subrange(lo as int, hi as int);
        assert(t == trim(line));
        if lo < hi && s[lo] != '#' {
            let k = find_char(&s, '=', lo, hi);
            proof {
                lemma_next_index_is_first(t, '=', 0, k - lo);
            }
            if k < hi {
                let (klo, khi) = trim_bounds(&s, lo, k);
                let (vlo, vhi) = trim_bounds(&s, k + 1, hi);
                assert(t.take(k - lo) =~= s@.subrange(lo as int, k as int));
                assert(t.skip(k - lo + 1) =~= s@.subrange(k + 1, hi as int));
                let key = substring(text, klo, khi);
                let value = substring(text, vlo, vhi);
                acc.push((key, value));
                assert(parse_line(line) == Some((key@, value@)));
                assert(pair_views(acc@) =~= before + seq![(key@, value@)]);
            } else {
                assert(parse_line(line) is None);
            }
        } else {
            assert(parse_line(line) is None);
        }
        if j >= n {
            assert(before + entries_from(text@, i as int) =~= pair_views(acc@));
            break;
        }
        assert(pair_views(acc@) + entries_from(text@, j + 1) =~= before + entries_from(text@, i as int));
        i = j + 1;
    }
    acc
}

/// The map that a sequence of pairs builds when inserted in order, later pairs
/// overwriting earlier ones.
pub open spec fn map_of(s: Seq<(Seq<char>, Seq<char>)>) -> Map<Seq<char>, Seq<char>>
    decreases s.len(),
{
    if s.len() == 0 {
        Map::empty()
    } else {
        map_of(s.drop_last()).insert(s.last().0, s.last().1)
    }
}

/// Inserts each entry of `es` into `m`, in order.
pub open spec fn insert_all(
    m: Map<Seq<char>, Seq<char>>,
    es: Seq<(Seq<char>, Seq<char>)>,
) -> Map<Seq<char>, Seq<char>>
    decreases es.len(),
{
    if es.len() == 0 {
        m
    } else {
        insert_all(m, es.drop_last()).insert(es.last().0, es.last().1)
    }
}

/// The name of the variable that carries the listening port.
pub open spec fn port_key() -> Seq<char> {
    "PORT"@
}

/// The set seeded with the listening port alone.
pub open spec fn seeded(port: u16) -> Map<Seq<char>, Seq<char>> {
    map![port_key() => decimal(port as nat)]
}

/// The resolved environment: the seeded port, then every entry of the override
/// file when one was found.
pub open spec fn resolved(port: u16, file: Option<Seq<char>>) -> Map<Seq<char>, Seq<char>> {
    match file {
        None => seeded(port),
        Some(t) => insert_all(seeded(port), parse_entries(t)),
    }
}

pub open spec fn keys_unique(s: Seq<(Seq<char>, Seq<char>)>) -> bool {
    forall|i: int, j: int| 0 <= i < s.len() && 0 <= j < s.len() && i != j ==> s[i].0 != s[j].0
}

proof fn lemma_map_of_contains(s: Seq<(Seq<char>, Seq<char>)>, k: Seq<char>)
    ensures
        map_of(s).contains_key(k) <==> exists|i: int| 0 <= i < s.len() && s[i].0 == k,
    decreases s.len(),
{
    if s.len() > 0 {
        lemma_map_of_contains(s.drop_last(), k);
        if map_of(s.drop_last()).contains_key(k) {
            let i = choose|i: int| 0 <= i < s.drop_last().len() && s.drop_last()[i].0 == k;
            assert(s[i].0 == k);
        }
        if exists|i: int| 0 <= i < s.len() && s[i].0 == k {
            let i = choose|i: int| 0 <= i < s.len() && s[i].0 == k;
            if i < s.len() - 1 {
                assert(s.drop_last()[i].0 == k);
            }
        }
    }
}

proof fn lemma_map_of_index(s: Seq<(Seq<char>, Seq<char>)>, i: int)
    requires
        keys_unique(s),
        0 <= i < s.len(),
    ensures
        map_of(s).contains_key(s[i].0),
        map_of(s)[s[i].0] == s[i].1,
    decreases s.len(),
{
    if i < s.len() - 1 {
        lemma_map_of_index(s.drop_last(), i);
        assert(s[i].0 != s.last().0);
    }
}

proof fn lemma_map_of_update(s: Seq<(Seq<char>, Seq<char>)>, i: int, v: Seq<char>)
    requires
        keys_unique(s),
        0 <= i < s.len(),
    ensures
        map_of(s.update(i, (s[i].0, v))) == map_of(s).insert(s[i].0, v),
    decreases s.len(),
{
    let u = s.update(i, (s[i].0, v));
    if i == s.len() - 1 {
        assert(u.drop_last() =~= s.drop_last());
        assert(map_of(u) =~= map_of(s).insert(s[i].0, v));
    } else {
        assert(u.drop_last() =~= s.drop_last().update(i, (s[i].0, v)));
        lemma_map_of_update(s.drop_last(), i, v);
        assert(s[i].0 != s.last().0);
        assert(map_of(u) =~= map_of(s).insert(s[i].0, v));
    }
}

/// A set of environment variables: each name at most once.
pub struct EnvironmentSet {
    vars: Vec<(String, String)>,
}

impl View for EnvironmentSet {
    type V = Map<Seq<char>, Seq<char>>;

    closed spec fn view(&self) -> Map<Seq<char>, Seq<char>> {
        map_of(pair_views(self.vars@))
    }
}

impl EnvironmentSet {
    #[verifier::type_invariant]
    closed spec fn names_unique(self) -> bool {
        keys_unique(pair_views(self.vars@))
    }

    /// The set that holds the listening port alone.
    pub fn with_port(port: u16) -> (r: EnvironmentSet)
        ensures
            r@ == seeded(port),
    {
        let key = String::from_str("PORT");
        let value = decimal_string(port as u64);
        let vars = vec![(key, value)];
        let r = EnvironmentSet { vars };
        assert(pair_views(r.vars@) =~= seq![(port_key(), decimal(port as nat))]);
        let ghost ps = pair_views(r.vars@);
        assert(ps.drop_last() =~= Seq::empty());
        assert(map_of(ps.drop_last()) == Map::<Seq<char>, Seq<char>>::empty());
        assert(map_of(ps) =~= seeded(port));
        r
    }

    fn position(&self, name: &String) -> (r: Option<usize>)
        ensures
            match r {
                Some(i) => i < self.vars@.len() && self.vars@[i as int].0@ == name@,
                None => forall|i: int| 0 <= i < self.vars@.len() ==> self.vars@[i].0@ != name@,
            },
    {
        let mut i: usize = 0;
        while i < self.vars.len()
            invariant
                i <= self.vars@.len(),
                forall|j: int| 0 <= j < i ==> self.vars@[j].0@ != name@,
            decreases self.vars@.len() - i,
        {
            if self.vars[i].0 == *name {
                return Some(i);
            }
            i = i + 1;
        }
        None
    }

    /// Sets `name` to `value`, replacing an earlier value of `name`.
    pub fn insert(&mut self, name: String, value: String)
        ensures
            final(self)@ == old(self)@.insert(name@, value@),
    {
        proof {
            use_type_invariant(&*self);
        }
        let ghost s = pair_views(self.vars@);
        let found = self.position(&name);
        let mut vars: Vec<(String, String)> = Vec::new();
        std::mem::swap(&mut self.vars, &mut vars);
        match found {
            Some(i) => {
                proof {
                    lemma_map_of_update(s, i as int, value@);
                }
                let ghost v = value@;
                vars.set(i, (name, value));
                assert(pair_views(vars@) =~= s.update(i as int, (s[i as int].0, v)));
            },
            None => {
                let ghost kv = (name@, value@);
                vars.push((name, value));
                assert(pair_views(vars@) =~= s.push(kv));
                assert(pair_views(vars@).drop_last() =~= s);
            },
        }
        self.vars = vars;
    }

    /// The value of `name`, if the set holds it.
    pub fn get(&self, name: &str) -> (r: Option<&String>)
        ensures
            match r {
                Some(v) => self@.contains_key(name@) && self@[name@] == v@,
                None => !self@.contains_key(name@),
            },
    {
        proof {
            use_type_invariant(self);
        }
        let ghost s = pair_views(self.vars@);
        let key = String::from_str(name);
        match self.position(&key) {
            Some(i) => {
                proof {
                    lemma_map_of_index(s, i as int);
                }
                Some(&self.vars[i].1)
            },
            None => {
                proof {
                    lemma_map_of_contains(s, name@);
                }
                None
            },
        }
    }

    /// The variables as name/value pairs, each name once.
    pub fn pairs(&self) -> (r: &Vec<(String, String)>)
        ensures
            map_of(pair_views(r@)) == self@,
            keys_unique(pair_views(r@)),
    {
        proof {
            use_type_invariant(self);
        }
        &self.vars
    }
}

/// Builds the environment for the companion process: the listening port, then
/// the entries of the override file's text when one was found, each overwriting
/// an earlier value of its name.
pub fn resolve(default_port: u16, override_text: Option<&str>) -> (r: EnvironmentSet)
    ensures
        r@ == resolved(default_port, match override_text { Some(t) => Some(t@), None => None }),
{
    let mut set = EnvironmentSet::with_port(default_port);
    match override_text {
        None => set,
        Some(text) => {
            let entries = parse_env_file(text);
            let ghost es = pair_views(entries@);
            let mut i: usize = 0;
            while i < entries.len()
                invariant
                    i <= entries@.len(),
                    es == pair_views(entries@),
                    es == parse_entries(text@),
                    set@ == insert_all(seeded(default_port), es.take(i as int)),
                decreases entries@.len() - i,
            {
                let name = entries[i].0.clone();
                let value = entries[i].1.clone();
                set.insert(name, value);
                assert(es.take(i + 1).drop_last() =~= es.take(i as int));
                i = i + 1;
            }
            assert(es.take(i as int) =~= es);
            set
        },
    }
}

pub open spec fn present(d: Option<String>) -> Seq<Seq<char>> {
    match d {
        Some(s) => seq![s@],
        None => Seq::empty(),
    }
}

pub open spec fn string_views(v: Seq<String>) -> Seq<Seq<char>> {
    v.map_values(|s: String| s@)
}

fn push_present(out: &mut Vec<String>, d: Option<String>)
    ensures
        string_views(final(out)@) == string_views(old(out)@) + present(d),
{
    let ghost before = string_views(out@);
    match d {
        Some(s) => {
            let ghost v = s@;
            out.push(s);
            assert(string_views(out@) =~= before + seq![v]);
        },
        None => {
            assert(string_views(out@) =~= before + Seq::empty());
        },
    }
}

/// The directories searched for the override file, in priority order: the
/// executable's directory, its parent, the application-resource directory, the
/// application-data directory and the working directory. Those that could not
/// be determined are left out. Only the first file found is read.
pub fn override_search_dirs(
    exe_dir: Option<String>,
    exe_parent: Option<String>,
    resource_dir: Option<String>,
    app_data_dir: Option<String>,
    working_dir: Option<String>,
) -> (r: Vec<String>)
    ensures
        string_views(r@) == present(exe_dir) + present(exe_parent) + present(resource_dir)
            + present(app_data_dir) + present(working_dir),
{
    let mut out: Vec<String> = Vec::new();
    assert(string_views(out@) =~= Seq::empty());
    push_present(&mut out, exe_dir);
    push_present(&mut out, exe_parent);
    push_present(&mut out, resource_dir);
    push_present(&mut out, app_data_dir);
    push_present(&mut out, working_dir);
    assert(string_views(out@) =~= present(exe_dir) + present(exe_parent) + present(resource_dir)
        + present(app_data_dir) + present(working_dir));
    out
}

} // verus!
