use vstd::prelude::*;

verus! {

/// One entry of an installation metadata store, as the host read it.
#[derive(Clone, Debug)]
pub struct InstallationRecord {
    pub display_name: String,
    pub publisher: String,
    pub install_location: Option<String>,
    pub uninstall_command: Option<String>,
    pub display_icon: Option<String>,
}

pub open spec fn is_separator(c: char) -> bool {
    c == '\\' || c == '/'
}

pub open spec fn is_space(c: char) -> bool {
    c == ' ' || c == '\t' || c == '\n' || c == '\r' || c == '\u{0B}' || c == '\u{0C}'
}

pub open spec fn opt_view(o: Option<String>) -> Option<Seq<char>> {
    match o {
        Some(s) => Some(s@),
        None => None,
    }
}

/// `s` without its leading blanks.
pub open spec fn spec_trim_start(s: Seq<char>) -> Seq<char>
    decreases s.len(),
{
    if s.len() > 0 && is_space(s[0]) {
        spec_trim_start(s.drop_first())
    } else {
        s
    }
}

/// The longest prefix of `s` that does not hold `c`.
pub open spec fn spec_prefix_before(s: Seq<char>, c: char) -> Seq<char>
    decreases s.len(),
{
    if s.len() == 0 || s[0] == c {
        Seq::empty()
    } else {
        seq![s[0]] + spec_prefix_before(s.drop_first(), c)
    }
}

/// The longest prefix of `s` that holds no blank.
pub open spec fn spec_first_word(s: Seq<char>) -> Seq<char>
    decreases s.len(),
{
    if s.len() == 0 || is_space(s[0]) {
        Seq::empty()
    } else {
        seq![s[0]] + spec_first_word(s.drop_first())
    }
}

/// Index of the last path separator in `s`, or -1 when it has none.
pub open spec fn spec_last_separator(s: Seq<char>) -> int
    decreases s.len(),
{
    if s.len() == 0 {
        -1
    } else if is_separator(s.last()) {
        s.len() - 1
    } else {
        spec_last_separator(s.drop_last())
    }
}

/// The directory that holds the path `p`: everything before its last
/// separator, keeping that separator when it stands right after a drive
/// (`C:\`) or at the start (`\`). A path without a separator has none.
pub open spec fn spec_parent_dir(p: Seq<char>) -> Option<Seq<char>> {
    let k = spec_last_separator(p);
    if k < 0 {
        None
    } else if k == 0 || p[k - 1] == ':' {
        Some(p.take(k + 1))
    } else {
        Some(p.take(k))
    }
}

/// The file `name` in the directory `dir`.
pub open spec fn spec_join_file(dir: Seq<char>, name: Seq<char>) -> Seq<char> {
    if dir.len() > 0 && is_separator(dir.last()) {
        dir + name
    } else {
        dir + seq!['\\'] + name
    }
}

/// The program an uninstall command runs: the quoted text after an opening
/// quote (to the closing quote, or to the end), else the first word.
pub open spec fn spec_command_program(cmd: Seq<char>) -> Seq<char> {
    let t = spec_trim_start(cmd);
    if t.len() > 0 && t[0] == '"' {
        spec_prefix_before(t.drop_first(), '"')
    } else {
        spec_first_word(t)
    }
}

/// The file part of a display-icon entry `path[,index]`.
pub open spec fn spec_icon_file(icon: Seq<char>) -> Seq<char> {
    spec_prefix_before(icon, ',')
}

/// First strategy: a non-empty recorded install location, as it stands.
pub open spec fn spec_from_install_location(r: InstallationRecord) -> Option<Seq<char>> {
    match r.install_location {
        Some(l) => if l@.len() > 0 {
            Some(l@)
        } else {
            None
        },
        None => None,
    }
}

/// Second strategy: the executable `exe` beside the uninstaller.
pub open spec fn spec_from_uninstall_command(r: InstallationRecord, exe: Seq<char>) -> Option<
    Seq<char>,
> {
    match r.uninstall_command {
        Some(u) => match spec_parent_dir(spec_command_program(u@)) {
            Some(d) => Some(spec_join_file(d, exe)),
            None => None,
        },
        None => None,
    }
}

/// Third strategy: the directory of the display icon.
pub open spec fn spec_from_display_icon(r: InstallationRecord) -> Option<Seq<char>> {
    match r.display_icon {
        Some(i) => spec_parent_dir(spec_icon_file(i@)),
        None => None,
    }
}

/// The strategies in order; the first that yields a path wins.
pub open spec fn spec_record_path(r: InstallationRecord, exe: Seq<char>) -> Option<Seq<char>> {
    match spec_from_install_location(r) {
        Some(p) => Some(p),
        None => match spec_from_uninstall_command(r, exe) {
            Some(p) => Some(p),
            None => spec_from_display_icon(r),
        },
    }
}

/// Number of leading blanks of `s`.
fn leading_spaces(s: &str) -> (k: usize)
    ensures
        k <= s@.len(),
        spec_trim_start(s@) == s@.skip(k as int),
{
    let n = s.unicode_len();
    let mut i: usize = 0;
    assert(s@.skip(0) =~= s@);
    while i < n && is_space_char(s.get_char(i))
        invariant
            n == s@.len(),
            i <= n,
            spec_trim_start(s@) == spec_trim_start(s@.skip(i as int)),
        decreases n - i,
    {
        assert(s@.skip(i as int).drop_first() =~= s@.skip(i + 1));
        i = i + 1;
    }
    i
}

fn is_space_char(c: char) -> (r: bool)
    ensures
        r == is_space(c),
{
    c == ' ' || c == '\t' || c == '\n' || c == '\r' || c == '\u{0B}' || c == '\u{0C}'
}

/// Length of the longest prefix of `s` without `c`.
fn prefix_len_before(s: &str, c: char) -> (k: usize)
    ensures
        k <= s@.len(),
        spec_prefix_before(s@, c) == s@.take(k as int),
{
    let n = s.unicode_len();
    let mut i: usize = 0;
    assert(s@.skip(0) =~= s@);
    assert(s@.take(0) + s@.skip(0) =~= s@);
    while i < n && s.get_char(i) != c
        invariant
            n == s@.len(),
            i <= n,
            spec_prefix_before(s@, c) == s@.take(i as int) + spec_prefix_before(s@.skip(i as int), c),
        decreases n - i,
    {
        assert(s@.skip(i as int).drop_first() =~= s@.skip(i + 1));
        assert(s@.take(i as int) + seq![s@[i as int]] =~= s@.take(i + 1));
        i = i + 1;
    }
    assert(s@.take(i as int) + Seq::<char>::empty() =~= s@.take(i as int));
    i
}

/// Length of the first word of `s`.
fn first_word_len(s: &str) -> (k: usize)
    ensures
        k <= s@.len(),
        spec_first_word(s@) == s@.take(k as int),
{
    let n = s.unicode_len();
    let mut i: usize = 0;
    assert(s@.skip(0) =~= s@);
    assert(s@.take(0) + s@.skip(0) =~= s@);
    while i < n && !is_space_char(s.get_char(i))
        invariant
            n == s@.len(),
            i <= n,
            spec_first_word(s@) == s@.take(i as int) + spec_first_word(s@.skip(i as int)),
        decreases n - i,
    {
        assert(s@.skip(i as int).drop_first() =~= s@.skip(i + 1));
        assert(s@.take(i as int) + seq![s@[i as int]] =~= s@.take(i + 1));
        i = i + 1;
    }
    assert(s@.take(i as int) + Seq::<char>::empty() =~= s@.take(i as int));
    i
}

/// Index of the last path separator of `s`.
fn last_separator(s: &str) -> (r: Option<usize>)
    ensures
        match r {
            Some(k) => k as int == spec_last_separator(s@) && k < s@.len(),
            None => spec_last_separator(s@) == -1,
        },
{
    let n = s.unicode_len();
    let mut i: usize = n;
    assert(s@.take(n as int) =~= s@);
    while i > 0
        invariant
            n == s@.len(),
            i <= n,
            spec_last_separator(s@) == spec_last_separator(s@.take(i as int)),
        decreases i,
    {
        let c = s.get_char(i - 1);
        assert(s@.take(i as int).last() == c);
        if c == '\\' || c == '/' {
            return Some(i - 1);
        }
        assert(s@.take(i as int).drop_last() =~= s@.take(i - 1));
        i = i - 1;
    }
    assert(s@.take(0) =~= Seq::<char>::empty());
    None
}

/// The directory that holds the path `p`.
pub fn parent_dir(p: &str) -> (r: Option<String>)
    ensures
        opt_view(r) == spec_parent_dir(p@),
{
    let n = p.unicode_len();
    match last_separator(p) {
        None => None,
        Some(k) => {
            let keep = k == 0 || p.get_char(k - 1) == ':';
            let end = if keep {
                k + 1
            } else {
                k
            };
            Some(String::from_str(p.substring_char(0, end)))
        },
    }
}

/// The file `name` in the directory `dir`.
pub fn join_file(dir: &str, name: &str) -> (r: String)
    ensures
        r@ == spec_join_file(dir@, name@),
{
    let n = dir.unicode_len();
    let head = String::from_str(dir);
    if n > 0 && (dir.get_char(n - 1) == '\\' || dir.get_char(n - 1) == '/') {
        head.concat(name)
    } else {
        let r = head.concat("\\").concat(name);
        proof {
            reveal_strlit("\\");
        }
        assert(r@ =~= dir@ + seq!['\\'] + name@);
        r
    }
}

/// The program that an uninstall command runs.
pub fn command_program(cmd: &str) -> (r: String)
    ensures
        r@ == spec_command_program(cmd@),
{
    let n = cmd.unicode_len();
    let start = leading_spaces(cmd);
    let t = cmd.substring_char(start, n);
    assert(t@ == spec_trim_start(cmd@));
    let m = t.unicode_len();
    if m > 0 && t.get_char(0) == '"' {
        let quoted = t.substring_char(1, m);
        assert(quoted@ =~= t@.drop_first());
        let k = prefix_len_before(quoted, '"');
        String::from_str(quoted.substring_char(0, k))
    } else {
        let k = first_word_len(t);
        String::from_str(t.substring_char(0, k))
    }
}

/// The file part of a display-icon entry.
pub fn icon_file(icon: &str) -> (r: String)
    ensures
        r@ == spec_icon_file(icon@),
{
    let k = prefix_len_before(icon, ',');
    String::from_str(icon.substring_char(0, k))
}

/// The installation path that one record gives, trying its install location,
/// then its uninstall command, then its display icon; `exe` is the name of
/// the executable that stands beside the uninstaller.
pub fn record_path(r: &InstallationRecord, exe: &str) -> (p: Option<String>)
    ensures
        opt_view(p) == spec_record_path(*r, exe@),
{
    if let Some(l) = &r.install_location {
        if l.as_str().unicode_len() > 0 {
            return Some(l.clone());
        }
    }
    if let Some(u) = &r.uninstall_command {
        let program = command_program(u.as_str());
        if let Some(d) = parent_dir(program.as_str()) {
            return Some(join_file(d.as_str(), exe));
        }
    }
    match &r.display_icon {
        Some(i) => {
            let file = icon_file(i.as_str());
            parent_dir(file.as_str())
        },
        None => None,
    }
}

/// Searches installation metadata stores for the record of one application,
/// named by its display name and publisher, whose executable is `executable`.
#[derive(Clone, Debug)]
pub struct InstallationLocator {
    pub display_name: String,
    pub publisher: String,
    pub executable: String,
}

impl InstallationLocator {
    /// The record carries this application's name and publisher, exactly.
    pub open spec fn identifies(&self, r: InstallationRecord) -> bool {
        r.display_name@ == self.display_name@ && r.publisher@ == self.publisher@
    }

    /// The path that one record yields for this application.
    pub open spec fn path_from(&self, r: InstallationRecord) -> Option<Seq<char>> {
        if self.identifies(r) {
            spec_record_path(r, self.executable@)
        } else {
            None
        }
    }

    /// The first path that a record of `records` yields, in order.
    pub open spec fn spec_first_path(&self, records: Seq<InstallationRecord>) -> Option<Seq<char>>
        decreases records.len(),
    {
        if records.len() == 0 {
            None
        } else {
            match self.path_from(records[0]) {
                Some(p) => Some(p),
                None => self.spec_first_path(records.drop_first()),
            }
        }
    }

    /// The first path that a store yields, the stores taken in priority
    /// order; partial results of different stores are never merged.
    pub open spec fn spec_locate(&self, stores: Seq<Vec<InstallationRecord>>) -> Option<Seq<char>>
        decreases stores.len(),
    {
        if stores.len() == 0 {
            None
        } else {
            match self.spec_first_path(stores[0]@) {
                Some(p) => Some(p),
                None => self.spec_locate(stores.drop_first()),
            }
        }
    }

    /// The locator of the Hydra launcher.
    pub fn hydra() -> (r: InstallationLocator)
        ensures
            r.display_name@ == "Hydra"@,
            r.publisher@ == "Los Broxas"@,
            r.executable@ == "Hydra.exe"@,
    {
        InstallationLocator {
            display_name: String::from_str("Hydra"),
            publisher: String::from_str("Los Broxas"),
            executable: String::from_str("Hydra.exe"),
        }
    }

    /// The path that the first matching record of `records` yields.
    pub fn first_path(&self, records: &Vec<InstallationRecord>) -> (r: Option<String>)
        ensures
            opt_view(r) == self.spec_first_path(records@),
    {
        let mut i: usize = 0;
        assert(records@.skip(0) =~= records@);
        while i < records.len()
            invariant
                i <= records@.len(),
                self.spec_first_path(records@) == self.spec_first_path(records@.skip(i as int)),
            decreases records@.len() - i,
        {
            let r = &records[i];
            assert(records@.skip(i as int).drop_first() =~= records@.skip(i + 1));
            if r.display_name == self.display_name && r.publisher == self.publisher {
                let p = record_path(r, self.executable.as_str());
                if p.is_some() {
                    return p;
                }
            }
            i = i + 1;
        }
        assert(records@.skip(i as int) =~= Seq::<InstallationRecord>::empty());
        None
    }

    /// Searches the stores in priority order and returns the path that the
    /// first matching record yields: its non-empty install location; else
    /// the executable beside the program of its uninstall command; else the
    /// directory of its display icon. A matching record that yields none of
    /// these is passed over.
    pub fn locate(&self, stores: &Vec<Vec<InstallationRecord>>) -> (r: Option<String>)
        ensures
            opt_view(r) == self.spec_locate(stores@),
    {
        let mut i: usize = 0;
        assert(stores@.skip(0) =~= stores@);
        while i < stores.len()
            invariant
                i <= stores@.len(),
                self.spec_locate(stores@) == self.spec_locate(stores@.skip(i as int)),
            decreases stores@.len() - i,
        {
            assert(stores@.skip(i as int).drop_first() =~= stores@.skip(i + 1));
            let p = self.first_path(&stores[i]);
            if p.is_some() {
                return p;
            }
            i = i + 1;
        }
        assert(stores@.skip(i as int) =~= Seq::<Vec<InstallationRecord>>::empty());
        None
    }
}

} // verus!
