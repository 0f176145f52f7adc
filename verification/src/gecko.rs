//! Gecko-family browsers (Firefox, LibreWolf, Zen, CachyOS Browser): where
//! their profiles live and which cookie databases they hold.

use vstd::prelude::*;

use crate::cookies::split_char;
use crate::cookies::split_at_char;
use crate::listing::{fs_is_file, fs_sub_dirs, fs_text, FsSnapshot};
use crate::paths::{
    char_views, dedup_paths, dedup_to_strings, extend_unique, join_chars, join_path, lemma_concat_contains, lemma_dedup_paths,
    lemma_dedup_paths_prefix, lemma_dedup_paths_suffix,
    no_dup_paths, path_join, push_unique, sort_lex, sort_names, string_views,
};
use crate::text::{
    chars_eq, has_prefix, has_suffix, slice_chars, split_once, spec_split_once, starts_with,
    ends_with, str_chars, trim, trim_chars,
};

verus! {

// ---------------------------------------------------------------------------
// profiles.ini
// ---------------------------------------------------------------------------

/// The lines of a text (`str::lines`): the pieces between line feeds, with
/// the empty piece after a final line feed left out. A carriage return
/// before a line feed stays in the piece; every use trims the lines.
pub open spec fn text_lines(s: Seq<char>) -> Seq<Seq<char>> {
    let parts = split_char(s, '\n');
    if parts.len() > 0 && parts.last().len() == 0 {
        parts.drop_last()
    } else {
        parts
    }
}

/// What has been read of a `profiles.ini` so far.
pub struct IniScan {
    /// Name of the current section, without brackets.
    pub section: Seq<char>,
    /// `Path=` of the current section, if one was given.
    pub path: Option<Seq<char>>,
    /// `IsRelative=` of the current section (true unless it is `0`).
    pub is_relative: bool,
    /// `Default=1` was given in the current section.
    pub is_default: bool,
    /// `Default=` paths of `Install` sections, resolved against the base.
    pub install_defaults: Seq<Seq<char>>,
    /// The first `Profile` section marked as default.
    pub profile_default: Option<Seq<char>>,
    /// Every other `Profile` section.
    pub others: Seq<Seq<char>>,
}

pub open spec fn ini_start() -> IniScan {
    IniScan {
        section: Seq::empty(),
        path: None,
        is_relative: true,
        is_default: false,
        install_defaults: Seq::empty(),
        profile_default: None,
        others: Seq::empty(),
    }
}

/// Closing a section: a `Profile` section with a `Path=` contributes its
/// resolved path, as the default profile if it is the first marked default,
/// otherwise to the other profiles.
pub open spec fn ini_finish_section(st: IniScan, base: Seq<char>) -> IniScan {
    if has_prefix(st.section, "Profile"@) && st.path is Some {
        let p = st.path->0;
        let resolved = if st.is_relative {
            path_join(base, p)
        } else {
            p
        };
        if st.is_default && st.profile_default is None {
            IniScan { profile_default: Some(resolved), ..st }
        } else {
            IniScan { others: st.others.push(resolved), ..st }
        }
    } else {
        st
    }
}

/// `Path::is_relative` on Unix: the path does not start at the root.
pub open spec fn is_relative_path(p: Seq<char>) -> bool {
    !(p.len() > 0 && p[0] == '/')
}

/// Reading one trimmed line of a `profiles.ini`.
pub open spec fn ini_step(st: IniScan, line: Seq<char>, base: Seq<char>) -> IniScan {
    if has_prefix(line, "["@) && has_suffix(line, "]"@) && line.len() >= 2 {
        let f = ini_finish_section(st, base);
        IniScan {
            section: line.subrange(1, line.len() - 1),
            path: None,
            is_relative: true,
            is_default: false,
            ..f
        }
    } else {
        match spec_split_once(line, '=') {
            Some((k, v)) => {
                let key = trim(k);
                let val = trim(v);
                if has_prefix(st.section, "Install"@) && key == "Default"@ {
                    let resolved = if is_relative_path(val) {
                        path_join(base, val)
                    } else {
                        val
                    };
                    IniScan { install_defaults: st.install_defaults.push(resolved), ..st }
                } else if has_prefix(st.section, "Profile"@) {
                    if key == "Path"@ {
                        IniScan { path: Some(val), ..st }
                    } else if key == "IsRelative"@ {
                        IniScan { is_relative: val != "0"@, ..st }
                    } else if key == "Default"@ {
                        IniScan { is_default: val == "1"@, ..st }
                    } else {
                        st
                    }
                } else {
                    st
                }
            },
            None => st,
        }
    }
}

/// Reading the given lines, each trimmed, from the start.
pub open spec fn ini_scan(lines: Seq<Seq<char>>, base: Seq<char>) -> IniScan
    decreases lines.len(),
{
    if lines.len() == 0 {
        ini_start()
    } else {
        ini_step(ini_scan(lines.drop_last(), base), trim(lines.last()), base)
    }
}

pub open spec fn opt_seq(o: Option<Seq<char>>) -> Seq<Seq<char>> {
    match o {
        Some(p) => seq![p],
        None => Seq::empty(),
    }
}

/// The profile directories a `profiles.ini` names, in order of precedence:
/// the `Default=` paths of `Install` sections, then the first `Profile`
/// section marked `Default=1`, then the other `Profile` sections; a
/// directory named twice is kept at its first place.
pub open spec fn profiles_ini_paths(ini: Seq<char>, base: Seq<char>) -> Seq<Seq<char>> {
    let fin = ini_finish_section(ini_scan(text_lines(ini), base), base);
    dedup_paths(fin.install_defaults + opt_seq(fin.profile_default) + fin.others)
}

/// [`IniScan`] with the text in character vectors.
pub struct ProfileIniScan {
    pub section: Vec<char>,
    pub path: Option<Vec<char>>,
    pub is_relative: bool,
    pub is_default: bool,
    pub install_defaults: Vec<Vec<char>>,
    pub profile_default: Option<Vec<char>>,
    pub others: Vec<Vec<char>>,
}

pub open spec fn opt_view(o: Option<Vec<char>>) -> Option<Seq<char>> {
    match o {
        Some(v) => Some(v@),
        None => None,
    }
}

impl ProfileIniScan {
    pub open spec fn model(&self) -> IniScan {
        IniScan {
            section: self.section@,
            path: opt_view(self.path),
            is_relative: self.is_relative,
            is_default: self.is_default,
            install_defaults: char_views(self.install_defaults@),
            profile_default: opt_view(self.profile_default),
            others: char_views(self.others@),
        }
    }
}

fn ini_finish_exec(st: &mut ProfileIniScan, base: &[char])
    ensures
        final(st).model() == ini_finish_section(old(st).model(), base@),
        final(st).section@ == old(st).section@,
{
    let profile = str_chars("Profile");
    if starts_with(st.section.as_slice(), profile.as_slice()) {
        match &st.path {
            Some(p) => {
                let resolved = if st.is_relative {
                    join_chars(base, p.as_slice())
                } else {
                    let q = slice_chars(p.as_slice(), 0, p.len());
                    assert(q@ =~= p@);
                    q
                };
                if st.is_default && st.profile_default.is_none() {
                    st.profile_default = Some(resolved);
                } else {
                    let ghost before = st.others@;
                    st.others.push(resolved);
                    assert(char_views(st.others@) =~= char_views(before).push(resolved@));
                }
            },
            None => {},
        }
    }
}

fn ini_step_exec(st: &mut ProfileIniScan, line: &[char], base: &[char])
    ensures
        final(st).model() == ini_step(old(st).model(), line@, base@),
{
    let open_b = str_chars("[");
    let close_b = str_chars("]");
    if starts_with(line, open_b.as_slice()) && ends_with(line, close_b.as_slice()) && line.len()
        >= 2 {
        ini_finish_exec(st, base);
        st.section = slice_chars(line, 1, line.len() - 1);
        st.path = None;
        st.is_relative = true;
        st.is_default = false;
        return;
    }
    match split_once(line, '=') {
        Some((k, v)) => {
            let key = trim_chars(k.as_slice());
            let val = trim_chars(v.as_slice());
            let install = str_chars("Install");
            let profile = str_chars("Profile");
            let default_key = str_chars("Default");
            if starts_with(st.section.as_slice(), install.as_slice()) && chars_eq(
                key.as_slice(),
                default_key.as_slice(),
            ) {
                let resolved = if !(val.len() > 0 && val[0] == '/') {
                    join_chars(base, val.as_slice())
                } else {
                    val
                };
                let ghost before = st.install_defaults@;
                st.install_defaults.push(resolved);
                assert(char_views(st.install_defaults@) =~= char_views(before).push(resolved@));
            } else if starts_with(st.section.as_slice(), profile.as_slice()) {
                if chars_eq(key.as_slice(), str_chars("Path").as_slice()) {
                    st.path = Some(val);
                } else if chars_eq(key.as_slice(), str_chars("IsRelative").as_slice()) {
                    st.is_relative = !chars_eq(val.as_slice(), str_chars("0").as_slice());
                } else if chars_eq(key.as_slice(), default_key.as_slice()) {
                    st.is_default = chars_eq(val.as_slice(), str_chars("1").as_slice());
                }
            }
        },
        None => {},
    }
}

/// Splits a text into its lines (see [`text_lines`]).
pub fn lines_of(s: &[char]) -> (res: Vec<Vec<char>>)
    ensures
        char_views(res@) == text_lines(s@),
{
    let mut parts = split_at_char(s, '\n');
    assert(char_views(parts@) == split_char(s@, '\n'));
    let n = parts.len();
    if n > 0 && parts[n - 1].len() == 0 {
        let ghost before = parts@;
        parts.pop();
        assert(char_views(parts@) =~= char_views(before).drop_last());
    }
    parts
}

/// The profile directories that a `profiles.ini` names, in order of
/// precedence (see [`profiles_ini_paths`]). Relative paths are resolved
/// against `base_dir`, the directory holding the file.
pub fn parse_profiles_ini(ini_content: &str, base_dir: &str) -> (res: Vec<String>)
    ensures
        string_views(res@) == profiles_ini_paths(ini_content@, base_dir@),
{
    let text = str_chars(ini_content);
    let base = str_chars(base_dir);
    let lines = lines_of(text.as_slice());
    let ghost lv = char_views(lines@);
    let mut st = ProfileIniScan {
        section: Vec::new(),
        path: None,
        is_relative: true,
        is_default: false,
        install_defaults: Vec::new(),
        profile_default: None,
        others: Vec::new(),
    };
    assert(st.model() =~= ini_start()) by {
        assert(char_views(st.install_defaults@) =~= Seq::empty());
        assert(char_views(st.others@) =~= Seq::empty());
    }
    let mut i: usize = 0;
    while i < lines.len()
        invariant
            lv == char_views(lines@),
            lv == text_lines(ini_content@),
            base@ == base_dir@,
            i <= lines@.len(),
            st.model() == ini_scan(lv.take(i as int), base@),
        decreases lines@.len() - i,
    {
        let line = trim_chars(lines[i].as_slice());
        proof {
            assert(lv.take(i + 1).drop_last() =~= lv.take(i as int));
            assert(lv.take(i + 1).last() == lines@[i as int]@);
        }
        ini_step_exec(&mut st, line.as_slice(), base.as_slice());
        i += 1;
    }
    assert(lv.take(lines@.len() as int) =~= lv);
    ini_finish_exec(&mut st, base.as_slice());
    let ghost fin = st.model();
    let mut all: Vec<Vec<char>> = Vec::new();
    let ghost mut acc: Seq<Seq<char>> = Seq::empty();
    let mut j: usize = 0;
    while j < st.install_defaults.len()
        invariant
            fin == st.model(),
            j <= st.install_defaults@.len(),
            char_views(all@) == fin.install_defaults.take(j as int),
        decreases st.install_defaults@.len() - j,
    {
        let p = slice_chars(st.install_defaults[j].as_slice(), 0, st.install_defaults[j].len());
        assert(p@ =~= st.install_defaults@[j as int]@);
        assert(fin.install_defaults[j as int] == p@);
        let ghost before = all@;
        all.push(p);
        assert(char_views(all@) =~= char_views(before).push(p@));
        assert(fin.install_defaults.take(j + 1) =~= fin.install_defaults.take(j as int).push(p@));
        j += 1;
    }
    assert(fin.install_defaults.take(j as int) =~= fin.install_defaults);
    let ghost after_install = all@;
    match &st.profile_default {
        Some(p) => {
            let q = slice_chars(p.as_slice(), 0, p.len());
            assert(q@ =~= p@);
            all.push(q);
            assert(char_views(all@) =~= char_views(after_install).push(q@));
        },
        None => {},
    }
    assert(char_views(all@) =~= fin.install_defaults + opt_seq(fin.profile_default));
    let ghost mid = char_views(all@);
    let mut j: usize = 0;
    while j < st.others.len()
        invariant
            fin == st.model(),
            j <= st.others@.len(),
            char_views(all@) == mid + fin.others.take(j as int),
        decreases st.others@.len() - j,
    {
        let p = slice_chars(st.others[j].as_slice(), 0, st.others[j].len());
        assert(p@ =~= st.others@[j as int]@);
        assert(fin.others[j as int] == p@);
        let ghost before = all@;
        all.push(p);
        assert(char_views(all@) =~= char_views(before).push(p@));
        assert(fin.others.take(j + 1) =~= fin.others.take(j as int).push(p@));
        j += 1;
    }
    assert(fin.others.take(j as int) =~= fin.others);
    dedup_to_strings(all)
}

// ---------------------------------------------------------------------------
// Profile roots
// ---------------------------------------------------------------------------

/// The Gecko browsers whose profiles are searched, in order of precedence.
#[derive(Clone, Copy, Debug, PartialEq, Eq)]
pub enum GeckoBrowser {
    LibreWolf,
    Zen,
    Firefox,
    Cachy,
}

/// Where a browser keeps its profiles, below the user's configuration
/// directory.
pub open spec fn config_root_names(b: GeckoBrowser) -> Seq<&'static str> {
    match b {
        GeckoBrowser::LibreWolf => seq!["librewolf", "librewolf/librewolf"],
        GeckoBrowser::Zen => seq!["zen", "zen/zen"],
        GeckoBrowser::Firefox => seq!["mozilla/firefox"],
        GeckoBrowser::Cachy => Seq::empty(),
    }
}

/// Where a browser keeps its profiles, below the user's home directory
/// (native, Snap and Flatpak installations).
pub open spec fn home_root_names(b: GeckoBrowser) -> Seq<&'static str> {
    match b {
        GeckoBrowser::LibreWolf => seq![
            ".librewolf",
            "snap/librewolf/common/.librewolf",
            ".var/app/io.gitlab.librewolf-community/.librewolf",
        ],
        GeckoBrowser::Zen => seq![
            ".zen",
            ".var/app/app.zen_browser.zen/zen",
            ".var/app/app.zen_browser.zen/.zen",
            ".var/app/app.zen_browser.zen/config/zen",
            ".var/app/io.github.zen_browser.zen/.zen",
        ],
        GeckoBrowser::Firefox => seq![
            ".mozilla/firefox",
            "snap/firefox/common/.mozilla/firefox",
            ".var/app/org.mozilla.firefox/.mozilla/firefox",
            ".var/app/org.mozilla.firefox/config/mozilla/firefox",
        ],
        GeckoBrowser::Cachy => seq![".cachy"],
    }
}

fn config_root_names_exec(b: GeckoBrowser) -> (res: Vec<&'static str>)
    ensures
        res@ == config_root_names(b),
{
    let v: Vec<&'static str> = match b {
        GeckoBrowser::LibreWolf => vec!["librewolf", "librewolf/librewolf"],
        GeckoBrowser::Zen => vec!["zen", "zen/zen"],
        GeckoBrowser::Firefox => vec!["mozilla/firefox"],
        GeckoBrowser::Cachy => Vec::new(),
    };
    assert(v@ =~= config_root_names(b));
    v
}

fn home_root_names_exec(b: GeckoBrowser) -> (res: Vec<&'static str>)
    ensures
        res@ == home_root_names(b),
{
    let v: Vec<&'static str> = match b {
        GeckoBrowser::LibreWolf => vec![
            ".librewolf",
            "snap/librewolf/common/.librewolf",
            ".var/app/io.gitlab.librewolf-community/.librewolf",
        ],
        GeckoBrowser::Zen => vec![
            ".zen",
            ".var/app/app.zen_browser.zen/zen",
            ".var/app/app.zen_browser.zen/.zen",
            ".var/app/app.zen_browser.zen/config/zen",
            ".var/app/io.github.zen_browser.zen/.zen",
        ],
        GeckoBrowser::Firefox => vec![
            ".mozilla/firefox",
            "snap/firefox/common/.mozilla/firefox",
            ".var/app/org.mozilla.firefox/.mozilla/firefox",
            ".var/app/org.mozilla.firefox/config/mozilla/firefox",
        ],
        GeckoBrowser::Cachy => vec![".cachy"],
    };
    assert(v@ =~= home_root_names(b));
    v
}

/// Each name joined onto `dir`.
pub open spec fn joined_under(dir: Seq<char>, names: Seq<&'static str>) -> Seq<Seq<char>> {
    names.map_values(|n: &'static str| path_join(dir, n@))
}

pub open spec fn opt_text(o: Option<&str>) -> Option<Seq<char>> {
    match o {
        Some(s) => Some(s@),
        None => None,
    }
}

/// The directories a browser's profiles may live in: the configuration
/// locations (when the configuration directory is known), then the home
/// locations (when the home directory is known).
pub open spec fn gecko_root_candidates(
    b: GeckoBrowser,
    config_dir: Option<Seq<char>>,
    home_dir: Option<Seq<char>>,
) -> Seq<Seq<char>> {
    (match config_dir {
        Some(c) => joined_under(c, config_root_names(b)),
        None => Seq::empty(),
    }) + (match home_dir {
        Some(h) => joined_under(h, home_root_names(b)),
        None => Seq::empty(),
    })
}

/// Appends `dir/name` for every name, skipping paths already present.
fn push_joined(out: &mut Vec<String>, dir: &str, names: &Vec<&'static str>, Ghost(acc): Ghost<
    Seq<Seq<char>>,
>)
    requires
        string_views(old(out)@) == dedup_paths(acc),
    ensures
        string_views(final(out)@) == dedup_paths(acc + joined_under(dir@, names@)),
{
    let mut i: usize = 0;
    let ghost mut cur = acc;
    assert(acc + joined_under(dir@, names@).take(0) =~= acc);
    while i < names.len()
        invariant
            i <= names@.len(),
            cur == acc + joined_under(dir@, names@).take(i as int),
            string_views(out@) == dedup_paths(cur),
        decreases names@.len() - i,
    {
        let p = join_path_str(dir, names[i]);
        proof {
            let next = cur.push(p@);
            assert(next.drop_last() =~= cur);
            assert(acc + joined_under(dir@, names@).take(i + 1) =~= next);
            cur = next;
        }
        crate::paths::push_unique(out, p);
        i += 1;
    }
    assert(joined_under(dir@, names@).take(i as int) =~= joined_under(dir@, names@));
}

fn join_path_str(base: &str, p: &str) -> (res: String)
    ensures
        res@ == path_join(base@, p@),
{
    crate::paths::join_path(base, p)
}

/// The directories that may hold a browser's profiles, each once, in
/// order of precedence (see [`gecko_root_candidates`]).
pub fn gecko_profile_roots(
    browser: GeckoBrowser,
    config_dir: Option<&str>,
    home_dir: Option<&str>,
) -> (res: Vec<String>)
    ensures
        string_views(res@) == dedup_paths(
            gecko_root_candidates(browser, opt_text(config_dir), opt_text(home_dir)),
        ),
{
    let mut roots: Vec<String> = Vec::new();
    let ghost mut acc: Seq<Seq<char>> = Seq::empty();
    assert(string_views(roots@) =~= dedup_paths(acc));
    match config_dir {
        Some(c) => {
            let names = config_root_names_exec(browser);
            push_joined(&mut roots, c, &names, Ghost(acc));
            proof {
                acc = acc + joined_under(c@, names@);
            }
        },
        None => {},
    }
    match home_dir {
        Some(h) => {
            let names = home_root_names_exec(browser);
            push_joined(&mut roots, h, &names, Ghost(acc));
            proof {
                acc = acc + joined_under(h@, names@);
            }
        },
        None => {},
    }
    assert(acc =~= gecko_root_candidates(browser, opt_text(config_dir), opt_text(home_dir)));
    roots
}

// ---------------------------------------------------------------------------
// Cookie databases
// ---------------------------------------------------------------------------

/// The cookie database of a profile directory.
pub open spec fn db_in(dir: Seq<char>) -> Seq<char> {
    path_join(dir, "cookies.sqlite"@)
}

/// The cookie databases of the profiles that `profiles.ini` in `base`
/// names, as paths, whether they exist or not.
pub open spec fn registered_gecko_candidates(fs: FsSnapshot, base: Seq<char>) -> Seq<Seq<char>> {
    match fs_text(fs, path_join(base, "profiles.ini"@)) {
        Some(t) => profiles_ini_paths(t, base).map_values(|p: Seq<char>| db_in(p)),
        None => Seq::empty(),
    }
}

/// The cookie databases of the sub-directories of `base`, in name order,
/// then the one directly in `base`, as paths, whether they exist or not.
pub open spec fn fallback_gecko_candidates(fs: FsSnapshot, base: Seq<char>) -> Seq<Seq<char>> {
    sort_lex(fs_sub_dirs(fs, base)).map_values(|n: Seq<char>| db_in(path_join(base, n))).push(
        db_in(base),
    )
}

/// The candidates that exist as regular files, each once.
pub open spec fn existing(fs: FsSnapshot, candidates: Seq<Seq<char>>) -> Seq<Seq<char>> {
    dedup_paths(candidates.filter(|p: Seq<char>| fs_is_file(fs, p)))
}

/// The cookie databases found in one profile root: those of the profiles
/// `profiles.ini` registers, when any of them exists; otherwise those of the
/// sub-directories in name order followed by one directly in the root.
pub open spec fn gecko_dbs_in_base(fs: FsSnapshot, base: Seq<char>) -> Seq<Seq<char>> {
    let registered = existing(fs, registered_gecko_candidates(fs, base));
    if registered.len() > 0 {
        registered
    } else {
        existing(fs, fallback_gecko_candidates(fs, base))
    }
}

/// Appends the candidates that are regular files, skipping paths already
/// present.
fn extend_existing(
    out: &mut Vec<String>,
    candidates: &Vec<String>,
    fs: &FsSnapshot,
    Ghost(acc): Ghost<Seq<Seq<char>>>,
)
    requires
        string_views(old(out)@) == dedup_paths(acc),
    ensures
        string_views(final(out)@) == dedup_paths(
            acc + string_views(candidates@).filter(|p: Seq<char>| fs_is_file(*fs, p)),
        ),
{
    let ghost pred = |p: Seq<char>| fs_is_file(*fs, p);
    let ghost cv = string_views(candidates@);
    let mut i: usize = 0;
    let ghost mut cur = acc;
    assert(cv.take(0).filter(pred) =~= Seq::empty());
    assert(acc + cv.take(0).filter(pred) =~= acc);
    while i < candidates.len()
        invariant
            i <= candidates@.len(),
            cv == string_views(candidates@),
            pred == (|p: Seq<char>| fs_is_file(*fs, p)),
            cur == acc + cv.take(i as int).filter(pred),
            string_views(out@) == dedup_paths(cur),
        decreases candidates@.len() - i,
    {
        let keep = fs.is_file(candidates[i].as_str());
        proof {
            reveal_with_fuel(Seq::filter, 1);
            let t = cv.take(i + 1);
            assert(t.drop_last() =~= cv.take(i as int));
            assert(t.last() == candidates@[i as int]@);
        }
        if keep {
            let p = candidates[i].clone();
            proof {
                let next = cur.push(p@);
                assert(next.drop_last() =~= cur);
                assert(acc + cv.take(i + 1).filter(pred) =~= next);
                cur = next;
            }
            push_unique(out, p);
        } else {
            assert(acc + cv.take(i + 1).filter(pred) =~= cur);
        }
        i += 1;
    }
    assert(cv.take(i as int) =~= cv);
}

fn registered_candidates_exec(base: &str, fs: &FsSnapshot) -> (res: Vec<String>)
    ensures
        string_views(res@) == registered_gecko_candidates(*fs, base@),
{
    let ini_path = join_path(base, "profiles.ini");
    let mut out: Vec<String> = Vec::new();
    match fs.text(ini_path.as_str()) {
        Some(t) => {
            let profiles = parse_profiles_ini(t.as_str(), base);
            let ghost pv = string_views(profiles@);
            let mut i: usize = 0;
            while i < profiles.len()
                invariant
                    i <= profiles@.len(),
                    pv == string_views(profiles@),
                    string_views(out@) == pv.take(i as int).map_values(|p: Seq<char>| db_in(p)),
                decreases profiles@.len() - i,
            {
                let db = join_path(profiles[i].as_str(), "cookies.sqlite");
                let ghost before = out@;
                out.push(db);
                assert(string_views(out@) =~= string_views(before).push(db@));
                assert(pv.take(i + 1).map_values(|p: Seq<char>| db_in(p)) =~= pv.take(
                    i as int,
                ).map_values(|p: Seq<char>| db_in(p)).push(db_in(pv[i as int])));
                i += 1;
            }
            assert(pv.take(i as int) =~= pv);
        },
        None => {
            assert(string_views(out@) =~= Seq::empty());
        },
    }
    out
}

fn fallback_candidates_exec(base: &str, fs: &FsSnapshot) -> (res: Vec<String>)
    ensures
        string_views(res@) == fallback_gecko_candidates(*fs, base@),
{
    let names = sort_names(fs.sub_dirs(base));
    let ghost nv = string_views(names@);
    let mut out: Vec<String> = Vec::new();
    let mut i: usize = 0;
    while i < names.len()
        invariant
            i <= names@.len(),
            nv == string_views(names@),
            string_views(out@) == nv.take(i as int).map_values(
                |n: Seq<char>| db_in(path_join(base@, n)),
            ),
        decreases names@.len() - i,
    {
        let dir = join_path(base, names[i].as_str());
        let db = join_path(dir.as_str(), "cookies.sqlite");
        let ghost before = out@;
        out.push(db);
        assert(string_views(out@) =~= string_views(before).push(db@));
        assert(nv.take(i + 1).map_values(|n: Seq<char>| db_in(path_join(base@, n))) =~= nv.take(
            i as int,
        ).map_values(|n: Seq<char>| db_in(path_join(base@, n))).push(
            db_in(path_join(base@, nv[i as int])),
        ));
        i += 1;
    }
    assert(nv.take(i as int) =~= nv);
    let direct = join_path(base, "cookies.sqlite");
    let ghost before = out@;
    out.push(direct);
    assert(string_views(out@) =~= string_views(before).push(direct@));
    out
}

/// The cookie databases in one profile root (see [`gecko_dbs_in_base`]).
pub fn find_gecko_cookie_databases_in_base(base: &str, fs: &FsSnapshot) -> (res: Vec<String>)
    ensures
        string_views(res@) == gecko_dbs_in_base(*fs, base@),
{
    let registered = registered_candidates_exec(base, fs);
    let mut found: Vec<String> = Vec::new();
    assert(string_views(found@) =~= dedup_paths(Seq::empty()));
    extend_existing(&mut found, &registered, fs, Ghost(Seq::empty()));
    assert(Seq::<Seq<char>>::empty() + string_views(registered@).filter(
        |p: Seq<char>| fs_is_file(*fs, p),
    ) =~= string_views(registered@).filter(|p: Seq<char>| fs_is_file(*fs, p)));
    if found.len() > 0 {
        return found;
    }
    let fallback = fallback_candidates_exec(base, fs);
    let mut out: Vec<String> = Vec::new();
    assert(string_views(out@) =~= dedup_paths(Seq::empty()));
    extend_existing(&mut out, &fallback, fs, Ghost(Seq::empty()));
    assert(Seq::<Seq<char>>::empty() + string_views(fallback@).filter(
        |p: Seq<char>| fs_is_file(*fs, p),
    ) =~= string_views(fallback@).filter(|p: Seq<char>| fs_is_file(*fs, p)));
    out
}

/// The profile roots of every Gecko browser, browser by browser in order
/// of precedence (each browser's roots as [`gecko_profile_roots`] lists
/// them).
pub open spec fn all_gecko_roots(config_dir: Option<Seq<char>>, home_dir: Option<Seq<char>>) -> Seq<
    Seq<char>,
> {
    dedup_paths(gecko_root_candidates(GeckoBrowser::LibreWolf, config_dir, home_dir)) + dedup_paths(
        gecko_root_candidates(GeckoBrowser::Zen, config_dir, home_dir),
    ) + dedup_paths(gecko_root_candidates(GeckoBrowser::Firefox, config_dir, home_dir)) + dedup_paths(
        gecko_root_candidates(GeckoBrowser::Cachy, config_dir, home_dir),
    )
}

/// The profile roots of every Gecko browser (see [`all_gecko_roots`]).
pub fn gecko_all_roots(config_dir: Option<&str>, home_dir: Option<&str>) -> (res: Vec<String>)
    ensures
        string_views(res@) == all_gecko_roots(opt_text(config_dir), opt_text(home_dir)),
{
    let mut out: Vec<String> = Vec::new();
    let mut a = gecko_profile_roots(GeckoBrowser::LibreWolf, config_dir, home_dir);
    let mut b = gecko_profile_roots(GeckoBrowser::Zen, config_dir, home_dir);
    let mut c = gecko_profile_roots(GeckoBrowser::Firefox, config_dir, home_dir);
    let mut d = gecko_profile_roots(GeckoBrowser::Cachy, config_dir, home_dir);
    let ghost (va, vb, vc, vd) = (string_views(a@), string_views(b@), string_views(c@), string_views(d@));
    out.append(&mut a);
    out.append(&mut b);
    out.append(&mut c);
    out.append(&mut d);
    assert(string_views(out@) =~= va + vb + vc + vd);
    out
}

/// The cookie databases found in the given roots, root by root, before
/// duplicates are removed.
pub open spec fn dbs_in_roots(fs: FsSnapshot, roots: Seq<Seq<char>>) -> Seq<Seq<char>>
    decreases roots.len(),
{
    if roots.len() == 0 {
        Seq::empty()
    } else {
        dbs_in_roots(fs, roots.drop_last()) + gecko_dbs_in_base(fs, roots.last())
    }
}

/// Every Gecko cookie database, each once: browser by browser in order of
/// precedence, root by root, as each root yields them
/// (see [`gecko_dbs_in_base`]).
pub fn find_gecko_cookie_databases_with_roots(
    config_dir: Option<&str>,
    home_dir: Option<&str>,
    fs: &FsSnapshot,
) -> (res: Vec<String>)
    ensures
        string_views(res@) == dedup_paths(
            dbs_in_roots(*fs, all_gecko_roots(opt_text(config_dir), opt_text(home_dir))),
        ),
{
    let roots = gecko_all_roots(config_dir, home_dir);
    let ghost rv = string_views(roots@);
    let mut out: Vec<String> = Vec::new();
    assert(string_views(out@) =~= dedup_paths(Seq::empty()));
    let mut i: usize = 0;
    while i < roots.len()
        invariant
            i <= roots@.len(),
            rv == string_views(roots@),
            string_views(out@) == dedup_paths(dbs_in_roots(*fs, rv.take(i as int))),
        decreases roots@.len() - i,
    {
        let dbs = find_gecko_cookie_databases_in_base(roots[i].as_str(), fs);
        proof {
            assert(rv.take(i + 1).drop_last() =~= rv.take(i as int));
            assert(rv.take(i + 1).last() == roots@[i as int]@);
        }
        extend_unique(&mut out, &dbs, Ghost(dbs_in_roots(*fs, rv.take(i as int))));
        i += 1;
    }
    assert(rv.take(i as int) =~= rv);
    out
}

/// Every path whose being a regular file the discovery in the given roots
/// consults, root by root: the registered candidates, then the fallback
/// candidates.
pub open spec fn probes_in_roots(fs: FsSnapshot, roots: Seq<Seq<char>>) -> Seq<Seq<char>>
    decreases roots.len(),
{
    if roots.len() == 0 {
        Seq::empty()
    } else {
        probes_in_roots(fs, roots.drop_last()) + registered_gecko_candidates(fs, roots.last())
            + fallback_gecko_candidates(fs, roots.last())
    }
}

/// The paths the Gecko discovery needs to know about (see
/// [`probes_in_roots`]), given a snapshot that holds the `profiles.ini`
/// texts and sub-directory listings of the roots.
pub fn gecko_probe_paths(config_dir: Option<&str>, home_dir: Option<&str>, fs: &FsSnapshot) -> (res:
    Vec<String>)
    ensures
        string_views(res@) == probes_in_roots(
            *fs,
            all_gecko_roots(opt_text(config_dir), opt_text(home_dir)),
        ),
{
    let roots = gecko_all_roots(config_dir, home_dir);
    let ghost rv = string_views(roots@);
    let mut out: Vec<String> = Vec::new();
    assert(string_views(out@) =~= Seq::empty());
    let mut i: usize = 0;
    while i < roots.len()
        invariant
            i <= roots@.len(),
            rv == string_views(roots@),
            string_views(out@) == probes_in_roots(*fs, rv.take(i as int)),
        decreases roots@.len() - i,
    {
        let mut reg = registered_candidates_exec(roots[i].as_str(), fs);
        let mut fb = fallback_candidates_exec(roots[i].as_str(), fs);
        let ghost before = string_views(out@);
        let ghost (vr, vf) = (string_views(reg@), string_views(fb@));
        out.append(&mut reg);
        out.append(&mut fb);
        proof {
            assert(string_views(out@) =~= before + vr + vf);
            assert(rv.take(i + 1).drop_last() =~= rv.take(i as int));
            assert(rv.take(i + 1).last() == roots@[i as int]@);
        }
        i += 1;
    }
    assert(rv.take(i as int) =~= rv);
    out
}

// ---------------------------------------------------------------------------
// Laws of profile discovery
// ---------------------------------------------------------------------------

/// A `profiles.ini` never yields the same profile directory twice.
pub proof fn lemma_profiles_ini_paths_unique(ini: Seq<char>, base: Seq<char>)
    ensures
        no_dup_paths(profiles_ini_paths(ini, base)),
{
    let fin = ini_finish_section(ini_scan(text_lines(ini), base), base);
    lemma_dedup_paths(fin.install_defaults + opt_seq(fin.profile_default) + fin.others);
}

/// A browser's profile roots are listed each once.
pub proof fn lemma_profile_roots_unique(
    b: GeckoBrowser,
    config_dir: Option<Seq<char>>,
    home_dir: Option<Seq<char>>,
)
    ensures
        no_dup_paths(dedup_paths(gecko_root_candidates(b, config_dir, home_dir))),
{
    lemma_dedup_paths(gecko_root_candidates(b, config_dir, home_dir));
}

/// A browser's profile roots are its configuration roots followed by its
/// home roots, each path once: the roots for both directories are
/// the roots for the configuration directory alone followed by those for
/// the home directory alone, each list as the browser gives it, with the
/// repeats dropped. Without either directory there are none, and the
/// CachyOS browser has only `.cachy` in the home directory, whatever the
/// configuration directory.
pub proof fn lemma_profile_roots_parts(
    b: GeckoBrowser,
    config_dir: Option<Seq<char>>,
    home_dir: Option<Seq<char>>,
)
    ensures
        dedup_paths(gecko_root_candidates(b, config_dir, home_dir)) == dedup_paths(
            dedup_paths(gecko_root_candidates(b, config_dir, None)) + dedup_paths(
                gecko_root_candidates(b, None, home_dir),
            ),
        ),
        dedup_paths(gecko_root_candidates(b, None, None)) == Seq::<Seq<char>>::empty(),
        no_dup_paths(dedup_paths(gecko_root_candidates(b, config_dir, home_dir))),
        b == GeckoBrowser::Cachy ==> dedup_paths(gecko_root_candidates(b, config_dir, home_dir))
            == match home_dir {
            Some(h) => seq![path_join(h, ".cachy"@)],
            None => Seq::<Seq<char>>::empty(),
        },
{
    let c = gecko_root_candidates(b, config_dir, None);
    let h = gecko_root_candidates(b, None, home_dir);
    assert(gecko_root_candidates(b, config_dir, home_dir) =~= c + h);
    lemma_dedup_paths_prefix(c, h);
    lemma_dedup_paths_suffix(dedup_paths(c), h);
    lemma_dedup_paths(gecko_root_candidates(b, config_dir, home_dir));
    assert(gecko_root_candidates(b, None, None) =~= Seq::<Seq<char>>::empty());
    if b == GeckoBrowser::Cachy {
        match config_dir {
            Some(cd) => {
                assert(joined_under(cd, config_root_names(b)) =~= Seq::<Seq<char>>::empty());
            },
            None => {},
        }
        match home_dir {
            Some(hd) => {
                let one = seq![path_join(hd, ".cachy"@)];
                assert(joined_under(hd, home_root_names(b)) =~= one);
                assert(gecko_root_candidates(b, config_dir, home_dir) =~= one);
                assert(one.drop_last() =~= Seq::<Seq<char>>::empty());
                assert(Seq::<Seq<char>>::empty().push(one.last()) =~= one);
            },
            None => {
                assert(gecko_root_candidates(b, config_dir, home_dir) =~= Seq::<Seq<char>>::empty());
            },
        }
    }
}

proof fn lemma_existing_are_files(fs: FsSnapshot, candidates: Seq<Seq<char>>)
    ensures
        forall|p: Seq<char>| existing(fs, candidates).contains(p) ==> fs_is_file(fs, p),
{
    broadcast use vstd::seq_lib::group_filter_ensures;

    let pred = |p: Seq<char>| fs_is_file(fs, p);
    let f = candidates.filter(pred);
    lemma_dedup_paths(f);
    assert forall|p: Seq<char>| existing(fs, candidates).contains(p) implies fs_is_file(fs, p) by {
        assert(f.contains(p));
        let k = choose|k: int| 0 <= k < f.len() && f[k] == p;
        assert(pred(f[k]));
    }
}

proof fn lemma_dbs_in_roots_are_files(fs: FsSnapshot, roots: Seq<Seq<char>>)
    ensures
        forall|p: Seq<char>| dbs_in_roots(fs, roots).contains(p) ==> fs_is_file(fs, p),
    decreases roots.len(),
{
    if roots.len() > 0 {
        lemma_dbs_in_roots_are_files(fs, roots.drop_last());
        let base = roots.last();
        lemma_existing_are_files(fs, registered_gecko_candidates(fs, base));
        lemma_existing_are_files(fs, fallback_gecko_candidates(fs, base));
        assert forall|p: Seq<char>| dbs_in_roots(fs, roots).contains(p) implies fs_is_file(fs, p) by {
            lemma_concat_contains(dbs_in_roots(fs, roots.drop_last()), gecko_dbs_in_base(fs, base), p);
        }
    }
}

/// Gecko discovery names each cookie database once, and names only paths
/// that are regular files.
pub proof fn lemma_gecko_databases_unique_files(
    fs: FsSnapshot,
    config_dir: Option<Seq<char>>,
    home_dir: Option<Seq<char>>,
)
    ensures
        no_dup_paths(dedup_paths(dbs_in_roots(fs, all_gecko_roots(config_dir, home_dir)))),
        forall|p: Seq<char>|
            dedup_paths(dbs_in_roots(fs, all_gecko_roots(config_dir, home_dir))).contains(p)
                ==> fs_is_file(fs, p),
{
    let all = dbs_in_roots(fs, all_gecko_roots(config_dir, home_dir));
    lemma_dedup_paths(all);
    lemma_dbs_in_roots_are_files(fs, all_gecko_roots(config_dir, home_dir));
}

} // verus!
