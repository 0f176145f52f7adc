//! Chromium-family browsers: the Brave Origin profile databases, which the
//! cookie reader of the browser library does not find by itself.

use vstd::prelude::*;

use crate::gecko::{opt_seq, opt_text};
use crate::listing::{fs_is_file, fs_sub_dirs, FsSnapshot};
use crate::paths::{
    dedup_paths, extend_unique, join_path, lemma_concat_contains, lemma_dedup_paths, no_dup_paths, path_join,
    sort_lex, sort_names, string_views,
};

verus! {

/// The directory Brave Origin keeps its profiles in, below the user's
/// configuration directory.
pub open spec fn brave_origin_base(config: Seq<char>) -> Seq<char> {
    path_join(config, "BraveSoftware/Brave-Origin"@)
}

/// The places a Chromium profile directory keeps its cookie database, in
/// order of preference.
pub open spec fn chromium_db_names() -> Seq<&'static str> {
    seq!["Network/Cookies", "Cookies", "cookies.sqlite"]
}

/// The cookie database of one profile directory: the first of
/// `Network/Cookies`, `Cookies` and `cookies.sqlite` that is a regular file.
pub open spec fn brave_profile_db(fs: FsSnapshot, dir: Seq<char>) -> Option<Seq<char>> {
    if fs_is_file(fs, path_join(dir, "Network/Cookies"@)) {
        Some(path_join(dir, "Network/Cookies"@))
    } else if fs_is_file(fs, path_join(dir, "Cookies"@)) {
        Some(path_join(dir, "Cookies"@))
    } else if fs_is_file(fs, path_join(dir, "cookies.sqlite"@)) {
        Some(path_join(dir, "cookies.sqlite"@))
    } else {
        None
    }
}

/// The cookie databases of the named profile directories of `base`, in the
/// order of the names.
pub open spec fn brave_profile_dbs(fs: FsSnapshot, base: Seq<char>, names: Seq<Seq<char>>) -> Seq<
    Seq<char>,
>
    decreases names.len(),
{
    if names.len() == 0 {
        Seq::empty()
    } else {
        brave_profile_dbs(fs, base, names.drop_last()) + opt_seq(
            brave_profile_db(fs, path_join(base, names.last())),
        )
    }
}

/// The cookie databases lying directly in `base`.
pub open spec fn brave_direct_dbs(fs: FsSnapshot, base: Seq<char>) -> Seq<Seq<char>> {
    chromium_db_names().map_values(|n: &'static str| path_join(base, n@)).filter(
        |p: Seq<char>| fs_is_file(fs, p),
    )
}

/// Brave Origin's cookie databases, each once: those of its profile
/// directories in name order, then any lying directly in its directory;
/// none without a configuration directory.
pub open spec fn brave_origin_dbs(fs: FsSnapshot, config: Option<Seq<char>>) -> Seq<Seq<char>> {
    match config {
        None => Seq::empty(),
        Some(c) => {
            let base = brave_origin_base(c);
            dedup_paths(
                brave_profile_dbs(fs, base, sort_lex(fs_sub_dirs(fs, base))) + brave_direct_dbs(
                    fs,
                    base,
                ),
            )
        },
    }
}

fn brave_profile_db_exec(fs: &FsSnapshot, dir: &str) -> (res: Option<String>)
    ensures
        match (res, brave_profile_db(*fs, dir@)) {
            (Some(r), Some(e)) => r@ == e,
            (None, None) => true,
            _ => false,
        },
{
    let network = join_path(dir, "Network/Cookies");
    if fs.is_file(network.as_str()) {
        return Some(network);
    }
    let direct = join_path(dir, "Cookies");
    if fs.is_file(direct.as_str()) {
        return Some(direct);
    }
    let sqlite = join_path(dir, "cookies.sqlite");
    if fs.is_file(sqlite.as_str()) {
        return Some(sqlite);
    }
    None
}

/// Brave Origin's cookie databases (see [`brave_origin_dbs`]).
pub fn find_brave_origin_cookie_databases_with_root(config_dir: Option<&str>, fs: &FsSnapshot) -> (res:
    Vec<String>)
    ensures
        string_views(res@) == brave_origin_dbs(*fs, opt_text(config_dir)),
{
    let mut candidates: Vec<String> = Vec::new();
    let config = match config_dir {
        Some(c) => c,
        None => {
            assert(string_views(candidates@) =~= Seq::empty());
            return candidates;
        },
    };
    let base = join_path(config, "BraveSoftware/Brave-Origin");
    let names = sort_names(fs.sub_dirs(base.as_str()));
    let ghost nv = string_views(names@);
    let mut profile_dbs: Vec<String> = Vec::new();
    let mut i: usize = 0;
    assert(string_views(profile_dbs@) =~= brave_profile_dbs(*fs, base@, nv.take(0)));
    while i < names.len()
        invariant
            i <= names@.len(),
            nv == string_views(names@),
            string_views(profile_dbs@) == brave_profile_dbs(*fs, base@, nv.take(i as int)),
        decreases names@.len() - i,
    {
        let dir = join_path(base.as_str(), names[i].as_str());
        let db = brave_profile_db_exec(fs, dir.as_str());
        proof {
            assert(nv.take(i + 1).drop_last() =~= nv.take(i as int));
            assert(nv.take(i + 1).last() == names@[i as int]@);
        }
        match db {
            Some(p) => {
                let ghost before = string_views(profile_dbs@);
                profile_dbs.push(p);
                assert(string_views(profile_dbs@) =~= before + opt_seq(
                    brave_profile_db(*fs, dir@),
                ));
            },
            None => {
                assert(string_views(profile_dbs@) =~= string_views(profile_dbs@) + opt_seq(
                    brave_profile_db(*fs, dir@),
                ));
            },
        }
        i += 1;
    }
    assert(nv.take(i as int) =~= nv);
    assert(string_views(candidates@) =~= dedup_paths(Seq::empty()));
    extend_unique(&mut candidates, &profile_dbs, Ghost(Seq::empty()));
    let ghost acc = Seq::<Seq<char>>::empty() + string_views(profile_dbs@);
    let mut direct: Vec<String> = Vec::new();
    let ghost names3 = chromium_db_names().map_values(|n: &'static str| path_join(base@, n@));
    let ghost pred = |p: Seq<char>| fs_is_file(*fs, p);
    let n0 = join_path(base.as_str(), "Network/Cookies");
    let n1 = join_path(base.as_str(), "Cookies");
    let n2 = join_path(base.as_str(), "cookies.sqlite");
    proof {
        assert(names3 =~= seq![n0@, n1@, n2@]);
        reveal_with_fuel(Seq::filter, 4);
        assert(seq![n0@, n1@, n2@].drop_last() =~= seq![n0@, n1@]);
        assert(seq![n0@, n1@].drop_last() =~= seq![n0@]);
        assert(seq![n0@].drop_last() =~= Seq::<Seq<char>>::empty());
    }
    let f0 = fs.is_file(n0.as_str());
    let f1 = fs.is_file(n1.as_str());
    let f2 = fs.is_file(n2.as_str());
    if f0 {
        direct.push(n0);
    }
    if f1 {
        direct.push(n1);
    }
    if f2 {
        direct.push(n2);
    }
    assert(string_views(direct@) =~= names3.filter(pred));
    extend_unique(&mut candidates, &direct, Ghost(acc));
    assert(acc + string_views(direct@) =~= string_views(profile_dbs@) + brave_direct_dbs(
        *fs,
        base@,
    ));
    candidates
}

/// Every path whose being a regular file the Brave Origin discovery
/// consults: for each profile directory in name order its three database
/// places, then the three places directly in the Brave Origin directory.
pub open spec fn brave_probes(fs: FsSnapshot, config: Option<Seq<char>>) -> Seq<Seq<char>> {
    match config {
        None => Seq::empty(),
        Some(c) => {
            let base = brave_origin_base(c);
            sort_lex(fs_sub_dirs(fs, base)).map_values(
                |n: Seq<char>|
                    chromium_db_names().map_values(
                        |d: &'static str| path_join(path_join(base, n), d@),
                    ),
            ).flatten() + chromium_db_names().map_values(|d: &'static str| path_join(base, d@))
        },
    }
}

fn db_places(dir: &str) -> (res: Vec<String>)
    ensures
        string_views(res@) == chromium_db_names().map_values(|d: &'static str| path_join(dir@, d@)),
{
    let mut out: Vec<String> = Vec::new();
    out.push(join_path(dir, "Network/Cookies"));
    out.push(join_path(dir, "Cookies"));
    out.push(join_path(dir, "cookies.sqlite"));
    assert(string_views(out@) =~= chromium_db_names().map_values(
        |d: &'static str| path_join(dir@, d@),
    ));
    out
}

/// The paths the Brave Origin discovery needs to know about (see
/// [`brave_probes`]), given a snapshot holding the listing of the Brave
/// Origin directory.
pub fn brave_origin_probe_paths(config_dir: Option<&str>, fs: &FsSnapshot) -> (res: Vec<String>)
    ensures
        string_views(res@) == brave_probes(*fs, opt_text(config_dir)),
{
    let mut out: Vec<String> = Vec::new();
    let config = match config_dir {
        Some(c) => c,
        None => {
            assert(string_views(out@) =~= Seq::empty());
            return out;
        },
    };
    let base = join_path(config, "BraveSoftware/Brave-Origin");
    let names = sort_names(fs.sub_dirs(base.as_str()));
    let ghost nv = string_views(names@);
    let ghost f = |n: Seq<char>|
        chromium_db_names().map_values(|d: &'static str| path_join(path_join(base@, n), d@));
    let mut i: usize = 0;
    assert(string_views(out@) =~= nv.take(0).map_values(f).flatten());
    while i < names.len()
        invariant
            i <= names@.len(),
            nv == string_views(names@),
            f == (|n: Seq<char>|
                chromium_db_names().map_values(
                    |d: &'static str| path_join(path_join(base@, n), d@),
                )),
            string_views(out@) == nv.take(i as int).map_values(f).flatten(),
        decreases names@.len() - i,
    {
        let dir = join_path(base.as_str(), names[i].as_str());
        let mut places = db_places(dir.as_str());
        let ghost before = string_views(out@);
        let ghost pv = string_views(places@);
        out.append(&mut places);
        proof {
            assert(string_views(out@) =~= before + pv);
            let t = nv.take(i + 1).map_values(f);
            assert(t =~= nv.take(i as int).map_values(f).push(f(nv[i as int])));
            nv.take(i as int).map_values(f).lemma_flatten_push(f(nv[i as int]));
        }
        i += 1;
    }
    assert(nv.take(i as int) =~= nv);
    let mut direct = db_places(base.as_str());
    let ghost before = string_views(out@);
    let ghost dv = string_views(direct@);
    out.append(&mut direct);
    assert(string_views(out@) =~= before + dv);
    out
}

// ---------------------------------------------------------------------------
// Laws of Brave Origin discovery
// ---------------------------------------------------------------------------

proof fn lemma_brave_profile_dbs_files(fs: FsSnapshot, base: Seq<char>, names: Seq<Seq<char>>)
    ensures
        forall|p: Seq<char>| brave_profile_dbs(fs, base, names).contains(p) ==> fs_is_file(fs, p),
    decreases names.len(),
{
    if names.len() > 0 {
        lemma_brave_profile_dbs_files(fs, base, names.drop_last());
        let last = brave_profile_db(fs, path_join(base, names.last()));
        assert forall|p: Seq<char>| brave_profile_dbs(fs, base, names).contains(p) implies fs_is_file(
            fs,
            p,
        ) by {
            lemma_concat_contains(brave_profile_dbs(fs, base, names.drop_last()), opt_seq(last), p);
            if opt_seq(last).contains(p) {
                let k = choose|k: int| 0 <= k < opt_seq(last).len() && opt_seq(last)[k] == p;
                assert(last is Some && p == last->0);
            }
        }
    }
}

/// Brave Origin discovery names each cookie database once, and names only
/// paths that are regular files.
pub proof fn lemma_brave_origin_dbs_unique_files(fs: FsSnapshot, config: Option<Seq<char>>)
    ensures
        no_dup_paths(brave_origin_dbs(fs, config)),
        forall|p: Seq<char>| brave_origin_dbs(fs, config).contains(p) ==> fs_is_file(fs, p),
{
    broadcast use vstd::seq_lib::group_filter_ensures;

    if let Some(c) = config {
        let base = brave_origin_base(c);
        let a = brave_profile_dbs(fs, base, sort_lex(fs_sub_dirs(fs, base)));
        let pred = |p: Seq<char>| fs_is_file(fs, p);
        let d = chromium_db_names().map_values(|n: &'static str| path_join(base, n@));
        let b = d.filter(pred);
        assert(b == brave_direct_dbs(fs, base));
        lemma_dedup_paths(a + b);
        lemma_brave_profile_dbs_files(fs, base, sort_lex(fs_sub_dirs(fs, base)));
        assert forall|p: Seq<char>| brave_origin_dbs(fs, config).contains(p) implies fs_is_file(
            fs,
            p,
        ) by {
            lemma_concat_contains(a, b, p);
            if b.contains(p) {
                let k = choose|k: int| 0 <= k < b.len() && b[k] == p;
                assert(pred(b[k]));
            }
        }
    } else {
        assert(brave_origin_dbs(fs, config) =~= Seq::empty());
    }
}

} // verus!
