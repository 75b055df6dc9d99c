//! The configuration document's content: standard directories, toolchain
//! paths, and dotted key paths into it. Reading and writing the file is the
//! caller's work.
use vstd::prelude::*;

use crate::error::LibError;

verus! {

#[verifier::external_type_specification]
#[verifier::external_body]
pub struct ExTomlValue(toml::Value);

/// The entries of a TOML value that is a table, by key; a value of any other
/// kind has none.
pub uninterp spec fn toml_entries(v: toml::Value) -> Map<Seq<char>, toml::Value>;

/// Relies on `toml::Value::get` with a string key: the table's entry under
/// `key`, or `None` when there is none or the value is not a table.
#[verifier::external_body]
fn toml_get<'a>(v: &'a toml::Value, key: &str) -> (r: Option<&'a toml::Value>)
    ensures
        match r {
            Some(w) => toml_entries(*v).contains_key(key@) && *w == toml_entries(*v)[key@],
            None => !toml_entries(*v).contains_key(key@),
        },
{
    v.get(key)
}

/// Relies on `toml::Value`'s `IndexMut` with a string key, which finds the
/// existing entry (and panics when there is none): takes the entry's value out,
/// leaving a placeholder under the same key.
#[verifier::external_body]
fn toml_take(v: &mut toml::Value, key: &str) -> (r: toml::Value)
    requires
        toml_entries(*old(v)).contains_key(key@),
    ensures
        r == toml_entries(*old(v))[key@],
        toml_entries(*final(v)).contains_key(key@),
        toml_entries(*final(v)).remove(key@) == toml_entries(*old(v)).remove(key@),
{
    std::mem::replace(&mut v[key], toml::Value::Boolean(false))
}

/// Relies on `toml::Value`'s `IndexMut` with a string key, which finds the
/// existing entry (and panics when there is none): replaces its value.
#[verifier::external_body]
fn toml_put(v: &mut toml::Value, key: &str, x: toml::Value)
    requires
        toml_entries(*old(v)).contains_key(key@),
    ensures
        toml_entries(*final(v)) == toml_entries(*old(v)).insert(key@, x),
{
    v[key] = x;
}

pub const APP_NAME: &'static str = "mc-server-manager-v2";
pub const APP_VERSION: &'static str = "0.0.1";

/// The configuration document.
pub struct Config {
    pub title: String,
    pub version: String,
    pub directories: Directories,
    pub java_paths: JavaPaths,
}

/// A description of the host system.
pub struct System {
    pub os_type: String,
}

/// The standard directories.
pub struct Directories {
    pub config_dir: String,
    pub data_dir: String,
    pub cache_dir: String,
    pub home_dir: String,
    pub server_dir: String,
}

/// The java binary of each toolchain major version (empty when not installed).
pub struct JavaPaths {
    pub java8_path: String,
    pub java17_path: String,
    pub java21_path: String,
    pub java25_path: String,
}

/// The application's own directories, as the platform places them.
pub struct ProjectPaths {
    pub config_dir: String,
    pub data_dir: String,
    pub cache_dir: String,
}

/// Assembles the standard directories from the platform's answers: servers
/// live in `servers` under the data directory; what the platform could not
/// tell stays empty.
pub fn config_fetch_directories(project: Option<ProjectPaths>, home: Option<String>) -> (r: Directories)
    ensures
        match project {
            Some(p) => r.config_dir@ == p.config_dir@ && r.data_dir@ == p.data_dir@
                && r.cache_dir@ == p.cache_dir@ && r.server_dir@ == p.data_dir@ + "/servers"@,
            None => r.config_dir@.len() == 0 && r.data_dir@.len() == 0 && r.cache_dir@.len() == 0
                && r.server_dir@.len() == 0,
        },
        match home {
            Some(h) => r.home_dir@ == h@,
            None => r.home_dir@.len() == 0,
        },
{
    let home_dir = match home {
        Some(h) => h,
        None => String::new(),
    };
    match project {
        Some(p) => {
            let mut server_dir = p.data_dir.clone();
            server_dir.append("/servers");
            Directories {
                config_dir: p.config_dir,
                data_dir: p.data_dir,
                cache_dir: p.cache_dir,
                home_dir,
                server_dir,
            }
        },
        None => Directories {
            config_dir: String::new(),
            data_dir: String::new(),
            cache_dir: String::new(),
            home_dir,
            server_dir: String::new(),
        },
    }
}

/// The configuration written when none exists yet: the application's name and
/// version, the given directories, and no toolchain installed.
pub fn config_create_config(dirs: Directories) -> (r: Config)
    ensures
        r.title@ == APP_NAME@,
        r.version@ == APP_VERSION@,
        r.directories == dirs,
        r.java_paths.java8_path@.len() == 0,
        r.java_paths.java17_path@.len() == 0,
        r.java_paths.java21_path@.len() == 0,
        r.java_paths.java25_path@.len() == 0,
{
    Config {
        title: String::from_str(APP_NAME),
        version: String::from_str(APP_VERSION),
        directories: dirs,
        java_paths: JavaPaths {
            java8_path: String::new(),
            java17_path: String::new(),
            java21_path: String::new(),
            java25_path: String::new(),
        },
    }
}

/// The parts of a dotted key, as `str::split('.')` gives them: one more part
/// than there are dots, empty parts included.
pub open spec fn key_parts(key: Seq<char>) -> Seq<Seq<char>>
    decreases key.len(),
{
    if key.len() == 0 {
        seq![Seq::empty()]
    } else {
        let before = key_parts(key.drop_last());
        if key.last() == '.' {
            before.push(Seq::empty())
        } else {
            before.update(before.len() - 1, before.last().push(key.last()))
        }
    }
}

proof fn lemma_key_parts_nonempty(key: Seq<char>)
    ensures
        key_parts(key).len() >= 1,
    decreases key.len(),
{
    if key.len() > 0 {
        lemma_key_parts_nonempty(key.drop_last());
    }
}

/// Splits a dotted configuration key (`"directories.server_dir"`) into its
/// parts.
pub fn config_key_path(key: &str) -> (r: Vec<String>)
    ensures
        r@.map_values(|s: String| s@) == key_parts(key@),
{
    let n = key.unicode_len();
    let mut parts: Vec<String> = Vec::new();
    let mut current = String::new();
    let mut i: usize = 0;
    assert(key@.take(0) =~= Seq::<char>::empty());
    assert(parts@.map_values(|s: String| s@).push(current@) =~= key_parts(key@.take(0)));
    while i < n
        invariant
            n == key@.len(),
            i <= n,
            parts@.map_values(|s: String| s@).push(current@) == key_parts(key@.take(i as int)),
        decreases n - i,
    {
        let c = key.get_char(i);
        assert(key@.take(i + 1).drop_last() =~= key@.take(i as int));
        assert(key@.take(i + 1).last() == c);
        proof {
            lemma_key_parts_nonempty(key@.take(i as int));
        }
        let ghost before = parts@.map_values(|s: String| s@).push(current@);
        if c == '.' {
            let done = current;
            parts.push(done);
            current = String::new();
            assert(parts@.map_values(|s: String| s@).push(current@) =~= before.push(Seq::empty()));
        } else {
            let piece = key.substring_char(i, i + 1);
            assert(piece@ =~= seq![c]);
            let ghost cur_before = current@;
            current.append(piece);
            assert(current@ =~= cur_before.push(c));
            assert(parts@.map_values(|s: String| s@).push(current@) =~= before.update(
                before.len() - 1,
                before.last().push(c),
            ));
        }
        i = i + 1;
    }
    assert(key@.take(n as int) =~= key@);
    let ghost before = parts@.map_values(|s: String| s@);
    parts.push(current);
    assert(parts@.map_values(|s: String| s@) =~= before.push(current@));
    parts
}

/// The value reached from `v` through the table keys `parts`, if every one
/// of them is present.
pub open spec fn path_value(v: toml::Value, parts: Seq<Seq<char>>) -> Option<toml::Value>
    decreases parts.len(),
{
    if parts.len() == 0 {
        Some(v)
    } else if toml_entries(v).contains_key(parts[0]) {
        path_value(toml_entries(v)[parts[0]], parts.subrange(1, parts.len() as int))
    } else {
        None
    }
}

/// Whether `after` is `before` with the value at the path `parts` replaced by
/// `x`, every other entry along the way kept.
pub open spec fn replaced_at(
    before: toml::Value,
    after: toml::Value,
    parts: Seq<Seq<char>>,
    x: toml::Value,
) -> bool
    decreases parts.len(),
{
    if parts.len() == 0 {
        after == x
    } else {
        let k = parts[0];
        &&& toml_entries(before).contains_key(k)
        &&& toml_entries(after) == toml_entries(before).insert(k, toml_entries(after)[k])
        &&& replaced_at(
            toml_entries(before)[k],
            toml_entries(after)[k],
            parts.subrange(1, parts.len() as int),
            x,
        )
    }
}

/// The value at a dotted key (`"directories.server_dir"`), if there is one.
pub fn config_get_value<'a>(config: &'a toml::Value, key: &str) -> (r: Option<&'a toml::Value>)
    ensures
        match path_value(*config, key_parts(key@)) {
            Some(w) => r is Some && *r->0 == w,
            None => r is None,
        },
{
    let parts = config_key_path(key);
    let ghost kp = key_parts(key@);
    let mut current = config;
    let mut i: usize = 0;
    assert(kp.subrange(0, kp.len() as int) =~= kp);
    while i < parts.len()
        invariant
            kp == key_parts(key@),
            parts@.map_values(|s: String| s@) == kp,
            i <= parts@.len(),
            path_value(*config, kp) == path_value(*current, kp.subrange(i as int, kp.len() as int)),
        decreases parts@.len() - i,
    {
        let ghost rest = kp.subrange(i as int, kp.len() as int);
        assert(kp[i as int] == parts@[i as int]@);
        assert(rest[0] == parts@[i as int]@);
        assert(rest.subrange(1, rest.len() as int) =~= kp.subrange(i + 1, kp.len() as int));
        match toml_get(current, parts[i].as_str()) {
            Some(next) => {
                current = next;
            },
            None => {
                assert(rest.len() > 0 && !toml_entries(*current).contains_key(rest[0]));
                assert(path_value(*current, rest) is None);
                return None;
            },
        }
        i = i + 1;
    }
    assert(kp.subrange(i as int, kp.len() as int) =~= Seq::<Seq<char>>::empty());
    Some(current)
}

fn put_path(v: &mut toml::Value, parts: &Vec<String>, i: usize, x: toml::Value)
    requires
        i < parts@.len(),
        path_value(
            *old(v),
            parts@.map_values(|s: String| s@).subrange(i as int, parts@.len() as int),
        ) is Some,
    ensures
        replaced_at(
            *old(v),
            *final(v),
            parts@.map_values(|s: String| s@).subrange(i as int, parts@.len() as int),
            x,
        ),
    decreases parts@.len() - i,
{
    let ghost kp = parts@.map_values(|s: String| s@);
    let ghost rest = kp.subrange(i as int, kp.len() as int);
    let ghost tail = rest.subrange(1, rest.len() as int);
    assert(kp[i as int] == parts@[i as int]@);
    assert(rest[0] == parts@[i as int]@);
    assert(tail =~= kp.subrange(i + 1, kp.len() as int));
    let key = parts[i].as_str();
    assert(toml_entries(*v).contains_key(rest[0]));
    if i == parts.len() - 1 {
        let ghost before = *v;
        toml_put(v, key, x);
        assert(tail.len() == 0);
        assert(toml_entries(*v)[key@] == x);
        assert(replaced_at(toml_entries(before)[key@], toml_entries(*v)[key@], tail, x));
        assert(replaced_at(before, *v, rest, x));
    } else {
        let ghost before = *v;
        let mut child = toml_take(v, key);
        let ghost taken = *v;
        put_path(&mut child, parts, i + 1, x);
        toml_put(v, key, child);
        assert(toml_entries(taken).insert(key@, child) =~= toml_entries(taken).remove(key@).insert(
            key@,
            child,
        ));
        assert(toml_entries(before).insert(key@, child) =~= toml_entries(before).remove(
            key@,
        ).insert(key@, child));
        assert(toml_entries(*v) =~= toml_entries(before).insert(key@, child));
        assert(toml_entries(*v)[key@] == child);
        assert(replaced_at(before, *v, rest, x));
    }
}

/// Replaces the value at an existing dotted key. A key that does not lead to
/// an existing entry is `LibError::Misc` ("Invalid Key"), and the value is
/// left unchanged.
pub fn config_set_value(config: &mut toml::Value, key: &str, new_value: toml::Value) -> (r: Result<
    bool,
    LibError,
>)
    ensures
        r is Ok <==> path_value(*old(config), key_parts(key@)) is Some,
        r is Ok ==> r == Ok::<bool, LibError>(true) && replaced_at(
            *old(config),
            *final(config),
            key_parts(key@),
            new_value,
        ),
        r is Err ==> *final(config) == *old(config) && r->Err_0 is Misc && r->Err_0->Misc_0@
            == "Invalid Key"@,
{
    if config_get_value(config, key).is_none() {
        return Err(LibError::Misc(String::from_str("Invalid Key")));
    }
    let parts = config_key_path(key);
    proof {
        lemma_key_parts_nonempty(key@);
        assert(parts@.map_values(|s: String| s@).subrange(0, parts@.len() as int) =~= key_parts(
            key@,
        ));
    }
    put_path(config, &parts, 0, new_value);
    Ok(true)
}

} // verus!
