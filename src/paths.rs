//! Path arithmetic on the request path that a handler observes. The prefix at
//! which a mount is attached is not known until a request arrives, so every
//! URL handed back to the viewer is derived from the request's own path.

use vstd::prelude::*;
use vstd::string::*;

verus! {

/// Path of the viewer configuration document, relative to the mount.
pub const CONFIG_FILE_PATH: &'static str = "/swagger-ui-config.json";

/// Path of the viewer's entry page, relative to the mount, with the start of
/// its query.
pub const INDEX_QUERY: &'static str = "/index.html?configUrl=";

pub open spec fn config_suffix() -> Seq<char> {
    CONFIG_FILE_PATH@
}

/// The mount root seen in a request to it: the path without one trailing `/`.
pub open spec fn mount_root(path: Seq<char>) -> Seq<char> {
    if path.len() > 0 && path.last() == '/' {
        path.drop_last()
    } else {
        path
    }
}

/// Where a request to the mount root is sent: the entry page, told where the
/// configuration document lies.
pub open spec fn index_location_of(path: Seq<char>) -> Seq<char> {
    mount_root(path) + INDEX_QUERY@ + mount_root(path) + config_suffix()
}

pub open spec fn has_suffix(s: Seq<char>, suffix: Seq<char>) -> bool {
    suffix.len() <= s.len() && s.subrange(s.len() - suffix.len(), s.len() as int) == suffix
}

/// The mount's base path seen in a request for the configuration document.
pub open spec fn config_base(path: Seq<char>) -> Seq<char> {
    if has_suffix(path, config_suffix()) {
        path.subrange(0, path.len() - config_suffix().len())
    } else {
        path
    }
}

/// The URL of the specification document, told to the viewer in the
/// configuration document.
pub open spec fn spec_url_of(path: Seq<char>, spec_name: Seq<char>) -> Seq<char> {
    config_base(path) + seq!['/'] + spec_name
}

/// Index at which the last segment of a path starts: just after its last `/`,
/// or 0 where it has none.
pub open spec fn name_start(path: Seq<char>) -> nat
    decreases path.len(),
{
    if path.len() == 0 {
        0
    } else if path.last() == '/' {
        path.len()
    } else {
        name_start(path.drop_last())
    }
}

/// The last segment of a path: what follows its last `/`.
pub open spec fn file_name_of(path: Seq<char>) -> Seq<char> {
    path.subrange(name_start(path) as int, path.len() as int)
}

proof fn lemma_name_start_bound(path: Seq<char>)
    ensures
        name_start(path) <= path.len(),
    decreases path.len(),
{
    if path.len() > 0 && path.last() != '/' {
        lemma_name_start_bound(path.drop_last());
    }
}

fn trim_trailing_slash(path: &str) -> (r: &str)
    ensures
        r@ == mount_root(path@),
{
    let n = path.unicode_len();
    if n > 0 && path.get_char(n - 1) == '/' {
        path.substring_char(0, n - 1)
    } else {
        path
    }
}

/// Whether `s` ends with `suffix`.
pub fn ends_with(s: &str, suffix: &str) -> (r: bool)
    ensures
        r == has_suffix(s@, suffix@),
{
    let n = s.unicode_len();
    let m = suffix.unicode_len();
    if m > n {
        return false;
    }
    let ghost tail = s@.subrange(n - m, n as int);
    let mut i: usize = 0;
    while i < m
        invariant
            n == s@.len(),
            m == suffix@.len(),
            m <= n,
            tail == s@.subrange(n - m, n as int),
            i <= m,
            forall|j: int| 0 <= j < i ==> tail[j] == suffix@[j],
        decreases m - i,
    {
        if s.get_char(n - m + i) != suffix.get_char(i) {
            assert(tail[i as int] != suffix@[i as int]);
            return false;
        }
        i = i + 1;
    }
    assert(tail =~= suffix@);
    true
}

/// The `Location` of the redirect sent for a request to the mount root. The
/// configuration URL goes into the query as it stands, not percent-encoded,
/// so that prefixes which need no escaping give the plain URL a viewer expects.
pub fn index_location(path: &str) -> (r: String)
    ensures
        r@ == index_location_of(path@),
{
    let root = trim_trailing_slash(path);
    let mut r = String::from_str(root);
    r.append(INDEX_QUERY);
    r.append(root);
    r.append(CONFIG_FILE_PATH);
    r
}

/// The URL of the specification document, from the path of a request for
/// the configuration document.
pub fn spec_url(path: &str, spec_name: &str) -> (r: String)
    ensures
        r@ == spec_url_of(path@, spec_name@),
{
    let base = if ends_with(path, CONFIG_FILE_PATH) {
        let n = path.unicode_len();
        let m = CONFIG_FILE_PATH.unicode_len();
        path.substring_char(0, n - m)
    } else {
        path
    };
    let mut r = String::from_str(base);
    r.append("/");
    proof {
        reveal_strlit("/");
    }
    r.append(spec_name);
    r
}

/// The last segment of a request path, the name of the file it asks for.
pub fn file_name(path: &str) -> (r: String)
    ensures
        r@ == file_name_of(path@),
{
    let n = path.unicode_len();
    let mut i: usize = n;
    assert(path@.subrange(0, n as int) =~= path@);
    while i > 0 && path.get_char(i - 1) != '/'
        invariant
            n == path@.len(),
            i <= n,
            name_start(path@) == name_start(path@.subrange(0, i as int)),
            forall|j: int| i <= j < n ==> path@[j] != '/',
        decreases i,
    {
        let ghost prefix = path@.subrange(0, i as int);
        assert(prefix.drop_last() =~= path@.subrange(0, i - 1));
        i = i - 1;
    }
    proof {
        let prefix = path@.subrange(0, i as int);
        if i > 0 {
            assert(prefix.last() == '/');
        }
    }
    String::from_str(path.substring_char(i, n))
}

/// A request for the configuration document under any prefix `p` learns the
/// specification's URL under that same prefix, whatever other prefix the
/// mount is reachable under.
pub proof fn lemma_spec_url_follows_prefix(p: Seq<char>, spec_name: Seq<char>)
    ensures
        spec_url_of(p + config_suffix(), spec_name) == p + seq!['/'] + spec_name,
{
    let path = p + config_suffix();
    assert(path.subrange(path.len() - config_suffix().len(), path.len() as int) =~= config_suffix());
    assert(path.subrange(0, path.len() - config_suffix().len()) =~= p);
}

/// A request to the mount root `p/`, or to `p` itself, is sent to the entry
/// page under `p`, told that the configuration document lies under `p` too.
pub proof fn lemma_index_location_under_prefix(p: Seq<char>)
    ensures
        index_location_of(p + seq!['/']) == p + INDEX_QUERY@ + p + config_suffix(),
        (p.len() == 0 || p.last() != '/') ==> index_location_of(p) == p + INDEX_QUERY@ + p
            + config_suffix(),
{
    assert((p + seq!['/']).drop_last() =~= p);
}

/// The name of an asset at the end of a path is found again, whatever the
/// prefix before it, as long as the name holds no `/`.
pub proof fn lemma_file_name_after_prefix(p: Seq<char>, name: Seq<char>)
    requires
        forall|j: int| 0 <= j < name.len() ==> name[j] != '/',
    ensures
        file_name_of(p + seq!['/'] + name) == name,
    decreases name.len(),
{
    let path = p + seq!['/'] + name;
    if name.len() == 0 {
        assert(path.subrange(path.len() as int, path.len() as int) =~= name);
    } else {
        let shorter = name.drop_last();
        lemma_file_name_after_prefix(p, shorter);
        assert(path.drop_last() =~= p + seq!['/'] + shorter);
        lemma_name_start_bound(path.drop_last());
        assert(path.subrange(name_start(path) as int, path.len() as int) =~= name);
    }
}

} // verus!
