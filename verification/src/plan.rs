//! The path planner: derives, for one asset, the destination path
//! inside a run's directory.
//!
//! A path is composed of the run directory, the asset's sanitized name
//! and a derived extension. The extension prefers the final
//! dot-delimited segment of the URL (query string stripped); when the
//! URL carries none, an animated asset falls back to `gif` and a still
//! one to `png`.

use vstd::prelude::*;
use crate::errors::PlanError;
use crate::model::{AssetDescriptor, Timestamp};
use crate::text::{first_index_of, last_index_of, lemma_first_index_of, lemma_last_index_of};

verus! {

/// The lower-case counterpart of an ASCII upper-case letter.
pub open spec fn lowered(c: char) -> char {
    ((c as u32) + 32) as char
}

/// How sanitization rewrites one character: a space becomes `'-'`, an
/// ASCII upper-case letter is lower-cased (a cosmetic choice, applied
/// uniformly), ASCII lower-case letters, digits, `'-'` and `'_'` are
/// kept, and every other character is dropped.
pub open spec fn sanitize_char(c: char) -> Seq<char> {
    if c == ' ' {
        seq!['-']
    } else if 65 <= c as u32 && c as u32 <= 90 {
        seq![lowered(c)]
    } else if (97 <= c as u32 && c as u32 <= 122) || (48 <= c as u32 && c as u32 <= 57) || c == '-'
        || c == '_' {
        seq![c]
    } else {
        Seq::<char>::empty()
    }
}

/// The filesystem-safe form of a name: each character rewritten by
/// `sanitize_char`, in order.
pub open spec fn sanitized(s: Seq<char>) -> Seq<char>
    decreases s.len(),
{
    if s.len() == 0 {
        Seq::<char>::empty()
    } else {
        sanitized(s.drop_last()) + sanitize_char(s.last())
    }
}

/// Rewrites `name` into its filesystem-safe form.
pub fn sanitize_name(name: &str) -> (r: String)
    ensures
        r@ == sanitized(name@),
{
    let n = name.unicode_len();
    let mut r = String::new();
    let mut i: usize = 0;
    while i < n
        invariant
            0 <= i <= n,
            n == name@.len(),
            r@ == sanitized(name@.take(i as int)),
        decreases n - i,
    {
        let c = name.get_char(i);
        if c == ' ' {
            crate::push_char(&mut r, '-');
        } else {
            let u: u32 = c as u32;
            if 65 <= u && u <= 90 {
                let lc = ((u + 32) as u8) as char;
                crate::push_char(&mut r, lc);
            } else if (97 <= u && u <= 122) || (48 <= u && u <= 57) || c == '-' || c == '_' {
                crate::push_char(&mut r, c);
            }
        }
        proof {
            assert(name@.take(i + 1 as int).drop_last() =~= name@.take(i as int));
            assert(name@.take(i + 1 as int).last() == name@[i as int]);
            assert(r@ =~= sanitized(name@.take(i + 1 as int)));
        }
        i += 1;
    }
    proof {
        assert(name@.take(n as int) =~= name@);
    }
    r
}

/// The URL up to (not including) its first `'?'`; the whole URL when it
/// carries no query string.
pub open spec fn strip_query(url: Seq<char>) -> Seq<char> {
    if first_index_of(url, '?') == -1 {
        url
    } else {
        url.take(first_index_of(url, '?'))
    }
}

/// The part of a query-free URL after its last `'/'`; the whole string
/// when it holds no slash.
pub open spec fn final_segment(p: Seq<char>) -> Seq<char> {
    p.subrange(last_index_of(p, '/') + 1, p.len() as int)
}

/// The extension the URL itself declares: the non-empty part after the
/// last dot of the final path segment, when there is one.
pub open spec fn url_extension(url: Seq<char>) -> Option<Seq<char>> {
    let seg = final_segment(strip_query(url));
    let d = last_index_of(seg, '.');
    if d != -1 && d + 1 < seg.len() {
        Option::Some(seg.subrange(d + 1, seg.len() as int))
    } else {
        Option::None
    }
}

/// The extension chosen for an asset: the URL-declared one when
/// present, else `gif` for an animated asset and `png` for a still one.
pub open spec fn extension_of(url: Seq<char>, animated: bool) -> Seq<char> {
    match url_extension(url) {
        Option::Some(e) => e,
        Option::None => if animated {
            "gif"@
        } else {
            "png"@
        },
    }
}

/// Derives the extension for an asset with the given URL and animated
/// flag.
pub fn derive_extension(url: &str, animated: bool) -> (r: String)
    ensures
        r@ == extension_of(url@, animated),
{
    let n = url.unicode_len();
    let q = match crate::text::find_char(url, '?') {
        Some(i) => {
            proof {
                lemma_first_index_of(url@, '?');
            }
            i
        },
        None => n,
    };
    let path = url.substring_char(0, q);
    proof {
        assert(path@ =~= strip_query(url@));
    }
    let m = path.unicode_len();
    let s = match crate::text::rfind_char(path, '/') {
        Some(i) => {
            proof {
                lemma_last_index_of(path@, '/');
            }
            i + 1
        },
        None => 0,
    };
    let seg = path.substring_char(s, m);
    proof {
        assert(seg@ =~= final_segment(strip_query(url@)));
    }
    let k = seg.unicode_len();
    let d_opt = crate::text::rfind_char(seg, '.');
    match d_opt {
        Some(d) => {
            proof {
                lemma_last_index_of(seg@, '.');
            }
            if d + 1 < k {
                let e = seg.substring_char(d + 1, k);
                e.to_owned()
            } else {
                fallback_extension(animated)
            }
        },
        None => fallback_extension(animated),
    }
}

/// The content-type fallback used when the URL declares no extension.
fn fallback_extension(animated: bool) -> (r: String)
    ensures
        animated ==> r@ == "gif"@,
        !animated ==> r@ == "png"@,
{
    if animated {
        String::from_str("gif")
    } else {
        String::from_str("png")
    }
}

/// The destination path planned for an asset: run directory, `'/'`,
/// sanitized name, `'.'`, derived extension.
pub open spec fn planned_path(
    dir: Seq<char>,
    name: Seq<char>,
    url: Seq<char>,
    animated: bool,
) -> Seq<char> {
    dir + seq!['/'] + sanitized(name) + seq!['.'] + extension_of(url, animated)
}

/// Plans the destination path for one asset inside the run directory
/// `dir`. Fails exactly when the asset's name empties out under
/// sanitization.
pub fn plan(dir: &str, asset: &AssetDescriptor) -> (r: Result<String, PlanError>)
    ensures
        r is Ok <==> sanitized(asset.name@).len() != 0,
        r is Ok ==> r->Ok_0@ == planned_path(dir@, asset.name@, asset.url@, asset.animated),
        r is Err ==> r->Err_0 == PlanError::UnsafeName,
{
    let base = sanitize_name(asset.name.as_str());
    if base.as_str().unicode_len() == 0 {
        return Err(PlanError::UnsafeName);
    }
    let ext = derive_extension(asset.url.as_str(), asset.animated);
    let mut p = String::from_str(dir);
    p.append("/");
    p.append(base.as_str());
    p.append(".");
    p.append(ext.as_str());
    proof {
        reveal_strlit("/");
        reveal_strlit(".");
        assert(p@ =~= planned_path(dir@, asset.name@, asset.url@, asset.animated));
    }
    Ok(p)
}

/// The name of a run's directory: sanitized server name, `'-'`, the
/// trigger timestamp.
pub open spec fn run_directory_name(server_name: Seq<char>, ts: Timestamp) -> Seq<char> {
    sanitized(server_name) + seq!['-'] + ts.formatted()
}

/// Derives the run directory name for a server and a trigger
/// timestamp.
pub fn derive_run_directory(server_name: &str, ts: &Timestamp) -> (r: String)
    requires
        ts.valid(),
    ensures
        r@ == run_directory_name(server_name@, *ts),
{
    let mut d = sanitize_name(server_name);
    crate::push_char(&mut d, '-');
    let t = ts.format();
    d.append(t.as_str());
    proof {
        assert(d@ =~= run_directory_name(server_name@, *ts));
    }
    d
}

/// What the filesystem reported for one ensure-directory invocation.
/// The surrounding program performs the call and hands back one of
/// these plain values; an already-present directory is reported
/// distinctly from a real failure.
#[derive(Clone, Copy, PartialEq, Eq, Structural, Debug)]
pub enum DirCreateOutcome {
    /// The directory (and any missing parent) was created.
    Created,
    /// The directory was already there, created earlier in this run or
    /// by a racing sibling task.
    AlreadyExists,
    /// A permission or I/O failure; the directory is not usable.
    Failed,
}

/// Whether an ensure-directory report counts as success.
pub open spec fn dir_create_ok(o: DirCreateOutcome) -> bool {
    o != DirCreateOutcome::Failed
}

/// Decides one ensure-directory report: an already-existing directory
/// is success, only a real filesystem failure is an error.
pub fn classify_dir_create(o: DirCreateOutcome) -> (r: Result<(), PlanError>)
    ensures
        r is Ok <==> dir_create_ok(o),
        r is Err ==> r->Err_0 == PlanError::DirectoryCreate,
{
    match o {
        DirCreateOutcome::Created => Ok(()),
        DirCreateOutcome::AlreadyExists => Ok(()),
        DirCreateOutcome::Failed => Err(PlanError::DirectoryCreate),
    }
}

/// Ensuring the run directory is idempotent at the decision level: the
/// second of two invocations (or the loser of a race) sees the
/// directory already present, and that report is a success, never an
/// error.
pub proof fn lemma_ensure_directory_idempotent()
    ensures
        dir_create_ok(DirCreateOutcome::Created),
        dir_create_ok(DirCreateOutcome::AlreadyExists),
{
}

/// The planner is deterministic: equal directory and asset inputs
/// always yield the same planned path.
pub proof fn lemma_plan_deterministic(
    dir1: Seq<char>,
    name1: Seq<char>,
    url1: Seq<char>,
    animated1: bool,
    dir2: Seq<char>,
    name2: Seq<char>,
    url2: Seq<char>,
    animated2: bool,
)
    requires
        dir1 == dir2,
        name1 == name2,
        url1 == url2,
        animated1 == animated2,
    ensures
        planned_path(dir1, name1, url1, animated1) == planned_path(dir2, name2, url2, animated2),
{
}

/// Two assets whose sanitized names and derived extensions coincide
/// are planned to the same path within a run: the later write lands on
/// the earlier one (the baseline keeps silent overwrite).
pub proof fn lemma_collision_same_path(
    dir: Seq<char>,
    name1: Seq<char>,
    url1: Seq<char>,
    animated1: bool,
    name2: Seq<char>,
    url2: Seq<char>,
    animated2: bool,
)
    requires
        sanitized(name1) == sanitized(name2),
        extension_of(url1, animated1) == extension_of(url2, animated2),
    ensures
        planned_path(dir, name1, url1, animated1) == planned_path(dir, name2, url2, animated2),
{
}

/// The extension policy, for URLs without a query string: a URL ending
/// in `.gif` yields `gif` whatever the animated flag; a URL holding no
/// dot at all yields `gif` exactly for an animated asset and `png` for
/// a still one. (With a query string the dot must precede the `'?'`:
/// `a?x.gif` declares no extension.)
pub proof fn lemma_extension_policy(url: Seq<char>, animated: bool)
    requires
        forall|j: int| 0 <= j < url.len() ==> url[j] != '?',
    ensures
        url.len() >= 4 && url[url.len() - 4] == '.' && url[url.len() - 3] == 'g' && url[url.len()
            - 2] == 'i' && url[url.len() - 1] == 'f' ==> extension_of(url, animated) == "gif"@,
        (forall|j: int| 0 <= j < url.len() ==> url[j] != '.') && animated ==> extension_of(
            url,
            animated,
        ) == "gif"@,
        (forall|j: int| 0 <= j < url.len() ==> url[j] != '.') && !animated ==> extension_of(
            url,
            animated,
        ) == "png"@,
{
    lemma_first_index_of(url, '?');
    assert(strip_query(url) == url);
    let l = last_index_of(url, '/');
    lemma_last_index_of(url, '/');
    let seg = final_segment(url);
    assert(seg == url.subrange(l + 1, url.len() as int));
    let d = last_index_of(seg, '.');
    lemma_last_index_of(seg, '.');
    if url.len() >= 4 && url[url.len() - 4] == '.' && url[url.len() - 3] == 'g' && url[url.len()
        - 2] == 'i' && url[url.len() - 1] == 'f' {
        assert(l < url.len() - 4) by {
            if l >= url.len() - 4 {
                assert(url[l] == '/');
            }
        }
        assert(seg.len() >= 4);
        assert(seg[seg.len() - 4] == url[url.len() - 4]);
        assert(seg[seg.len() - 3] == url[url.len() - 3]);
        assert(seg[seg.len() - 2] == url[url.len() - 2]);
        assert(seg[seg.len() - 1] == url[url.len() - 1]);
        assert(d == seg.len() - 4) by {
            assert(seg[seg.len() - 4] == '.');
            if d < seg.len() - 4 {
                assert(seg[seg.len() - 4] != '.');
            }
            if d > seg.len() - 4 {
                assert(seg[d] == '.');
                assert(seg[d] == 'g' || seg[d] == 'i' || seg[d] == 'f');
            }
        }
        let e = seg.subrange(d + 1, seg.len() as int);
        assert(url_extension(url) == Option::Some(e));
        reveal_strlit("gif");
        assert(e =~= "gif"@);
    }
    if forall|j: int| 0 <= j < url.len() ==> url[j] != '.' {
        assert(d == -1) by {
            if d != -1 {
                assert(seg[d] == '.');
                assert(seg[d] == url[l + 1 + d]);
            }
        }
        assert(url_extension(url) is None);
    }
}

} // verus!
