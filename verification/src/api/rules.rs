//! Updating rule files from GitHub repositories: the request and report
//! types, and the matching of repository paths and URLs.
use crate::text::{
    chars_eq, chars_of, contains_char, contains_seq, contains_str, ends_with_str, eq_str,
    has_suffix, kv_insert, push_str, split, split_char, string_of, string_views, trim, trim_chars,
    views,
};
use crate::utils::matcher::{regex_is_match, regex_search};
use vstd::prelude::*;

verus! {

/// A request to update the rules; without a path the default configuration
/// file is read.
#[derive(Debug)]
pub struct RulesUpdateRequest {
    pub config_path: Option<String>,
}

/// The report of a rules update: overall success, a message, and the
/// outcome for each repository, keyed by section name (each key once).
#[derive(Debug)]
pub struct RulesUpdateResult {
    pub success: bool,
    pub message: String,
    pub details: Vec<(String, RepoUpdateResult)>,
}

/// The outcome of updating the rules of one repository.
#[derive(Debug)]
pub struct RepoUpdateResult {
    pub repo_name: String,
    pub files_updated: Vec<String>,
    pub errors: Vec<String>,
    pub status: String,
}

/// The regular expression for one segment of a glob pattern: each `*`
/// becomes `.*`, all else is kept.
pub open spec fn star_to_regex(part: Seq<char>) -> Seq<char>
    decreases part.len(),
{
    if part.len() == 0 {
        Seq::empty()
    } else {
        star_to_regex(part.drop_last()) + (if part.last() == '*' {
            ".*"@
        } else {
            seq![part.last()]
        })
    }
}

/// The anchored regular expression for one segment of a glob pattern.
pub open spec fn glob_regex(part: Seq<char>) -> Seq<char> {
    "^"@ + star_to_regex(part) + "$"@
}

/// Whether the path segment `seg` matches the pattern segment `part`: a
/// segment with a `*` by its regular expression (one that does not compile
/// matches anything), any other by equality.
pub open spec fn segment_matches(part: Seq<char>, seg: Seq<char>) -> bool {
    if part.contains('*') {
        match regex_search(glob_regex(part), seg) {
            Some(b) => b,
            None => true,
        }
    } else {
        part == seg
    }
}

/// Whether `path` matches the glob `pattern`: a `**` segment anywhere
/// matches every path; otherwise the segments, split at `/`, must match one
/// for one.
pub open spec fn glob_matches(pattern: Seq<char>, path: Seq<char>) -> bool {
    let parts = split_char(pattern, '/');
    let segs = split_char(path, '/');
    if parts.contains("**"@) {
        true
    } else if parts.len() != segs.len() && !has_suffix(pattern, "/**"@) {
        false
    } else {
        forall|i: int| 0 <= i < parts.len() ==> #[trigger] segment_ok(parts, segs, i)
    }
}

/// The regular expression of a pattern segment (see [`glob_regex`]).
fn glob_regex_exec(part: &[char]) -> (r: String)
    ensures
        r@ == glob_regex(part@),
{
    let mut v: Vec<char> = Vec::new();
    push_str(&mut v, "^");
    let mut i: usize = 0;
    while i < part.len()
        invariant
            i <= part@.len(),
            v@ == "^"@ + star_to_regex(part@.take(i as int)),
        decreases part@.len() - i,
    {
        assert(part@.take(i + 1).drop_last() =~= part@.take(i as int));
        if part[i] == '*' {
            push_str(&mut v, ".*");
        } else {
            v.push(part[i]);
        }
        i = i + 1;
        assert(v@ =~= "^"@ + star_to_regex(part@.take(i as int)));
    }
    push_str(&mut v, "$");
    assert(part@.take(part@.len() as int) =~= part@);
    string_of(v.as_slice())
}

/// Whether a path segment matches a pattern segment (see [`segment_matches`]).
fn segment_matches_exec(part: &[char], seg: &[char]) -> (r: bool)
    ensures
        r == segment_matches(part@, seg@),
{
    if contains_char(part, '*') {
        let re = glob_regex_exec(part);
        let text = string_of(seg);
        match regex_is_match(re.as_str(), text.as_str()) {
            Some(b) => b,
            None => {
                let any = regex_is_match(".*", text.as_str());
                any.unwrap()
            },
        }
    } else {
        chars_eq(part, seg)
    }
}

/// Whether a list of pieces holds `**`.
fn has_double_star(parts: &Vec<Vec<char>>) -> (r: bool)
    ensures
        r == views(parts@).contains("**"@),
{
    let mut i: usize = 0;
    while i < parts.len()
        invariant
            i <= parts@.len(),
            forall|j: int| 0 <= j < i ==> views(parts@)[j] != "**"@,
        decreases parts@.len() - i,
    {
        if eq_str(parts[i].as_slice(), "**") {
            assert(views(parts@)[i as int] == "**"@);
            return true;
        }
        i = i + 1;
    }
    false
}

/// Whether the `j`-th pattern segment has a path segment that it matches.
pub open spec fn segment_ok(parts: Seq<Seq<char>>, segs: Seq<Seq<char>>, j: int) -> bool {
    j < segs.len() && segment_matches(parts[j], segs[j])
}

/// Whether each piece of `parts` matches the piece of `segs` at its index.
fn segments_match(parts: &Vec<Vec<char>>, segs: &Vec<Vec<char>>) -> (r: bool)
    ensures
        r == forall|j: int| 0 <= j < parts@.len() ==> #[trigger] segment_ok(views(parts@), views(segs@), j),
{
    let ghost pv = views(parts@);
    let ghost sv = views(segs@);
    let mut i: usize = 0;
    while i < parts.len()
        invariant
            i <= parts@.len(),
            pv == views(parts@),
            sv == views(segs@),
            forall|j: int| 0 <= j < i ==> #[trigger] segment_ok(pv, sv, j),
        decreases parts@.len() - i,
    {
        if i >= segs.len() {
            assert(!segment_ok(pv, sv, i as int));
            return false;
        }
        if !segment_matches_exec(parts[i].as_slice(), segs[i].as_slice()) {
            assert(!segment_ok(pv, sv, i as int));
            return false;
        }
        i = i + 1;
    }
    true
}

/// Whether `path` matches the glob `pattern` (see [`glob_matches`]).
pub fn pattern_matches(pattern: &str, path: &str) -> (r: bool)
    ensures
        r == glob_matches(pattern@, path@),
{
    let pattern_chars = chars_of(pattern);
    let path_chars = chars_of(path);
    let parts = split(pattern_chars.as_slice(), '/');
    let segs = split(path_chars.as_slice(), '/');
    let ghost pv = views(parts@);
    let ghost sv = views(segs@);
    assert(pv == split_char(pattern@, '/'));
    assert(sv == split_char(path@, '/'));
    assert(pv.len() == parts@.len() && sv.len() == segs@.len());
    if has_double_star(&parts) {
        return true;
    }
    if parts.len() != segs.len() && !ends_with_str(pattern_chars.as_slice(), "/**") {
        return false;
    }
    segments_match(&parts, &segs)
}

/// Whether `file_path` matches at least one of `patterns`.
pub fn matches_any_pattern(file_path: &str, patterns: &[String]) -> (r: bool)
    ensures
        r == exists|i: int| 0 <= i < patterns@.len() && #[trigger] glob_matches(patterns@[i]@, file_path@),
{
    let mut i: usize = 0;
    while i < patterns.len()
        invariant
            i <= patterns@.len(),
            forall|j: int| 0 <= j < i ==> !#[trigger] glob_matches(patterns@[j]@, file_path@),
        decreases patterns@.len() - i,
    {
        if pattern_matches(patterns[i].as_str(), file_path) {
            return true;
        }
        i = i + 1;
    }
    false
}

/// Whether a path piece names GitHub.
pub open spec fn names_github(p: Seq<char>) -> bool {
    p == "github.com"@ || has_suffix(p, "github.com"@)
}

/// The index of the first piece that names GitHub, or -1.
pub open spec fn github_index(parts: Seq<Seq<char>>) -> int
    decreases parts.len(),
{
    if parts.len() == 0 {
        -1
    } else if names_github(parts[0]) {
        0
    } else if github_index(parts.drop_first()) < 0 {
        -1
    } else {
        github_index(parts.drop_first()) + 1
    }
}

/// The piece `offset` places after the one that names GitHub in a URL with
/// at least `min_parts` pieces between slashes.
pub open spec fn github_piece(url: Seq<char>, min_parts: nat, offset: int) -> Option<Seq<char>> {
    let parts = split_char(url, '/');
    if !contains_seq(url, "github.com"@) || parts.len() < min_parts {
        None
    } else if github_index(parts) < 0 || github_index(parts) + offset >= parts.len() {
        None
    } else {
        Some(parts[github_index(parts) + offset])
    }
}

/// The index of the first piece that names GitHub (see [`github_index`]).
fn find_github(parts: &Vec<Vec<char>>) -> (r: Option<usize>)
    ensures
        match r {
            Some(i) => i < parts@.len() && github_index(views(parts@)) == i,
            None => github_index(views(parts@)) < 0,
        },
{
    let ghost pv = views(parts@);
    let mut i: usize = 0;
    assert(pv.skip(0) =~= pv);
    while i < parts.len()
        invariant
            i <= parts@.len(),
            pv == views(parts@),
            github_index(pv) == (if github_index(pv.skip(i as int)) < 0 {
                -1
            } else {
                github_index(pv.skip(i as int)) + i
            }),
        decreases parts@.len() - i,
    {
        assert(pv.skip(i as int).drop_first() =~= pv.skip(i + 1));
        assert(pv.skip(i as int)[0] == pv[i as int]);
        if eq_str(parts[i].as_slice(), "github.com") || ends_with_str(
            parts[i].as_slice(),
            "github.com",
        ) {
            return Some(i);
        }
        i = i + 1;
    }
    assert(pv.skip(i as int).len() == 0);
    None
}

/// The piece `offset` places after the one that names GitHub (see [`github_piece`]).
fn github_piece_exec(url: &str, min_parts: usize, offset: usize) -> (r: Option<String>)
    requires
        offset <= 2,
    ensures
        match r {
            Some(s) => github_piece(url@, min_parts as nat, offset as int) == Some(s@),
            None => github_piece(url@, min_parts as nat, offset as int) is None,
        },
{
    let chars = chars_of(url);
    if !contains_str(chars.as_slice(), "github.com") {
        return None;
    }
    let parts = split(chars.as_slice(), '/');
    if parts.len() < min_parts {
        return None;
    }
    match find_github(&parts) {
        Some(k) => {
            if offset < parts.len() - k {
                Some(string_of(parts[k + offset].as_slice()))
            } else {
                None
            }
        },
        None => None,
    }
}

/// The owner in a GitHub repository URL such as
/// `https://github.com/owner/repo`: the piece after the one that names
/// GitHub, in a URL of at least four pieces between slashes.
pub fn extract_owner_from_url(url: &str) -> (r: Option<String>)
    ensures
        match r {
            Some(s) => github_piece(url@, 4, 1) == Some(s@),
            None => github_piece(url@, 4, 1) is None,
        },
{
    github_piece_exec(url, 4, 1)
}

/// The repository in a GitHub repository URL such as
/// `https://github.com/owner/repo`: the second piece after the one that
/// names GitHub, in a URL of at least five pieces between slashes.
pub fn extract_repo_from_url(url: &str) -> (r: Option<String>)
    ensures
        match r {
            Some(s) => github_piece(url@, 5, 2) == Some(s@),
            None => github_piece(url@, 5, 2) is None,
        },
{
    github_piece_exec(url, 5, 2)
}

/// A pattern with a `**` segment anywhere matches every path.
pub proof fn law_double_star_matches_all(pattern: Seq<char>, path: Seq<char>)
    requires
        split_char(pattern, '/').contains("**"@),
    ensures
        glob_matches(pattern, path),
{
}

// ---------------------------------------------------------------------------
// Repository sections and reports
// ---------------------------------------------------------------------------
/// The settings of one repository of the rules configuration.
#[derive(Debug)]
pub struct RepoSection {
    pub repo_name: String,
    pub url: String,
    pub branch: String,
    pub patterns: Vec<String>,
    pub dest_path: String,
    pub keep_tree: bool,
}

/// The name a repository goes by: its `name`, else its section's name.
pub open spec fn repo_name_of(section: Seq<char>, name: Seq<char>) -> Seq<char> {
    if name.len() == 0 {
        section
    } else {
        name
    }
}

/// The settings read from one section of the rules configuration; `None`
/// where the section has no URL or no file patterns. The branch is `main`
/// where none is given; the patterns are the `|`-separated parts of `match`,
/// trimmed; files go to `dest`, else to `base/rules/` and the repository's
/// name; the tree is kept unless `keep_tree` is given as other than `true`.
pub open spec fn section_ok(
    r: RepoSection,
    section: Seq<char>,
    name: Seq<char>,
    url: Seq<char>,
    branch: Seq<char>,
    patterns: Seq<char>,
    dest: Seq<char>,
    keep_tree: Seq<char>,
) -> bool {
    &&& r.repo_name@ == repo_name_of(section, name)
    &&& r.url@ == url
    &&& r.branch@ == (if branch.len() == 0 {
        "main"@
    } else {
        branch
    })
    &&& string_views(r.patterns@) == split_char(patterns, '|').map_values(|p: Seq<char>| trim(p))
    &&& r.dest_path@ == (if dest.len() == 0 {
        "base/rules/"@ + repo_name_of(section, name)
    } else {
        dest
    })
    &&& r.keep_tree == (keep_tree.len() == 0 || keep_tree == "true"@)
}

/// Reads the settings of one repository section (see [`section_ok`]).
pub fn repo_section(
    section: &str,
    name: &str,
    url: &str,
    branch: &str,
    patterns: &str,
    dest: &str,
    keep_tree: &str,
) -> (r: Option<RepoSection>)
    ensures
        match r {
            Some(s) => url@.len() > 0 && patterns@.len() > 0 && section_ok(
                s,
                section@,
                name@,
                url@,
                branch@,
                patterns@,
                dest@,
                keep_tree@,
            ),
            None => url@.len() == 0 || patterns@.len() == 0,
        },
{
    if url.is_empty() || patterns.is_empty() {
        return None;
    }
    let repo_name = if name.is_empty() {
        section.to_owned()
    } else {
        name.to_owned()
    };
    let pc = chars_of(patterns);
    let parts = split(pc.as_slice(), '|');
    let ghost pv = views(parts@);
    let mut list: Vec<String> = Vec::new();
    let mut i: usize = 0;
    while i < parts.len()
        invariant
            i <= parts@.len(),
            pv == views(parts@),
            string_views(list@) == pv.take(i as int).map_values(|p: Seq<char>| trim(p)),
        decreases parts@.len() - i,
    {
        let t = trim_chars(parts[i].as_slice());
        let ghost old_list = string_views(list@);
        list.push(string_of(t.as_slice()));
        assert(string_views(list@) =~= old_list.push(trim(pv[i as int])));
        assert(pv.take(i + 1).map_values(|p: Seq<char>| trim(p)) =~= pv.take(i as int).map_values(
            |p: Seq<char>| trim(p),
        ).push(trim(pv[i as int])));
        i = i + 1;
    }
    assert(pv.take(i as int) =~= pv);
    let dest_path = if dest.is_empty() {
        let mut v = chars_of("base/rules/");
        push_str(&mut v, repo_name.as_str());
        string_of(v.as_slice())
    } else {
        dest.to_owned()
    };
    let kc = chars_of(keep_tree);
    Some(RepoSection {
        repo_name,
        url: url.to_owned(),
        branch: if branch.is_empty() {
            "main".to_owned()
        } else {
            branch.to_owned()
        },
        patterns: list,
        dest_path,
        keep_tree: keep_tree.is_empty() || eq_str(kc.as_slice(), "true"),
    })
}

/// The owner and repository of a GitHub URL, each `unknown` where the URL
/// does not give it.
pub fn github_owner_repo(url: &str) -> (r: (String, String))
    ensures
        r.0@ == (match github_piece(url@, 4, 1) {
            Some(o) => o,
            None => "unknown"@,
        }),
        r.1@ == (match github_piece(url@, 5, 2) {
            Some(o) => o,
            None => "unknown"@,
        }),
{
    let owner = match extract_owner_from_url(url) {
        Some(o) => o,
        None => "unknown".to_owned(),
    };
    let repo = match extract_repo_from_url(url) {
        Some(o) => o,
        None => "unknown".to_owned(),
    };
    (owner, repo)
}

/// The URL of the GitHub API listing of a repository's tree.
pub fn github_tree_url(owner: &str, repo: &str, branch: &str) -> (r: String)
    ensures
        r@ == "https://api.github.com/repos/"@ + owner@ + "/"@ + repo@ + "/git/trees/"@ + branch@
            + "?recursive=1"@,
{
    let mut v = chars_of("https://api.github.com/repos/");
    push_str(&mut v, owner);
    push_str(&mut v, "/");
    push_str(&mut v, repo);
    push_str(&mut v, "/git/trees/");
    push_str(&mut v, branch);
    push_str(&mut v, "?recursive=1");
    string_of(v.as_slice())
}

/// The URL of the raw content of a file of a repository.
pub fn github_raw_url(owner: &str, repo: &str, branch: &str, path: &str) -> (r: String)
    ensures
        r@ == "https://raw.githubusercontent.com/"@ + owner@ + "/"@ + repo@ + "/"@ + branch@ + "/"@
            + path@,
{
    let mut v = chars_of("https://raw.githubusercontent.com/");
    push_str(&mut v, owner);
    push_str(&mut v, "/");
    push_str(&mut v, repo);
    push_str(&mut v, "/");
    push_str(&mut v, branch);
    push_str(&mut v, "/");
    push_str(&mut v, path);
    string_of(v.as_slice())
}

/// A directory and a name joined by one `/` (none added where the directory
/// already ends with one).
pub open spec fn under(dir: Seq<char>, name: Seq<char>) -> Seq<char> {
    if dir.len() > 0 && dir.last() == '/' {
        dir + name
    } else {
        dir + "/"@ + name
    }
}

/// Where a file of the repository goes: under `dest_path` at its path in
/// the tree where the tree is kept, else by its file name alone.
pub fn destination_path(dest_path: &str, file_path: &str, file_name: &str, keep_tree: bool) -> (r: String)
    ensures
        r@ == under(dest_path@, if keep_tree {
            file_path@
        } else {
            file_name@
        }),
{
    let mut v = chars_of(dest_path);
    if !(v.len() > 0 && v[v.len() - 1] == '/') {
        v.push('/');
    }
    push_str(&mut v, if keep_tree { file_path } else { file_name });
    let r = string_of(v.as_slice());
    proof {
        reveal_strlit("/");
    }
    assert(r@ =~= under(dest_path@, if keep_tree {
        file_path@
    } else {
        file_name@
    }));
    r
}

/// The status of a repository from its updated files and errors.
pub open spec fn repo_status(n_updated: nat, n_errors: nat) -> Seq<char> {
    if n_errors == 0 {
        "success"@
    } else if n_updated == 0 {
        "failed"@
    } else {
        "partial"@
    }
}

/// The paths of the updates that succeeded, in order.
pub open spec fn updated_paths(u: Seq<(String, bool)>) -> Seq<Seq<char>>
    decreases u.len(),
{
    if u.len() == 0 {
        Seq::empty()
    } else if u.last().1 {
        updated_paths(u.drop_last()).push(u.last().0@)
    } else {
        updated_paths(u.drop_last())
    }
}

/// The error messages of the updates that failed, in order.
pub open spec fn update_errors(u: Seq<(String, bool)>) -> Seq<Seq<char>>
    decreases u.len(),
{
    if u.len() == 0 {
        Seq::empty()
    } else if u.last().1 {
        update_errors(u.drop_last())
    } else {
        update_errors(u.drop_last()).push("Failed to update "@ + u.last().0@)
    }
}

impl RepoUpdateResult {
    /// The outcome of a repository whose files were fetched: the paths that
    /// were written, an error for each that was not, and a status of
    /// `success` (no error), `failed` (nothing written) or `partial`.
    pub fn from_updates(repo_name: &str, updates: &[(String, bool)]) -> (r: Self)
        ensures
            r.repo_name@ == repo_name@,
            string_views(r.files_updated@) == updated_paths(updates@),
            string_views(r.errors@) == update_errors(updates@),
            r.status@ == repo_status(r.files_updated@.len(), r.errors@.len()),
    {
        let mut files: Vec<String> = Vec::new();
        let mut errors: Vec<String> = Vec::new();
        let mut i: usize = 0;
        while i < updates.len()
            invariant
                i <= updates@.len(),
                string_views(files@) == updated_paths(updates@.take(i as int)),
                string_views(errors@) == update_errors(updates@.take(i as int)),
            decreases updates@.len() - i,
        {
            assert(updates@.take(i + 1).drop_last() =~= updates@.take(i as int));
            let ghost fb = string_views(files@);
            let ghost eb = string_views(errors@);
            if updates[i].1 {
                files.push(updates[i].0.clone());
                assert(string_views(files@) =~= fb.push(updates@[i as int].0@));
            } else {
                let mut m = chars_of("Failed to update ");
                push_str(&mut m, updates[i].0.as_str());
                errors.push(string_of(m.as_slice()));
                assert(string_views(errors@) =~= eb.push("Failed to update "@ + updates@[i as int].0@));
            }
            i = i + 1;
        }
        assert(updates@.take(i as int) =~= updates@);
        let status = if errors.len() == 0 {
            "success".to_owned()
        } else if files.len() == 0 {
            "failed".to_owned()
        } else {
            "partial".to_owned()
        };
        RepoUpdateResult { repo_name: repo_name.to_owned(), files_updated: files, errors, status }
    }

    /// The outcome of a repository whose files could not be fetched.
    pub fn fetch_failed(repo_name: &str, error: &str) -> (r: Self)
        ensures
            r.repo_name@ == repo_name@,
            r.files_updated@.len() == 0,
            string_views(r.errors@) == seq!["Failed to fetch repository: "@ + error@],
            r.status@ == "failed"@,
    {
        let mut m = chars_of("Failed to fetch repository: ");
        push_str(&mut m, error);
        let errors = vec![string_of(m.as_slice())];
        assert(string_views(errors@) =~= seq!["Failed to fetch repository: "@ + error@]);
        RepoUpdateResult {
            repo_name: repo_name.to_owned(),
            files_updated: Vec::new(),
            errors,
            status: "failed".to_owned(),
        }
    }
}

/// The section names and outcome statuses of a report's details.
pub open spec fn detail_statuses(d: Seq<(String, RepoUpdateResult)>) -> Seq<(Seq<char>, Seq<char>)> {
    d.map_values(|e: (String, RepoUpdateResult)| (e.0@, e.1.status@))
}

/// The position of the detail recorded for a section, if any.
fn detail_index(details: &Vec<(String, RepoUpdateResult)>, section: &str) -> (r: Option<usize>)
    ensures
        match r {
            Some(i) => i < details@.len() && crate::text::key_index(detail_statuses(details@), section@)
                == i,
            None => crate::text::key_index(detail_statuses(details@), section@) == -1,
        },
{
    let ghost m = detail_statuses(details@);
    let mut i: usize = 0;
    while i < details.len()
        invariant
            i <= details@.len(),
            m == detail_statuses(details@),
            crate::text::key_index(m.take(i as int), section@) == -1,
        decreases details@.len() - i,
    {
        assert(m.take(i + 1).drop_last() =~= m.take(i as int));
        let dc = chars_of(details[i].0.as_str());
        if eq_str(dc.as_slice(), section) {
            assert(m.take(i + 1).last().0 == section@);
            proof {
                crate::text::lemma_key_index_prefix(m, section@, i + 1);
            }
            return Some(i);
        }
        i = i + 1;
    }
    assert(m.take(i as int) =~= m);
    None
}

impl RulesUpdateResult {
    /// A report before any repository: successful so far, with no details.
    pub fn new() -> (r: Self)
        ensures
            r.success,
            r.message@ == "Rules update completed"@,
            r.details@.len() == 0,
    {
        RulesUpdateResult {
            success: true,
            message: "Rules update completed".to_owned(),
            details: Vec::new(),
        }
    }

    /// Records the outcome of the repository of a section: it replaces any
    /// outcome recorded for that section, and the report fails unless the
    /// outcome is a success.
    pub fn record(&mut self, section: String, outcome: RepoUpdateResult)
        ensures
            detail_statuses(final(self).details@) == kv_insert(
                detail_statuses(old(self).details@),
                section@,
                outcome.status@,
            ),
            final(self).success == (old(self).success && outcome.status@ == "success"@),
            final(self).message == old(self).message,
    {
        let sc = chars_of(outcome.status.as_str());
        let ok = eq_str(sc.as_slice(), "success");
        let ghost before = detail_statuses(self.details@);
        let ghost key = section@;
        let ghost status = outcome.status@;
        match detail_index(&self.details, section.as_str()) {
            Some(i) => {
                self.details.set(i, (section, outcome));
                assert(detail_statuses(self.details@) =~= before.update(i as int, (key, status)));
            },
            None => {
                self.details.push((section, outcome));
                assert(detail_statuses(self.details@) =~= before.push((key, status)));
            },
        }
        if !ok {
            self.success = false;
        }
    }

    /// Sets the closing message: all updated, or some failed.
    pub fn finish(&mut self)
        ensures
            final(self).message@ == (if old(self).success {
                "All rules updated successfully"@
            } else {
                "Some rule updates failed. Check details for more information."@
            }),
            final(self).success == old(self).success,
            final(self).details == old(self).details,
    {
        self.message = if self.success {
            "All rules updated successfully".to_owned()
        } else {
            "Some rule updates failed. Check details for more information.".to_owned()
        };
    }

    /// The HTTP status of the response: 200 when all succeeded, else 206
    /// (partial content).
    pub fn status_code(&self) -> (r: u16)
        ensures
            r == (if self.success {
                200u16
            } else {
                206u16
            }),
    {
        if self.success {
            200
        } else {
            206
        }
    }
}

/// Whether every outcome of a list was a success.
pub open spec fn all_succeeded(outcomes: Seq<Seq<char>>) -> bool {
    forall|i: int| 0 <= i < outcomes.len() ==> outcomes[i] == "success"@
}

/// A report succeeds exactly when every outcome recorded in it, from the
/// start, was a success: recording one more outcome keeps that so.
pub proof fn law_report_success(before_success: bool, outcomes: Seq<Seq<char>>, next: Seq<char>)
    requires
        before_success == all_succeeded(outcomes),
    ensures
        (before_success && next == "success"@) == all_succeeded(outcomes.push(next)),
{
    if before_success && next == "success"@ {
        assert forall|i: int| 0 <= i < outcomes.push(next).len() implies outcomes.push(next)[i]
            == "success"@ by {
            if i < outcomes.len() {
                assert(outcomes.push(next)[i] == outcomes[i]);
            }
        }
    } else if !before_success {
        let j = choose|j: int| 0 <= j < outcomes.len() && outcomes[j] != "success"@;
        assert(outcomes.push(next)[j] == outcomes[j]);
    } else {
        assert(outcomes.push(next)[outcomes.len() as int] == next);
    }
}

} // verus!
