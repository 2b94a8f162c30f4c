use crate::text::{
    chars_eq, chars_to_string, contains_lit, contains_seq, dec_rep, ends_with_lit, has_prefix,
    has_suffix, lower_seq, second_token, spec_lines, spec_trim, split_lines, split_tokens,
    starts_with_lit, str_eq_lit, str_to_chars, subvec, to_lower_chars, trim_chars, u64_to_string,
};
use vstd::prelude::*;

verus! {

// Commit-message generation. The model call itself lives outside this
// library; what is verified here is everything around it: the prompt choice,
// the decision after the call, and the deterministic fallback computed from
// diff statistics, which must always produce a message and never fail.

/// Builds commit messages from diffs; the deterministic parts live here.
pub struct CommitMessageGenerator;

/// What a diff holds, as the fallback message reports it.
pub struct StatsModel {
    /// The changed files named on "+++" lines, first occurrence order,
    /// without repetition.
    pub files: Seq<Seq<char>>,
    pub additions: nat,
    pub deletions: nat,
    pub new_files: nat,
    pub deleted_files: nat,
}

/// `f` already occurs in the file list.
pub open spec fn file_known(files: Seq<Seq<char>>, f: Seq<char>) -> bool {
    exists|i: int| 0 <= i < files.len() && files[i] == f
}

/// Every leading "b/" stripped, as diff headers prefix paths with it.
pub open spec fn strip_b(s: Seq<char>) -> Seq<char>
    decreases s.len(),
{
    if s.len() >= 2 && has_prefix(s, "b/"@) {
        strip_b(s.subrange(2, s.len() as int))
    } else {
        s
    }
}

/// One line's effect on the statistics: "+++" lines name changed (or
/// deleted) files, "---" lines reveal brand-new ones, and remaining +/- lines
/// count changed rows.
pub open spec fn stats_step(st: StatsModel, line: Seq<char>) -> StatsModel {
    if has_prefix(line, "+++"@) {
        match second_token(line) {
            Some(f) => if f == "/dev/null"@ {
                StatsModel { deleted_files: st.deleted_files + 1, ..st }
            } else {
                if file_known(st.files, strip_b(f)) {
                    st
                } else {
                    StatsModel { files: st.files.push(strip_b(f)), ..st }
                }
            },
            None => st,
        }
    } else if has_prefix(line, "---"@) {
        match second_token(line) {
            Some(f) => if f == "/dev/null"@ {
                StatsModel { new_files: st.new_files + 1, ..st }
            } else {
                st
            },
            None => st,
        }
    } else if has_prefix(line, "+"@) {
        StatsModel { additions: st.additions + 1, ..st }
    } else if has_prefix(line, "-"@) {
        StatsModel { deletions: st.deletions + 1, ..st }
    } else {
        st
    }
}

/// The statistics of a list of diff lines.
pub open spec fn spec_stats(lines: Seq<Seq<char>>) -> StatsModel
    decreases lines.len(),
{
    if lines.len() == 0 {
        StatsModel { files: Seq::empty(), additions: 0, deletions: 0, new_files: 0, deleted_files: 0 }
    } else {
        stats_step(spec_stats(lines.drop_last()), lines.last())
    }
}

/// The statistics of a diff text.
pub open spec fn diff_stats_of(diff: Seq<char>) -> StatsModel {
    spec_stats(spec_lines(diff))
}

/// The views of a list of strings.
pub open spec fn views_of(xs: Seq<String>) -> Seq<Seq<char>> {
    xs.map_values(|s: String| s@)
}

/// What a diff statistics vector holds, field by field.
pub struct DiffStats {
    pub files: Vec<String>,
    pub additions: u64,
    pub deletions: u64,
    pub new_files: u64,
    pub deleted_files: u64,
}

/// The executable statistics agree with the model.
pub open spec fn stats_match(d: DiffStats, m: StatsModel) -> bool {
    &&& views_of(d.files@) == m.files
    &&& d.additions == m.additions
    &&& d.deletions == m.deletions
    &&& d.new_files == m.new_files
    &&& d.deleted_files == m.deleted_files
}

/// Strips every leading "b/".
fn strip_b_prefix(v: &Vec<char>) -> (r: Vec<char>)
    ensures
        r@ == strip_b(v@),
{
    let mut cur = subvec(v, 0, v.len());
    proof {
        assert(v@.subrange(0, v@.len() as int) =~= v@);
    }
    loop
        invariant
            strip_b(v@) == strip_b(cur@),
        decreases cur@.len(),
    {
        if cur.len() >= 2 && starts_with_lit(&cur, "b/") {
            let next = subvec(&cur, 2, cur.len());
            cur = next;
        } else {
            return cur;
        }
    }
}

/// Whether the file list already holds these characters.
fn file_list_contains(files: &Vec<String>, c: &Vec<char>) -> (r: bool)
    ensures
        r == file_known(views_of(files@), c@),
{
    let n = files.len();
    let mut i: usize = 0;
    while i < n
        invariant
            i <= n,
            n == files@.len(),
            forall|j: int| 0 <= j < i ==> views_of(files@)[j] != c@,
        decreases n - i,
    {
        let fc = str_to_chars(files[i].as_str());
        if chars_eq(&fc, c) {
            proof {
                assert(views_of(files@)[i as int] == c@);
            }
            return true;
        }
        proof {
            assert(views_of(files@)[i as int] != c@);
        }
        i = i + 1;
    }
    false
}

/// The statistics of a diff, line by line, exactly as the model folds them.
pub fn compute_diff_stats(diff: &str) -> (r: DiffStats)
    ensures
        stats_match(r, diff_stats_of(diff@)),
{
    let chars = str_to_chars(diff);
    let lines = split_lines(&chars);
    let nlines = lines.len();
    let ghost lseq = spec_lines(diff@);
    let mut files: Vec<String> = Vec::new();
    let mut additions: u64 = 0;
    let mut deletions: u64 = 0;
    let mut new_files: u64 = 0;
    let mut deleted_files: u64 = 0;
    let mut i: usize = 0;
    proof {
        assert(lseq.subrange(0, 0) =~= Seq::<Seq<char>>::empty());
        assert(views_of(files@) =~= spec_stats(lseq.subrange(0, 0)).files);
    }
    while i < nlines
        invariant
            i <= nlines,
            nlines == lines@.len(),
            lines@.len() == lseq.len(),
            forall|j: int| 0 <= j < lseq.len() ==> #[trigger] lines@[j]@ == lseq[j],
            views_of(files@) == spec_stats(lseq.subrange(0, i as int)).files,
            additions == spec_stats(lseq.subrange(0, i as int)).additions,
            deletions == spec_stats(lseq.subrange(0, i as int)).deletions,
            new_files == spec_stats(lseq.subrange(0, i as int)).new_files,
            deleted_files == spec_stats(lseq.subrange(0, i as int)).deleted_files,
            additions <= i && deletions <= i && new_files <= i && deleted_files <= i,
        decreases nlines - i,
    {
        proof {
            assert(lseq.subrange(0, i + 1).drop_last() =~= lseq.subrange(0, i as int));
        }
        let line = &lines[i];
        if starts_with_lit(line, "+++") {
            let toks = split_tokens(line);
            if toks.len() >= 2 {
                let f = &toks[1];
                if lit_eq_chars(f, "/dev/null") {
                    deleted_files = deleted_files + 1;
                } else {
                    let clean = strip_b_prefix(f);
                    if !file_list_contains(&files, &clean) {
                        files.push(chars_to_string(&clean));
                        proof {
                            assert(views_of(files@) =~= spec_stats(
                                lseq.subrange(0, i + 1),
                            ).files);
                        }
                    }
                }
            }
        } else if starts_with_lit(line, "---") {
            let toks = split_tokens(line);
            if toks.len() >= 2 {
                let f = &toks[1];
                if lit_eq_chars(f, "/dev/null") {
                    new_files = new_files + 1;
                }
            }
        } else if starts_with_lit(line, "+") {
            additions = additions + 1;
        } else if starts_with_lit(line, "-") {
            deletions = deletions + 1;
        }
        i = i + 1;
    }
    proof {
        assert(lseq.subrange(0, nlines as int) =~= lseq);
    }
    DiffStats { files, additions, deletions, new_files, deleted_files }
}

// What kind of change a file name suggests. Each file falls in at most one
// category; the first match in this order wins.

/// Documentation: a readme, or markdown that is not a prompt file.
pub open spec fn cat_docs(l: Seq<char>) -> bool {
    contains_seq(l, "readme"@) || (contains_seq(l, ".md"@) && !contains_seq(l, ".vibe.md"@))
}

/// Tests, unless already documentation.
pub open spec fn cat_tests(l: Seq<char>) -> bool {
    !cat_docs(l) && (contains_seq(l, "test"@) || contains_seq(l, "spec"@))
}

/// Configuration files.
pub open spec fn cat_config(l: Seq<char>) -> bool {
    !cat_docs(l) && !cat_tests(l) && (contains_seq(l, "config"@) || has_suffix(l, ".json"@)
        || has_suffix(l, ".toml"@) || has_suffix(l, ".yaml"@) || has_suffix(l, ".yml"@))
}

/// User-interface files.
pub open spec fn cat_ui(l: Seq<char>) -> bool {
    !cat_docs(l) && !cat_tests(l) && !cat_config(l) && (contains_seq(l, "component"@)
        || contains_seq(l, "ui"@) || has_suffix(l, ".tsx"@) || has_suffix(l, ".css"@))
}

/// Backend code.
pub open spec fn cat_backend(l: Seq<char>) -> bool {
    !cat_docs(l) && !cat_tests(l) && !cat_config(l) && !cat_ui(l) && (has_suffix(l, ".rs"@)
        || contains_seq(l, "api"@) || contains_seq(l, "service"@))
}

/// Database work.
pub open spec fn cat_db(l: Seq<char>) -> bool {
    !cat_docs(l) && !cat_tests(l) && !cat_config(l) && !cat_ui(l) && !cat_backend(l) && (
    contains_seq(l, "sql"@) || contains_seq(l, "database"@) || contains_seq(l, ".db"@))
}

/// Which categories a file list touches.
pub struct FileFlags {
    pub docs: bool,
    pub tests: bool,
    pub config: bool,
    pub ui: bool,
    pub backend: bool,
    pub db: bool,
}

/// The categories of a file list, folded file by file over the ASCII
/// lower-casing of each name.
pub open spec fn spec_flags(fs: Seq<Seq<char>>) -> FileFlags
    decreases fs.len(),
{
    if fs.len() == 0 {
        FileFlags { docs: false, tests: false, config: false, ui: false, backend: false, db: false }
    } else {
        let p = spec_flags(fs.drop_last());
        let l = lower_seq(fs.last());
        FileFlags {
            docs: p.docs || cat_docs(l),
            tests: p.tests || cat_tests(l),
            config: p.config || cat_config(l),
            ui: p.ui || cat_ui(l),
            backend: p.backend || cat_backend(l),
            db: p.db || cat_db(l),
        }
    }
}

/// The conventional-commit type a file list suggests.
pub open spec fn spec_commit_type(fs: Seq<Seq<char>>) -> Seq<char> {
    let f = spec_flags(fs);
    if f.tests {
        "test"@
    } else if f.docs {
        "docs"@
    } else if f.config {
        "chore"@
    } else {
        "feat"@
    }
}

/// The conventional-commit scope a file list suggests.
pub open spec fn spec_scope(fs: Seq<Seq<char>>) -> Seq<char> {
    let f = spec_flags(fs);
    if f.ui {
        "ui"@
    } else if f.backend {
        "backend"@
    } else if f.db {
        "database"@
    } else if f.docs {
        "docs"@
    } else if f.tests {
        "tests"@
    } else {
        "core"@
    }
}

/// The elements joined with a separator between them.
pub open spec fn join_sep(xs: Seq<Seq<char>>, sep: Seq<char>) -> Seq<char>
    decreases xs.len(),
{
    if xs.len() == 0 {
        Seq::empty()
    } else if xs.len() == 1 {
        xs[0]
    } else {
        join_sep(xs.drop_last(), sep) + sep + xs.last()
    }
}

/// Each element prefixed as a list item.
pub open spec fn bullets(xs: Seq<Seq<char>>) -> Seq<Seq<char>> {
    xs.map_values(|f: Seq<char>| "- "@ + f)
}

/// The short naming of the changed files: all of them up to three, a count
/// beyond that.
pub open spec fn spec_file_list(fs: Seq<Seq<char>>) -> Seq<char> {
    if fs.len() <= 3 {
        join_sep(fs, ", "@)
    } else {
        dec_rep(fs.len()) + " files"@
    }
}

/// The verb of the fallback message.
pub open spec fn spec_action_en(m: StatsModel) -> Seq<char> {
    if m.new_files > 0 {
        "add"@
    } else if m.deleted_files > 0 {
        "remove"@
    } else {
        "update"@
    }
}

/// The verb of the fallback message, in Chinese.
pub open spec fn spec_action_zh(m: StatsModel) -> Seq<char> {
    if m.new_files > 0 {
        "新增"@
    } else if m.deleted_files > 0 {
        "删除"@
    } else {
        "更新"@
    }
}

/// One file by name, several by count.
pub open spec fn spec_file_desc_en(m: StatsModel) -> Seq<char> {
    if m.files.len() == 1 {
        m.files[0]
    } else {
        dec_rep(m.files.len()) + " files"@
    }
}

/// One file by name, several by count, in Chinese.
pub open spec fn spec_file_desc_zh(m: StatsModel) -> Seq<char> {
    if m.files.len() == 1 {
        m.files[0]
    } else {
        dec_rep(m.files.len()) + " 个文件"@
    }
}

/// The detail lines of the fallback message: one line per non-zero count.
pub open spec fn spec_details_en(m: StatsModel) -> Seq<Seq<char>> {
    let s0 = Seq::<Seq<char>>::empty();
    let s1 = if m.new_files > 0 {
        s0.push("- "@ + dec_rep(m.new_files) + " new file(s)"@)
    } else {
        s0
    };
    let s2 = if m.deleted_files > 0 {
        s1.push("- "@ + dec_rep(m.deleted_files) + " deleted file(s)"@)
    } else {
        s1
    };
    let s3 = if m.additions > 0 {
        s2.push("- "@ + dec_rep(m.additions) + " additions"@)
    } else {
        s2
    };
    if m.deletions > 0 {
        s3.push("- "@ + dec_rep(m.deletions) + " deletions"@)
    } else {
        s3
    }
}

/// The detail lines of the fallback message, in Chinese.
pub open spec fn spec_details_zh(m: StatsModel) -> Seq<Seq<char>> {
    let s0 = Seq::<Seq<char>>::empty();
    let s1 = if m.new_files > 0 {
        s0.push("- 新增 "@ + dec_rep(m.new_files) + " 个文件"@)
    } else {
        s0
    };
    let s2 = if m.deleted_files > 0 {
        s1.push("- 删除 "@ + dec_rep(m.deleted_files) + " 个文件"@)
    } else {
        s1
    };
    let s3 = if m.additions > 0 {
        s2.push("- 新增 "@ + dec_rep(m.additions) + " 行代码"@)
    } else {
        s2
    };
    if m.deletions > 0 {
        s3.push("- 删除 "@ + dec_rep(m.deletions) + " 行代码"@)
    } else {
        s3
    }
}

/// The whole fallback commit message, by style and language. A concise
/// message is a single conventional-commit line over the file list; a
/// detailed one adds the counted changes and the files touched. Any style
/// other than "concise" falls to the detailed form, any language other than
/// "zh-CN" to English.
pub open spec fn spec_fallback(diff: Seq<char>, style: Seq<char>, language: Seq<char>) -> Seq<
    char,
> {
    let m = diff_stats_of(diff);
    let ct = spec_commit_type(m.files);
    let sc = spec_scope(m.files);
    let fl = spec_file_list(m.files);
    if style == "concise"@ && language == "zh-CN"@ {
        if m.new_files > 0 {
            "feat("@ + sc + "): 新增 "@ + fl
        } else if m.deleted_files > 0 {
            "refactor("@ + sc + "): 删除 "@ + fl
        } else {
            ct + "("@ + sc + "): 更新 "@ + fl
        }
    } else if style == "concise"@ {
        if m.new_files > 0 {
            "feat("@ + sc + "): add "@ + fl
        } else if m.deleted_files > 0 {
            "refactor("@ + sc + "): remove "@ + fl
        } else {
            ct + "("@ + sc + "): update "@ + fl
        }
    } else if style == "detailed"@ && language == "zh-CN"@ {
        ct + "("@ + sc + "): "@ + spec_action_zh(m) + " "@ + spec_file_desc_zh(m)
            + "\n\n修改内容：\n"@ + join_sep(spec_details_zh(m), "\n"@) + "\n\n涉及文件：\n"@
            + join_sep(bullets(m.files), "\n"@)
    } else {
        ct + "("@ + sc + "): "@ + spec_action_en(m) + " "@ + spec_file_desc_en(m)
            + "\n\nChanges:\n"@ + join_sep(spec_details_en(m), "\n"@) + "\n\nFiles modified:\n"@
            + join_sep(bullets(m.files), "\n"@)
    }
}

/// Joins the strings with a separator between them.
fn join_views(items: &Vec<String>, sep: &str) -> (r: String)
    ensures
        r@ == join_sep(views_of(items@), sep@),
{
    let mut r = String::new();
    let n = items.len();
    let mut i: usize = 0;
    proof {
        assert(views_of(items@.subrange(0, 0)) =~= Seq::<Seq<char>>::empty());
    }
    while i < n
        invariant
            i <= n,
            n == items@.len(),
            r@ == join_sep(views_of(items@.subrange(0, i as int)), sep@),
        decreases n - i,
    {
        if i > 0 {
            r.append(sep);
        }
        r.append(items[i].as_str());
        i = i + 1;
        proof {
            let pre = views_of(items@.subrange(0, i - 1));
            let post = views_of(items@.subrange(0, i as int));
            assert(post.drop_last() =~= pre);
            assert(post.last() == items@[i - 1]@);
            if i == 1 {
                assert(post.len() == 1);
                assert(r@ =~= post[0]);
            } else {
                assert(r@ == join_sep(pre, sep@) + sep@ + post.last());
            }
        }
    }
    proof {
        assert(views_of(items@.subrange(0, n as int)) =~= views_of(items@));
    }
    r
}

/// Prefixes each string as a list item.
fn bullet_lines(items: &Vec<String>) -> (r: Vec<String>)
    ensures
        views_of(r@) == bullets(views_of(items@)),
{
    let n = items.len();
    let mut r: Vec<String> = Vec::new();
    let mut i: usize = 0;
    proof {
        assert(views_of(r@) =~= bullets(views_of(items@.subrange(0, 0))));
    }
    while i < n
        invariant
            i <= n,
            n == items@.len(),
            views_of(r@) == bullets(views_of(items@.subrange(0, i as int))),
        decreases n - i,
    {
        let mut line = String::from_str("- ");
        line.append(items[i].as_str());
        let ghost r0 = r@;
        r.push(line);
        i = i + 1;
        proof {
            let pre = views_of(items@.subrange(0, i - 1));
            let post = views_of(items@.subrange(0, i as int));
            assert(pre.len() == i - 1);
            assert(post.len() == i);
            assert(bullets(post).len() == i);
            assert(views_of(r0).len() == r0.len());
            assert(r0.len() == i - 1);
            assert(r@.len() == i);
            assert(views_of(r@).len() == i);
            assert forall|j: int| 0 <= j < r@.len() implies #[trigger] views_of(r@)[j] == bullets(
                post,
            )[j] by {
                assert(views_of(r@)[j] == r@[j]@);
                assert(bullets(post)[j] == "- "@ + post[j]);
                assert(post[j] == items@[j]@);
                if j < r0.len() {
                    assert(r@[j] == r0[j]);
                    assert(views_of(r0)[j] == bullets(pre)[j]);
                    assert(views_of(r0)[j] == r0[j]@);
                    assert(bullets(pre)[j] == "- "@ + pre[j]);
                    assert(pre[j] == items@[j]@);
                } else {
                    assert(r@[j] == r@.last());
                }
            }
            assert(views_of(r@) =~= bullets(post));
        }
    }
    proof {
        assert(views_of(items@.subrange(0, n as int)) =~= views_of(items@));
    }
    r
}

/// The model a statistics vector stands for.
pub open spec fn model_of(d: DiffStats) -> StatsModel {
    StatsModel {
        files: views_of(d.files@),
        additions: d.additions as nat,
        deletions: d.deletions as nat,
        new_files: d.new_files as nat,
        deleted_files: d.deleted_files as nat,
    }
}

/// The detail lines, in English.
fn details_en_lines(stats: &DiffStats) -> (r: Vec<String>)
    ensures
        views_of(r@) == spec_details_en(model_of(*stats)),
{
    let ghost m = model_of(*stats);
    let ghost d0 = Seq::<Seq<char>>::empty();
    let ghost d1 = if m.new_files > 0 {
        d0.push("- "@ + dec_rep(m.new_files) + " new file(s)"@)
    } else {
        d0
    };
    let ghost d2 = if m.deleted_files > 0 {
        d1.push("- "@ + dec_rep(m.deleted_files) + " deleted file(s)"@)
    } else {
        d1
    };
    let ghost d3 = if m.additions > 0 {
        d2.push("- "@ + dec_rep(m.additions) + " additions"@)
    } else {
        d2
    };
    let ghost d4 = if m.deletions > 0 {
        d3.push("- "@ + dec_rep(m.deletions) + " deletions"@)
    } else {
        d3
    };
    let mut r: Vec<String> = Vec::new();
    proof {
        assert(views_of(r@) =~= d0);
    }
    if stats.new_files > 0 {
        let mut line = String::from_str("- ");
        let num = u64_to_string(stats.new_files);
        line.append(num.as_str());
        line.append(" new file(s)");
        r.push(line);
    }
    proof {
        assert(views_of(r@) =~= d1);
    }
    if stats.deleted_files > 0 {
        let mut line = String::from_str("- ");
        let num = u64_to_string(stats.deleted_files);
        line.append(num.as_str());
        line.append(" deleted file(s)");
        r.push(line);
    }
    proof {
        assert(views_of(r@) =~= d2);
    }
    if stats.additions > 0 {
        let mut line = String::from_str("- ");
        let num = u64_to_string(stats.additions);
        line.append(num.as_str());
        line.append(" additions");
        r.push(line);
    }
    proof {
        assert(views_of(r@) =~= d3);
    }
    if stats.deletions > 0 {
        let mut line = String::from_str("- ");
        let num = u64_to_string(stats.deletions);
        line.append(num.as_str());
        line.append(" deletions");
        r.push(line);
    }
    proof {
        assert(views_of(r@) =~= d4);
        assert(d4 == spec_details_en(m));
    }
    r
}

/// The detail lines, in Chinese.
fn details_zh_lines(stats: &DiffStats) -> (r: Vec<String>)
    ensures
        views_of(r@) == spec_details_zh(model_of(*stats)),
{
    let ghost m = model_of(*stats);
    let ghost d0 = Seq::<Seq<char>>::empty();
    let ghost d1 = if m.new_files > 0 {
        d0.push("- 新增 "@ + dec_rep(m.new_files) + " 个文件"@)
    } else {
        d0
    };
    let ghost d2 = if m.deleted_files > 0 {
        d1.push("- 删除 "@ + dec_rep(m.deleted_files) + " 个文件"@)
    } else {
        d1
    };
    let ghost d3 = if m.additions > 0 {
        d2.push("- 新增 "@ + dec_rep(m.additions) + " 行代码"@)
    } else {
        d2
    };
    let ghost d4 = if m.deletions > 0 {
        d3.push("- 删除 "@ + dec_rep(m.deletions) + " 行代码"@)
    } else {
        d3
    };
    let mut r: Vec<String> = Vec::new();
    proof {
        assert(views_of(r@) =~= d0);
    }
    if stats.new_files > 0 {
        let mut line = String::from_str("- 新增 ");
        let num = u64_to_string(stats.new_files);
        line.append(num.as_str());
        line.append(" 个文件");
        r.push(line);
    }
    proof {
        assert(views_of(r@) =~= d1);
    }
    if stats.deleted_files > 0 {
        let mut line = String::from_str("- 删除 ");
        let num = u64_to_string(stats.deleted_files);
        line.append(num.as_str());
        line.append(" 个文件");
        r.push(line);
    }
    proof {
        assert(views_of(r@) =~= d2);
    }
    if stats.additions > 0 {
        let mut line = String::from_str("- 新增 ");
        let num = u64_to_string(stats.additions);
        line.append(num.as_str());
        line.append(" 行代码");
        r.push(line);
    }
    proof {
        assert(views_of(r@) =~= d3);
    }
    if stats.deletions > 0 {
        let mut line = String::from_str("- 删除 ");
        let num = u64_to_string(stats.deletions);
        line.append(num.as_str());
        line.append(" 行代码");
        r.push(line);
    }
    proof {
        assert(views_of(r@) =~= d4);
        assert(d4 == spec_details_zh(m));
    }
    r
}

/// The language instruction the generation prompt carries.
pub open spec fn spec_lang_instruction(language: Seq<char>) -> Seq<char> {
    if language == "zh-CN"@ {
        "请用中文回复。"@
    } else if language == "en"@ {
        "Please respond in English."@
    } else {
        "Respond in the same language as the system."@
    }
}

impl CommitMessageGenerator {
    /// A fresh generator.
    pub fn new() -> (r: CommitMessageGenerator) {
        CommitMessageGenerator
    }

    /// The deterministic commit message computed from diff statistics alone.
    /// It is total: whatever the style and language, it produces the message
    /// `spec_fallback` describes and can never fail.
    pub fn generate_fallback(&self, diff: &str, style: &str, language: &str) -> (r: String)
        ensures
            r@ == spec_fallback(diff@, style@, language@),
    {
        let stats = compute_diff_stats(diff);
        proof {
            assert(model_of(stats) == diff_stats_of(diff@));
        }
        let (commit_type, scope) = self.analyze_file_types(&stats.files);
        let file_list = if stats.files.len() <= 3 {
            join_views(&stats.files, ", ")
        } else {
            let mut s = u64_to_string(stats.files.len() as u64);
            s.append(" files");
            s
        };
        proof {
            assert(views_of(stats.files@).len() == stats.files@.len());
            assert(file_list@ == spec_file_list(diff_stats_of(diff@).files));
        }
        let is_concise = str_eq_lit(style, "concise");
        let is_detailed = str_eq_lit(style, "detailed");
        let is_zh = str_eq_lit(language, "zh-CN");
        if is_concise {
            if is_zh {
                if stats.new_files > 0 {
                    let mut r = String::from_str("feat(");
                    r.append(scope.as_str());
                    r.append("): 新增 ");
                    r.append(file_list.as_str());
                    proof {
                        assert(r@ =~= spec_fallback(diff@, style@, language@));
                    }
                    r
                } else if stats.deleted_files > 0 {
                    let mut r = String::from_str("refactor(");
                    r.append(scope.as_str());
                    r.append("): 删除 ");
                    r.append(file_list.as_str());
                    proof {
                        assert(r@ =~= spec_fallback(diff@, style@, language@));
                    }
                    r
                } else {
                    let mut r = commit_type;
                    r.append("(");
                    r.append(scope.as_str());
                    r.append("): 更新 ");
                    r.append(file_list.as_str());
                    proof {
                        assert(r@ =~= spec_fallback(diff@, style@, language@));
                    }
                    r
                }
            } else {
                if stats.new_files > 0 {
                    let mut r = String::from_str("feat(");
                    r.append(scope.as_str());
                    r.append("): add ");
                    r.append(file_list.as_str());
                    proof {
                        assert(r@ =~= spec_fallback(diff@, style@, language@));
                    }
                    r
                } else if stats.deleted_files > 0 {
                    let mut r = String::from_str("refactor(");
                    r.append(scope.as_str());
                    r.append("): remove ");
                    r.append(file_list.as_str());
                    proof {
                        assert(r@ =~= spec_fallback(diff@, style@, language@));
                    }
                    r
                } else {
                    let mut r = commit_type;
                    r.append("(");
                    r.append(scope.as_str());
                    r.append("): update ");
                    r.append(file_list.as_str());
                    proof {
                        assert(r@ =~= spec_fallback(diff@, style@, language@));
                    }
                    r
                }
            }
        } else {
            let zh = is_detailed && is_zh;
            let action = if zh {
                if stats.new_files > 0 {
                    String::from_str("新增")
                } else if stats.deleted_files > 0 {
                    String::from_str("删除")
                } else {
                    String::from_str("更新")
                }
            } else {
                if stats.new_files > 0 {
                    String::from_str("add")
                } else if stats.deleted_files > 0 {
                    String::from_str("remove")
                } else {
                    String::from_str("update")
                }
            };
            let file_desc = if stats.files.len() == 1 {
                let fc = str_to_chars(stats.files[0].as_str());
                proof {
                    assert(views_of(stats.files@)[0] == stats.files@[0]@);
                }
                chars_to_string(&fc)
            } else {
                let mut s = u64_to_string(stats.files.len() as u64);
                if zh {
                    s.append(" 个文件");
                } else {
                    s.append(" files");
                }
                s
            };
            let details = if zh {
                details_zh_lines(&stats)
            } else {
                details_en_lines(&stats)
            };
            let details_joined = join_views(&details, "\n");
            let bullet_items = bullet_lines(&stats.files);
            let files_joined = join_views(&bullet_items, "\n");
            let mut r = commit_type;
            r.append("(");
            r.append(scope.as_str());
            r.append("): ");
            r.append(action.as_str());
            r.append(" ");
            r.append(file_desc.as_str());
            if zh {
                r.append("\n\n修改内容：\n");
            } else {
                r.append("\n\nChanges:\n");
            }
            r.append(details_joined.as_str());
            if zh {
                r.append("\n\n涉及文件：\n");
            } else {
                r.append("\n\nFiles modified:\n");
            }
            r.append(files_joined.as_str());
            proof {
                assert(r@ =~= spec_fallback(diff@, style@, language@));
            }
            r
        }
    }

    /// The system and user prompts the generation call uses, or why none can
    /// be built: an all-whitespace diff has nothing to commit, and a style
    /// other than "concise" or "detailed" is rejected.
    pub fn build_generation_prompts(&self, diff: &str, style: &str, language: &str) -> (r: Result<
        (String, String),
        String,
    >)
        ensures
            spec_trim(diff@).len() == 0 ==> (r matches Err(e) && e@ == "No changes to commit"@),
            spec_trim(diff@).len() > 0 && style@ != "concise"@ && style@ != "detailed"@ ==> (r
                matches Err(e) && e@ == "Invalid style: "@ + style@
                + ". Must be 'concise' or 'detailed'"@),
            spec_trim(diff@).len() > 0 && style@ == "concise"@ ==> (r matches Ok(p) && p.0@
                == "You are an expert at writing concise git commit messages following Conventional Commits format.\n\nRules:\n1. Use the format: <type>(<scope>): <description>\n2. Type must be one of: feat, fix, docs, style, refactor, test, chore, perf\n3. Description should be brief (max 50 characters)\n4. Use imperative mood (\"add\" not \"added\")\n5. No period at the end\n6. Focus on WHAT changed, not HOW\n\n"@
                + spec_lang_instruction(language@)
                + "\n\nOutput ONLY the commit message, nothing else."@),
            spec_trim(diff@).len() > 0 && style@ == "detailed"@ ==> (r matches Ok(p) && p.0@
                == "You are an expert at writing comprehensive git commit messages following Conventional Commits format.\n\nRules:\n1. Use the format:\n<type>(<scope>): <short description>\n\n<detailed description>\n\n<optional footer>\n\n2. Type must be one of: feat, fix, docs, style, refactor, test, chore, perf, build, ci\n3. Short description: imperative mood, max 72 characters, no period\n4. Detailed description:\n- Explain WHY the change was made\n- Describe WHAT changed at a high level\n- Include any side effects or implications\n- Wrap at 72 characters\n5. Footer (optional):\n- Breaking changes: BREAKING CHANGE: <description>\n- Issue references: Refs #123, Fixes #456\n\n"@
                + spec_lang_instruction(language@)
                + "\n\nOutput ONLY the commit message, nothing else."@),
            spec_trim(diff@).len() > 0 && (style@ == "concise"@ || style@ == "detailed"@) ==> (r
                matches Ok(p) && p.1@
                == "Based on the following git diff, generate a commit message:\n\n```diff\n"@
                + diff@ + "\n```"@),
    {
        proof {
            reveal_strlit("concise");
            reveal_strlit("detailed");
            assert("concise"@.len() == 7);
            assert("detailed"@.len() == 8);
            assert("concise"@ != "detailed"@);
        }
        let diff_chars = str_to_chars(diff);
        let trimmed = trim_chars(&diff_chars);
        if trimmed.len() == 0 {
            return Err(String::from_str("No changes to commit"));
        }
        let lang = if str_eq_lit(language, "zh-CN") {
            String::from_str("请用中文回复。")
        } else if str_eq_lit(language, "en") {
            String::from_str("Please respond in English.")
        } else {
            String::from_str("Respond in the same language as the system.")
        };
        let is_concise = str_eq_lit(style, "concise");
        let is_detailed = str_eq_lit(style, "detailed");
        if !is_concise && !is_detailed {
            let mut e = String::from_str("Invalid style: ");
            e.append(style);
            e.append(". Must be 'concise' or 'detailed'");
            return Err(e);
        }
        let mut system = if is_concise {
            String::from_str(
                "You are an expert at writing concise git commit messages following Conventional Commits format.\n\nRules:\n1. Use the format: <type>(<scope>): <description>\n2. Type must be one of: feat, fix, docs, style, refactor, test, chore, perf\n3. Description should be brief (max 50 characters)\n4. Use imperative mood (\"add\" not \"added\")\n5. No period at the end\n6. Focus on WHAT changed, not HOW\n\n",
            )
        } else {
            String::from_str(
                "You are an expert at writing comprehensive git commit messages following Conventional Commits format.\n\nRules:\n1. Use the format:\n<type>(<scope>): <short description>\n\n<detailed description>\n\n<optional footer>\n\n2. Type must be one of: feat, fix, docs, style, refactor, test, chore, perf, build, ci\n3. Short description: imperative mood, max 72 characters, no period\n4. Detailed description:\n- Explain WHY the change was made\n- Describe WHAT changed at a high level\n- Include any side effects or implications\n- Wrap at 72 characters\n5. Footer (optional):\n- Breaking changes: BREAKING CHANGE: <description>\n- Issue references: Refs #123, Fixes #456\n\n",
            )
        };
        system.append(lang.as_str());
        system.append("\n\nOutput ONLY the commit message, nothing else.");
        let mut user = String::from_str(
            "Based on the following git diff, generate a commit message:\n\n```diff\n",
        );
        user.append(diff);
        user.append("\n```");
        Ok((system, user))
    }

    /// What the generation call hands the caller: the model's answer trimmed,
    /// an error when the model answered with nothing but whitespace, and the
    /// deterministic fallback whenever there was no usable model call at all
    /// - that path can never fail.
    pub fn finish_generation(
        &self,
        llm_output: Option<String>,
        diff: &str,
        style: &str,
        language: &str,
    ) -> (r: Result<String, String>)
        ensures
            llm_output is None ==> (r matches Ok(msg) && msg@ == spec_fallback(
                diff@,
                style@,
                language@,
            )),
            llm_output matches Some(s) ==> (spec_trim(s@).len() == 0 ==> (r matches Err(e) && e@
                == "LLM returned empty commit message"@)),
            llm_output matches Some(s) ==> (spec_trim(s@).len() > 0 ==> (r matches Ok(msg) && msg@
                == spec_trim(s@))),
    {
        match llm_output {
            None => Ok(self.generate_fallback(diff, style, language)),
            Some(s) => {
                let chars = str_to_chars(s.as_str());
                let trimmed = trim_chars(&chars);
                if trimmed.len() == 0 {
                    Err(String::from_str("LLM returned empty commit message"))
                } else {
                    Ok(chars_to_string(&trimmed))
                }
            },
        }
    }

    /// The commit type and scope a file list suggests, from the categories
    /// its names fall in.
    pub fn analyze_file_types(&self, files: &Vec<String>) -> (r: (String, String))
        ensures
            r.0@ == spec_commit_type(views_of(files@)),
            r.1@ == spec_scope(views_of(files@)),
    {
        let n = files.len();
        let mut docs = false;
        let mut tests = false;
        let mut config = false;
        let mut ui = false;
        let mut backend = false;
        let mut db = false;
        let mut i: usize = 0;
        proof {
            assert(views_of(files@.subrange(0, 0)) =~= Seq::<Seq<char>>::empty());
        }
        while i < n
            invariant
                i <= n,
                n == files@.len(),
                (FileFlags { docs, tests, config, ui, backend, db }) == spec_flags(
                    views_of(files@.subrange(0, i as int)),
                ),
            decreases n - i,
        {
            let chars = str_to_chars(files[i].as_str());
            let l = to_lower_chars(&chars);
            let is_docs = contains_lit(&l, "readme") || (contains_lit(&l, ".md") && !contains_lit(
                &l,
                ".vibe.md",
            ));
            let is_tests = !is_docs && (contains_lit(&l, "test") || contains_lit(&l, "spec"));
            let is_config = !is_docs && !is_tests && (contains_lit(&l, "config") || ends_with_lit(
                &l,
                ".json",
            ) || ends_with_lit(&l, ".toml") || ends_with_lit(&l, ".yaml") || ends_with_lit(
                &l,
                ".yml",
            ));
            let is_ui = !is_docs && !is_tests && !is_config && (contains_lit(&l, "component")
                || contains_lit(&l, "ui") || ends_with_lit(&l, ".tsx") || ends_with_lit(
                &l,
                ".css",
            ));
            let is_backend = !is_docs && !is_tests && !is_config && !is_ui && (ends_with_lit(
                &l,
                ".rs",
            ) || contains_lit(&l, "api") || contains_lit(&l, "service"));
            let is_db = !is_docs && !is_tests && !is_config && !is_ui && !is_backend && (
            contains_lit(&l, "sql") || contains_lit(&l, "database") || contains_lit(&l, ".db"));
            docs = docs || is_docs;
            tests = tests || is_tests;
            config = config || is_config;
            ui = ui || is_ui;
            backend = backend || is_backend;
            db = db || is_db;
            i = i + 1;
            proof {
                let pre = views_of(files@.subrange(0, i - 1));
                let post = views_of(files@.subrange(0, i as int));
                assert(post.drop_last() =~= pre);
                assert(post.last() == files@[i - 1]@);
            }
        }
        proof {
            assert(views_of(files@.subrange(0, n as int)) =~= views_of(files@));
        }
        let commit_type = if tests {
            String::from_str("test")
        } else if docs {
            String::from_str("docs")
        } else if config {
            String::from_str("chore")
        } else {
            String::from_str("feat")
        };
        let scope = if ui {
            String::from_str("ui")
        } else if backend {
            String::from_str("backend")
        } else if db {
            String::from_str("database")
        } else if docs {
            String::from_str("docs")
        } else if tests {
            String::from_str("tests")
        } else {
            String::from_str("core")
        };
        (commit_type, scope)
    }
}

/// Do the characters equal an (ASCII) literal?
fn lit_eq_chars(v: &Vec<char>, p: &str) -> (r: bool)
    ensures
        r == (v@ == p@),
{
    let plen = p.unicode_len();
    if v.len() != plen {
        proof {
            assert(v@ != p@);
        }
        return false;
    }
    if starts_with_lit(v, p) {
        proof {
            assert(v@ =~= p@);
        }
        true
    } else {
        proof {
            assert(v@ != p@) by {
                if v@ == p@ {
                    assert(v@.subrange(0, p@.len() as int) =~= p@);
                }
            }
        }
        false
    }
}

} // verus!
