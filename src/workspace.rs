//! Job identity and the file layout of a job's workspace.
use vstd::prelude::*;

verus! {

/// Length of a job id.
pub const JOB_ID_LEN: usize = 10;

/// Length of the random part of an intermediate file name.
pub const FILE_ID_LEN: usize = 21;

/// Whether `c` belongs to the URL-safe alphabet that ids are drawn from.
pub open spec fn is_id_char(c: char) -> bool {
    ('a' <= c <= 'z') || ('A' <= c <= 'Z') || ('0' <= c <= '9') || c == '_' || c == '-'
}

/// A well-formed id of `n` characters of the URL-safe alphabet.
pub open spec fn is_id_of_len(s: Seq<char>, n: nat) -> bool {
    &&& s.len() == n
    &&& forall|i: int| 0 <= i < s.len() ==> is_id_char(#[trigger] s[i])
}

/// Relies on nanoid's `format` with its default random source and its `SAFE`
/// alphabet: `size` characters drawn from that alphabet. It never returns for
/// a size of zero, hence the precondition.
#[verifier::external_body]
fn random_id(size: usize) -> (r: String)
    requires
        size > 0,
    ensures
        is_id_of_len(r@, size as nat),
{
    nanoid::format(nanoid::rngs::default, &nanoid::alphabet::SAFE, size)
}

/// A fresh job id.
pub fn new_job_id() -> (r: String)
    ensures
        is_id_of_len(r@, JOB_ID_LEN as nat),
{
    random_id(JOB_ID_LEN)
}

/// A fresh random part for an intermediate file name.
pub fn new_file_id() -> (r: String)
    ensures
        is_id_of_len(r@, FILE_ID_LEN as nat),
{
    random_id(FILE_ID_LEN)
}

/// The root under which job workspaces are made unless configured otherwise.
pub open spec fn default_temp_root() -> Seq<char> {
    "./temp"@
}

/// The directory of the job with id `id`, under the workspace root `root`.
pub open spec fn temp_dir_path(root: Seq<char>, id: Seq<char>) -> Seq<char> {
    root + "/"@ + id
}

/// The default workspace root.
pub fn default_temp_root_string() -> (r: String)
    ensures
        r@ == default_temp_root(),
{
    String::from_str("./temp")
}

/// The workspace directory of a job.
pub fn temp_dir_for(root: &String, id: &String) -> (r: String)
    ensures
        r@ == temp_dir_path(root@, id@),
{
    root.clone().concat("/").concat(id.as_str())
}

/// Under one root, jobs with different ids never share a workspace
/// directory.
pub proof fn lemma_temp_dir_injective(root: Seq<char>, a: Seq<char>, b: Seq<char>)
    requires
        a != b,
    ensures
        temp_dir_path(root, a) != temp_dir_path(root, b),
{
    let prefix = root + "/"@;
    if temp_dir_path(root, a) == temp_dir_path(root, b) {
        assert(a =~= temp_dir_path(root, a).subrange(prefix.len() as int, temp_dir_path(root, a).len() as int));
        assert(b =~= temp_dir_path(root, b).subrange(prefix.len() as int, temp_dir_path(root, b).len() as int));
    }
}

/// A file of the workspace `dir`: its random part `id` followed by `suffix`.
pub open spec fn temp_file_path(dir: Seq<char>, id: Seq<char>, suffix: Seq<char>) -> Seq<char> {
    dir + "/"@ + id + suffix
}

/// A fresh file name in the workspace `dir`, ending in `suffix`.
pub fn new_temp_file(dir: &String, suffix: &str) -> (r: String)
    ensures
        exists|id: Seq<char>|
            is_id_of_len(id, FILE_ID_LEN as nat) && r@ == #[trigger] temp_file_path(
                dir@,
                id,
                suffix@,
            ),
{
    let id = new_file_id();
    let r = dir.clone().concat("/").concat(id.as_str()).concat(suffix);
    assert(r@ == temp_file_path(dir@, id@, suffix@));
    r
}

/// The last index of `c` in `s`, or -1.
pub open spec fn last_index_of(s: Seq<char>, c: char) -> int
    decreases s.len(),
{
    if s.len() == 0 {
        -1
    } else if s.last() == c {
        s.len() - 1
    } else {
        last_index_of(s.drop_last(), c)
    }
}

/// Where the extension of the file name of `p` begins: the last '.' that
/// follows the last '/' and is not the first character of the file name.
/// `None` where the file name has no extension.
pub open spec fn extension_dot(p: Seq<char>) -> Option<int> {
    let dot = last_index_of(p, '.');
    if dot > last_index_of(p, '/') + 1 {
        Some(dot)
    } else {
        None
    }
}

/// The path of the effect-processed copy of the clip at `p`: the same
/// directory and extension, with "-cartoned" after the file stem.
pub open spec fn cartoned_path_of(p: Seq<char>, dot: int) -> Seq<char> {
    p.take(dot) + "-cartoned"@ + p.skip(dot)
}

/// The path of the effect-processed copy of a clip, or `None` where the
/// clip's file name has no extension.
pub fn cartoned_path(path: &String) -> (r: Option<String>)
    ensures
        match extension_dot(path@) {
            Some(dot) => r is Some && r->Some_0@ == cartoned_path_of(path@, dot),
            None => r is None,
        },
{
    let p = path.as_str();
    let n = p.unicode_len();
    // one past the last '/' and one past the last '.', or zero
    let mut slash_end: usize = 0;
    let mut dot_end: usize = 0;
    let mut i: usize = 0;
    while i < n
        invariant
            n == path@.len(),
            p@ == path@,
            i <= n,
            slash_end as int == last_index_of(path@.take(i as int), '/') + 1,
            dot_end as int == last_index_of(path@.take(i as int), '.') + 1,
            slash_end <= i,
            dot_end <= i,
        decreases n - i,
    {
        let c = p.get_char(i);
        assert(path@.take(i + 1).drop_last() =~= path@.take(i as int));
        assert(path@.take(i + 1).last() == c);
        if c == '/' {
            slash_end = i + 1;
        } else if c == '.' {
            dot_end = i + 1;
        }
        i = i + 1;
    }
    assert(path@.take(n as int) =~= path@);
    if dot_end > slash_end && dot_end - slash_end > 1 {
        let dot = dot_end - 1;
        let stem = p.substring_char(0, dot);
        let rest = p.substring_char(dot, n);
        let r = String::from_str(stem).concat("-cartoned").concat(rest);
        assert(path@.subrange(0, dot as int) =~= path@.take(dot as int));
        assert(path@.subrange(dot as int, n as int) =~= path@.skip(dot as int));
        Some(r)
    } else {
        None
    }
}

} // verus!
