use vstd::prelude::*;

verus! {

/// The path that `PathBuf::push` makes of the path `base` extended by `part`
/// on Unix: an absolute `part` (one that starts at the root `/`) replaces
/// the path; otherwise `part` is joined on, after a `/` when `base` is not
/// empty and does not already end in one.
pub open spec fn pushed_path(base: Seq<char>, part: Seq<char>) -> Seq<char> {
    if part.len() > 0 && part[0] == '/' {
        part
    } else if base.len() > 0 && base.last() != '/' {
        base + seq!['/'] + part
    } else {
        base + part
    }
}

/// Pushing a part that starts at the root gives that part alone; pushing a
/// relative part (empty, or not starting with `/`) keeps the whole path and
/// joins the part on after exactly one `/`: one is added when the path is not
/// empty and does not end in one, and none otherwise.
pub proof fn lemma_pushed_path(base: Seq<char>, part: Seq<char>)
    ensures
        part.len() > 0 && part[0] == '/' ==> pushed_path(base, part) == part,
        !(part.len() > 0 && part[0] == '/') && base.len() > 0 && base.last() != '/' ==> pushed_path(
            base,
            part,
        ) == base + seq!['/'] + part,
        !(part.len() > 0 && part[0] == '/') && (base.len() == 0 || base.last() == '/')
            ==> pushed_path(base, part) == base + part,
{
}

/// The final component of `path`, as `Path::file_name` gives it; `None` when
/// the path has none, such as a path that ends in `..` or the root alone.
pub uninterp spec fn path_file_name(path: Seq<char>) -> Option<Seq<char>>;

/// `base` extended by `part`, as `PathBuf::push` extends a path on Unix.
pub fn push_path(base: &str, part: &str) -> (res: String)
    ensures
        res@ == pushed_path(base@, part@),
        part@.len() > 0 && part@[0] == '/' ==> res@ == part@,
        !(part@.len() > 0 && part@[0] == '/') && base@.len() > 0 && base@.last() != '/' ==> res@
            == base@ + seq!['/'] + part@,
        !(part@.len() > 0 && part@[0] == '/') && (base@.len() == 0 || base@.last() == '/') ==> res@
            == base@ + part@,
{
    let part_len = part.unicode_len();
    if part_len > 0 && part.get_char(0) == '/' {
        return String::from_str(part);
    }
    let base_len = base.unicode_len();
    let mut res = String::from_str(base);
    if base_len > 0 && base.get_char(base_len - 1) != '/' {
        proof {
            reveal_strlit("/");
        }
        res.append("/");
    }
    res.append(part);
    res
}

/// The final component of `path`.
///
/// Trusted: `Path::file_name`. The result is stated only as the name
/// `path_file_name`; the component is a piece of the UTF-8 input, so its
/// text is kept whole.
#[verifier::external_body]
pub(crate) fn file_name(path: &str) -> (res: Option<String>)
    ensures
        res.deep_view() == path_file_name(path@),
{
    std::path::Path::new(path).file_name().map(|name| name.to_string_lossy().into_owned())
}

} // verus!
