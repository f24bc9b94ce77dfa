//! Static files: where a requested file is looked for, and the refusal of
//! paths that climb out of the template directory with `..`.
use vstd::prelude::*;
use crate::text::chars_of;

verus! {

/// The directory that the static file pages serve from.
pub open spec fn template_dir_spec() -> Seq<char> {
    "./actix_practices/part12/src/templates"@
}

/// The directory that the message board pages serve from.
pub open spec fn board_template_dir_spec() -> Seq<char> {
    "./actix_practices/review_1/src/templates"@
}

/// Law: the message board serves its pages from the template directory of
/// the board project: its sign-up and success pages are
/// `./actix_practices/review_1/src/templates/signup.html` and
/// `./actix_practices/review_1/src/templates/success.html`.
pub proof fn lemma_board_pages()
    ensures
        board_template_dir_spec() + "/"@ + "signup.html"@
            == "./actix_practices/review_1/src/templates/signup.html"@,
        board_template_dir_spec() + "/"@ + "success.html"@
            == "./actix_practices/review_1/src/templates/success.html"@,
{
    reveal_strlit("./actix_practices/review_1/src/templates");
    reveal_strlit("/");
    reveal_strlit("signup.html");
    reveal_strlit("success.html");
    reveal_strlit("./actix_practices/review_1/src/templates/signup.html");
    reveal_strlit("./actix_practices/review_1/src/templates/success.html");
    assert(board_template_dir_spec() + "/"@ + "signup.html"@
        =~= "./actix_practices/review_1/src/templates/signup.html"@);
    assert(board_template_dir_spec() + "/"@ + "success.html"@
        =~= "./actix_practices/review_1/src/templates/success.html"@);
}

/// Law: the static file pages serve from the template directory of the
/// static file project: their home page is
/// `./actix_practices/part12/src/templates/homepage.html`.
pub proof fn lemma_static_home_page()
    ensures
        template_dir_spec() + "/"@ + "homepage.html"@
            == "./actix_practices/part12/src/templates/homepage.html"@,
{
    reveal_strlit("./actix_practices/part12/src/templates");
    reveal_strlit("/");
    reveal_strlit("homepage.html");
    reveal_strlit("./actix_practices/part12/src/templates/homepage.html");
    assert(template_dir_spec() + "/"@ + "homepage.html"@
        =~= "./actix_practices/part12/src/templates/homepage.html"@);
}

/// The path segment that starts at `i` is `..`: it starts the path or
/// follows a `/`, and ends the path or is followed by a `/`.
pub open spec fn parent_at(p: Seq<char>, i: int) -> bool {
    &&& 0 <= i
    &&& i + 1 < p.len()
    &&& (i == 0 || p[i - 1] == '/')
    &&& p[i] == '.'
    &&& p[i + 1] == '.'
    &&& (i + 2 == p.len() || p[i + 2] == '/')
}

/// The path has a `..` component.
pub open spec fn has_parent_dir_spec(p: Seq<char>) -> bool {
    exists|i: int| parent_at(p, i)
}

/// `base` extended with `p` as `Path::join` does it: an absolute `p` takes
/// the place of `base`; otherwise a `/` and `p` are added.
pub open spec fn join_path_spec(base: Seq<char>, p: Seq<char>) -> Seq<char> {
    if p.len() > 0 && p[0] == '/' {
        p
    } else {
        base + "/"@ + p
    }
}

/// Why a static file request was refused.
pub enum PathError {
    /// The path has a `..` component.
    Forbidden,
}

/// The directory that the static file pages serve from.
pub fn template_dir() -> (d: String)
    ensures
        d@ == template_dir_spec(),
{
    String::from_str("./actix_practices/part12/src/templates")
}

/// The directory that the message board pages serve from.
pub fn board_template_dir() -> (d: String)
    ensures
        d@ == board_template_dir_spec(),
{
    String::from_str("./actix_practices/review_1/src/templates")
}

/// Tests whether the path has a `..` component.
pub fn has_parent_dir(p: &str) -> (b: bool)
    ensures
        b == has_parent_dir_spec(p@),
{
    let v = chars_of(p);
    let mut i: usize = 0;
    while i < v.len()
        invariant
            i <= v.len(),
            v@ == p@,
            forall|k: int| 0 <= k < i ==> !#[trigger] parent_at(p@, k),
        decreases v.len() - i,
    {
        if i + 1 < v.len() && (i == 0 || v[i - 1] == '/') && v[i] == '.' && v[i + 1] == '.' && (i
            + 2 == v.len() || v[i + 2] == '/') {
            assert(parent_at(p@, i as int));
            return true;
        }
        assert(!parent_at(p@, i as int));
        i = i + 1;
    }
    assert forall|k: int| !#[trigger] parent_at(p@, k) by {
        if 0 <= k < i {
        }
    }
    false
}

/// A file of the directory `dir` (`format!("{}/{}", dir, name)`).
pub fn template_file(dir: &str, name: &str) -> (path: String)
    ensures
        path@ == dir@ + "/"@ + name@,
{
    let mut path = String::from_str(dir);
    path.append("/");
    path.append(name);
    path
}

/// The body of the answer when a template file cannot be found.
pub fn page_not_found(filename: &str) -> (body: String)
    ensures
        body@ == "404 - Page "@ + filename@ + " not found"@,
{
    let mut body = String::from_str("404 - Page ");
    body.append(filename);
    body.append(" not found");
    body
}

/// Where the static file `filename` is looked for, under the template
/// directory; a path with a `..` component is refused.
pub fn static_file_path(filename: &str) -> (r: Result<String, PathError>)
    ensures
        has_parent_dir_spec(filename@) <==> r is Err,
        r matches Ok(path) ==> path@ == join_path_spec(template_dir_spec(), filename@),
{
    if has_parent_dir(filename) {
        return Err(PathError::Forbidden);
    }
    let v = chars_of(filename);
    if v.len() > 0 && v[0] == '/' {
        Ok(String::from_str(filename))
    } else {
        let dir = template_dir();
        Ok(template_file(dir.as_str(), filename))
    }
}

/// Law: the path of a served relative file has no `..` component either,
/// so it stays inside the template directory.
pub proof fn lemma_served_path_has_no_parent(filename: Seq<char>)
    requires
        !has_parent_dir_spec(filename),
        !(filename.len() > 0 && filename[0] == '/'),
    ensures
        !has_parent_dir_spec(join_path_spec(template_dir_spec(), filename)),
{
    reveal_strlit("./actix_practices/part12/src/templates");
    reveal_strlit("/");
    let d = template_dir_spec();
    let p = d + "/"@ + filename;
    let n: int = d.len() as int;
    assert(n == 38);
    assert forall|i: int| !#[trigger] parent_at(p, i) by {
        if parent_at(p, i) {
            if i < n - 1 {
                assert(p[i] == d[i]);
                assert(p[i + 1] == d[i + 1]);
                assert(d[i] == '.' && d[i + 1] == '.');
            } else if i == n - 1 {
                assert(p[i] == d[n - 1]);
            } else if i == n {
                assert(p[i] == '/');
            } else {
                let j: int = i - n - 1;
                assert(p[i] == filename[j]);
                assert(p[i + 1] == filename[j + 1]);
                assert(j == 0 || p[i - 1] == filename[j - 1]);
                assert(i + 2 == p.len() || p[i + 2] == filename[j + 2]);
                assert(parent_at(filename, j));
            }
        }
    }
}

} // verus!
