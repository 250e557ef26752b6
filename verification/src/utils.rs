//! Small string utilities: path expansion, static file contents, and the
//! extraction of a repository name from a clone URL.

use vstd::prelude::*;
use vstd::string::StrSliceExecFns;
use vstd::string::StringExecFns;

verus! {

/// Equality of two string slices, decided character by character.
pub fn str_eq(a: &str, b: &str) -> (r: bool)
    ensures
        r == (a@ == b@),
{
    let n = a.unicode_len();
    let m = b.unicode_len();
    if n != m {
        return false;
    }
    let mut i: usize = 0;
    while i < n
        invariant
            n == a@.len(),
            n == b@.len(),
            i <= n,
            forall|j: int| 0 <= j < i ==> a@[j] == b@[j],
        decreases n - i,
    {
        if a.get_char(i) != b.get_char(i) {
            return false;
        }
        i = i + 1;
    }
    proof {
        assert(a@ =~= b@);
    }
    true
}

/// Whether a path begins with the home-directory marker `~/`.
pub open spec fn has_home_marker(s: Seq<char>) -> bool {
    s.len() >= 2 && s[0] == '~' && s[1] == '/'
}

/// The expansion of a path against an optional home directory: a leading
/// `~/` is replaced by the home directory and a separator; without a home
/// directory, or without the marker, the path is unchanged.
pub open spec fn expanded_home(path: Seq<char>, home: Option<Seq<char>>) -> Seq<char> {
    if has_home_marker(path) && home is Some {
        home->0 + seq!['/'] + path.skip(2)
    } else {
        path
    }
}

pub open spec fn opt_str_view(o: Option<String>) -> Option<Seq<char>> {
    match o {
        Some(s) => Some(s@),
        None => None,
    }
}

/// Relies on dirs::home_dir for the user's home directory; the result
/// depends on the environment, so nothing is promised of it.
#[verifier::external_body]
fn home_dir_string() -> Option<String> {
    dirs::home_dir().map(|p| p.to_string_lossy().into_owned())
}

/// Expands a leading `~/` against a given home directory.  This is the
/// whole computation of the expansion; the caller supplies whatever home
/// directory the environment reported.
pub fn expand_with_home(path: &str, home: &Option<String>) -> (r: String)
    ensures
        r@ == expanded_home(path@, opt_str_view(*home)),
{
    if path.unicode_len() >= 2 && path.get_char(0) == '~' && path.get_char(1) == '/' {
        match home {
            Some(h) => {
                let rest = path.substring_char(2, path.unicode_len());
                let mut out = h.clone();
                out.append("/");
                out.append(rest);
                proof {
                    assert("/"@ =~= seq!['/']) by {
                        reveal_strlit("/");
                    }
                    assert(out@ =~= expanded_home(path@, opt_str_view(*home)));
                }
                out
            },
            None => path.to_owned(),
        }
    } else {
        path.to_owned()
    }
}

/// Expands a leading `~/` in a path to the home directory that the
/// environment reports, if any; every other path comes back unchanged.
pub fn expand_home_directory(path: &str) -> (r: String)
    ensures
        !has_home_marker(path@) ==> r@ == path@,
        exists|h: Option<Seq<char>>| r@ == expanded_home(path@, h),
{
    let home = home_dir_string();
    let ghost hv = opt_str_view(home);
    let r = expand_with_home(path, &home);
    proof {
        assert(r@ == expanded_home(path@, hv));
    }
    r
}

/// The license text placed into a new project.
pub fn create_license() -> (r: String)
    ensures
        r@ == mit_license_text(),
{
    "MIT License

Permission is hereby granted, free of charge, to any person obtaining a copy
of this software and associated documentation files (the \"Software\"), to deal
in the Software without restriction, including without limitation the rights
to use, copy, modify, merge, publish, distribute, sublicense, and/or sell
copies of the Software, and to permit persons to whom the Software is
furnished to do so, subject to the following conditions:

The above copyright notice and this permission notice shall be included in all
copies or substantial portions of the Software.

THE SOFTWARE IS PROVIDED \"AS IS\", WITHOUT WARRANTY OF ANY KIND, EXPRESS OR
IMPLIED, INCLUDING BUT NOT LIMITED TO THE WARRANTIES OF MERCHANTABILITY,
FITNESS FOR A PARTICULAR PURPOSE AND NONINFRINGEMENT. IN NO EVENT SHALL THE
AUTHORS OR COPYRIGHT HOLDERS BE LIABLE FOR ANY CLAIM, DAMAGES OR OTHER
LIABILITY, WHETHER IN AN ACTION OF CONTRACT, TORT OR OTHERWISE, ARISING FROM,
OUT OF OR IN CONNECTION WITH THE SOFTWARE OR THE USE OR OTHER DEALINGS IN THE
SOFTWARE.
".to_owned()
}

/// The license text, as a single sequence of characters.
pub open spec fn mit_license_text() -> Seq<char> {
    "MIT License

Permission is hereby granted, free of charge, to any person obtaining a copy
of this software and associated documentation files (the \"Software\"), to deal
in the Software without restriction, including without limitation the rights
to use, copy, modify, merge, publish, distribute, sublicense, and/or sell
copies of the Software, and to permit persons to whom the Software is
furnished to do so, subject to the following conditions:

The above copyright notice and this permission notice shall be included in all
copies or substantial portions of the Software.

THE SOFTWARE IS PROVIDED \"AS IS\", WITHOUT WARRANTY OF ANY KIND, EXPRESS OR
IMPLIED, INCLUDING BUT NOT LIMITED TO THE WARRANTIES OF MERCHANTABILITY,
FITNESS FOR A PARTICULAR PURPOSE AND NONINFRINGEMENT. IN NO EVENT SHALL THE
AUTHORS OR COPYRIGHT HOLDERS BE LIABLE FOR ANY CLAIM, DAMAGES OR OTHER
LIABILITY, WHETHER IN AN ACTION OF CONTRACT, TORT OR OTHERWISE, ARISING FROM,
OUT OF OR IN CONNECTION WITH THE SOFTWARE OR THE USE OR OTHER DEALINGS IN THE
SOFTWARE.
"@
}

/// The readme placed into a new project: a heading with the given title.
pub fn create_readme(extra_content: &str) -> (r: String)
    ensures
        r@ == "# "@ + extra_content@ + "\n\n"@,
{
    let mut out = "# ".to_owned();
    out.append(extra_content);
    out.append("\n\n");
    proof {
        assert(out@ =~= "# "@ + extra_content@ + "\n\n"@);
    }
    out
}

/// The input with every trailing `/` removed.
pub open spec fn trim_trailing_slashes(s: Seq<char>) -> Seq<char>
    decreases s.len(),
{
    if s.len() > 0 && s.last() == '/' {
        trim_trailing_slashes(s.drop_last())
    } else {
        s
    }
}

/// The suffix after the last `/`; the whole input when it has none.
pub open spec fn tail_segment(s: Seq<char>) -> Seq<char>
    decreases s.len(),
{
    if s.len() == 0 {
        Seq::empty()
    } else if s.last() == '/' {
        Seq::empty()
    } else {
        tail_segment(s.drop_last()).push(s.last())
    }
}

pub open spec fn git_suffix() -> Seq<char> {
    seq!['.', 'g', 'i', 't']
}

/// The input with one trailing `.git` removed, when it ends in one.
pub open spec fn strip_git_suffix(s: Seq<char>) -> Seq<char> {
    if s.len() >= 4 && s.skip(s.len() - 4) == git_suffix() {
        s.take(s.len() - 4)
    } else {
        s
    }
}

/// The repository name a clone URL carries: its last non-empty `/`-separated
/// segment with a trailing `.git` stripped, or `unknown` when the URL has
/// no non-empty segment at all.
pub open spec fn repo_name_of(url: Seq<char>) -> Seq<char> {
    if tail_segment(trim_trailing_slashes(url)).len() == 0 {
        "unknown"@
    } else {
        strip_git_suffix(tail_segment(trim_trailing_slashes(url)))
    }
}

/// The index up to which `s` keeps its first `e` characters once trailing
/// `/` characters are dropped.
fn trim_end(s: &str, e: usize) -> (r: usize)
    requires
        e <= s@.len(),
    ensures
        r <= e,
        trim_trailing_slashes(s@.take(e as int)) == s@.take(r as int),
        r > 0 ==> s@[r - 1] != '/',
    decreases e,
{
    if e == 0 {
        proof {
            assert(s@.take(0) =~= Seq::<char>::empty());
        }
        0
    } else if s.get_char(e - 1) == '/' {
        proof {
            assert(s@.take(e as int).drop_last() =~= s@.take(e as int - 1));
        }
        trim_end(s, e - 1)
    } else {
        e
    }
}

/// The start of the trailing segment of the first `e` characters of `s`.
fn seg_start(s: &str, e: usize) -> (r: usize)
    requires
        e <= s@.len(),
    ensures
        r <= e,
        tail_segment(s@.take(e as int)) == s@.subrange(r as int, e as int),
        r > 0 ==> s@[r - 1] == '/',
    decreases e,
{
    if e == 0 {
        proof {
            assert(s@.take(0) =~= Seq::<char>::empty());
            assert(s@.subrange(0, 0) =~= Seq::<char>::empty());
        }
        0
    } else if s.get_char(e - 1) == '/' {
        proof {
            assert(s@.subrange(e as int, e as int) =~= Seq::<char>::empty());
        }
        e
    } else {
        let r = seg_start(s, e - 1);
        proof {
            assert(s@.take(e as int).drop_last() =~= s@.take(e as int - 1));
            assert(s@.take(e as int).last() == s@[e as int - 1]);
            assert(s@.subrange(r as int, e as int - 1).push(s@[e as int - 1]) =~= s@.subrange(
                r as int,
                e as int,
            ));
        }
        r
    }
}

/// Extracts the repository name from a clone URL: the last non-empty
/// segment of the path, with a trailing `.git` stripped; empty segments
/// and trailing slashes are skipped, and a URL without any segment yields
/// `unknown`.
pub fn extract_repo_name_from_url(git_url: &str) -> (r: String)
    ensures
        r@ == repo_name_of(git_url@),
{
    let n = git_url.unicode_len();
    proof {
        assert(git_url@.take(n as int) =~= git_url@);
    }
    let e = trim_end(git_url, n);
    if e == 0 {
        proof {
            assert(tail_segment(Seq::<char>::empty()).len() == 0);
        }
        return "unknown".to_owned();
    }
    let b = seg_start(git_url, e);
    let ghost seg = git_url@.subrange(b as int, e as int);
    proof {
        // the segment is non-empty: its last pushed character is s[e - 1]
        assert(git_url@.take(e as int).last() == git_url@[e as int - 1]);
        assert(tail_segment(git_url@.take(e as int)).len() > 0);
        assert(b < e);
    }
    if e - b >= 4 && git_url.get_char(e - 4) == '.' && git_url.get_char(e - 3) == 'g'
        && git_url.get_char(e - 2) == 'i' && git_url.get_char(e - 1) == 't' {
        let name = git_url.substring_char(b, e - 4);
        proof {
            assert(seg.skip(seg.len() - 4) =~= git_suffix());
            assert(name@ =~= strip_git_suffix(seg));
        }
        name.to_owned()
    } else {
        let name = git_url.substring_char(b, e);
        proof {
            if seg.len() >= 4 && seg.skip(seg.len() - 4) == git_suffix() {
                // the four final characters would all have matched
                assert(seg[seg.len() - 4] == '.');
                assert(git_url@[e as int - 4] == '.');
                assert(seg[seg.len() - 3] == 'g');
                assert(seg[seg.len() - 2] == 'i');
                assert(seg[seg.len() - 1] == 't');
                assert(false);
            }
            assert(name@ =~= strip_git_suffix(seg));
        }
        name.to_owned()
    }
}

} // verus!
