//! Where a download goes: the file's name, its path, and the directory that
//! the archive is unpacked into.

use vstd::prelude::*;
use vstd::string::{StrSliceExecFns, StringExecFns};
use crate::error::{Error, ErrorView};
use crate::text::{chars_of, occurs_at};

verus! {

/// The ending that an archive's file name loses to give the directory's name.
pub const ARCHIVE_SUFFIX: &'static str = ".tar.gz";

/// The text of `url` after its last `/`; all of `url` where it has none.
pub open spec fn last_segment(url: Seq<char>) -> Seq<char>
    decreases url.len(),
{
    if url.len() == 0 || url.last() == '/' {
        Seq::empty()
    } else {
        last_segment(url.drop_last()).push(url.last())
    }
}

/// `text` without the occurrences of `pattern`, found from the left, each
/// search starting behind the occurrence before it.
pub open spec fn without(text: Seq<char>, pattern: Seq<char>) -> Seq<char>
    decreases text.len(),
{
    if pattern.len() == 0 || text.len() < pattern.len() {
        text
    } else if text.take(pattern.len() as int) == pattern {
        without(text.skip(pattern.len() as int), pattern)
    } else {
        seq![text[0]] + without(text.skip(1), pattern)
    }
}

/// `name` below the directory `dir`, with `/` between them where `dir` does
/// not end in one. A `name` that starts at the root stands alone.
pub open spec fn joined(dir: Seq<char>, name: Seq<char>) -> Seq<char> {
    if name.len() > 0 && name[0] == '/' {
        name
    } else if dir.len() == 0 || dir.last() == '/' {
        dir + name
    } else {
        dir.push('/') + name
    }
}

/// The message of the error for a URL that names no file.
pub open spec fn no_file_name_message(url: Seq<char>) -> Seq<char> {
    "Could not construct file name from URL: "@ + url
}

/// The last segment is the one suffix of the URL that holds no `/` and is
/// either the whole URL or stands right behind a `/`.
pub proof fn lemma_last_segment(url: Seq<char>)
    ensures
        last_segment(url).len() <= url.len(),
        last_segment(url) == url.skip(url.len() - last_segment(url).len()),
        !last_segment(url).contains('/'),
        last_segment(url).len() < url.len() ==> url[url.len() - last_segment(url).len() - 1] == '/',
    decreases url.len(),
{
    if url.len() == 0 || url.last() == '/' {
        assert(last_segment(url) =~= url.skip(url.len() as int));
    } else {
        let shorter = url.drop_last();
        lemma_last_segment(shorter);
        let segment = last_segment(shorter);
        assert(last_segment(url) =~= url.skip(url.len() - last_segment(url).len()));
        assert forall|i: int| 0 <= i < last_segment(url).len() implies last_segment(url)[i]
            != '/' by {
            if i < segment.len() {
                assert(segment.contains(segment[i]));
            }
        }
    }
}

/// The file name that a URL gives its download: the text after the last `/`.
/// A URL that ends in `/`, or is empty, names no file.
pub fn output_file_name(url: &str) -> (r: Result<String, Error>)
    ensures
        match r {
            Ok(name) => last_segment(url@).len() > 0 && name@ == last_segment(url@),
            Err(e) => last_segment(url@).len() == 0 && e@ == (ErrorView::Usage {
                message: no_file_name_message(url@),
            }),
        },
{
    let len = url.unicode_len();
    let mut start = len;
    proof {
        assert(url@.take(len as int) =~= url@);
        assert(last_segment(url@) + url@.skip(len as int) =~= last_segment(url@));
    }
    while start > 0 && url.get_char(start - 1) != '/'
        invariant
            start <= len == url@.len(),
            last_segment(url@) == last_segment(url@.take(start as int)) + url@.skip(start as int),
        decreases start,
    {
        proof {
            let head = url@.take(start as int);
            assert(head.drop_last() =~= url@.take(start - 1));
            assert(head.last() == url@[start - 1]);
            assert(last_segment(head) + url@.skip(start as int) =~= last_segment(head.drop_last())
                + url@.skip(start - 1));
        }
        start = start - 1;
    }
    proof {
        assert(url@.take(len as int) =~= url@);
        assert(last_segment(url@.take(start as int)) =~= Seq::empty());
        assert(last_segment(url@) =~= url@.skip(start as int));
    }
    if start == len {
        let mut message = String::from_str("Could not construct file name from URL: ");
        message.append(url);
        Err(Error::Usage { message })
    } else {
        let name = url.substring_char(start, len);
        assert(name@ =~= url@.skip(start as int));
        Ok(String::from_str(name))
    }
}

/// `text` without the occurrences of `pattern`.
pub fn remove_all(text: &str, pattern: &str) -> (rest: String)
    ensures
        rest@ == without(text@, pattern@),
{
    let chars = chars_of(text);
    let wanted = chars_of(pattern);
    let len = chars.len();
    let mut rest = String::new();
    if wanted.len() == 0 {
        rest.append(text);
        assert(rest@ =~= text@);
        return rest;
    }
    let mut i: usize = 0;
    proof {
        assert(text@.skip(0) =~= text@);
        assert(rest@ + without(text@, pattern@) =~= without(text@, pattern@));
    }
    while i < len
        invariant
            i <= len == text@.len(),
            chars@ == text@,
            wanted@ == pattern@,
            wanted@.len() > 0,
            rest@ + without(text@.skip(i as int), pattern@) == without(text@, pattern@),
        decreases len - i,
    {
        let ghost tail = text@.skip(i as int);
        if occurs_at(&chars, i, &wanted) {
            proof {
                assert(tail.take(pattern@.len() as int) =~= text@.subrange(
                    i as int,
                    i + pattern@.len(),
                ));
                assert(tail.skip(pattern@.len() as int) =~= text@.skip(i + pattern@.len()));
            }
            i = i + wanted.len();
        } else {
            let one = text.substring_char(i, i + 1);
            proof {
                assert(one@ =~= seq![tail[0]]);
                assert(tail.skip(1) =~= text@.skip(i + 1));
                if tail.len() >= pattern@.len() {
                    assert(tail.take(pattern@.len() as int) =~= text@.subrange(
                        i as int,
                        i + pattern@.len(),
                    ));
                    assert(without(tail, pattern@) == seq![tail[0]] + without(
                        tail.skip(1),
                        pattern@,
                    ));
                } else {
                    lemma_without_short(tail.skip(1), pattern@);
                    assert(without(tail, pattern@) =~= seq![tail[0]] + tail.skip(1));
                }
                assert(rest@ + one@ + without(text@.skip(i + 1), pattern@) =~= rest@ + without(
                    tail,
                    pattern@,
                ));
            }
            rest.append(one);
            i = i + 1;
        }
    }
    proof {
        assert(without(text@.skip(i as int), pattern@) =~= Seq::<char>::empty());
        assert(rest@ =~= rest@ + without(text@.skip(i as int), pattern@));
    }
    rest
}

/// A text shorter than the pattern holds no occurrence of it.
proof fn lemma_without_short(text: Seq<char>, pattern: Seq<char>)
    requires
        text.len() < pattern.len(),
    ensures
        without(text, pattern) == text,
{
}

/// The directory that the archive at `output_path` is unpacked into: the
/// path without `.tar.gz`, wherever in the path it stands.
pub fn extraction_target(output_path: &str) -> (target: String)
    ensures
        target@ == without(output_path@, ARCHIVE_SUFFIX@),
{
    remove_all(output_path, ARCHIVE_SUFFIX)
}

/// The path of `name` below the directory `dir`.
pub fn join_path(dir: &str, name: &str) -> (path: String)
    ensures
        path@ == joined(dir@, name@),
{
    let name_len = name.unicode_len();
    let dir_len = dir.unicode_len();
    let mut path = String::new();
    if name_len > 0 && name.get_char(0) == '/' {
        path.append(name);
        assert(path@ =~= name@);
    } else if dir_len == 0 || dir.get_char(dir_len - 1) == '/' {
        path.append(dir);
        path.append(name);
        assert(path@ =~= dir@ + name@);
    } else {
        proof {
            reveal_strlit("/");
        }
        path.append(dir);
        path.append("/");
        path.append(name);
        assert(path@ =~= dir@.push('/') + name@);
    }
    path
}

/// Where one download goes on disk.
#[derive(Debug, Clone, PartialEq, Eq)]
pub struct Destination {
    /// The name of the downloaded file: the URL's last segment.
    pub file_name: String,
    /// The path that the compressed bytes are written to.
    pub output_path: String,
    /// The directory that the archive is unpacked into.
    pub extraction_target: String,
}

/// The path of the file that `url` is downloaded to below `out_dir`.
pub open spec fn output_path_of(url: Seq<char>, out_dir: Seq<char>) -> Seq<char> {
    joined(out_dir, last_segment(url))
}

/// Plans where the download of `url` goes below the directory `out_dir`.
/// Nothing is asked of the server and nothing is written for this: a URL that
/// names no file is refused here, before the transfer starts.
pub fn plan(url: &str, out_dir: &str) -> (r: Result<Destination, Error>)
    ensures
        match r {
            Ok(to) => {
                &&& last_segment(url@).len() > 0
                &&& to.file_name@ == last_segment(url@)
                &&& to.output_path@ == output_path_of(url@, out_dir@)
                &&& to.extraction_target@ == without(
                    output_path_of(url@, out_dir@),
                    ARCHIVE_SUFFIX@,
                )
            },
            Err(e) => last_segment(url@).len() == 0 && e@ == (ErrorView::Usage {
                message: no_file_name_message(url@),
            }),
        },
{
    match output_file_name(url) {
        Ok(file_name) => {
            let output_path = join_path(out_dir, file_name.as_str());
            let extraction_target = extraction_target(output_path.as_str());
            Ok(Destination { file_name, output_path, extraction_target })
        },
        Err(e) => Err(e),
    }
}

} // verus!
