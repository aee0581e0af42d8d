//! The log of removed directories: a plain text file, one path per line.

use vstd::prelude::*;
use vstd::string::*;

verus! {

/// The name of the log file. It is created in the working directory, and a run
/// that writes it replaces what was there.
pub const LOG_FILE_NAME: &'static str = "deleted_dirs_log.txt";

/// The name of the log file as a sequence of characters.
pub open spec fn log_file_name() -> Seq<char> {
    "deleted_dirs_log.txt"@
}

/// The text of the log: each path followed by a line feed, in order. There is
/// no header and nothing after the last line.
pub open spec fn log_text(paths: Seq<Seq<char>>) -> Seq<char>
    decreases paths.len(),
{
    if paths.len() == 0 {
        Seq::empty()
    } else {
        log_text(paths.drop_last()) + paths.last() + seq!['\n']
    }
}

/// The strings of a vector as sequences of characters.
pub open spec fn paths_of(paths: Seq<String>) -> Seq<Seq<char>> {
    Seq::new(paths.len(), |i: int| paths[i]@)
}

/// Writes out the text of the log for these paths.
pub fn render_log(paths: &Vec<String>) -> (text: String)
    ensures
        text@ == log_text(paths_of(paths@)),
{
    let ghost all = paths_of(paths@);
    let mut text = String::new();
    let mut i: usize = 0;
    while i < paths.len()
        invariant
            i <= paths.len(),
            all == paths_of(paths@),
            text@ == log_text(all.take(i as int)),
        decreases paths.len() - i,
    {
        text.append(paths[i].as_str());
        text.append("\n");
        proof {
            reveal_strlit("\n");
            assert(all.take(i + 1).drop_last() =~= all.take(i as int));
        }
        i += 1;
    }
    proof {
        assert(all.take(i as int) =~= all);
    }
    text
}

/// Where the first line feed of `text` stands, or the length of `text` if it
/// holds none.
pub open spec fn first_line_feed(text: Seq<char>) -> int
    decreases text.len(),
{
    if text.len() == 0 || text[0] == '\n' {
        0
    } else {
        1 + first_line_feed(text.skip(1))
    }
}

/// The lines of a text: what stands before each line feed. Characters after
/// the last line feed make up a final line of their own.
pub open spec fn lines(text: Seq<char>) -> Seq<Seq<char>>
    decreases text.len(),
{
    if text.len() == 0 {
        Seq::empty()
    } else {
        let end = first_line_feed(text);
        if 0 <= end < text.len() {
            seq![text.take(end)] + lines(text.skip(end + 1))
        } else {
            seq![text]
        }
    }
}

proof fn lemma_log_text_front(paths: Seq<Seq<char>>)
    requires
        paths.len() > 0,
    ensures
        log_text(paths) == paths[0] + seq!['\n'] + log_text(paths.skip(1)),
    decreases paths.len(),
{
    if paths.len() == 1 {
        assert(log_text(paths.drop_last()) =~= Seq::empty());
    } else {
        lemma_log_text_front(paths.drop_last());
        assert(paths.drop_last().skip(1) =~= paths.skip(1).drop_last());
    }
}

proof fn lemma_first_line_feed(line: Seq<char>, rest: Seq<char>)
    requires
        !line.contains('\n'),
    ensures
        first_line_feed(line + seq!['\n'] + rest) == line.len(),
    decreases line.len(),
{
    if line.len() > 0 {
        let shorter = line.skip(1);
        lemma_first_line_feed(shorter, rest);
        assert((line + seq!['\n'] + rest).skip(1) =~= shorter + seq!['\n'] + rest);
    }
}

/// The log holds one line per removed directory and nothing else: read back
/// line by line, the text gives the paths again, in order. This needs paths
/// that hold no line feed themselves.
pub proof fn lemma_log_has_one_line_per_path(paths: Seq<Seq<char>>)
    requires
        forall|i: int| 0 <= i < paths.len() ==> !(#[trigger] paths[i]).contains('\n'),
    ensures
        lines(log_text(paths)) == paths,
    decreases paths.len(),
{
    if paths.len() > 0 {
        let text = log_text(paths);
        let rest = paths.skip(1);
        lemma_log_text_front(paths);
        lemma_first_line_feed(paths[0], log_text(rest));
        lemma_log_has_one_line_per_path(rest);
        let end = paths[0].len() as int;
        assert(text.take(end) =~= paths[0]);
        assert(text.skip(end + 1) =~= log_text(rest));
    }
}

} // verus!
