//! The stored credentials and the text of the file that keeps them: two
//! lines, the identity and then the secret token.

use crate::custom_error::{CustomError, ErrorView};
use vstd::prelude::*;
use vstd::string::{StrSliceExecFns, StringExecFns};

verus! {

/// The identity and the secret token that requests are made with.
#[derive(Debug, Clone, PartialEq, Eq)]
pub struct Credentials {
    pub identity: String,
    pub secret_token: String,
}

/// The number of characters before the first line feed of a text, or its
/// length where it holds none.
pub open spec fn line_len(text: Seq<char>) -> nat
    decreases text.len(),
{
    if text.len() == 0 || text[0] == '\n' {
        0
    } else {
        1 + line_len(text.drop_first())
    }
}

/// A line without its ending: a carriage return goes only where a line feed
/// followed it.
pub open spec fn without_ending(line: Seq<char>, terminated: bool) -> Seq<char> {
    if terminated && line.len() > 0 && line.last() == '\r' {
        line.drop_last()
    } else {
        line
    }
}

/// The first line of a text, without its ending.
pub open spec fn first_line(text: Seq<char>) -> Seq<char> {
    let n = line_len(text) as int;
    without_ending(text.take(n), n < text.len())
}

/// What follows the first line and its line feed; empty where the text has
/// no line feed.
pub open spec fn after_first_line(text: Seq<char>) -> Seq<char> {
    let n = line_len(text) as int;
    if n < text.len() {
        text.skip(n + 1)
    } else {
        Seq::empty()
    }
}

/// The identity and the token that a credential file holds: its first two
/// lines. `None` where it has fewer than two lines.
pub open spec fn parsed(content: Seq<char>) -> Option<(Seq<char>, Seq<char>)> {
    let rest = after_first_line(content);
    if rest.len() == 0 {
        None
    } else {
        Some((first_line(content), first_line(rest)))
    }
}

/// The text of the credential file for an identity and a token.
pub open spec fn file_text(identity: Seq<char>, token: Seq<char>) -> Seq<char> {
    identity + seq!['\n'] + token
}

/// A text without a line feed.
pub open spec fn single_line(text: Seq<char>) -> bool {
    forall|i: int| 0 <= i < text.len() ==> text[i] != '\n'
}

/// Credentials that the file can keep: each field on one line, a token that
/// is not empty, and an identity that does not end in a carriage return.
pub open spec fn storable(identity: Seq<char>, token: Seq<char>) -> bool {
    &&& single_line(identity)
    &&& single_line(token)
    &&& token.len() > 0
    &&& (identity.len() > 0 ==> identity.last() != '\r')
}

/// `line_len` stops at the first line feed and nowhere before it.
pub proof fn lemma_line_len(text: Seq<char>)
    ensures
        line_len(text) <= text.len(),
        forall|i: int| 0 <= i < line_len(text) ==> text[i] != '\n',
        line_len(text) < text.len() ==> text[line_len(text) as int] == '\n',
    decreases text.len(),
{
    if text.len() == 0 || text[0] == '\n' {
    } else {
        let tail = text.drop_first();
        lemma_line_len(tail);
        assert forall|i: int| 0 <= i < line_len(text) implies text[i] != '\n' by {
            if i > 0 {
                assert(text[i] == tail[i - 1]);
            }
        }
        if line_len(text) < text.len() {
            assert(text[line_len(text) as int] == tail[line_len(tail) as int]);
        }
    }
}

/// A position that no line feed precedes, and where the text ends or a line
/// feed stands, is `line_len`.
pub proof fn lemma_line_len_at(text: Seq<char>, at: int)
    requires
        0 <= at <= text.len(),
        forall|i: int| 0 <= i < at ==> text[i] != '\n',
        at == text.len() || text[at] == '\n',
    ensures
        line_len(text) == at,
{
    lemma_line_len(text);
    let n = line_len(text) as int;
    if n < at {
        assert(text[n] == '\n');
    } else if at < n {
        assert(text[at] != '\n');
    }
}

/// Neither field read from a credential file holds a line feed.
pub proof fn lemma_parsed_fields_single_line(content: Seq<char>)
    requires
        parsed(content) is Some,
    ensures
        single_line(parsed(content).unwrap().0),
        single_line(parsed(content).unwrap().1),
{
    lemma_line_len(content);
    lemma_line_len(after_first_line(content));
}

/// Credentials that the file can keep are read back from its text exactly.
pub proof fn lemma_stored_credentials_load_back(identity: Seq<char>, token: Seq<char>)
    requires
        storable(identity, token),
    ensures
        parsed(file_text(identity, token)) == Some((identity, token)),
{
    let text = file_text(identity, token);
    let n = identity.len() as int;
    assert(text[n] == '\n');
    lemma_line_len_at(text, n);
    assert(text.take(n) =~= identity);
    assert(text.skip(n + 1) =~= token);
    lemma_line_len_at(token, token.len() as int);
    assert(token.take(token.len() as int) =~= token);
}

/// Reading a credential file and writing back what was read gives a file
/// that reads the same: both fields survive the round trip exactly. This
/// holds of every file whose token line is not empty and whose identity
/// does not end in a carriage return.
pub proof fn lemma_load_save_round_trip(content: Seq<char>)
    requires
        parsed(content) is Some,
        parsed(content).unwrap().1.len() > 0,
        parsed(content).unwrap().0.len() > 0 ==> parsed(content).unwrap().0.last() != '\r',
    ensures
        parsed(file_text(parsed(content).unwrap().0, parsed(content).unwrap().1)) == parsed(
            content,
        ),
{
    lemma_parsed_fields_single_line(content);
    lemma_stored_credentials_load_back(parsed(content).unwrap().0, parsed(content).unwrap().1);
}

/// Finds where the line that begins at `start` ends.
fn find_line_end(content: &str, start: usize, total: usize) -> (end: usize)
    requires
        total == content@.len(),
        start <= total,
    ensures
        start <= end <= total,
        end - start == line_len(content@.skip(start as int)),
{
    let mut i: usize = start;
    while i < total && content.get_char(i) != '\n'
        invariant
            start <= i <= total,
            total == content@.len(),
            forall|j: int| start <= j < i ==> content@[j] != '\n',
        decreases total - i,
    {
        i += 1;
    }
    proof {
        lemma_line_len_at(content@.skip(start as int), i - start);
    }
    i
}

/// Copies the line that runs from `start` to `end`, without its ending.
fn copy_line(content: &str, start: usize, end: usize, total: usize) -> (line: String)
    requires
        total == content@.len(),
        start <= end <= total,
        end - start == line_len(content@.skip(start as int)),
    ensures
        line@ == first_line(content@.skip(start as int)),
{
    let stop: usize = if end < total && start < end && content.get_char(end - 1) == '\r' {
        end - 1
    } else {
        end
    };
    let line = String::from_str(content.substring_char(start, stop));
    proof {
        let rest = content@.skip(start as int);
        let whole = rest.take(end - start);
        assert(whole =~= content@.subrange(start as int, end as int));
        assert(line@ =~= without_ending(whole, end - start < rest.len()));
    }
    line
}

impl Credentials {
    /// Reads the credentials from the text of the credential file: the
    /// identity is its first line, the token its second, and further lines
    /// are ignored. A text of fewer than two lines is a configuration error.
    pub fn from_file_text(content: &str) -> (outcome: Result<Credentials, CustomError>)
        ensures
            match parsed(content@) {
                Some((identity, token)) => outcome is Ok && outcome.unwrap().identity@ == identity
                    && outcome.unwrap().secret_token@ == token,
                None => outcome is Err && outcome.unwrap_err()@ == ErrorView::ConfigErr,
            },
    {
        let total = content.unicode_len();
        assert(content@.skip(0) =~= content@);
        let first_end = find_line_end(content, 0, total);
        if first_end >= total || first_end + 1 >= total {
            return Err(CustomError::ConfigErr);
        }
        let second_start: usize = first_end + 1;
        let second_end = find_line_end(content, second_start, total);
        let identity = copy_line(content, 0, first_end, total);
        let secret_token = copy_line(content, second_start, second_end, total);
        Ok(Credentials { identity, secret_token })
    }

    /// The text that the credential file is overwritten with: the identity,
    /// a line feed, the token.
    pub fn to_file_text(&self) -> (content: String)
        ensures
            content@ == file_text(self.identity@, self.secret_token@),
    {
        let mut content = self.identity.clone();
        content.append("\n");
        content.append(self.secret_token.as_str());
        proof {
            reveal_strlit("\n");
            assert("\n"@ =~= seq!['\n']);
        }
        content
    }
}

} // verus!
