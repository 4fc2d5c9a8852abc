//! The plugin's error, and the message it gives when a Herdr command fails.
use vstd::prelude::*;
use vstd::string::{StrSliceExecFns, StringExecFns};
use vstd::utf8::{decode_utf8, valid_utf8};

verus! {

/// An error that ends a plugin command with a message on stderr.
#[derive(Debug, PartialEq, Eq)]
pub struct PluginError {
    pub message: String,
}

impl View for PluginError {
    type V = Seq<char>;

    open spec fn view(&self) -> Seq<char> {
        self.message@
    }
}

impl PluginError {
    pub fn new(message: String) -> (res: Self)
        ensures
            res@ == message@,
    {
        PluginError { message }
    }

    /// The text the plugin prints for this error.
    pub fn message(&self) -> (res: &str)
        ensures
            res@ == self@,
    {
        self.message.as_str()
    }
}

/// Whether `c` has the Unicode `White_Space` property, which `char::is_whitespace`
/// and `str::trim` go by.
pub open spec fn is_white_space(c: char) -> bool {
    let u = c as u32;
    ||| 0x09 <= u <= 0x0d
    ||| u == 0x20
    ||| u == 0x85
    ||| u == 0xa0
    ||| u == 0x1680
    ||| 0x2000 <= u <= 0x200a
    ||| u == 0x2028
    ||| u == 0x2029
    ||| u == 0x202f
    ||| u == 0x205f
    ||| u == 0x3000
}

/// What `String::from_utf8_lossy` makes of `bytes`.
pub uninterp spec fn utf8_lossy_text(bytes: Seq<u8>) -> Seq<char>;

/// `s` without its leading white space.
pub open spec fn trim_start(s: Seq<char>) -> Seq<char>
    decreases s.len(),
{
    if s.len() > 0 && is_white_space(s[0]) {
        trim_start(s.drop_first())
    } else {
        s
    }
}

/// `s` without its trailing white space.
pub open spec fn trim_end(s: Seq<char>) -> Seq<char>
    decreases s.len(),
{
    if s.len() > 0 && is_white_space(s.last()) {
        trim_end(s.drop_last())
    } else {
        s
    }
}

/// `s` without leading or trailing white space, as `str::trim` documents it.
pub open spec fn trimmed(s: Seq<char>) -> Seq<char> {
    trim_end(trim_start(s))
}

/// Calls `String::from_utf8_lossy`.
/// Claimed: the text is the one named by `utf8_lossy_text`, and it is the plain
/// decoding of the bytes when they are valid UTF-8.
#[verifier::external_body]
fn lossy_text(bytes: &[u8]) -> (res: String)
    ensures
        res@ == utf8_lossy_text(bytes@),
        valid_utf8(bytes@) ==> res@ == decode_utf8(bytes@),
{
    String::from_utf8_lossy(bytes).into_owned()
}

/// Whether `c` has the Unicode `White_Space` property.
fn white_space(c: char) -> (res: bool)
    ensures
        res == is_white_space(c),
{
    let u = c as u32;
    (0x09 <= u && u <= 0x0d) || u == 0x20 || u == 0x85 || u == 0xa0 || u == 0x1680 || (0x2000
        <= u && u <= 0x200a) || u == 0x2028 || u == 0x2029 || u == 0x202f || u == 0x205f || u
        == 0x3000
}

/// Dropping leading white space from `s` leaves the part from `i` on, when every character
/// before `i` is white space and the one at `i`, if any, is not.
proof fn lemma_trim_start_at(s: Seq<char>, i: int)
    requires
        0 <= i <= s.len(),
        forall|k: int| 0 <= k < i ==> is_white_space(#[trigger] s[k]),
        i < s.len() ==> !is_white_space(s[i]),
    ensures
        trim_start(s) == s.subrange(i, s.len() as int),
    decreases i,
{
    if i == 0 {
        assert(s.subrange(0, s.len() as int) =~= s);
    } else {
        let rest = s.drop_first();
        assert forall|k: int| 0 <= k < i - 1 implies is_white_space(#[trigger] rest[k]) by {
            assert(rest[k] == s[k + 1]);
        }
        lemma_trim_start_at(rest, i - 1);
        assert(rest.subrange(i - 1, rest.len() as int) =~= s.subrange(i, s.len() as int));
    }
}

/// Dropping trailing white space from `s` leaves the part before `j`, when every character
/// from `j` on is white space and the one before `j`, if any, is not.
proof fn lemma_trim_end_at(s: Seq<char>, j: int)
    requires
        0 <= j <= s.len(),
        forall|k: int| j <= k < s.len() ==> is_white_space(#[trigger] s[k]),
        j > 0 ==> !is_white_space(s[j - 1]),
    ensures
        trim_end(s) == s.subrange(0, j),
    decreases s.len() - j,
{
    if j == s.len() {
        assert(s.subrange(0, j) =~= s);
    } else {
        let rest = s.drop_last();
        assert(is_white_space(s[s.len() - 1]));
        assert forall|k: int| j <= k < rest.len() implies is_white_space(#[trigger] rest[k]) by {
            assert(rest[k] == s[k]);
        }
        lemma_trim_end_at(rest, j);
        assert(rest.subrange(0, j) =~= s.subrange(0, j));
    }
}

/// `s` without leading or trailing white space, as `str::trim` gives it.
fn trim(s: &str) -> (res: &str)
    ensures
        res@ == trimmed(s@),
{
    let n = s.unicode_len();
    let mut i: usize = 0;
    while i < n && white_space(s.get_char(i))
        invariant
            n == s@.len(),
            i <= n,
            forall|k: int| 0 <= k < i ==> is_white_space(#[trigger] s@[k]),
        decreases n - i,
    {
        i = i + 1;
    }
    let mut j: usize = n;
    while j > i && white_space(s.get_char(j - 1))
        invariant
            n == s@.len(),
            i <= j <= n,
            forall|k: int| j <= k < n ==> is_white_space(#[trigger] s@[k]),
        decreases j - i,
    {
        j = j - 1;
    }
    proof {
        lemma_trim_start_at(s@, i as int);
        let rest = s@.subrange(i as int, n as int);
        if j > i {
            assert(!is_white_space(s@[j - 1]));
        }
        if i < n {
            assert(!is_white_space(s@[i as int]));
        }
        assert forall|k: int| j - i <= k < rest.len() implies is_white_space(#[trigger] rest[k]) by {
            assert(rest[k] == s@[k + i]);
        }
        if j > i {
            assert(rest[j - i - 1] == s@[j - 1]);
        }
        lemma_trim_end_at(rest, j - i);
        assert(rest.subrange(0, j - i) =~= s@.subrange(i as int, j as int));
    }
    s.substring_char(i, j)
}

/// What a failed Herdr command reports: its trimmed stderr, else its trimmed stdout,
/// else its exit status.
pub open spec fn failure_detail(stderr: Seq<u8>, stdout: Seq<u8>, status: Seq<char>) -> Seq<char> {
    let err = trimmed(utf8_lossy_text(stderr));
    let out = trimmed(utf8_lossy_text(stdout));
    if err.len() > 0 {
        err
    } else if out.len() > 0 {
        out
    } else {
        status
    }
}

/// The error for a Herdr command that exited unsuccessfully, from what it printed
/// and the text of its exit status.
pub fn command_failure(command: &str, stderr: &[u8], stdout: &[u8], status: &str) -> (res: PluginError)
    ensures
        res@ == command@ + " failed: "@ + failure_detail(stderr@, stdout@, status@),
{
    let err_text = lossy_text(stderr);
    let out_text = lossy_text(stdout);
    let err = trim(err_text.as_str());
    let out = trim(out_text.as_str());
    let detail = if !err.is_empty() {
        err
    } else if !out.is_empty() {
        out
    } else {
        status
    };
    let mut message = command.to_owned();
    message.append(" failed: ");
    message.append(detail);
    PluginError::new(message)
}

} // verus!
