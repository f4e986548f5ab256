//! The command translator: what is asked of the language model, and how
//! its answer becomes one command line.
//!
//! The translator never talks to the network itself. It hands out the one
//! request that a query calls for, and takes back what came of sending it.

use crate::config::{optional_text_view, Config, ConfigView, Temperature};
use crate::error::{text_result_view, ErrorView, SuperTerminalError};
use crate::text::{
    is_blank, is_blank_text, is_trimmed, is_whitespace, is_whitespace_char,
    lemma_blank_iff_trim_empty, lemma_leading_whitespace_is, lemma_line_end, lemma_line_end_is,
    lemma_trailing_whitespace_is, lemma_trim_of_trimmed, lemma_trim_window, line_end, to_chars,
    trim, trim_window, window_ends_with, window_starts_with,
};
use vstd::prelude::*;
use vstd::string::*;

verus! {

/// The instruction that opens every conversation with the model.
pub const SYSTEM_PROMPT: &'static str = r#"You are a helpful assistant that converts natural language requests into shell commands.
Rules:
1. Return ONLY the shell command, nothing else
2. Do not include explanations or markdown formatting
3. Do not include code block markers (```)
4. Return a single command or a pipeline of commands
5. Make commands safe and avoid destructive operations without explicit confirmation
6. For Linux/Unix systems, use standard bash commands
7. If the request is ambiguous, make reasonable assumptions
8. Do not include comments in the command

Examples:
Input: "list all files in the current directory"
Output: ls -la

Input: "find all python files"
Output: find . -name "*.py"

Input: "show disk usage"
Output: df -h

Input: "count lines in all text files"
Output: find . -name "*.txt" -exec wc -l {} +
"#;

/// What stands before the user's words in the message sent to the model.
pub const USER_MESSAGE_PREFIX: &'static str =
    "Convert this natural language request to a shell command: ";

/// The marker that opens or closes a block of code.
pub open spec fn fence() -> Seq<char> {
    seq!['`', '`', '`']
}

/// The marker that opens a block of code for `sh`.
pub open spec fn sh_fence() -> Seq<char> {
    seq!['`', '`', '`', 's', 'h']
}

/// The marker that opens a block of code for `bash`.
pub open spec fn bash_fence() -> Seq<char> {
    seq!['`', '`', '`', 'b', 'a', 's', 'h']
}

/// `s` without the marker that it opens with, if it opens with one. The
/// longest of the three markers that fits is taken, and only one.
pub open spec fn strip_opening_fence(s: Seq<char>) -> Seq<char> {
    if bash_fence().is_prefix_of(s) {
        s.skip(7)
    } else if sh_fence().is_prefix_of(s) {
        s.skip(5)
    } else if fence().is_prefix_of(s) {
        s.skip(3)
    } else {
        s
    }
}

/// `s` without the closing marker and the white space before it, if it ends
/// with the marker.
pub open spec fn strip_closing_fence(s: Seq<char>) -> Seq<char> {
    if fence().is_suffix_of(s) {
        trim(s.take(s.len() - 3))
    } else {
        s
    }
}

/// The first line of `s` that is not blank, trimmed; empty where every line
/// is blank. Lines end at a line feed. A carriage return before it is white
/// space and goes with the trim.
pub open spec fn first_command_line(s: Seq<char>) -> Seq<char>
    decreases s.len(),
{
    let end = line_end(s) as int;
    let line = s.take(end);
    if !is_blank(line) {
        trim(line)
    } else if end >= s.len() {
        Seq::empty()
    } else {
        first_command_line(s.skip(end + 1))
    }
}

/// The command line in a raw answer of the model: the answer is trimmed,
/// freed of an opening marker, trimmed, freed of a closing marker, and the
/// first line that is not blank is taken, trimmed.
pub open spec fn sanitize(raw: Seq<char>) -> Seq<char> {
    first_command_line(strip_closing_fence(trim(strip_opening_fence(trim(raw)))))
}

/// Moves the start of the window `[lo, hi)` of `text` behind the marker
/// that the window opens with, if it opens with one.
fn strip_opening_window(text: &Vec<char>, lo: usize, hi: usize) -> (start: usize)
    requires
        lo <= hi <= text.len(),
    ensures
        lo <= start <= hi,
        text@.subrange(start as int, hi as int) == strip_opening_fence(
            text@.subrange(lo as int, hi as int),
        ),
{
    let bash: Vec<char> = vec!['`', '`', '`', 'b', 'a', 's', 'h'];
    let sh: Vec<char> = vec!['`', '`', '`', 's', 'h'];
    let bare: Vec<char> = vec!['`', '`', '`'];
    let start = if window_starts_with(text, lo, hi, &bash) {
        lo + 7
    } else if window_starts_with(text, lo, hi, &sh) {
        lo + 5
    } else if window_starts_with(text, lo, hi, &bare) {
        lo + 3
    } else {
        lo
    };
    proof {
        let window = text@.subrange(lo as int, hi as int);
        assert(text@.subrange(start as int, hi as int) =~= window.skip(start - lo));
    }
    start
}

/// Narrows the window `[lo, hi)` of `text` to what stands before the
/// closing marker, trimmed, if the window ends with the marker.
fn strip_closing_window(text: &Vec<char>, lo: usize, hi: usize) -> (w: (usize, usize))
    requires
        lo <= hi <= text.len(),
    ensures
        lo <= w.0 <= w.1 <= hi,
        text@.subrange(w.0 as int, w.1 as int) == strip_closing_fence(
            text@.subrange(lo as int, hi as int),
        ),
{
    let bare: Vec<char> = vec!['`', '`', '`'];
    if window_ends_with(text, lo, hi, &bare) {
        proof {
            let window = text@.subrange(lo as int, hi as int);
            assert(window.take(window.len() - 3) =~= text@.subrange(lo as int, hi - 3));
        }
        trim_window(text, lo, hi - 3)
    } else {
        (lo, hi)
    }
}

/// Narrows the window `[lo, hi)` of `text` to its first line that is not
/// blank, trimmed.
fn first_command_window(text: &Vec<char>, lo: usize, hi: usize) -> (w: (usize, usize))
    requires
        lo <= hi <= text.len(),
    ensures
        lo <= w.0 <= w.1 <= hi,
        text@.subrange(w.0 as int, w.1 as int) == first_command_line(
            text@.subrange(lo as int, hi as int),
        ),
{
    let mut start = lo;
    loop
        invariant
            lo <= start <= hi <= text.len(),
            first_command_line(text@.subrange(start as int, hi as int)) == first_command_line(
                text@.subrange(lo as int, hi as int),
            ),
        decreases hi - start,
    {
        let mut end = start;
        let mut blank = true;
        while end < hi && text[end] != '\n'
            invariant
                start <= end <= hi <= text.len(),
                forall|i: int| start <= i < end ==> #[trigger] text@[i] != '\n',
                blank <==> forall|i: int| start <= i < end ==> is_whitespace(#[trigger] text@[i]),
            decreases hi - end,
        {
            if !is_whitespace_char(text[end]) {
                blank = false;
            }
            end += 1;
        }
        let ghost rest = text@.subrange(start as int, hi as int);
        let ghost line = text@.subrange(start as int, end as int);
        proof {
            assert forall|i: int| 0 <= i < end - start implies #[trigger] rest[i] != '\n' by {
                assert(rest[i] == text@[start + i]);
            }
            lemma_line_end_is(rest, end - start);
            assert(rest.take(end - start) =~= line);
            if blank {
                assert forall|i: int| 0 <= i < line.len() implies is_whitespace(
                    #[trigger] line[i],
                ) by {
                    assert(line[i] == text@[start + i]);
                }
            } else {
                let i = choose|i: int| start <= i < end && !is_whitespace(text@[i]);
                assert(line[i - start] == text@[i]);
            }
        }
        if !blank {
            return trim_window(text, start, end);
        }
        if end >= hi {
            proof {
                assert(text@.subrange(hi as int, hi as int) =~= Seq::<char>::empty());
            }
            return (hi, hi);
        }
        proof {
            assert(rest.skip(end - start + 1) =~= text@.subrange(end + 1, hi as int));
        }
        start = end + 1;
    }
}

/// A fence marker that opens a text is found at its first three characters.
proof fn lemma_longer_fences(s: Seq<char>)
    ensures
        bash_fence().is_prefix_of(s) ==> fence().is_prefix_of(s),
        sh_fence().is_prefix_of(s) ==> fence().is_prefix_of(s),
{
    if bash_fence().is_prefix_of(s) {
        let head = s.subrange(0, 7);
        assert(head[0] == '`' && head[1] == '`' && head[2] == '`');
        assert(fence() =~= s.subrange(0, 3));
    }
    if sh_fence().is_prefix_of(s) {
        let head = s.subrange(0, 5);
        assert(head[0] == '`' && head[1] == '`' && head[2] == '`');
        assert(fence() =~= s.subrange(0, 3));
    }
}

/// The first command line of a text holds no line feed and neither begins
/// nor ends with white space.
pub proof fn lemma_first_command_line(s: Seq<char>)
    ensures
        !first_command_line(s).contains('\n'),
        is_trimmed(first_command_line(s)),
    decreases s.len(),
{
    let end = line_end(s) as int;
    let line = s.take(end);
    lemma_line_end(s);
    if !is_blank(line) {
        let w = lemma_trim_window(line);
        let found = trim(line);
        assert forall|i: int| 0 <= i < found.len() implies found[i] != '\n' by {
            assert(found[i] == s[w.0 + i]);
        }
    } else if end < s.len() {
        lemma_first_command_line(s.skip(end + 1));
    }
}

/// Whatever the model answered, the command taken from it is a single
/// line, without white space at either end.
pub proof fn lemma_sanitize_single_line(raw: Seq<char>)
    ensures
        !sanitize(raw).contains('\n'),
        is_trimmed(sanitize(raw)),
{
    lemma_first_command_line(strip_closing_fence(trim(strip_opening_fence(trim(raw)))));
}

/// The first command line of a text is a piece of that text.
pub proof fn lemma_first_command_line_window(s: Seq<char>) -> (w: (int, int))
    ensures
        0 <= w.0 <= w.1 <= s.len(),
        first_command_line(s) == s.subrange(w.0, w.1),
    decreases s.len(),
{
    let end = line_end(s) as int;
    let line = s.take(end);
    lemma_line_end(s);
    if !is_blank(line) {
        let t = lemma_trim_window(line);
        assert(line.subrange(t.0, t.1) =~= s.subrange(t.0, t.1));
        t
    } else if end >= s.len() {
        assert(s.subrange(0, 0) =~= Seq::<char>::empty());
        (0, 0)
    } else {
        let rest = s.skip(end + 1);
        let r = lemma_first_command_line_window(rest);
        assert(rest.subrange(r.0, r.1) =~= s.subrange(end + 1 + r.0, end + 1 + r.1));
        (end + 1 + r.0, end + 1 + r.1)
    }
}

/// A piece of a piece of a text is a piece of the text.
proof fn lemma_window_of_window(s: Seq<char>, outer: (int, int), inner: (int, int))
    requires
        0 <= outer.0 <= outer.1 <= s.len(),
        0 <= inner.0 <= inner.1 <= outer.1 - outer.0,
    ensures
        s.subrange(outer.0, outer.1).subrange(inner.0, inner.1) == s.subrange(
            outer.0 + inner.0,
            outer.0 + inner.1,
        ),
{
    assert(s.subrange(outer.0, outer.1).subrange(inner.0, inner.1) =~= s.subrange(
        outer.0 + inner.0,
        outer.0 + inner.1,
    ));
}

/// What is left when the opening marker is gone is the end of the text.
proof fn lemma_strip_opening_fence_window(s: Seq<char>) -> (w: (int, int))
    ensures
        0 <= w.0 <= w.1 == s.len(),
        strip_opening_fence(s) == s.subrange(w.0, w.1),
{
    let k = s.len() - strip_opening_fence(s).len();
    assert(strip_opening_fence(s) =~= s.subrange(k, s.len() as int));
    (k, s.len() as int)
}

/// What is left when the closing marker is gone is a piece of the text.
proof fn lemma_strip_closing_fence_window(s: Seq<char>) -> (w: (int, int))
    ensures
        0 <= w.0 <= w.1 <= s.len(),
        strip_closing_fence(s) == s.subrange(w.0, w.1),
{
    if fence().is_suffix_of(s) {
        let t = lemma_trim_window(s.take(s.len() - 3));
        lemma_window_of_window(s, (0, s.len() - 3), t);
        t
    } else {
        assert(s =~= s.subrange(0, s.len() as int));
        (0, s.len() as int)
    }
}

/// The command is a piece of the answer: nothing in it is made up, and
/// nothing is moved. So a marker can only be in the command where the
/// answer holds one besides those that were stripped.
pub proof fn lemma_sanitize_window(raw: Seq<char>) -> (w: (int, int))
    ensures
        0 <= w.0 <= w.1 <= raw.len(),
        sanitize(raw) == raw.subrange(w.0, w.1),
{
    let a = lemma_trim_window(raw);
    let b = lemma_strip_opening_fence_window(raw.subrange(a.0, a.1));
    lemma_window_of_window(raw, a, b);
    let ab = (a.0 + b.0, a.0 + b.1);
    let c = lemma_trim_window(raw.subrange(ab.0, ab.1));
    lemma_window_of_window(raw, ab, c);
    let abc = (ab.0 + c.0, ab.0 + c.1);
    let d = lemma_strip_closing_fence_window(raw.subrange(abc.0, abc.1));
    lemma_window_of_window(raw, abc, d);
    let abcd = (abc.0 + d.0, abc.0 + d.1);
    let e = lemma_first_command_line_window(raw.subrange(abcd.0, abcd.1));
    lemma_window_of_window(raw, abcd, e);
    (abcd.0 + e.0, abcd.0 + e.1)
}

/// An answer that is empty or white space throughout yields the empty
/// command.
pub proof fn lemma_sanitize_blank(raw: Seq<char>)
    requires
        is_blank(raw),
    ensures
        sanitize(raw) == Seq::<char>::empty(),
{
    lemma_blank_iff_trim_empty(raw);
    let nothing = trim(raw);
    assert(strip_opening_fence(nothing) == nothing);
    lemma_trim_of_trimmed(nothing);
    assert(strip_closing_fence(nothing) == nothing);
    assert(nothing.take(0) =~= nothing);
    assert(first_command_line(nothing) =~= Seq::<char>::empty());
}

/// An answer without white space at either end and without a fence marker
/// at either end yields its first line, trimmed: what follows the first
/// line is dropped.
pub proof fn lemma_sanitize_plain(raw: Seq<char>)
    requires
        is_trimmed(raw),
        !fence().is_prefix_of(raw),
        !fence().is_suffix_of(raw),
    ensures
        sanitize(raw) == trim(raw.take(line_end(raw) as int)),
{
    lemma_trim_of_trimmed(raw);
    lemma_longer_fences(raw);
    lemma_line_end(raw);
    let line = raw.take(line_end(raw) as int);
    if raw.len() > 0 {
        assert(is_whitespace('\n'));
        assert(line[0] == raw[0]);
    } else {
        assert(line =~= raw);
        assert(first_command_line(raw) =~= trim(line));
    }
}

/// A clean command line is left as it is: one line, without white space
/// and without a fence marker at either end.
pub proof fn lemma_sanitize_clean(command: Seq<char>)
    requires
        is_trimmed(command),
        !command.contains('\n'),
        !fence().is_prefix_of(command),
        !fence().is_suffix_of(command),
    ensures
        sanitize(command) == command,
{
    lemma_sanitize_plain(command);
    lemma_line_end_is(command, command.len() as int);
    assert(command.take(command.len() as int) =~= command);
    lemma_trim_of_trimmed(command);
}

/// Cleaning a command again leaves it as it is, unless it still has a
/// fence marker at one of its ends, which a second pass would strip.
pub proof fn lemma_sanitize_idempotent(raw: Seq<char>)
    requires
        !fence().is_prefix_of(sanitize(raw)),
        !fence().is_suffix_of(sanitize(raw)),
    ensures
        sanitize(sanitize(raw)) == sanitize(raw),
{
    lemma_sanitize_single_line(raw);
    lemma_sanitize_clean(sanitize(raw));
}

/// A command line in a block of code is taken out of the block: with any of
/// the three opening markers on the line before it and the closing marker
/// on the line after it, the answer yields the line itself.
pub proof fn lemma_sanitize_fenced(opening: Seq<char>, command: Seq<char>)
    requires
        opening == fence() || opening == sh_fence() || opening == bash_fence(),
        is_trimmed(command),
        !command.contains('\n'),
    ensures
        sanitize(opening + seq!['\n'] + command + seq!['\n'] + fence()) == command,
{
    let raw = opening + seq!['\n'] + command + seq!['\n'] + fence();
    let inner = seq!['\n'] + command + seq!['\n'] + fence();
    let n = opening.len() as int;
    let m = command.len() as int;
    assert(is_whitespace('\n'));
    assert(!is_whitespace('`'));
    assert(raw.len() == n + m + 5);
    assert(raw[0] == '`' && raw[raw.len() - 1] == '`');
    lemma_trim_of_trimmed(raw);
    assert(raw[n] == '\n');
    assert(raw.skip(n) =~= inner);
    assert(strip_opening_fence(raw) == inner) by {
        if opening == fence() {
            if raw.len() >= 7 {
                assert(raw.subrange(0, 7)[3] == raw[3]);
            }
            if raw.len() >= 5 {
                assert(raw.subrange(0, 5)[3] == raw[3]);
            }
            assert(fence() =~= raw.subrange(0, 3));
        } else if opening == sh_fence() {
            if raw.len() >= 7 {
                assert(raw.subrange(0, 7)[3] == raw[3]);
            }
            assert(sh_fence() =~= raw.subrange(0, 5));
        } else {
            assert(bash_fence() =~= raw.subrange(0, 7));
        }
    }
    let closed = command + seq!['\n'] + fence();
    assert(trim(inner) == if m > 0 {
        closed
    } else {
        fence()
    }) by {
        if m > 0 {
            assert(inner[1] == command[0]);
            lemma_leading_whitespace_is(inner, 1);
            assert(inner.skip(1) =~= closed);
            assert(closed[closed.len() - 1] == '`');
            lemma_trailing_whitespace_is(closed, 0);
            assert(closed.take(closed.len() as int) =~= closed);
        } else {
            assert(inner[1] == '\n' && inner[2] == '`');
            lemma_leading_whitespace_is(inner, 2);
            assert(inner.skip(2) =~= fence());
            lemma_trailing_whitespace_is(fence(), 0);
            assert(fence().take(3) =~= fence());
        }
    }
    let body = trim(inner);
    assert(fence() =~= body.subrange(body.len() - 3, body.len() as int));
    assert(strip_closing_fence(body) == command) by {
        if m > 0 {
            let line = command + seq!['\n'];
            assert(body.take(body.len() - 3) =~= line);
            assert(line[0] == command[0]);
            lemma_leading_whitespace_is(line, 0);
            assert(line.skip(0) =~= line);
            assert(line[line.len() - 2] == command[m - 1]);
            lemma_trailing_whitespace_is(line, 1);
            assert(line.take(line.len() - 1) =~= command);
        } else {
            assert(body.take(body.len() - 3) =~= command);
            lemma_trim_of_trimmed(command);
        }
    }
    assert(first_command_line(command) == command) by {
        lemma_line_end_is(command, m);
        assert(command.take(m) =~= command);
        lemma_trim_of_trimmed(command);
        if m == 0 {
            assert(first_command_line(command) =~= command);
        }
    }
}

/// One request to the language model, as plain values.
#[derive(Debug)]
pub struct TranslationRequest {
    /// The instruction for the model.
    pub system_prompt: String,
    /// The user's words, behind `USER_MESSAGE_PREFIX`.
    pub user_message: String,
    /// Name of the model to ask.
    pub model: String,
    /// Upper bound on the length of the answer, in tokens.
    pub max_tokens: u32,
    /// Sampling temperature.
    pub temperature: Temperature,
}

/// A `TranslationRequest` with its texts as sequences of characters.
pub struct RequestView {
    pub system_prompt: Seq<char>,
    pub user_message: Seq<char>,
    pub model: Seq<char>,
    pub max_tokens: u32,
    pub temperature: Temperature,
}

impl View for TranslationRequest {
    type V = RequestView;

    open spec fn view(&self) -> RequestView {
        RequestView {
            system_prompt: self.system_prompt@,
            user_message: self.user_message@,
            model: self.model@,
            max_tokens: self.max_tokens,
            temperature: self.temperature,
        }
    }
}

/// What came of sending a request.
#[derive(Debug)]
pub enum ApiReply {
    /// The request could not be put into the provider's form; it was not
    /// sent. Holds the reason.
    Unbuildable(String),
    /// The provider or the network failed. Holds the failure's description.
    Failed(String),
    /// The provider answered. Holds the choices of the answer in their
    /// order, each with its text, or with nothing where it has none.
    Completed(Vec<Option<String>>),
}

/// An `ApiReply` with its texts as sequences of characters.
pub enum ReplyView {
    Unbuildable(Seq<char>),
    Failed(Seq<char>),
    Completed(Seq<Option<Seq<char>>>),
}

impl View for ApiReply {
    type V = ReplyView;

    open spec fn view(&self) -> ReplyView {
        match self {
            ApiReply::Unbuildable(reason) => ReplyView::Unbuildable(reason@),
            ApiReply::Failed(detail) => ReplyView::Failed(detail@),
            ApiReply::Completed(choices) => ReplyView::Completed(
                Seq::new(choices@.len(), |i: int| optional_text_view(choices@[i])),
            ),
        }
    }
}

/// The message of a refused query.
pub open spec fn empty_input_refusal() -> Seq<char> {
    "Input cannot be empty"@
}

/// The message for an answer without text.
pub open spec fn no_response() -> Seq<char> {
    "No response from AI"@
}

/// The request that a query calls for under the given settings. The query
/// goes into the message as it was typed.
pub open spec fn translation_request(config: ConfigView, query: Seq<char>) -> RequestView {
    RequestView {
        system_prompt: SYSTEM_PROMPT@,
        user_message: USER_MESSAGE_PREFIX@ + query,
        model: config.model,
        max_tokens: config.max_tokens,
        temperature: config.temperature,
    }
}

/// What a translation comes to, given what came of its request: the
/// command line in the text of the answer's first choice, or the failure.
/// Later choices are not looked at.
pub open spec fn translation_outcome(reply: ReplyView) -> Result<Seq<char>, ErrorView> {
    match reply {
        ReplyView::Unbuildable(reason) => Err(ErrorView::ConfigError(reason)),
        ReplyView::Failed(detail) => Err(ErrorView::OpenAIError(detail)),
        ReplyView::Completed(choices) => if choices.len() > 0 && choices[0] is Some {
            Ok(sanitize(choices[0]->0))
        } else {
            Err(ErrorView::ConfigError(no_response()))
        },
    }
}

/// The translator: turns a request in the user's words into one command
/// line, by way of one question to the language model.
#[derive(Debug)]
pub struct AIService {
    config: Config,
}

impl View for AIService {
    type V = ConfigView;

    /// The settings that the translator works with.
    closed spec fn view(&self) -> ConfigView {
        self.config@
    }
}

impl AIService {
    /// A translator that works with the given settings.
    pub fn new(config: Config) -> (result: Result<AIService, SuperTerminalError>)
        ensures
            result matches Ok(service) && service@ == config@,
    {
        Ok(AIService { config })
    }

    /// The settings that the translator works with.
    pub fn config(&self) -> (config: &Config)
        ensures
            config@ == self@,
    {
        &self.config
    }

    /// The instruction that opens every conversation with the model.
    pub fn build_system_prompt(&self) -> (prompt: String)
        ensures
            prompt@ == SYSTEM_PROMPT@,
    {
        String::from_str(SYSTEM_PROMPT)
    }

    /// The one request that the query calls for. A query that is empty or
    /// white space throughout calls for none and is refused.
    pub fn prepare_request(&self, natural_language: &str) -> (result: Result<
        TranslationRequest,
        SuperTerminalError,
    >)
        ensures
            is_blank(natural_language@) ==> (result matches Err(error) && error@
                == ErrorView::InvalidInput(empty_input_refusal())),
            !is_blank(natural_language@) ==> (result matches Ok(request) && request@
                == translation_request(self@, natural_language@)),
    {
        if is_blank_text(natural_language) {
            return Err(SuperTerminalError::InvalidInput(String::from_str("Input cannot be empty")));
        }
        Ok(
            TranslationRequest {
                system_prompt: self.build_system_prompt(),
                user_message: String::from_str(USER_MESSAGE_PREFIX).concat(natural_language),
                model: self.config.model.clone(),
                max_tokens: self.config.max_tokens,
                temperature: self.config.temperature,
            },
        )
    }

    /// The command line in a raw answer of the model.
    pub fn extract_command(&self, content: &str) -> (command: String)
        ensures
            command@ == sanitize(content@),
    {
        let text = to_chars(content);
        proof {
            assert(text@.subrange(0, text.len() as int) =~= text@);
        }
        let (lo, hi) = trim_window(&text, 0, text.len());
        let lo = strip_opening_window(&text, lo, hi);
        let (lo, hi) = trim_window(&text, lo, hi);
        let (lo, hi) = strip_closing_window(&text, lo, hi);
        let (lo, hi) = first_command_window(&text, lo, hi);
        String::from_str(content.substring_char(lo, hi))
    }

    /// What a translation comes to, given what came of its request. The
    /// text of the answer's first choice is cut down to its command line;
    /// an answer without a choice, a first choice without text, and a
    /// request that could not be built, are faults of the configuration
    /// kind; a failure of the provider is handed on with its description
    /// unchanged.
    pub fn interpret_reply(&self, reply: ApiReply) -> (result: Result<String, SuperTerminalError>)
        ensures
            text_result_view(result) == translation_outcome(reply@),
    {
        match reply {
            ApiReply::Unbuildable(reason) => Err(SuperTerminalError::ConfigError(reason)),
            ApiReply::Failed(detail) => Err(SuperTerminalError::OpenAIError(detail)),
            ApiReply::Completed(choices) => {
                if choices.len() > 0 {
                    if let Some(text) = &choices[0] {
                        return Ok(self.extract_command(text.as_str()));
                    }
                }
                Err(SuperTerminalError::ConfigError(String::from_str("No response from AI")))
            },
        }
    }

    /// Translates a request in the user's words into one command line.
    ///
    /// `send` puts a request to the language model and says what came of
    /// it. A query that is empty or white space throughout is refused
    /// without `send` having any part in the result. For any other query
    /// the result is that of the one reply that `send` gave to the one
    /// request that the query calls for; nothing is sent again, whatever
    /// the reply.
    pub fn translate_to_command<F: FnOnce(TranslationRequest) -> ApiReply>(
        &self,
        natural_language: &str,
        send: F,
    ) -> (result: Result<String, SuperTerminalError>)
        requires
            forall|request: TranslationRequest|
                request@ == translation_request(self@, natural_language@) ==> send.requires(
                    (request,),
                ),
        ensures
            is_blank(natural_language@) ==> (result matches Err(error) && error@
                == ErrorView::InvalidInput(empty_input_refusal())),
            !is_blank(natural_language@) ==> (exists|request: TranslationRequest, reply: ApiReply|
                request@ == translation_request(self@, natural_language@) && #[trigger] send.ensures(
                    (request,),
                    reply,
                ) && text_result_view(result) == translation_outcome(reply@)),
    {
        match self.prepare_request(natural_language) {
            Err(error) => Err(error),
            Ok(request) => {
                let reply = send(request);
                self.interpret_reply(reply)
            },
        }
    }
}

} // verus!
