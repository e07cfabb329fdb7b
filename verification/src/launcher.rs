//! Launch definitions, and the command line each one becomes.
//!
//! A launch goes through a command interpreter, so that web addresses and
//! programs are handled alike: the opening verb if there is one, then the
//! target and every argument, each wrapped in the platform's quoting mark and
//! set apart by single spaces. Nothing is escaped. A target or argument that
//! holds the quoting mark is refused.

use vstd::prelude::*;
use crate::command_runner::{Invocation, InvocationView};
use crate::environment::{bindings, effective_overrides, last_writes, Binding};
use crate::error::ErrorKind;
use crate::platform::Platform;
use crate::text::{has_char, texts};

verus! {

/// Type of launcher target.
#[derive(Clone, Copy, Debug, PartialEq, Eq, Structural)]
pub enum LaunchType {
    /// Web URL launcher.
    Web,
    /// Application launcher.
    App,
}

/// Launch options with arguments, timeout, and environment variables.
#[derive(Debug, Clone)]
pub struct LaunchOptions {
    /// Command-line arguments.
    pub args: Vec<String>,
    /// Execution timeout in seconds. Zero means: fail unless the process is
    /// already over when first asked.
    pub timeout_secs: u64,
    /// Optional environment variables, added to the inherited ones. Where a
    /// key occurs more than once, the last value counts.
    pub env_vars: Option<Vec<(String, String)>>,
}

/// The timeout of a launch that names none, in seconds.
pub fn default_timeout() -> (seconds: u64)
    ensures
        seconds == 30,
{
    30
}

impl Default for LaunchOptions {
    fn default() -> (options: LaunchOptions)
        ensures
            options.args@.len() == 0,
            options.timeout_secs == 30,
            options.env_vars is None,
    {
        LaunchOptions { args: Vec::new(), timeout_secs: default_timeout(), env_vars: None }
    }
}

/// Launcher configuration item.
#[derive(Debug, Clone)]
pub struct Launcher {
    /// Unique identifier.
    pub id: String,
    /// Display name.
    pub name: String,
    /// Type of launcher.
    pub launch_type: LaunchType,
    /// Target URL or application path.
    pub target: String,
    /// Optional icon path.
    pub icon: Option<String>,
    /// Launch options (arguments, timeout, env vars).
    pub options: Option<LaunchOptions>,
}

impl Launcher {
    /// Create a new launcher.
    pub fn new(id: String, name: String, launch_type: LaunchType, target: String) -> (launcher:
        Launcher)
        ensures
            launcher.id == id,
            launcher.name == name,
            launcher.launch_type == launch_type,
            launcher.target == target,
            launcher.icon is None,
            launcher.options is None,
    {
        Launcher { id, name, launch_type, target, icon: None, options: None }
    }

    /// Create a new launcher with options.
    pub fn with_options(
        id: String,
        name: String,
        launch_type: LaunchType,
        target: String,
        options: LaunchOptions,
    ) -> (launcher: Launcher)
        ensures
            launcher.id == id,
            launcher.name == name,
            launcher.launch_type == launch_type,
            launcher.target == target,
            launcher.icon is None,
            launcher.options == Some(options),
    {
        Launcher { id, name, launch_type, target, icon: None, options: Some(options) }
    }
}

/// A text between two quoting marks.
pub open spec fn quoted(mark: char, text: Seq<char>) -> Seq<char> {
    seq![mark] + text + seq![mark]
}

/// Every argument quoted, each with a single space before it.
pub open spec fn quoted_arguments(mark: char, args: Seq<Seq<char>>) -> Seq<char>
    decreases args.len(),
{
    if args.len() == 0 {
        Seq::empty()
    } else {
        quoted_arguments(mark, args.drop_last()) + seq![' '] + quoted(mark, args.last())
    }
}

/// What stands before the target: the opening verb and a space for a web
/// address, nothing for a program.
pub open spec fn verb_prefix(platform: Platform, launch_type: LaunchType) -> Seq<char> {
    match launch_type {
        LaunchType::Web => platform.opener_text() + seq![' '],
        LaunchType::App => Seq::empty(),
    }
}

/// The command line of a launch.
pub open spec fn command_line(
    platform: Platform,
    launch_type: LaunchType,
    target: Seq<char>,
    args: Seq<Seq<char>>,
) -> Seq<char> {
    verb_prefix(platform, launch_type) + quoted(platform.quote_mark(), target) + quoted_arguments(
        platform.quote_mark(),
        args,
    )
}

/// The target followed by the arguments: position 0 is the target.
pub open spec fn launch_words(target: Seq<char>, args: Seq<Seq<char>>) -> Seq<Seq<char>> {
    seq![target] + args
}

/// Whether no word holds the quoting mark.
pub open spec fn all_quotable(mark: char, words: Seq<Seq<char>>) -> bool {
    forall|i: int| 0 <= i < words.len() ==> !(#[trigger] words[i]).contains(mark)
}

/// Whether `position` is the first word that holds the quoting mark.
pub open spec fn first_unquotable(mark: char, words: Seq<Seq<char>>, position: int) -> bool {
    &&& 0 <= position < words.len()
    &&& words[position].contains(mark)
    &&& forall|i: int| 0 <= i < position ==> !(#[trigger] words[i]).contains(mark)
}

/// How many characters of `text` stand before its first `mark`; all of
/// them where it holds none.
pub open spec fn span_before(mark: char, text: Seq<char>) -> nat
    decreases text.len(),
{
    if text.len() == 0 || text[0] == mark {
        0
    } else {
        1 + span_before(mark, text.skip(1))
    }
}

/// Reads the words off a line of quoted words, taking whatever stands
/// between two quoting marks as it is: a word opens with a mark and runs up
/// to the next one, and one space sets it apart from the word that follows.
/// `None` where the line is not made like that.
pub open spec fn read_words(mark: char, line: Seq<char>) -> Option<Seq<Seq<char>>>
    decreases line.len(),
{
    if line.len() == 0 || line[0] != mark {
        None
    } else {
        let inner = line.skip(1);
        let length = span_before(mark, inner);
        if length >= inner.len() {
            None
        } else {
            let word = inner.take(length as int);
            let rest = inner.skip(length as int + 1);
            if rest.len() == 0 {
                Some(seq![word])
            } else if rest[0] != ' ' {
                None
            } else {
                match read_words(mark, rest.skip(1)) {
                    Some(more) => Some(seq![word] + more),
                    None => None,
                }
            }
        }
    }
}

/// The quoted arguments, taken from the front: a space, the first argument
/// quoted, and the quoted arguments that follow it.
proof fn lemma_quoted_arguments_from_front(mark: char, args: Seq<Seq<char>>)
    requires
        args.len() > 0,
    ensures
        quoted_arguments(mark, args) == seq![' '] + quoted(mark, args[0]) + quoted_arguments(
            mark,
            args.skip(1),
        ),
    decreases args.len(),
{
    let front = args.drop_last();
    if args.len() == 1 {
        assert(quoted_arguments(mark, front) =~= Seq::empty());
        assert(quoted_arguments(mark, args.skip(1)) =~= Seq::empty());
        assert(quoted_arguments(mark, args) =~= seq![' '] + quoted(mark, args[0])
            + quoted_arguments(mark, args.skip(1)));
    } else {
        lemma_quoted_arguments_from_front(mark, front);
        assert(args.skip(1).drop_last() =~= front.skip(1));
        assert(args.skip(1).last() == args.last());
        assert(front[0] == args[0]);
        assert(quoted_arguments(mark, args) =~= seq![' '] + quoted(mark, args[0])
            + quoted_arguments(mark, args.skip(1)));
    }
}

/// A word without the mark, then the mark: the word is what stands before
/// the first mark.
proof fn lemma_span_of_quotable(mark: char, word: Seq<char>, tail: Seq<char>)
    requires
        !word.contains(mark),
    ensures
        span_before(mark, word + seq![mark] + tail) == word.len(),
    decreases word.len(),
{
    let text = word + seq![mark] + tail;
    if word.len() == 0 {
        assert(text[0] == mark);
    } else {
        assert(text[0] == word[0]);
        assert(word.contains(word[0]));
        assert forall|k: int| 0 <= k < word.skip(1).len() implies word.skip(1)[k] != mark by {
            assert(word.contains(word[k + 1]));
        }
        lemma_span_of_quotable(mark, word.skip(1), tail);
        assert(text.skip(1) =~= word.skip(1) + seq![mark] + tail);
    }
}

/// Quoted words are read back as they were given.
proof fn lemma_quoted_words_read_back(mark: char, words: Seq<Seq<char>>)
    requires
        words.len() > 0,
        all_quotable(mark, words),
        mark != ' ',
    ensures
        read_words(mark, quoted(mark, words[0]) + quoted_arguments(mark, words.skip(1))) == Some(
            words,
        ),
    decreases words.len(),
{
    let first = words[0];
    let others = words.skip(1);
    let tail = quoted_arguments(mark, others);
    let line = quoted(mark, first) + tail;
    let inner = line.skip(1);
    assert(line[0] == mark);
    assert(inner =~= first + seq![mark] + tail);
    lemma_span_of_quotable(mark, first, tail);
    let length = span_before(mark, inner);
    assert(length == first.len());
    assert(inner.take(length as int) =~= first);
    assert(inner.skip(length as int + 1) =~= tail);
    if others.len() == 0 {
        assert(tail =~= Seq::empty());
        assert(seq![first] =~= words);
    } else {
        lemma_quoted_arguments_from_front(mark, others);
        assert(tail[0] == ' ');
        assert(tail.skip(1) =~= quoted(mark, others[0]) + quoted_arguments(mark, others.skip(1)));
        assert forall|i: int| 0 <= i < others.len() implies !(#[trigger] others[i]).contains(
            mark,
        ) by {
            assert(others[i] == words[i + 1]);
        }
        lemma_quoted_words_read_back(mark, others);
        assert(seq![first] + others =~= words);
    }
}

/// No word of a launch gets split, joined or changed on its command line:
/// the line is the verb prefix followed by quoted words, and reading those
/// words, taking whatever stands between two quoting marks as it is, gives
/// the target and the arguments back, in order.
pub proof fn lemma_command_line_keeps_words(
    platform: Platform,
    launch_type: LaunchType,
    target: Seq<char>,
    args: Seq<Seq<char>>,
)
    requires
        all_quotable(platform.quote_mark(), launch_words(target, args)),
    ensures
        command_line(platform, launch_type, target, args) == verb_prefix(platform, launch_type) + (
        quoted(platform.quote_mark(), target) + quoted_arguments(platform.quote_mark(), args)),
        read_words(
            platform.quote_mark(),
            quoted(platform.quote_mark(), target) + quoted_arguments(platform.quote_mark(), args),
        ) == Some(launch_words(target, args)),
{
    let mark = platform.quote_mark();
    let words = launch_words(target, args);
    assert(words[0] == target);
    assert(words.skip(1) =~= args);
    lemma_quoted_words_read_back(mark, words);
    assert(command_line(platform, launch_type, target, args) =~= verb_prefix(platform, launch_type)
        + (quoted(mark, target) + quoted_arguments(mark, args)));
}

/// The platform's quoting mark as a text of one character.
fn mark_text(platform: Platform) -> (mark: &'static str)
    ensures
        mark@ == seq![platform.quote_mark()],
{
    proof {
        reveal_strlit("\"");
        reveal_strlit("'");
    }
    match platform {
        Platform::Windows => "\"",
        _ => "'",
    }
}

/// Appends `text` between two quoting marks.
fn push_quoted(line: &mut String, platform: Platform, text: &str)
    ensures
        final(line)@ == old(line)@ + quoted(platform.quote_mark(), text@),
{
    let mark = mark_text(platform);
    line.append(mark);
    line.append(text);
    line.append(mark);
    assert(line@ =~= old(line)@ + quoted(platform.quote_mark(), text@));
}

/// Assembles the command line of a launch: the verb, if the target is a web
/// address, then the quoted target and the quoted arguments, in that order.
///
/// Fails on the first word that holds the platform's quoting mark, and on
/// nothing else.
pub fn assemble_command_line(
    platform: Platform,
    launch_type: LaunchType,
    target: &str,
    args: &Vec<String>,
) -> (r: Result<String, ErrorKind>)
    ensures
        match r {
            Ok(line) => {
                &&& all_quotable(platform.quote_mark(), launch_words(target@, texts(args@)))
                &&& line@ == command_line(platform, launch_type, target@, texts(args@))
            },
            Err(ErrorKind::UnquotableArgument { position }) => first_unquotable(
                platform.quote_mark(),
                launch_words(target@, texts(args@)),
                position as int,
            ),
            Err(_) => false,
        },
{
    let mark = platform.quote();
    let ghost words = launch_words(target@, texts(args@));
    if has_char(target, mark) {
        return Err(ErrorKind::UnquotableArgument { position: 0 });
    }
    let mut line = String::new();
    match launch_type {
        LaunchType::Web => {
            line.append(platform.opener());
            line.append(" ");
            proof {
                reveal_strlit(" ");
            }
            assert(line@ =~= verb_prefix(platform, launch_type));
        },
        LaunchType::App => {},
    }
    push_quoted(&mut line, platform, target);
    let mut i: usize = 0;
    while i < args.len()
        invariant
            0 <= i <= args.len(),
            mark == platform.quote_mark(),
            words == launch_words(target@, texts(args@)),
            forall|k: int| 0 <= k < i + 1 ==> !(#[trigger] words[k]).contains(mark),
            line@ == verb_prefix(platform, launch_type) + quoted(mark, target@) + quoted_arguments(
                mark,
                texts(args@).take(i as int),
            ),
        decreases args.len() - i,
    {
        let arg = args[i].as_str();
        assert(words[i + 1] == arg@);
        if has_char(arg, mark) {
            return Err(ErrorKind::UnquotableArgument { position: i + 1 });
        }
        let ghost before = texts(args@).take(i as int);
        let ghost after = texts(args@).take(i + 1);
        assert(after.drop_last() =~= before);
        assert(after.last() == arg@);
        line.append(" ");
        proof {
            reveal_strlit(" ");
        }
        push_quoted(&mut line, platform, arg);
        assert(line@ =~= verb_prefix(platform, launch_type) + quoted(mark, target@)
            + quoted_arguments(mark, after));
        i += 1;
    }
    assert(texts(args@).take(i as int) =~= texts(args@));
    Ok(line)
}

/// Everything a driver needs to start one launch.
#[derive(Debug, Clone)]
pub struct LaunchPlan {
    /// The command interpreter, its flag and the assembled line.
    pub invocation: Invocation,
    /// Environment variables to add to the inherited ones, each key once.
    pub env: Vec<(String, String)>,
    /// How long the process may run, in seconds.
    pub timeout_secs: u64,
}

/// The interpreter call that runs an assembled line.
pub open spec fn shell_invocation_of(platform: Platform, line: Seq<char>) -> InvocationView {
    InvocationView {
        program: platform.shell_text(),
        args: seq![platform.shell_flag_text(), line],
    }
}

/// The overrides that the options name; none where they name none.
pub open spec fn declared_overrides(options: LaunchOptions) -> Seq<Binding> {
    match options.env_vars {
        Some(list) => bindings(list@),
        None => Seq::empty(),
    }
}

/// Whether `plan` is the plan of a launch of `target` with `options`.
pub open spec fn is_plan_of(
    plan: LaunchPlan,
    platform: Platform,
    launch_type: LaunchType,
    target: Seq<char>,
    options: LaunchOptions,
) -> bool {
    &&& plan.invocation@ == shell_invocation_of(
        platform,
        command_line(platform, launch_type, target, texts(options.args@)),
    )
    &&& bindings(plan.env@) == last_writes(declared_overrides(options))
    &&& plan.timeout_secs == options.timeout_secs
}

/// Wraps an assembled line in a call of the platform's interpreter.
pub fn shell_invocation(platform: Platform, line: String) -> (invocation: Invocation)
    ensures
        invocation@ == shell_invocation_of(platform, line@),
{
    let program = String::from_str(platform.shell());
    let flag = String::from_str(platform.shell_flag());
    let mut args: Vec<String> = Vec::new();
    args.push(flag);
    args.push(line);
    assert(texts(args@) =~= seq![platform.shell_flag_text(), line@]);
    Invocation { program, args }
}

/// Resolves and assembles one launch: picks the verb by the kind of target,
/// builds the command line, and sets the environment overrides and the
/// timeout beside it.
///
/// Fails on the first word, target or argument, that holds the platform's
/// quoting mark, and on nothing else.
pub fn plan_launch(
    platform: Platform,
    launch_type: LaunchType,
    target: &str,
    options: &LaunchOptions,
) -> (r: Result<LaunchPlan, ErrorKind>)
    ensures
        match r {
            Ok(plan) => {
                &&& all_quotable(
                    platform.quote_mark(),
                    launch_words(target@, texts(options.args@)),
                )
                &&& is_plan_of(plan, platform, launch_type, target@, *options)
            },
            Err(ErrorKind::UnquotableArgument { position }) => first_unquotable(
                platform.quote_mark(),
                launch_words(target@, texts(options.args@)),
                position as int,
            ),
            Err(_) => false,
        },
{
    let line = match assemble_command_line(platform, launch_type, target, &options.args) {
        Ok(line) => line,
        Err(e) => {
            return Err(e);
        },
    };
    let env = match &options.env_vars {
        Some(list) => effective_overrides(list),
        None => {
            let none: Vec<(String, String)> = Vec::new();
            assert(bindings(none@) =~= last_writes(Seq::empty()));
            none
        },
    };
    Ok(
        LaunchPlan {
            invocation: shell_invocation(platform, line),
            env,
            timeout_secs: options.timeout_secs,
        },
    )
}

/// The plan that opens a web address.
pub fn plan_url(platform: Platform, url: &str, options: &LaunchOptions) -> (r: Result<
    LaunchPlan,
    ErrorKind,
>)
    ensures
        match r {
            Ok(plan) => {
                &&& all_quotable(platform.quote_mark(), launch_words(url@, texts(options.args@)))
                &&& is_plan_of(plan, platform, LaunchType::Web, url@, *options)
            },
            Err(ErrorKind::UnquotableArgument { position }) => first_unquotable(
                platform.quote_mark(),
                launch_words(url@, texts(options.args@)),
                position as int,
            ),
            Err(_) => false,
        },
{
    plan_launch(platform, LaunchType::Web, url, options)
}

/// The plan that runs a program.
pub fn plan_app(platform: Platform, path: &str, options: &LaunchOptions) -> (r: Result<
    LaunchPlan,
    ErrorKind,
>)
    ensures
        match r {
            Ok(plan) => {
                &&& all_quotable(platform.quote_mark(), launch_words(path@, texts(options.args@)))
                &&& is_plan_of(plan, platform, LaunchType::App, path@, *options)
            },
            Err(ErrorKind::UnquotableArgument { position }) => first_unquotable(
                platform.quote_mark(),
                launch_words(path@, texts(options.args@)),
                position as int,
            ),
            Err(_) => false,
        },
{
    plan_launch(platform, LaunchType::App, path, options)
}

/// What was attempted, for diagnosis: the opening verb, if there is one,
/// and the target. Arguments and environment overrides stay out.
pub open spec fn attempt_text(
    platform: Platform,
    launch_type: LaunchType,
    target: Seq<char>,
) -> Seq<char> {
    verb_prefix(platform, launch_type) + target
}

/// The message of an error, followed by what was attempted.
pub open spec fn failure_text(
    platform: Platform,
    launch_type: LaunchType,
    target: Seq<char>,
    error: ErrorKind,
) -> Seq<char> {
    error.message_text() + " ["@ + attempt_text(platform, launch_type, target) + "]"@
}

/// Describes a failed launch for display: the message of the error as it
/// is, then the verb and the target that were attempted.
pub fn describe_failure(
    platform: Platform,
    launch_type: LaunchType,
    target: &str,
    error: &ErrorKind,
) -> (line: String)
    ensures
        line@ == failure_text(platform, launch_type, target@, *error),
{
    let mut line = error.message();
    line.append(" [");
    match launch_type {
        LaunchType::Web => {
            line.append(platform.opener());
            line.append(" ");
            proof {
                reveal_strlit(" ");
            }
        },
        LaunchType::App => {},
    }
    line.append(target);
    line.append("]");
    assert(line@ =~= failure_text(platform, launch_type, target@, *error));
    line
}

impl Launcher {
    /// The arguments of this launcher: none where it has no options.
    pub open spec fn argument_texts(self) -> Seq<Seq<char>> {
        match self.options {
            Some(options) => texts(options.args@),
            None => Seq::empty(),
        }
    }

    /// The timeout of this launcher: thirty seconds where it has no options.
    pub open spec fn timeout(self) -> u64 {
        match self.options {
            Some(options) => options.timeout_secs,
            None => 30,
        }
    }

    /// The overrides of this launcher: none where it has no options.
    pub open spec fn overrides(self) -> Seq<Binding> {
        match self.options {
            Some(options) => declared_overrides(options),
            None => Seq::empty(),
        }
    }

    /// The plan of this launcher on `platform`, with the default options
    /// where it has none of its own.
    pub fn plan(&self, platform: Platform) -> (r: Result<LaunchPlan, ErrorKind>)
        ensures
            match r {
                Ok(plan) => {
                    &&& all_quotable(
                        platform.quote_mark(),
                        launch_words(self.target@, self.argument_texts()),
                    )
                    &&& plan.invocation@ == shell_invocation_of(
                        platform,
                        command_line(
                            platform,
                            self.launch_type,
                            self.target@,
                            self.argument_texts(),
                        ),
                    )
                    &&& bindings(plan.env@) == last_writes(self.overrides())
                    &&& plan.timeout_secs == self.timeout()
                },
                Err(ErrorKind::UnquotableArgument { position }) => first_unquotable(
                    platform.quote_mark(),
                    launch_words(self.target@, self.argument_texts()),
                    position as int,
                ),
                Err(_) => false,
            },
    {
        match &self.options {
            Some(options) => plan_launch(platform, self.launch_type, self.target.as_str(), options),
            None => {
                let options = LaunchOptions::default();
                assert(texts(options.args@) =~= Seq::empty());
                plan_launch(platform, self.launch_type, self.target.as_str(), &options)
            },
        }
    }
}

} // verus!
