//! The command line: what the arguments ask for, and where the token file is
//! looked for.
use crate::text::begins_with;
use crate::text::blank;
use crate::text::is_blank;
use crate::text::optional_slice;
use crate::text::optional_text;
use crate::text::same_text;
use crate::text::strip_prefix;
use crate::text::texts;
use vstd::prelude::*;
use vstd::string::StrSliceExecFns;
use vstd::string::StringExecFns;

verus! {

/// The desired output formatting style.
#[derive(Debug, Clone, Copy, PartialEq, Eq)]
pub enum OutputFormat {
    Human,
    Json,
    Raw,
}

impl Default for OutputFormat {
    fn default() -> (format: Self)
        ensures
            format == OutputFormat::Human,
    {
        OutputFormat::Human
    }
}

/// The top-level command to execute.
#[derive(Debug, Clone, PartialEq, Eq)]
pub enum Command {
    /// Check quota (the default behaviour).
    Check(Options),
    /// Show this many snapshots of the quota history.
    History { last: u32 },
}

/// Parsed command line options.
#[derive(Debug, Clone, PartialEq, Eq)]
pub struct Options {
    pub json_output: bool,
    pub raw_output: bool,
    pub token_file: Option<String>,
}

/// What [`Options`] say.
pub ghost struct OptionsView {
    pub json_output: bool,
    pub raw_output: bool,
    pub token_file: Option<Seq<char>>,
}

impl View for Options {
    type V = OptionsView;

    open spec fn view(&self) -> OptionsView {
        OptionsView {
            json_output: self.json_output,
            raw_output: self.raw_output,
            token_file: optional_text(self.token_file),
        }
    }
}

/// What a [`Command`] says.
pub ghost enum CommandView {
    Check(OptionsView),
    History { last: u32 },
}

impl View for Command {
    type V = CommandView;

    open spec fn view(&self) -> CommandView {
        match self {
            Command::Check(options) => CommandView::Check(options@),
            Command::History { last } => CommandView::History { last: *last },
        }
    }
}

/// What is wrong with the command line or the environment.
#[derive(Debug, PartialEq, Eq)]
pub enum CliError {
    TokenFileNeedsPath,
    TokenFileRepeated,
    UnknownArgument(String),
    JsonWithRaw,
    LastNeedsNumber,
    LastNotANumber(String),
    LastIsZero,
    UnknownHistoryArgument(String),
    HomeNotSet,
}

/// What a [`CliError`] says.
pub ghost enum CliFault {
    TokenFileNeedsPath,
    TokenFileRepeated,
    UnknownArgument(Seq<char>),
    JsonWithRaw,
    LastNeedsNumber,
    LastNotANumber(Seq<char>),
    LastIsZero,
    UnknownHistoryArgument(Seq<char>),
    HomeNotSet,
}

impl View for CliError {
    type V = CliFault;

    open spec fn view(&self) -> CliFault {
        match self {
            CliError::TokenFileNeedsPath => CliFault::TokenFileNeedsPath,
            CliError::TokenFileRepeated => CliFault::TokenFileRepeated,
            CliError::UnknownArgument(argument) => CliFault::UnknownArgument(argument@),
            CliError::JsonWithRaw => CliFault::JsonWithRaw,
            CliError::LastNeedsNumber => CliFault::LastNeedsNumber,
            CliError::LastNotANumber(value) => CliFault::LastNotANumber(value@),
            CliError::LastIsZero => CliFault::LastIsZero,
            CliError::UnknownHistoryArgument(argument) => CliFault::UnknownHistoryArgument(
                argument@,
            ),
            CliError::HomeNotSet => CliFault::HomeNotSet,
        }
    }
}

impl CliFault {
    /// The message for the user.
    pub open spec fn text(self) -> Seq<char> {
        match self {
            CliFault::TokenFileNeedsPath => "--token-file requires a path"@,
            CliFault::TokenFileRepeated => "--token-file may only be specified once"@,
            CliFault::UnknownArgument(argument) => "unknown argument: "@ + argument,
            CliFault::JsonWithRaw => "--json and --raw cannot be used together"@,
            CliFault::LastNeedsNumber => "--last requires a number"@,
            CliFault::LastNotANumber(value) => "--last value must be a positive integer: "@ + value,
            CliFault::LastIsZero => "--last value must be at least 1"@,
            CliFault::UnknownHistoryArgument(argument) => "unknown history argument: "@ + argument,
            CliFault::HomeNotSet => "HOME is not set"@,
        }
    }
}

impl CliError {
    /// Words the error for the user.
    pub fn message(&self) -> (message: String)
        ensures
            message@ == self@.text(),
    {
        match self {
            CliError::TokenFileNeedsPath => "--token-file requires a path".to_owned(),
            CliError::TokenFileRepeated => "--token-file may only be specified once".to_owned(),
            CliError::UnknownArgument(argument) => {
                "unknown argument: ".to_owned().concat(argument.as_str())
            },
            CliError::JsonWithRaw => "--json and --raw cannot be used together".to_owned(),
            CliError::LastNeedsNumber => "--last requires a number".to_owned(),
            CliError::LastNotANumber(value) => {
                "--last value must be a positive integer: ".to_owned().concat(value.as_str())
            },
            CliError::LastIsZero => "--last value must be at least 1".to_owned(),
            CliError::UnknownHistoryArgument(argument) => {
                "unknown history argument: ".to_owned().concat(argument.as_str())
            },
            CliError::HomeNotSet => "HOME is not set".to_owned(),
        }
    }
}

/// The options where no argument is given.
pub open spec fn default_options() -> OptionsView {
    OptionsView { json_output: false, raw_output: false, token_file: None }
}

/// Whether an argument can be the path behind `--token-file`.
pub open spec fn is_path_argument(argument: Seq<char>) -> bool {
    argument.len() > 0 && argument[0] != '-'
}

/// What `args` make of the `options` so far: the first argument that does not
/// belong is reported, and the two output flags exclude each other.
pub open spec fn options_from(
    args: Seq<Seq<char>>,
    options: OptionsView,
) -> Result<OptionsView, CliFault>
    decreases args.len(),
{
    if args.len() == 0 {
        if options.json_output && options.raw_output {
            Err(CliFault::JsonWithRaw)
        } else {
            Ok(options)
        }
    } else if args[0] == "--json"@ {
        options_from(args.skip(1), OptionsView { json_output: true, ..options })
    } else if args[0] == "--raw"@ {
        options_from(args.skip(1), OptionsView { raw_output: true, ..options })
    } else if args[0] == "--token-file"@ {
        if args.len() < 2 || !is_path_argument(args[1]) {
            Err(CliFault::TokenFileNeedsPath)
        } else if options.token_file is Some {
            Err(CliFault::TokenFileRepeated)
        } else {
            options_from(args.skip(2), OptionsView { token_file: Some(args[1]), ..options })
        }
    } else {
        Err(CliFault::UnknownArgument(args[0]))
    }
}

/// Whether a character is a decimal digit.
pub open spec fn is_digit(c: char) -> bool {
    '0' <= c <= '9'
}

/// The number that a row of decimal digits stands for.
pub open spec fn decimal(digits: Seq<char>) -> nat
    decreases digits.len(),
{
    if digits.len() == 0 {
        0
    } else {
        decimal(digits.drop_last()) * 10 + (digits.last() as int - '0' as int) as nat
    }
}

/// The digits of a number that may have a plus sign.
pub open spec fn digits_of(text: Seq<char>) -> Seq<char> {
    if text.len() > 0 && text[0] == '+' {
        text.skip(1)
    } else {
        text
    }
}

/// The 32-bit number that a text spells: digits, at least one, with or
/// without a plus sign in front.
pub open spec fn number_of(text: Seq<char>) -> Option<u32> {
    let digits = digits_of(text);
    if digits.len() > 0 && (forall|i: int| 0 <= i < digits.len() ==> is_digit(#[trigger] digits[i]))
        && decimal(digits) <= u32::MAX {
        Some(decimal(digits) as u32)
    } else {
        None
    }
}

/// How many snapshots `args` ask for, where it was `last` so far.
pub open spec fn history_from(args: Seq<Seq<char>>, last: u32) -> Result<u32, CliFault>
    decreases args.len(),
{
    if args.len() == 0 {
        Ok(last)
    } else if args[0] != "--last"@ {
        Err(CliFault::UnknownHistoryArgument(args[0]))
    } else if args.len() < 2 {
        Err(CliFault::LastNeedsNumber)
    } else {
        match number_of(args[1]) {
            None => Err(CliFault::LastNotANumber(args[1])),
            Some(number) => if number == 0 {
                Err(CliFault::LastIsZero)
            } else {
                history_from(args.skip(2), number)
            },
        }
    }
}

/// What the arguments ask for.
pub open spec fn command_from(args: Seq<Seq<char>>) -> Result<CommandView, CliFault> {
    if args.len() > 0 && args[0] == "history"@ {
        match history_from(args.skip(1), 20) {
            Ok(last) => Ok(CommandView::History { last }),
            Err(fault) => Err(fault),
        }
    } else {
        match options_from(args, default_options()) {
            Ok(options) => Ok(CommandView::Check(options)),
            Err(fault) => Err(fault),
        }
    }
}

impl Default for Options {
    fn default() -> (options: Self)
        ensures
            options@ == default_options(),
    {
        Options { json_output: false, raw_output: false, token_file: None }
    }
}

/// Whether a text begins with a hyphen.
fn begins_with_hyphen(text: &str) -> (hyphen: bool)
    ensures
        hyphen == (text@.len() > 0 && text@[0] == '-'),
{
    !text.is_empty() && text.get_char(0) == '-'
}

/// Parses command line arguments into [`Options`].
///
/// # Errors
///
/// Reports the first argument that is unknown, lacks its path or repeats
/// `--token-file`, and `--json` together with `--raw`.
pub fn parse_args(args: &[String]) -> (result: Result<Options, CliError>)
    ensures
        match result {
            Ok(options) => options_from(texts(args@), default_options()) == Ok::<
                OptionsView,
                CliFault,
            >(options@),
            Err(error) => options_from(texts(args@), default_options()) == Err::<
                OptionsView,
                CliFault,
            >(error@),
        },
{
    let ghost all = texts(args@);
    let mut options = Options { json_output: false, raw_output: false, token_file: None };
    let mut i: usize = 0;
    assert(all.skip(0) =~= all);
    while i < args.len()
        invariant
            all == texts(args@),
            i <= args@.len(),
            options_from(all, default_options()) == options_from(all.skip(i as int), options@),
        decreases args@.len() - i,
    {
        let arg = args[i].as_str();
        let ghost rest = all.skip(i as int);
        assert(rest[0] == arg@);
        assert(rest.skip(1) =~= all.skip(i + 1));
        if same_text(arg, "--json") {
            options.json_output = true;
            i = i + 1;
        } else if same_text(arg, "--raw") {
            options.raw_output = true;
            i = i + 1;
        } else if same_text(arg, "--token-file") {
            if i + 1 >= args.len() {
                return Err(CliError::TokenFileNeedsPath);
            }
            let value = args[i + 1].as_str();
            assert(rest[1] == value@);
            assert(rest.skip(2) =~= all.skip(i + 2));
            if value.is_empty() || begins_with_hyphen(value) {
                return Err(CliError::TokenFileNeedsPath);
            }
            if options.token_file.is_some() {
                return Err(CliError::TokenFileRepeated);
            }
            options.token_file = Some(value.to_owned());
            i = i + 2;
        } else {
            return Err(CliError::UnknownArgument(arg.to_owned()));
        }
    }
    if options.json_output && options.raw_output {
        return Err(CliError::JsonWithRaw);
    }
    Ok(options)
}

/// The digits of a number stand for no less than its first digits.
proof fn lemma_decimal_grows(digits: Seq<char>, count: int)
    requires
        0 <= count <= digits.len(),
    ensures
        decimal(digits.take(count)) <= decimal(digits),
    decreases digits.len(),
{
    if count == digits.len() {
        assert(digits.take(count) =~= digits);
    } else {
        lemma_decimal_grows(digits.drop_last(), count);
        assert(digits.drop_last().take(count) =~= digits.take(count));
    }
}

/// Reads a 32-bit number.
pub fn parse_number(text: &str) -> (number: Option<u32>)
    ensures
        number == number_of(text@),
{
    let total = text.unicode_len();
    let start: usize = if total > 0 && text.get_char(0) == '+' {
        1
    } else {
        0
    };
    let ghost digits = digits_of(text@);
    if start == total {
        return None;
    }
    let mut value: u64 = 0;
    for i in start..total
        invariant
            total == text@.len(),
            start <= total,
            digits == text@.skip(start as int),
            digits == digits_of(text@),
            value == decimal(digits.take(i - start)),
            value <= u32::MAX,
            forall|j: int| 0 <= j < i - start ==> is_digit(#[trigger] digits[j]),
    {
        let c = text.get_char(i);
        assert(c == digits[i - start]);
        if !('0' <= c && c <= '9') {
            return None;
        }
        let digit: u64 = (c as u32 - '0' as u32) as u64;
        assert(digits.take(i + 1 - start).drop_last() =~= digits.take(i - start));
        value = value * 10 + digit;
        if value > 0xffff_ffff {
            proof {
                lemma_decimal_grows(digits, i + 1 - start);
            }
            return None;
        }
    }
    assert(digits.take(total - start) =~= digits);
    Some(value as u32)
}

/// Reads the arguments behind `history`.
fn parse_history(args: &[String]) -> (result: Result<u32, CliError>)
    requires
        args@.len() > 0,
    ensures
        match result {
            Ok(last) => history_from(texts(args@).skip(1), 20) == Ok::<u32, CliFault>(last),
            Err(error) => history_from(texts(args@).skip(1), 20) == Err::<u32, CliFault>(error@),
        },
{
    let ghost all = texts(args@);
    let mut last: u32 = 20;
    let mut i: usize = 1;
    while i < args.len()
        invariant
            all == texts(args@),
            1 <= i <= args@.len(),
            history_from(all.skip(1), 20) == history_from(all.skip(i as int), last),
        decreases args@.len() - i,
    {
        let arg = args[i].as_str();
        let ghost rest = all.skip(i as int);
        assert(rest[0] == arg@);
        if !same_text(arg, "--last") {
            return Err(CliError::UnknownHistoryArgument(arg.to_owned()));
        }
        if i + 1 >= args.len() {
            return Err(CliError::LastNeedsNumber);
        }
        let value = args[i + 1].as_str();
        assert(rest[1] == value@);
        assert(rest.skip(2) =~= all.skip(i + 2));
        match parse_number(value) {
            None => {
                return Err(CliError::LastNotANumber(value.to_owned()));
            },
            Some(number) => {
                if number == 0 {
                    return Err(CliError::LastIsZero);
                }
                last = number;
            },
        }
        i = i + 2;
    }
    Ok(last)
}

/// Parses the full argument list into a [`Command`].
///
/// # Errors
///
/// Reports the first argument that does not belong.
pub fn parse_command(args: &[String]) -> (result: Result<Command, CliError>)
    ensures
        match result {
            Ok(command) => command_from(texts(args@)) == Ok::<CommandView, CliFault>(command@),
            Err(error) => command_from(texts(args@)) == Err::<CommandView, CliFault>(error@),
        },
{
    if args.len() > 0 {
        assert(texts(args@)[0] == args@[0]@);
        if same_text(args[0].as_str(), "history") {
            return match parse_history(args) {
                Ok(last) => Ok(Command::History { last }),
                Err(error) => Err(error),
            };
        }
    }
    match parse_args(args) {
        Ok(options) => Ok(Command::Check(options)),
        Err(error) => Err(error),
    }
}

/// Where a file is.
#[derive(Debug, PartialEq, Eq)]
pub enum Location {
    /// At this path.
    At(String),
    /// In the home directory, at the end of these steps.
    UnderHome(Vec<String>),
}

/// What a [`Location`] says.
pub ghost enum LocationView {
    At(Seq<char>),
    UnderHome(Seq<Seq<char>>),
}

impl View for Location {
    type V = LocationView;

    open spec fn view(&self) -> LocationView {
        match self {
            Location::At(path) => LocationView::At(path@),
            Location::UnderHome(steps) => LocationView::UnderHome(texts(steps@)),
        }
    }
}

/// The place a path means: a leading `~/` stands for the home directory, if
/// there is one.
pub open spec fn expanded(value: Seq<char>, home_is_set: bool) -> LocationView {
    if begins_with(value, "~/"@) && home_is_set {
        LocationView::UnderHome(seq![value.skip(2)])
    } else {
        LocationView::At(value)
    }
}

/// Expands a leading `~/` to the user's home directory, where HOME is set.
pub fn expand_home(value: &str, home_is_set: bool) -> (location: Location)
    ensures
        location@ == expanded(value@, home_is_set),
{
    proof {
        reveal_strlit("~/");
    }
    if let Some(rest) = strip_prefix(value, "~/") {
        if home_is_set {
            let mut steps: Vec<String> = Vec::new();
            steps.push(rest.to_owned());
            assert(texts(steps@) =~= seq![value@.skip(2)]);
            return Location::UnderHome(steps);
        }
    }
    Location::At(value.to_owned())
}

/// The steps to the token file where nothing else is said.
pub open spec fn default_token_steps() -> Seq<Seq<char>> {
    seq![".gemini"@, "antigravity-acp"@, "acp_token.json"@]
}

/// Where the token file is: what the command line says, else what the
/// environment variable says unless that is blank, else the default place
/// in the home directory.
pub open spec fn token_location(
    token_file: Option<Seq<char>>,
    variable: Option<Seq<char>>,
    home_is_set: bool,
) -> Result<LocationView, CliFault> {
    match (token_file, variable) {
        (Some(value), _) => Ok(expanded(value, home_is_set)),
        (None, Some(value)) if !is_blank(value) => Ok(expanded(value, home_is_set)),
        _ => if home_is_set {
            Ok(LocationView::UnderHome(default_token_steps()))
        } else {
            Err(CliFault::HomeNotSet)
        },
    }
}

/// Resolves the place of the ACP token JSON file:
/// 1. Explicit CLI argument (`--token-file`)
/// 2. Environment variable (`ANTIGRAVITY_ACP_TOKEN_FILE`), here `variable`
/// 3. Default `~/.gemini/antigravity-acp/acp_token.json`
///
/// # Errors
///
/// [`CliError::HomeNotSet`] where the default is needed and HOME is not set.
pub fn resolve_token_path(
    token_file: Option<&str>,
    variable: Option<&str>,
    home_is_set: bool,
) -> (result: Result<Location, CliError>)
    ensures
        match result {
            Ok(location) => token_location(
                optional_slice(token_file),
                optional_slice(variable),
                home_is_set,
            ) == Ok::<LocationView, CliFault>(location@),
            Err(error) => token_location(
                optional_slice(token_file),
                optional_slice(variable),
                home_is_set,
            ) == Err::<LocationView, CliFault>(error@),
        },
{
    if let Some(value) = token_file {
        return Ok(expand_home(value, home_is_set));
    }
    if let Some(value) = variable {
        if !blank(value) {
            return Ok(expand_home(value, home_is_set));
        }
    }
    if !home_is_set {
        return Err(CliError::HomeNotSet);
    }
    let mut steps: Vec<String> = Vec::new();
    steps.push(".gemini".to_owned());
    steps.push("antigravity-acp".to_owned());
    steps.push("acp_token.json".to_owned());
    assert(texts(steps@) =~= default_token_steps());
    Ok(Location::UnderHome(steps))
}

impl OptionsView {
    /// The output format that the flags ask for.
    pub open spec fn output_format(self) -> OutputFormat {
        if self.json_output {
            OutputFormat::Json
        } else if self.raw_output {
            OutputFormat::Raw
        } else {
            OutputFormat::Human
        }
    }
}

impl Options {
    /// Parses options from an argument slice (without the program's name).
    ///
    /// # Errors
    ///
    /// As [`parse_args`].
    pub fn parse(args: &[String]) -> (result: Result<Self, CliError>)
        ensures
            match result {
                Ok(options) => options_from(texts(args@), default_options()) == Ok::<
                    OptionsView,
                    CliFault,
                >(options@),
                Err(error) => options_from(texts(args@), default_options()) == Err::<
                    OptionsView,
                    CliFault,
                >(error@),
            },
    {
        parse_args(args)
    }

    /// Determines the requested output format.
    pub fn output_format(&self) -> (format: OutputFormat)
        ensures
            format == self@.output_format(),
    {
        if self.json_output {
            OutputFormat::Json
        } else if self.raw_output {
            OutputFormat::Raw
        } else {
            OutputFormat::Human
        }
    }

    /// Resolves the place of the ACP token file based on flags, environment
    /// variables, or default location.
    ///
    /// # Errors
    ///
    /// As [`resolve_token_path`].
    pub fn resolve_token_path(&self, variable: Option<&str>, home_is_set: bool) -> (result: Result<
        Location,
        CliError,
    >)
        ensures
            match result {
                Ok(location) => token_location(
                    self@.token_file,
                    optional_slice(variable),
                    home_is_set,
                ) == Ok::<LocationView, CliFault>(location@),
                Err(error) => token_location(
                    self@.token_file,
                    optional_slice(variable),
                    home_is_set,
                ) == Err::<LocationView, CliFault>(error@),
            },
    {
        match &self.token_file {
            Some(value) => resolve_token_path(Some(value.as_str()), variable, home_is_set),
            None => resolve_token_path(None, variable, home_is_set),
        }
    }
}

/// Accepted options never ask for JSON and raw output at once, so the raw
/// flag alone decides on raw output.
pub proof fn law_output_flags_exclude_each_other(args: Seq<Seq<char>>, options: OptionsView)
    ensures
        options_from(args, options) matches Ok(accepted) ==> {
            &&& !(accepted.json_output && accepted.raw_output)
            &&& accepted.raw_output <==> accepted.output_format() == OutputFormat::Raw
        },
    decreases args.len(),
{
    if args.len() > 0 {
        law_output_flags_exclude_each_other(
            args.skip(1),
            OptionsView { json_output: true, ..options },
        );
        law_output_flags_exclude_each_other(
            args.skip(1),
            OptionsView { raw_output: true, ..options },
        );
        if args.len() > 1 {
            law_output_flags_exclude_each_other(
                args.skip(2),
                OptionsView { token_file: Some(args[1]), ..options },
            );
        }
    }
}

/// Whether the argument at `i` is an option, or the path of one.
pub open spec fn is_known_argument(args: Seq<Seq<char>>, i: int) -> bool {
    ||| args[i] == "--json"@
    ||| args[i] == "--raw"@
    ||| args[i] == "--token-file"@ && i + 1 < args.len() && is_path_argument(args[i + 1])
    ||| i > 0 && args[i - 1] == "--token-file"@ && is_path_argument(args[i])
}

/// Where the arguments are accepted, each of them is known.
pub proof fn law_unknown_arguments_are_refused(
    args: Seq<Seq<char>>,
    options: OptionsView,
    i: int,
)
    requires
        options_from(args, options) is Ok,
        0 <= i < args.len(),
    ensures
        is_known_argument(args, i),
    decreases args.len(),
{
    if args[0] == "--json"@ {
        let rest = args.skip(1);
        if i > 0 {
            law_unknown_arguments_are_refused(
                rest,
                OptionsView { json_output: true, ..options },
                i - 1,
            );
        }
    } else if args[0] == "--raw"@ {
        let rest = args.skip(1);
        if i > 0 {
            law_unknown_arguments_are_refused(
                rest,
                OptionsView { raw_output: true, ..options },
                i - 1,
            );
        }
    } else if i > 1 {
        law_unknown_arguments_are_refused(
            args.skip(2),
            OptionsView { token_file: Some(args[1]), ..options },
            i - 2,
        );
    }
}

/// The arguments that spell given options.
pub open spec fn arguments_for(options: OptionsView) -> Seq<Seq<char>> {
    let json = if options.json_output {
        seq!["--json"@]
    } else {
        Seq::empty()
    };
    let raw = if options.raw_output {
        seq!["--raw"@]
    } else {
        Seq::empty()
    };
    let token_file = match options.token_file {
        Some(path) => seq!["--token-file"@, path],
        None => Seq::empty(),
    };
    json + raw + token_file
}

/// Every combination of options can be asked for: parsing the arguments that
/// spell it gives it back.
pub proof fn law_options_can_be_spelled(options: OptionsView)
    requires
        !(options.json_output && options.raw_output),
        options.token_file matches Some(path) ==> is_path_argument(path),
    ensures
        options_from(arguments_for(options), default_options()) == Ok::<OptionsView, CliFault>(
            options,
        ),
{
    reveal_with_fuel(options_from, 3);
    reveal_strlit("--json");
    reveal_strlit("--raw");
    reveal_strlit("--token-file");
    assert("--json"@.len() != "--raw"@.len());
    assert("--json"@.len() != "--token-file"@.len());
    assert("--raw"@.len() != "--token-file"@.len());
    let args = arguments_for(options);
    match options.token_file {
        Some(path) => {
            let pair = seq!["--token-file"@, path];
            if options.json_output || options.raw_output {
                assert(args.skip(1) =~= pair);
            } else {
                assert(args =~= pair);
            }
            assert(pair.skip(2) =~= Seq::empty());
        },
        None => {
            if options.json_output || options.raw_output {
                assert(args.skip(1) =~= Seq::empty());
            }
        },
    }
}

/// A history command shows at least one snapshot.
pub proof fn law_history_shows_something(args: Seq<Seq<char>>)
    ensures
        command_from(args) matches Ok(CommandView::History { last }) ==> last >= 1,
{
    lemma_history_is_positive(args.skip(1), 20);
}

/// The number of snapshots stays positive.
proof fn lemma_history_is_positive(args: Seq<Seq<char>>, last: u32)
    requires
        last >= 1,
    ensures
        history_from(args, last) matches Ok(result) ==> result >= 1,
    decreases args.len(),
{
    if args.len() > 1 {
        if let Some(number) = number_of(args[1]) {
            if number > 0 {
                lemma_history_is_positive(args.skip(2), number);
            }
        }
    }
}

/// Arguments are read one by one from the front: each flag sets its own option
/// and leaves the others, `--token-file` takes the argument behind it and may
/// come once, and anything else is refused by name.
pub proof fn law_arguments_are_read_in_order(
    first: Seq<char>,
    path: Seq<char>,
    rest: Seq<Seq<char>>,
    options: OptionsView,
)
    ensures
        options_from(seq!["--json"@] + rest, options) == options_from(
            rest,
            OptionsView {
                json_output: true,
                raw_output: options.raw_output,
                token_file: options.token_file,
            },
        ),
        options_from(seq!["--raw"@] + rest, options) == options_from(
            rest,
            OptionsView {
                json_output: options.json_output,
                raw_output: true,
                token_file: options.token_file,
            },
        ),
        path.len() == 0 || path[0] == '-' ==> options_from(
            seq!["--token-file"@, path] + rest,
            options,
        ) == Err::<OptionsView, CliFault>(CliFault::TokenFileNeedsPath),
        options_from(seq!["--token-file"@], options) == Err::<OptionsView, CliFault>(
            CliFault::TokenFileNeedsPath,
        ),
        path.len() > 0 && path[0] != '-' ==> {
            &&& options.token_file is Some ==> options_from(
                seq!["--token-file"@, path] + rest,
                options,
            ) == Err::<OptionsView, CliFault>(CliFault::TokenFileRepeated)
            &&& options.token_file is None ==> options_from(
                seq!["--token-file"@, path] + rest,
                options,
            ) == options_from(
                rest,
                OptionsView {
                    json_output: options.json_output,
                    raw_output: options.raw_output,
                    token_file: Some(path),
                },
            )
        },
        first != "--json"@ && first != "--raw"@ && first != "--token-file"@ ==> options_from(
            seq![first] + rest,
            options,
        ) == Err::<OptionsView, CliFault>(CliFault::UnknownArgument(first)),
        options_from(Seq::empty(), options) == if options.json_output && options.raw_output {
            Err::<OptionsView, CliFault>(CliFault::JsonWithRaw)
        } else {
            Ok(options)
        },
{
    reveal_strlit("--json");
    reveal_strlit("--raw");
    reveal_strlit("--token-file");
    assert("--json"@.len() != "--raw"@.len());
    assert("--json"@.len() != "--token-file"@.len());
    assert("--raw"@.len() != "--token-file"@.len());
    assert((seq!["--json"@] + rest).skip(1) =~= rest);
    assert((seq!["--raw"@] + rest).skip(1) =~= rest);
    assert((seq!["--token-file"@, path] + rest).skip(2) =~= rest);
    assert((seq![first] + rest)[0] == first);
}

/// Accepted options say what was asked for: JSON output where `--json` occurs,
/// raw output where `--raw` does, and as token file what stands behind
/// `--token-file`.
pub proof fn law_accepted_options_say_what_was_asked(args: Seq<Seq<char>>)
    ensures
        options_from(args, default_options()) matches Ok(options) ==> {
            &&& options.json_output <==> exists|i: int|
                0 <= i < args.len() && #[trigger] args[i] == "--json"@
            &&& options.raw_output <==> exists|i: int|
                0 <= i < args.len() && #[trigger] args[i] == "--raw"@
            &&& options.token_file is None <==> forall|i: int|
                0 <= i < args.len() ==> #[trigger] args[i] != "--token-file"@
            &&& options.token_file matches Some(path) ==> exists|i: int|
                0 <= i < args.len() - 1 && #[trigger] args[i] == "--token-file"@ && args[i + 1]
                    == path
        },
{
    lemma_options_grow(args, default_options());
}

/// What arguments add to the options so far.
proof fn lemma_options_grow(args: Seq<Seq<char>>, before: OptionsView)
    ensures
        options_from(args, before) matches Ok(options) ==> {
            &&& options.json_output <==> before.json_output || exists|i: int|
                0 <= i < args.len() && #[trigger] args[i] == "--json"@
            &&& options.raw_output <==> before.raw_output || exists|i: int|
                0 <= i < args.len() && #[trigger] args[i] == "--raw"@
            &&& options.token_file is None <==> before.token_file is None && forall|i: int|
                0 <= i < args.len() ==> #[trigger] args[i] != "--token-file"@
            &&& options.token_file matches Some(path) ==> before.token_file == Some(path)
                || exists|i: int|
                0 <= i < args.len() - 1 && #[trigger] args[i] == "--token-file"@ && args[i + 1]
                    == path
        },
    decreases args.len(),
{
    reveal_strlit("--json");
    reveal_strlit("--raw");
    reveal_strlit("--token-file");
    assert("--json"@.len() != "--raw"@.len());
    assert("--json"@.len() != "--token-file"@.len());
    assert("--raw"@.len() != "--token-file"@.len());
    if args.len() > 0 && options_from(args, before) is Ok {
        let taken: int = if args[0] == "--token-file"@ {
            2
        } else {
            1
        };
        let rest = args.skip(taken);
        let next = if args[0] == "--json"@ {
            OptionsView { json_output: true, ..before }
        } else if args[0] == "--raw"@ {
            OptionsView { raw_output: true, ..before }
        } else {
            OptionsView { token_file: Some(args[1]), ..before }
        };
        lemma_options_grow(rest, next);
        assert forall|i: int| taken <= i < args.len() implies #[trigger] args[i] == rest[
            i - taken
        ] by {}
        assert forall|i: int| 0 <= i < rest.len() implies #[trigger] rest[i] == args[i + taken] by {}
        if taken == 2 {
            assert(args[1][0] != '-');
        }
    }
}

/// JSON output is chosen by its flag, raw output by its own, and neither means
/// the summary.
pub proof fn law_flags_choose_the_format(options: OptionsView)
    ensures
        options.json_output ==> options.output_format() == OutputFormat::Json,
        !options.json_output && options.raw_output ==> options.output_format()
            == OutputFormat::Raw,
        !options.json_output && !options.raw_output ==> options.output_format()
            == OutputFormat::Human,
        default_options().output_format() == OutputFormat::Human,
        default_options().token_file is None,
{
}

/// `history` asks for the history, of twenty snapshots unless `--last` says
/// otherwise; anything else asks for a check.
pub proof fn law_the_first_argument_chooses_the_command(args: Seq<Seq<char>>)
    ensures
        command_from(seq!["history"@]) == Ok::<CommandView, CliFault>(
            CommandView::History { last: 20 },
        ),
        command_from(seq!["history"@] + args) == match history_from(args, 20) {
            Ok(last) => Ok(CommandView::History { last }),
            Err(fault) => Err(fault),
        },
        args.len() == 0 || args[0] != "history"@ ==> command_from(args) == match options_from(
            args,
            default_options(),
        ) {
            Ok(options) => Ok(CommandView::Check(options)),
            Err(fault) => Err(fault),
        },
{
    assert(seq!["history"@].skip(1) =~= Seq::<Seq<char>>::empty());
    assert((seq!["history"@] + args).skip(1) =~= args);
}

/// Behind `history` each `--last` takes a number of at least one, and the last
/// one counts; anything else is refused by name.
pub proof fn law_history_arguments_are_read_in_order(
    first: Seq<char>,
    value: Seq<char>,
    rest: Seq<Seq<char>>,
    last: u32,
)
    ensures
        history_from(Seq::empty(), last) == Ok::<u32, CliFault>(last),
        history_from(seq!["--last"@], last) == Err::<u32, CliFault>(CliFault::LastNeedsNumber),
        first != "--last"@ ==> history_from(seq![first] + rest, last) == Err::<u32, CliFault>(
            CliFault::UnknownHistoryArgument(first),
        ),
        number_of(value) is None ==> history_from(seq!["--last"@, value] + rest, last) == Err::<
            u32,
            CliFault,
        >(CliFault::LastNotANumber(value)),
        number_of(value) == Some(0u32) ==> history_from(seq!["--last"@, value] + rest, last)
            == Err::<u32, CliFault>(CliFault::LastIsZero),
        number_of(value) matches Some(number) ==> number > 0 ==> history_from(
            seq!["--last"@, value] + rest,
            last,
        ) == history_from(rest, number),
{
    let args = seq!["--last"@, value] + rest;
    assert(args.skip(2) =~= rest);
    assert((seq![first] + rest)[0] == first);
}

/// The digits that spell a number, without leading zeros.
pub open spec fn spelled(number: nat) -> Seq<char>
    decreases number,
{
    let digit = ('0' as u32 + (number % 10) as u32) as char;
    if number < 10 {
        seq![digit]
    } else {
        spelled(number / 10).push(digit)
    }
}

/// What is spelled consists of digits and stands for the number.
proof fn lemma_spelled(number: nat)
    ensures
        spelled(number).len() > 0,
        forall|i: int| 0 <= i < spelled(number).len() ==> is_digit(#[trigger] spelled(number)[i]),
        decimal(spelled(number)) == number,
    decreases number,
{
    let digit = ('0' as u32 + (number % 10) as u32) as char;
    assert(is_digit(digit));
    assert(digit as int - '0' as int == number % 10);
    reveal_with_fuel(decimal, 2);
    if number < 10 {
        assert(spelled(number).drop_last() =~= Seq::<char>::empty());
    } else {
        lemma_spelled(number / 10);
        let front = spelled(number / 10);
        assert(spelled(number).drop_last() =~= front);
        assert forall|i: int| 0 <= i < spelled(number).len() implies is_digit(
            #[trigger] spelled(number)[i],
        ) by {
            if i < front.len() {
                assert(spelled(number)[i] == front[i]);
            }
        }
    }
}

/// Every 32-bit number is read back from its digits, with a plus sign in front
/// as well as without, and however many zeros stand before them.
pub proof fn law_numbers_can_be_spelled(number: u32, zeros: nat)
    ensures
        number_of(spelled(number as nat)) == Some(number),
        number_of(seq!['+'] + spelled(number as nat)) == Some(number),
        number_of(Seq::new(zeros, |i: int| '0') + spelled(number as nat)) == Some(number),
{
    let digits = spelled(number as nat);
    lemma_spelled(number as nat);
    assert(is_digit(digits[0]));
    assert((seq!['+'] + digits).skip(1) =~= digits);
    lemma_leading_zeros(zeros, digits);
    let padded = Seq::new(zeros, |i: int| '0') + digits;
    assert forall|i: int| 0 <= i < padded.len() implies is_digit(#[trigger] padded[i]) by {
        if i >= zeros {
            assert(padded[i] == digits[i - zeros]);
        }
    }
    assert(is_digit(padded[0]));
}

/// Leading zeros do not count.
proof fn lemma_leading_zeros(zeros: nat, digits: Seq<char>)
    ensures
        decimal(Seq::new(zeros, |i: int| '0') + digits) == decimal(digits),
    decreases zeros + digits.len(),
{
    let front = Seq::new(zeros, |i: int| '0');
    let padded = front + digits;
    if digits.len() > 0 {
        lemma_leading_zeros(zeros, digits.drop_last());
        assert(padded.drop_last() =~= front + digits.drop_last());
    } else if zeros > 0 {
        lemma_leading_zeros((zeros - 1) as nat, digits);
        assert(padded.drop_last() =~= Seq::new((zeros - 1) as nat, |i: int| '0') + digits);
        assert(padded.last() == '0');
    }
}

/// Only digits are read as a number, with or without a plus sign in front, and
/// only a number of up to 4294967295.
pub proof fn law_only_digits_are_numbers(text: Seq<char>)
    ensures
        number_of(text) matches Some(number) ==> {
            &&& forall|i: int|
                0 <= i < text.len() ==> '0' <= #[trigger] text[i] <= '9' || i == 0 && text[0] == '+'
            &&& exists|i: int| 0 <= i < text.len() && '0' <= #[trigger] text[i] <= '9'
        },
        forall|number: nat|
            number > 4294967295 && text == #[trigger] spelled(number) ==> number_of(text) is None,
{
    if number_of(text) is Some {
        let digits = digits_of(text);
        let skipped = text.len() - digits.len();
        assert forall|i: int| 0 <= i < text.len() implies '0' <= #[trigger] text[i] <= '9' || i == 0
            && text[0] == '+' by {
            if i >= skipped {
                assert(is_digit(digits[i - skipped]));
                assert(text[i] == digits[i - skipped]);
            }
        }
        assert(is_digit(digits[0]));
        assert(text[skipped] == digits[0]);
    }
    assert forall|number: nat|
        number > 4294967295 && text == #[trigger] spelled(number) implies number_of(text) is None by {
        lemma_spelled(number);
        assert(is_digit(text[0]));
    }
}

/// A path that begins with `~/` is what follows, under the home directory; any
/// other, and any where there is no home directory, is meant as it stands.
pub proof fn law_only_a_leading_tilde_means_home(rest: Seq<char>, value: Seq<char>)
    ensures
        expanded("~/"@ + rest, true) == LocationView::UnderHome(seq![rest]),
        expanded(value, false) == LocationView::At(value),
        value.len() < 2 || value[0] != '~' || value[1] != '/' ==> expanded(value, true)
            == LocationView::At(value),
{
    reveal_strlit("~/");
    let whole = "~/"@ + rest;
    assert(whole.take(2) =~= "~/"@);
    assert(whole.skip(2) =~= rest);
    if begins_with(value, "~/"@) {
        assert(value.take(2)[0] == '~');
        assert(value.take(2)[1] == '/');
        assert(value[0] == value.take(2)[0]);
        assert(value[1] == value.take(2)[1]);
    }
}

/// The token file is where the command line says, else where the environment
/// says unless that is blank, else in `.gemini/antigravity-acp/acp_token.json`
/// in the home directory; without that there is none.
pub proof fn law_the_command_line_says_where_the_token_is(
    option: Seq<char>,
    variable: Option<Seq<char>>,
    home_is_set: bool,
)
    ensures
        token_location(Some(option), variable, home_is_set) == Ok::<LocationView, CliFault>(
            expanded(option, home_is_set),
        ),
        variable matches Some(value) ==> !is_blank(value) ==> token_location(
            None,
            variable,
            home_is_set,
        ) == Ok::<LocationView, CliFault>(expanded(value, home_is_set)),
        (variable matches Some(value) ==> is_blank(value)) ==> token_location(None, variable, true)
            == Ok::<LocationView, CliFault>(
            LocationView::UnderHome(seq![".gemini"@, "antigravity-acp"@, "acp_token.json"@]),
        ),
        (variable matches Some(value) ==> is_blank(value)) ==> token_location(None, variable, false)
            == Err::<LocationView, CliFault>(CliFault::HomeNotSet),
{
}

/// Each fault has its own words.
pub proof fn law_faults_are_worded(text: Seq<char>)
    ensures
        CliFault::TokenFileNeedsPath.text() == "--token-file requires a path"@,
        CliFault::TokenFileRepeated.text() == "--token-file may only be specified once"@,
        CliFault::UnknownArgument(text).text() == "unknown argument: "@ + text,
        CliFault::JsonWithRaw.text() == "--json and --raw cannot be used together"@,
        CliFault::LastNeedsNumber.text() == "--last requires a number"@,
        CliFault::LastNotANumber(text).text() == "--last value must be a positive integer: "@
            + text,
        CliFault::LastIsZero.text() == "--last value must be at least 1"@,
        CliFault::UnknownHistoryArgument(text).text() == "unknown history argument: "@ + text,
        CliFault::HomeNotSet.text() == "HOME is not set"@,
{
}

/// The model of options has each of them.
pub proof fn law_models_keep_the_options(options: Options, command: Command)
    ensures
        options@.json_output == options.json_output,
        options@.raw_output == options.raw_output,
        options@.token_file == optional_text(options.token_file),
        command matches Command::Check(kept) ==> command@ == CommandView::Check(kept@),
        command matches Command::History { last } ==> command@ == (CommandView::History { last }),
{
}

/// The model of a location is the same kind of location, with every step in its
/// place.
pub proof fn law_models_keep_the_location(location: Location)
    ensures
        location matches Location::At(path) ==> location@ == LocationView::At(path@),
        location matches Location::UnderHome(steps) ==> {
            &&& location@ matches LocationView::UnderHome(kept)
            &&& kept.len() == steps@.len()
            &&& forall|i: int| 0 <= i < kept.len() ==> #[trigger] kept[i] == steps@[i]@
        },
{
}

/// The model of an error is the same fault, about the same argument.
pub proof fn law_models_keep_the_error(text: String)
    ensures
        CliError::TokenFileNeedsPath@ is TokenFileNeedsPath,
        CliError::TokenFileRepeated@ is TokenFileRepeated,
        CliError::UnknownArgument(text)@ == CliFault::UnknownArgument(text@),
        CliError::JsonWithRaw@ is JsonWithRaw,
        CliError::LastNeedsNumber@ is LastNeedsNumber,
        CliError::LastNotANumber(text)@ == CliFault::LastNotANumber(text@),
        CliError::LastIsZero@ is LastIsZero,
        CliError::UnknownHistoryArgument(text)@ == CliFault::UnknownHistoryArgument(text@),
        CliError::HomeNotSet@ is HomeNotSet,
{
}

} // verus!
