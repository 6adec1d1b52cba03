//! The option flags as the command line spells them, read with `getopts`.
use vstd::prelude::*;
use vstd::utf8::{encode_utf8, is_ascii_chars, is_ascii_chars_encode_utf8};
use getopts::{Matches, Options};
use crate::status;
use crate::strings::{lowercase, lowercased, texts_view, trim_end_matches, without_trailing};
use crate::text;

verus! {

#[verifier::external_type_specification]
#[verifier::external_body]
pub struct ExOptions(getopts::Options);

#[verifier::external_type_specification]
#[verifier::external_body]
pub struct ExMatches(getopts::Matches);

/// Used to define a new option flag.
pub struct Option<'a> {
    /// A short option (used with `-`).
    pub short: &'a str,
    /// A long option (used with `--`).
    pub long: &'a str,
    /// A brief description.
    pub description: &'a str,
}

/// The mathematical value of an [`Option`].
pub ghost struct OptionView {
    pub short: Seq<char>,
    pub long: Seq<char>,
    pub description: Seq<char>,
}

impl OptionView {
    /// The flag has a name.
    pub open spec fn named(self) -> bool {
        self.short.len() > 0 || self.long.len() > 0
    }

    /// The names can be registered: the short one is no longer than a byte,
    /// and the long one is not a single byte.
    pub open spec fn registrable(self) -> bool {
        encode_utf8(self.short).len() <= 1 && encode_utf8(self.long).len() != 1
    }
}

impl<'a> View for Option<'a> {
    type V = OptionView;

    open spec fn view(&self) -> OptionView {
        OptionView { short: self.short@, long: self.long@, description: self.description@ }
    }
}

/// The 'dry-run' option flag.
pub open spec fn dryrun_flag() -> OptionView {
    OptionView {
        short: "d"@,
        long: "dry-run"@,
        description: "Do not overwrite any files (verbose)"@,
    }
}

/// The 'help' option flag.
pub open spec fn help_flag() -> OptionView {
    OptionView { short: "h"@, long: "help"@, description: "Output this message"@ }
}

/// The 'interactive' option flag.
pub open spec fn interactive_flag() -> OptionView {
    OptionView {
        short: "i"@,
        long: "interactive"@,
        description: "Prompt before overwriting each file"@,
    }
}

/// The 'recursive' option flag.
pub open spec fn recursive_flag() -> OptionView {
    OptionView {
        short: "r"@,
        long: "recursive"@,
        description: "Recursively descend into directories"@,
    }
}

/// The 'suppress' option flag.
pub open spec fn suppress_flag() -> OptionView {
    OptionView { short: "s"@, long: "suppress"@, description: "Suppress all interaction"@ }
}

/// The 'verbose' option flag.
pub open spec fn verbose_flag() -> OptionView {
    OptionView { short: "V"@, long: "verbose"@, description: "Explain what's being done"@ }
}

/// The 'version' option flag.
pub open spec fn version_flag() -> OptionView {
    OptionView { short: "v"@, long: "version"@, description: "Output version information"@ }
}

/// The option flags of the program, in the order in which they are
/// registered.
pub open spec fn flags() -> Seq<OptionView> {
    seq![
        dryrun_flag(),
        help_flag(),
        interactive_flag(),
        recursive_flag(),
        suppress_flag(),
        verbose_flag(),
        version_flag(),
    ]
}

/// Defines the 'dry-run' option flag.
pub fn dryrun() -> (flag: Option<'static>)
    ensures
        flag@ == dryrun_flag(),
{
    Option { short: "d", long: "dry-run", description: "Do not overwrite any files (verbose)" }
}

/// Defines the 'help' option flag.
pub fn help() -> (flag: Option<'static>)
    ensures
        flag@ == help_flag(),
{
    Option { short: "h", long: "help", description: "Output this message" }
}

/// Defines the 'interactive' option flag.
pub fn interactive() -> (flag: Option<'static>)
    ensures
        flag@ == interactive_flag(),
{
    Option {
        short: "i",
        long: "interactive",
        description: "Prompt before overwriting each file",
    }
}

/// Defines the 'recursive' option flag.
pub fn recursive() -> (flag: Option<'static>)
    ensures
        flag@ == recursive_flag(),
{
    Option {
        short: "r",
        long: "recursive",
        description: "Recursively descend into directories",
    }
}

/// Defines the 'suppress' option flag.
pub fn suppress() -> (flag: Option<'static>)
    ensures
        flag@ == suppress_flag(),
{
    Option { short: "s", long: "suppress", description: "Suppress all interaction" }
}

/// Defines the 'verbose' option flag.
pub fn verbose() -> (flag: Option<'static>)
    ensures
        flag@ == verbose_flag(),
{
    Option { short: "V", long: "verbose", description: "Explain what's being done" }
}

/// Defines the 'version' option flag.
pub fn version() -> (flag: Option<'static>)
    ensures
        flag@ == version_flag(),
{
    Option { short: "v", long: "version", description: "Output version information" }
}

/// The flags that a set of options holds, as short name, long name and
/// description, in the order in which they were registered.
pub uninterp spec fn declared(options: Options) -> Seq<OptionView>;

/// The names, short and long, that a set of matches knows.
pub uninterp spec fn defined(matches: Matches) -> Set<Seq<char>>;

/// The names, short and long, of the flags that were matched.
pub uninterp spec fn present(matches: Matches) -> Set<Seq<char>>;

/// Whether a set of options is a plain one: it parses in the style that
/// `getopts` starts with, and holds nothing but flags that may be absent and
/// take no argument.
pub uninterp spec fn plain(options: Options) -> bool;

/// What `getopts::Options::parse` makes of the arguments when the set of
/// options is a plain one with these flags: the names of the flags that
/// were matched, or what it says of the arguments that it does not take.
pub uninterp spec fn parsed(flags: Seq<OptionView>, args: Seq<Seq<char>>) -> Result<
    Set<Seq<char>>,
    Seq<char>,
>;

/// `getopts::Options::new`: a blank set of options, which is a plain one.
#[verifier::external_body]
fn blank() -> (options: Options)
    ensures
        declared(options) == Seq::<OptionView>::empty(),
        plain(options),
{
    Options::new()
}

/// `getopts::Options::optflag`: registers one more flag, which may be
/// absent and takes no argument, so that a plain set of options stays one.
/// It panics on a short name of more than one byte and on a long name of
/// one byte.
#[verifier::external_body]
fn optflag(options: &mut Options, short: &str, long: &str, description: &str)
    requires
        encode_utf8(short@).len() <= 1,
        encode_utf8(long@).len() != 1,
    ensures
        declared(*final(options)) == declared(*old(options)).push(
            OptionView { short: short@, long: long@, description: description@ },
        ),
        plain(*final(options)) == plain(*old(options)),
{
    options.optflag(short, long, description);
}

/// `getopts::Options::parse`, with a failure turned into the text that it
/// displays. It panics on a flag without any name. The matches that come
/// back know every name of every flag. For a plain set of options the
/// outcome is named by the flags and the arguments.
#[verifier::external_body]
fn parse_args(options: &Options, args: &[String]) -> (result: Result<Matches, String>)
    requires
        forall|i: int| 0 <= i < declared(*options).len() ==> (#[trigger] declared(*options)[i]).named(),
    ensures
        plain(*options) ==> outcome_of(result) == parsed(declared(*options), texts_view(args@)),
        result matches Ok(matches) ==> forall|i: int|
            #![trigger declared(*options)[i]]
            0 <= i < declared(*options).len() ==> {
                &&& declared(*options)[i].short.len() > 0 ==> defined(matches).contains(
                    declared(*options)[i].short,
                )
                &&& declared(*options)[i].long.len() > 0 ==> defined(matches).contains(
                    declared(*options)[i].long,
                )
            },
{
    match options.parse(args) {
        Ok(matches) => Ok(matches),
        Err(fail) => Err(fail.to_string()),
    }
}

/// What a parse came to: the names of the flags that were matched, or what
/// is said of the arguments that were not taken.
pub open spec fn outcome_of(result: Result<Matches, String>) -> Result<Set<Seq<char>>, Seq<char>> {
    match result {
        Ok(matches) => Ok(present(matches)),
        Err(message) => Err(message@),
    }
}

/// The matches know every name of every flag.
pub open spec fn knows(matches: Matches, flags: Seq<OptionView>) -> bool {
    forall|i: int|
        #![trigger flags[i]]
        0 <= i < flags.len() ==> {
            &&& flags[i].short.len() > 0 ==> defined(matches).contains(flags[i].short)
            &&& flags[i].long.len() > 0 ==> defined(matches).contains(flags[i].long)
        }
}

/// `getopts::Matches::opt_present`: whether the flag of that name was
/// matched. It panics on a name that the matches do not know.
#[verifier::external_body]
fn opt_present(matches: &Matches, name: &str) -> (matched: bool)
    requires
        defined(*matches).contains(name@),
    ensures
        matched == present(*matches).contains(name@),
{
    matches.opt_present(name)
}

/// An ASCII text takes as many bytes as it has characters.
proof fn lemma_ascii_bytes(name: Seq<char>)
    requires
        is_ascii_chars(name),
    ensures
        encode_utf8(name).len() == name.len(),
{
    is_ascii_chars_encode_utf8(name);
}

/// Registers one flag.
fn register(options: &mut Options, flag: Option<'static>)
    requires
        flag@.registrable(),
    ensures
        declared(*final(options)) == declared(*old(options)).push(flag@),
        plain(*final(options)) == plain(*old(options)),
{
    optflag(options, flag.short, flag.long, flag.description);
}

/// The names of the program's flags can be registered, and each flag has
/// both names.
pub proof fn lemma_flags_registrable()
    ensures
        forall|i: int| 0 <= i < flags().len() ==> (#[trigger] flags()[i]).registrable(),
        forall|i: int|
            0 <= i < flags().len() ==> (#[trigger] flags()[i]).short.len() == 1 && flags()[i].long.len()
                > 1,
{
    reveal_strlit("d");
    reveal_strlit("dry-run");
    reveal_strlit("h");
    reveal_strlit("help");
    reveal_strlit("i");
    reveal_strlit("interactive");
    reveal_strlit("r");
    reveal_strlit("recursive");
    reveal_strlit("s");
    reveal_strlit("suppress");
    reveal_strlit("V");
    reveal_strlit("verbose");
    reveal_strlit("v");
    reveal_strlit("version");
    assert forall|i: int| 0 <= i < flags().len() implies (#[trigger] flags()[i]).registrable()
        && flags()[i].short.len() == 1 && flags()[i].long.len() > 1 by {
        let flag = flags()[i];
        assert(is_ascii_chars(flag.short));
        assert(is_ascii_chars(flag.long));
        lemma_ascii_bytes(flag.short);
        lemma_ascii_bytes(flag.long);
    }
}

/// Initializes a set of options from the option definitions.
pub fn create() -> (options: Options)
    ensures
        declared(options) == flags(),
        plain(options),
{
    proof {
        lemma_flags_registrable();
    }
    let mut options = blank();
    assert(dryrun_flag() == flags()[0]);
    register(&mut options, dryrun());
    assert(help_flag() == flags()[1]);
    register(&mut options, help());
    assert(interactive_flag() == flags()[2]);
    register(&mut options, interactive());
    assert(recursive_flag() == flags()[3]);
    register(&mut options, recursive());
    assert(suppress_flag() == flags()[4]);
    register(&mut options, suppress());
    assert(verbose_flag() == flags()[5]);
    register(&mut options, verbose());
    assert(version_flag() == flags()[6]);
    register(&mut options, version());
    assert(declared(options) =~= flags());
    options
}

/// A message of `getopts` in the program's own style: in lowercase, and
/// without a full stop at its end.
pub open spec fn reformatted(message: Seq<char>) -> Seq<char> {
    without_trailing(lowercased(message), '.')
}

/// What is said of arguments that were not taken: the complaint in the
/// program's own style, and the hint at the help message on a line of its
/// own.
pub open spec fn complaint(message: Seq<char>) -> Seq<char> {
    reformatted(message) + "\n"@ + text::HELP@
}

/// Reformats a `getopts` error message.
pub fn reformat(message: &str) -> (said: String)
    ensures
        said@ == reformatted(message@),
{
    let lower = lowercase(message);
    trim_end_matches(lower.as_str(), '.').to_owned()
}

/// What is said of conflicting flags: the two in quotes, and the hint at
/// the help message on a line of its own.
pub open spec fn conflict() -> Seq<char> {
    status::MCONFLICT@ + ": '"@ + interactive_flag().long + "', '"@ + suppress_flag().long + "'\n"@
        + text::HELP@
}

/// Whether the flags matched conflict: `interactive` and `suppress` were
/// both given.
pub open spec fn conflicting(names: Set<Seq<char>>) -> bool {
    names.contains(interactive_flag().short) && names.contains(suppress_flag().short)
}

/// What a parse is turned into for the user: the matches, or the complaint.
pub open spec fn answer_of(outcome: Result<Set<Seq<char>>, Seq<char>>) -> Result<
    Set<Seq<char>>,
    Seq<char>,
> {
    match outcome {
        Ok(names) => Ok(names),
        Err(message) => Err(complaint(message)),
    }
}

/// Parses a set of arguments, the first of which is the program's name,
/// into a set of matches. The matches know every name of every flag. With a
/// plain set of options, what comes back is what `getopts` makes of the
/// arguments after the first, a failure put in the program's own words.
pub fn parse(args: &Vec<String>, options: &Options) -> (result: Result<Matches, String>)
    requires
        args@.len() >= 1,
        forall|i: int| 0 <= i < declared(*options).len() ==> (#[trigger] declared(*options)[i]).named(),
    ensures
        plain(*options) ==> outcome_of(result) == answer_of(
            parsed(declared(*options), texts_view(args@).skip(1)),
        ),
        result matches Ok(matches) ==> knows(matches, declared(*options)),
{
    let rest = vstd::slice::slice_subrange(args.as_slice(), 1, args.len());
    assert(texts_view(rest@) =~= texts_view(args@).skip(1));
    match parse_args(options, rest) {
        Ok(matches) => Ok(matches),
        Err(message) => {
            let mut said = reformat(message.as_str());
            said.append("\n");
            said.append(text::HELP);
            Err(said)
        },
    }
}

/// Looks for conflicts in the set of matches.
pub fn validate(matches: &Matches) -> (result: Result<(), String>)
    requires
        defined(*matches).contains(interactive_flag().short),
        defined(*matches).contains(suppress_flag().short),
    ensures
        match result {
            Ok(_) => !conflicting(present(*matches)),
            Err(message) => conflicting(present(*matches)) && message@ == conflict(),
        },
{
    if opt_present(matches, interactive().short) && opt_present(matches, suppress().short) {
        let mut said = String::from_str(status::MCONFLICT);
        said.append(": '");
        said.append(interactive().long);
        said.append("', '");
        said.append(suppress().long);
        said.append("'\n");
        said.append(text::HELP);
        return Err(said);
    }
    Ok(())
}

/// What reading the arguments of the program comes to: the names of the
/// flags that were matched, if `getopts` takes the arguments and the flags
/// do not conflict, and else what is said to the user.
pub open spec fn read_of(args: Seq<Seq<char>>) -> Result<Set<Seq<char>>, Seq<char>> {
    match parsed(flags(), args) {
        Ok(names) => if conflicting(names) {
            Err(conflict())
        } else {
            Ok(names)
        },
        Err(message) => Err(complaint(message)),
    }
}

/// Reads the arguments of the program, the first of which is its name: the
/// arguments after the first are parsed with the flags of the program, and
/// the matches are looked through for conflicts. Without a first argument
/// there is nothing to read.
pub fn read(args: &Vec<String>) -> (result: core::option::Option<Result<Matches, String>>)
    ensures
        result is None <==> args@.len() == 0,
        result matches Some(answer) ==> outcome_of(answer) == read_of(texts_view(args@).skip(1)),
{
    if args.len() == 0 {
        return None;
    }
    let options = create();
    proof {
        lemma_flags_registrable();
    }
    match parse(args, &options) {
        Ok(matches) => {
            assert(flags()[2] == interactive_flag());
            assert(flags()[4] == suppress_flag());
            match validate(&matches) {
                Ok(_) => Some(Ok(matches)),
                Err(message) => Some(Err(message)),
            }
        },
        Err(message) => Some(Err(message)),
    }
}

} // verus!
