//! The command line: its options, and the grammar by which a list of
//! arguments is read into them.
//!
//! Arguments are read from left to right, after the program name:
//!
//! * `--name` is a long option, `--name=value` a long option with its value
//!   attached;
//! * `-abc` is a cluster of short options. A short option that takes a value
//!   ends the cluster: what follows it in the argument, less one leading
//!   `=`, is its value;
//! * an option that takes a value and has none attached takes the next
//!   argument, which may not look like an option (two or more characters,
//!   the first a hyphen);
//! * `--` ends the options. No argument may follow it, as no argument may
//!   stand alone.
//!
//! No option may be given twice. Reading stops at the first argument that
//! breaks a rule, or that asks for the help text or the version.
//!
//! The options that take a value are `-l`, `--length` and `-q`,
//! `--quantity` (a numeral), `-c`, `--complexity` (the token of a tier) and
//! `--export` (a path). The flags are `-s`, `--special`, `--hide`, `--copy`
//! and `--update`. `-h`, `--help` ask for the help text and `-V`,
//! `--version` for the version.

use vstd::prelude::*;

use crate::complexity::ComplexityEnum;
use crate::error::PasswordError;
use crate::generator::REQUIRED_LENGTH;
use crate::text::{copy_range, numeral_value, parse_usize, reads_as, string_from_chars, to_chars};

verus! {

/// The length of a password where none is asked for.
pub const DEFAULT_LENGTH: usize = 12;

/// The number of passwords where none is asked for.
pub const DEFAULT_QUANTITY: usize = 1;

/// The options of the command line.
#[derive(Debug)]
pub struct Args {
    /// Length of the password.
    pub length: usize,
    /// Number of passwords to generate.
    pub quantity: usize,
    /// Level of complexity.
    pub complexity: ComplexityEnum,
    /// Include special characters.
    pub special: bool,
    /// Hide the passwords from the terminal.
    pub hide: bool,
    /// Copy the passwords to the clipboard.
    pub copy: bool,
    /// Path of the file to export to; empty for none.
    pub export: String,
    /// Update the program from its latest release.
    pub update: bool,
}

/// The options of the command line, as mathematical values.
pub struct ArgsView {
    pub length: usize,
    pub quantity: usize,
    pub complexity: ComplexityEnum,
    pub special: bool,
    pub hide: bool,
    pub copy: bool,
    pub export: Seq<char>,
    pub update: bool,
}

impl View for Args {
    type V = ArgsView;

    open spec fn view(&self) -> ArgsView {
        ArgsView {
            length: self.length,
            quantity: self.quantity,
            complexity: self.complexity,
            special: self.special,
            hide: self.hide,
            copy: self.copy,
            export: self.export@,
            update: self.update,
        }
    }
}

/// Why a list of arguments was not read into options.
#[derive(Debug, Clone, Copy, PartialEq, Eq, Structural)]
pub enum ArgsErrorKind {
    /// The argument names no option, or stands where none may.
    UnknownArgument,
    /// The option takes a value and none follows.
    MissingValue,
    /// The value is no number that fits the machine.
    InvalidValue,
    /// The value names none of the complexity tiers.
    UnsupportedComplexity,
    /// A value is attached to an option that takes none.
    UnexpectedValue,
    /// The option was given before.
    DuplicateArgument,
    /// The help text was asked for.
    DisplayHelp,
    /// The version was asked for.
    DisplayVersion,
}

/// A failure to read the arguments, with the position of the argument at
/// which reading stopped.
#[derive(Debug, Clone, Copy, PartialEq, Eq, Structural)]
pub struct ArgsError {
    pub kind: ArgsErrorKind,
    pub index: usize,
}

/// The options, flags and requests an argument can name.
#[derive(Debug, Clone, Copy, PartialEq, Eq, Structural)]
pub enum Opt {
    Length,
    Quantity,
    Complexity,
    Special,
    Hide,
    Copy,
    Export,
    Update,
    Help,
    Version,
}

/// What has been read so far: the value of each option that was given, and
/// the flags that were set.
pub struct Seen {
    pub length: Option<usize>,
    pub quantity: Option<usize>,
    pub complexity: Option<ComplexityEnum>,
    pub export: Option<Seq<char>>,
    pub special: bool,
    pub hide: bool,
    pub copy: bool,
    pub update: bool,
}

/// The option a long name stands for.
pub open spec fn long_option(name: Seq<char>) -> Option<Opt> {
    if name == "length"@ {
        Some(Opt::Length)
    } else if name == "quantity"@ {
        Some(Opt::Quantity)
    } else if name == "complexity"@ {
        Some(Opt::Complexity)
    } else if name == "special"@ {
        Some(Opt::Special)
    } else if name == "hide"@ {
        Some(Opt::Hide)
    } else if name == "copy"@ {
        Some(Opt::Copy)
    } else if name == "export"@ {
        Some(Opt::Export)
    } else if name == "update"@ {
        Some(Opt::Update)
    } else if name == "help"@ {
        Some(Opt::Help)
    } else if name == "version"@ {
        Some(Opt::Version)
    } else {
        None
    }
}

/// The option a short name stands for.
pub open spec fn short_option(name: char) -> Option<Opt> {
    if name == 'l' {
        Some(Opt::Length)
    } else if name == 'q' {
        Some(Opt::Quantity)
    } else if name == 'c' {
        Some(Opt::Complexity)
    } else if name == 's' {
        Some(Opt::Special)
    } else if name == 'h' {
        Some(Opt::Help)
    } else if name == 'V' {
        Some(Opt::Version)
    } else {
        None
    }
}

/// Whether an option takes a value.
pub open spec fn takes_value(opt: Opt) -> bool {
    opt == Opt::Length || opt == Opt::Quantity || opt == Opt::Complexity || opt == Opt::Export
}

/// Whether an argument looks like an option: two or more characters, the
/// first a hyphen.
pub open spec fn looks_like_option(arg: Seq<char>) -> bool {
    arg.len() >= 2 && arg[0] == '-'
}

/// Whether an argument is `--`, the end of the options.
pub open spec fn is_escape(arg: Seq<char>) -> bool {
    arg.len() == 2 && arg[0] == '-' && arg[1] == '-'
}

/// Whether an argument is a long option: `--` and at least one more
/// character.
pub open spec fn is_long(arg: Seq<char>) -> bool {
    arg.len() > 2 && arg[0] == '-' && arg[1] == '-'
}

/// Whether an argument is a cluster of short options: a hyphen and at least
/// one more character, which is no hyphen.
pub open spec fn is_cluster(arg: Seq<char>) -> bool {
    arg.len() >= 2 && arg[0] == '-' && arg[1] != '-'
}

/// The position of the first `=` of `arg` at or after `from`; the length of
/// `arg` where there is none.
pub open spec fn equals_sign(arg: Seq<char>, from: int) -> int
    decreases arg.len() - from,
{
    if from >= arg.len() {
        arg.len() as int
    } else if arg[from] == '=' {
        from
    } else {
        equals_sign(arg, from + 1)
    }
}

/// The name of a long option: what stands between `--` and the first `=`.
pub open spec fn long_name(arg: Seq<char>) -> Seq<char> {
    arg.subrange(2, equals_sign(arg, 2))
}

/// The value attached to a long option: what follows the first `=`.
pub open spec fn long_value(arg: Seq<char>) -> Option<Seq<char>> {
    let at = equals_sign(arg, 2);
    if at < arg.len() {
        Some(arg.subrange(at + 1, arg.len() as int))
    } else {
        None
    }
}

/// The value attached to the short option at position `at` of a cluster:
/// what follows it, less one leading `=`.
pub open spec fn short_value(arg: Seq<char>, at: int) -> Option<Seq<char>> {
    if at + 1 >= arg.len() {
        None
    } else if arg[at + 1] == '=' {
        Some(arg.subrange(at + 2, arg.len() as int))
    } else {
        Some(arg.subrange(at + 1, arg.len() as int))
    }
}

impl Seen {
    /// Nothing read yet.
    pub open spec fn nothing() -> Seen {
        Seen {
            length: None,
            quantity: None,
            complexity: None,
            export: None,
            special: false,
            hide: false,
            copy: false,
            update: false,
        }
    }

    /// Whether `opt` was given before.
    pub open spec fn given(self, opt: Opt) -> bool {
        match opt {
            Opt::Length => self.length is Some,
            Opt::Quantity => self.quantity is Some,
            Opt::Complexity => self.complexity is Some,
            Opt::Export => self.export is Some,
            Opt::Special => self.special,
            Opt::Hide => self.hide,
            Opt::Copy => self.copy,
            Opt::Update => self.update,
            Opt::Help => false,
            Opt::Version => false,
        }
    }

    /// Records the value of an option that takes one: a numeral for the
    /// length and the quantity, the token of a tier for the complexity, any
    /// text for the export path.
    pub open spec fn with_value(self, opt: Opt, value: Seq<char>) -> Result<Seen, ArgsErrorKind> {
        match opt {
            Opt::Length => match numeral_value(value) {
                Some(n) => Ok(Seen { length: Some(n), ..self }),
                None => Err(ArgsErrorKind::InvalidValue),
            },
            Opt::Quantity => match numeral_value(value) {
                Some(n) => Ok(Seen { quantity: Some(n), ..self }),
                None => Err(ArgsErrorKind::InvalidValue),
            },
            Opt::Complexity => match ComplexityEnum::from_token(value) {
                Some(tier) => Ok(Seen { complexity: Some(tier), ..self }),
                None => Err(ArgsErrorKind::UnsupportedComplexity),
            },
            Opt::Export => Ok(Seen { export: Some(value), ..self }),
            _ => Ok(self),
        }
    }

    /// Sets a flag, or stops for the help text or the version.
    pub open spec fn with_flag(self, opt: Opt) -> Result<Seen, ArgsErrorKind> {
        match opt {
            Opt::Special => Ok(Seen { special: true, ..self }),
            Opt::Hide => Ok(Seen { hide: true, ..self }),
            Opt::Copy => Ok(Seen { copy: true, ..self }),
            Opt::Update => Ok(Seen { update: true, ..self }),
            Opt::Help => Err(ArgsErrorKind::DisplayHelp),
            Opt::Version => Err(ArgsErrorKind::DisplayVersion),
            _ => Ok(self),
        }
    }

    /// The options once all arguments are read: what was given, and the
    /// default of each option that was not. By default one password of
    /// twelve characters is generated, at the `Secure` tier, and nothing is
    /// exported.
    pub open spec fn finish(self) -> ArgsView {
        ArgsView {
            length: match self.length {
                Some(n) => n,
                None => DEFAULT_LENGTH,
            },
            quantity: match self.quantity {
                Some(n) => n,
                None => DEFAULT_QUANTITY,
            },
            complexity: match self.complexity {
                Some(tier) => tier,
                None => ComplexityEnum::Secure,
            },
            special: self.special,
            hide: self.hide,
            copy: self.copy,
            export: match self.export {
                Some(path) => path,
                None => Seq::empty(),
            },
            update: self.update,
        }
    }
}

/// The failure of the given kind at argument `index`.
pub open spec fn failure(kind: ArgsErrorKind, index: int) -> ArgsError {
    ArgsError { kind, index: index as usize }
}

/// Reads the value of the option `opt` found in argument `i`: the attached
/// value if there is one, else the next argument. Gives what has been read
/// then, and the position of the next argument to read.
pub open spec fn read_value(
    args: Seq<Seq<char>>,
    i: int,
    opt: Opt,
    attached: Option<Seq<char>>,
    seen: Seen,
) -> Result<(Seen, int), ArgsError> {
    match attached {
        Some(value) => match seen.with_value(opt, value) {
            Ok(next) => Ok((next, i + 1)),
            Err(kind) => Err(failure(kind, i)),
        },
        None => if i + 1 < args.len() && !looks_like_option(args[i + 1]) {
            match seen.with_value(opt, args[i + 1]) {
                Ok(next) => Ok((next, i + 2)),
                Err(kind) => Err(failure(kind, i + 1)),
            }
        } else {
            Err(failure(ArgsErrorKind::MissingValue, i))
        },
    }
}

/// Reads the arguments from position `i` on.
pub open spec fn read_from(args: Seq<Seq<char>>, i: int, seen: Seen) -> Result<Seen, ArgsError>
    decreases args.len() - i, if 0 <= i < args.len() { args[i].len() + 1 } else { 0 },
{
    if i < 0 || i >= args.len() {
        Ok(seen)
    } else if is_escape(args[i]) {
        if i + 1 < args.len() {
            Err(failure(ArgsErrorKind::UnknownArgument, i + 1))
        } else {
            Ok(seen)
        }
    } else if is_long(args[i]) {
        match long_option(long_name(args[i])) {
            None => Err(failure(ArgsErrorKind::UnknownArgument, i)),
            Some(opt) => if seen.given(opt) {
                Err(failure(ArgsErrorKind::DuplicateArgument, i))
            } else if takes_value(opt) {
                match read_value(args, i, opt, long_value(args[i]), seen) {
                    Ok((next, j)) => read_from(args, j, next),
                    Err(e) => Err(e),
                }
            } else if long_value(args[i]) is Some {
                Err(failure(ArgsErrorKind::UnexpectedValue, i))
            } else {
                match seen.with_flag(opt) {
                    Ok(next) => read_from(args, i + 1, next),
                    Err(kind) => Err(failure(kind, i)),
                }
            },
        }
    } else if is_cluster(args[i]) {
        read_cluster(args, i, 1, seen)
    } else {
        Err(failure(ArgsErrorKind::UnknownArgument, i))
    }
}

/// Reads the cluster of short options in argument `i` from its position
/// `at` on, and the arguments after it.
pub open spec fn read_cluster(args: Seq<Seq<char>>, i: int, at: int, seen: Seen) -> Result<
    Seen,
    ArgsError,
>
    decreases args.len() - i, if 0 <= i < args.len() { args[i].len() - at } else { 0 },
{
    if i < 0 || i >= args.len() {
        Ok(seen)
    } else if at < 0 || at >= args[i].len() {
        read_from(args, i + 1, seen)
    } else {
        match short_option(args[i][at]) {
            None => Err(failure(ArgsErrorKind::UnknownArgument, i)),
            Some(opt) => if seen.given(opt) {
                Err(failure(ArgsErrorKind::DuplicateArgument, i))
            } else if takes_value(opt) {
                match read_value(args, i, opt, short_value(args[i], at), seen) {
                    Ok((next, j)) => read_from(args, j, next),
                    Err(e) => Err(e),
                }
            } else {
                match seen.with_flag(opt) {
                    Ok(next) => read_cluster(args, i, at + 1, next),
                    Err(kind) => Err(failure(kind, i)),
                }
            },
        }
    }
}

/// What a list of arguments reads as. The first argument is the name of the
/// program and is passed over.
pub open spec fn read_args(args: Seq<Seq<char>>) -> Result<ArgsView, ArgsError> {
    match read_from(args, 1, Seen::nothing()) {
        Ok(seen) => Ok(seen.finish()),
        Err(e) => Err(e),
    }
}

/// With no argument after the program name, every option has its default.
pub proof fn lemma_defaults(program: Seq<char>)
    ensures
        read_args(seq![program]) == Ok::<ArgsView, ArgsError>(
            ArgsView {
                length: 12,
                quantity: 1,
                complexity: ComplexityEnum::Secure,
                special: false,
                hide: false,
                copy: false,
                export: Seq::empty(),
                update: false,
            },
        ),
{
}

/// The characters of each argument of a list.
pub open spec fn texts(argv: Seq<&str>) -> Seq<Seq<char>> {
    Seq::new(argv.len(), |i: int| argv[i]@)
}

/// The characters of each argument of a list held as character buffers.
spec fn buffers(args: Seq<Vec<char>>) -> Seq<Seq<char>> {
    Seq::new(args.len(), |i: int| args[i]@)
}

/// What has been read so far, as held while reading.
struct Partial {
    length: Option<usize>,
    quantity: Option<usize>,
    complexity: Option<ComplexityEnum>,
    export: Option<Vec<char>>,
    special: bool,
    hide: bool,
    copy: bool,
    update: bool,
}

impl View for Partial {
    type V = Seen;

    closed spec fn view(&self) -> Seen {
        Seen {
            length: self.length,
            quantity: self.quantity,
            complexity: self.complexity,
            export: match self.export {
                Some(path) => Some(path@),
                None => None,
            },
            special: self.special,
            hide: self.hide,
            copy: self.copy,
            update: self.update,
        }
    }
}

impl Partial {
    fn nothing() -> (seen: Partial)
        ensures
            seen@ == Seen::nothing(),
    {
        Partial {
            length: None,
            quantity: None,
            complexity: None,
            export: None,
            special: false,
            hide: false,
            copy: false,
            update: false,
        }
    }

    fn given(&self, opt: Opt) -> (given: bool)
        ensures
            given == self@.given(opt),
    {
        match opt {
            Opt::Length => self.length.is_some(),
            Opt::Quantity => self.quantity.is_some(),
            Opt::Complexity => self.complexity.is_some(),
            Opt::Export => self.export.is_some(),
            Opt::Special => self.special,
            Opt::Hide => self.hide,
            Opt::Copy => self.copy,
            Opt::Update => self.update,
            Opt::Help => false,
            Opt::Version => false,
        }
    }

    fn with_value(self, opt: Opt, value: Vec<char>) -> (res: Result<Partial, ArgsErrorKind>)
        ensures
            match self@.with_value(opt, value@) {
                Ok(seen) => res matches Ok(next) && next@ == seen,
                Err(kind) => res matches Err(k) && k == kind,
            },
    {
        let mut next = self;
        match opt {
            Opt::Length => match parse_usize(&value) {
                Some(n) => {
                    next.length = Some(n);
                    Ok(next)
                },
                None => Err(ArgsErrorKind::InvalidValue),
            },
            Opt::Quantity => match parse_usize(&value) {
                Some(n) => {
                    next.quantity = Some(n);
                    Ok(next)
                },
                None => Err(ArgsErrorKind::InvalidValue),
            },
            Opt::Complexity => match ComplexityEnum::parse_chars(&value) {
                Ok(tier) => {
                    next.complexity = Some(tier);
                    Ok(next)
                },
                Err(_) => Err(ArgsErrorKind::UnsupportedComplexity),
            },
            Opt::Export => {
                next.export = Some(value);
                Ok(next)
            },
            _ => Ok(next),
        }
    }

    fn with_flag(self, opt: Opt) -> (res: Result<Partial, ArgsErrorKind>)
        ensures
            match self@.with_flag(opt) {
                Ok(seen) => res matches Ok(next) && next@ == seen,
                Err(kind) => res matches Err(k) && k == kind,
            },
    {
        let mut next = self;
        match opt {
            Opt::Special => {
                next.special = true;
                Ok(next)
            },
            Opt::Hide => {
                next.hide = true;
                Ok(next)
            },
            Opt::Copy => {
                next.copy = true;
                Ok(next)
            },
            Opt::Update => {
                next.update = true;
                Ok(next)
            },
            Opt::Help => Err(ArgsErrorKind::DisplayHelp),
            Opt::Version => Err(ArgsErrorKind::DisplayVersion),
            _ => Ok(next),
        }
    }

    fn finish(self) -> (args: Args)
        ensures
            args@ == self@.finish(),
    {
        Args {
            length: match self.length {
                Some(n) => n,
                None => DEFAULT_LENGTH,
            },
            quantity: match self.quantity {
                Some(n) => n,
                None => DEFAULT_QUANTITY,
            },
            complexity: match self.complexity {
                Some(tier) => tier,
                None => ComplexityEnum::Secure,
            },
            special: self.special,
            hide: self.hide,
            copy: self.copy,
            export: match self.export {
                Some(path) => string_from_chars(&path),
                None => String::new(),
            },
            update: self.update,
        }
    }
}

fn find_long(name: &Vec<char>) -> (found: Option<Opt>)
    ensures
        found == long_option(name@),
{
    if reads_as(name, "length") {
        Some(Opt::Length)
    } else if reads_as(name, "quantity") {
        Some(Opt::Quantity)
    } else if reads_as(name, "complexity") {
        Some(Opt::Complexity)
    } else if reads_as(name, "special") {
        Some(Opt::Special)
    } else if reads_as(name, "hide") {
        Some(Opt::Hide)
    } else if reads_as(name, "copy") {
        Some(Opt::Copy)
    } else if reads_as(name, "export") {
        Some(Opt::Export)
    } else if reads_as(name, "update") {
        Some(Opt::Update)
    } else if reads_as(name, "help") {
        Some(Opt::Help)
    } else if reads_as(name, "version") {
        Some(Opt::Version)
    } else {
        None
    }
}

fn find_short(name: char) -> (found: Option<Opt>)
    ensures
        found == short_option(name),
{
    if name == 'l' {
        Some(Opt::Length)
    } else if name == 'q' {
        Some(Opt::Quantity)
    } else if name == 'c' {
        Some(Opt::Complexity)
    } else if name == 's' {
        Some(Opt::Special)
    } else if name == 'h' {
        Some(Opt::Help)
    } else if name == 'V' {
        Some(Opt::Version)
    } else {
        None
    }
}

fn has_value(opt: Opt) -> (takes: bool)
    ensures
        takes == takes_value(opt),
{
    match opt {
        Opt::Length => true,
        Opt::Quantity => true,
        Opt::Complexity => true,
        Opt::Export => true,
        _ => false,
    }
}

fn find_equals_sign(arg: &Vec<char>, from: usize) -> (at: usize)
    requires
        from <= arg.len(),
    ensures
        at == equals_sign(arg@, from as int),
        from <= at <= arg.len(),
{
    let mut at: usize = from;
    while at < arg.len() && arg[at] != '='
        invariant
            from <= at <= arg.len(),
            equals_sign(arg@, from as int) == equals_sign(arg@, at as int),
        decreases arg.len() - at,
    {
        at += 1;
    }
    at
}

fn fail(kind: ArgsErrorKind, index: usize) -> (e: ArgsError)
    ensures
        e == failure(kind, index as int),
{
    ArgsError { kind, index }
}

/// Reads the value of `opt`, found in argument `i`.
fn take_value(
    args: &Vec<Vec<char>>,
    i: usize,
    opt: Opt,
    attached: Option<Vec<char>>,
    seen: Partial,
) -> (res: Result<(Partial, usize), ArgsError>)
    requires
        i < args.len(),
    ensures
        match read_value(
            buffers(args@),
            i as int,
            opt,
            match attached {
                Some(value) => Some(value@),
                None => None,
            },
            seen@,
        ) {
            Ok((next, j)) => res matches Ok((n, k)) && n@ == next && k == j && i < k <= args.len(),
            Err(e) => res matches Err(f) && f == e,
        },
{
    match attached {
        Some(value) => match seen.with_value(opt, value) {
            Ok(next) => Ok((next, i + 1)),
            Err(kind) => Err(fail(kind, i)),
        },
        None => {
            if i + 1 < args.len() && !(args[i + 1].len() >= 2 && args[i + 1][0] == '-') {
                let value = copy_range(&args[i + 1], 0, args[i + 1].len());
                assert(value@ =~= args[i + 1]@);
                match seen.with_value(opt, value) {
                    Ok(next) => Ok((next, i + 2)),
                    Err(kind) => Err(fail(kind, i + 1)),
                }
            } else {
                Err(fail(ArgsErrorKind::MissingValue, i))
            }
        },
    }
}

/// Reads the long option in argument `i`.
fn take_long(args: &Vec<Vec<char>>, i: usize, seen: Partial) -> (res: Result<
    (Partial, usize),
    ArgsError,
>)
    requires
        i < args.len(),
        is_long(args[i as int]@),
    ensures
        match res {
            Ok((next, j)) => i < j <= args.len() && read_from(buffers(args@), i as int, seen@)
                == read_from(buffers(args@), j as int, next@),
            Err(e) => read_from(buffers(args@), i as int, seen@) == Err::<Seen, ArgsError>(e),
        },
{
    let arg = &args[i];
    let at = find_equals_sign(arg, 2);
    let name = copy_range(arg, 2, at);
    match find_long(&name) {
        None => Err(fail(ArgsErrorKind::UnknownArgument, i)),
        Some(opt) => {
            if seen.given(opt) {
                Err(fail(ArgsErrorKind::DuplicateArgument, i))
            } else if has_value(opt) {
                let attached = if at < arg.len() {
                    Some(copy_range(arg, at + 1, arg.len()))
                } else {
                    None
                };
                take_value(args, i, opt, attached, seen)
            } else if at < arg.len() {
                Err(fail(ArgsErrorKind::UnexpectedValue, i))
            } else {
                match seen.with_flag(opt) {
                    Ok(next) => Ok((next, i + 1)),
                    Err(kind) => Err(fail(kind, i)),
                }
            }
        },
    }
}

/// Reads the cluster of short options in argument `i`.
fn take_cluster(args: &Vec<Vec<char>>, i: usize, seen: Partial) -> (res: Result<
    (Partial, usize),
    ArgsError,
>)
    requires
        i < args.len(),
        is_cluster(args[i as int]@),
    ensures
        match res {
            Ok((next, j)) => i < j <= args.len() && read_from(buffers(args@), i as int, seen@)
                == read_from(buffers(args@), j as int, next@),
            Err(e) => read_from(buffers(args@), i as int, seen@) == Err::<Seen, ArgsError>(e),
        },
{
    let ghost whole = read_from(buffers(args@), i as int, seen@);
    let arg = &args[i];
    let mut current = seen;
    let mut at: usize = 1;
    while at < arg.len()
        invariant
            i < args.len(),
            arg == &args[i as int],
            is_cluster(arg@),
            1 <= at <= arg.len(),
            whole == read_from(buffers(args@), i as int, seen@),
            read_cluster(buffers(args@), i as int, at as int, current@) == whole,
        decreases arg.len() - at,
    {
        match find_short(arg[at]) {
            None => {
                return Err(fail(ArgsErrorKind::UnknownArgument, i));
            },
            Some(opt) => {
                if current.given(opt) {
                    return Err(fail(ArgsErrorKind::DuplicateArgument, i));
                } else if has_value(opt) {
                    let attached = if at + 1 >= arg.len() {
                        None
                    } else if arg[at + 1] == '=' {
                        Some(copy_range(arg, at + 2, arg.len()))
                    } else {
                        Some(copy_range(arg, at + 1, arg.len()))
                    };
                    return take_value(args, i, opt, attached, current);
                } else {
                    match current.with_flag(opt) {
                        Ok(next) => {
                            current = next;
                        },
                        Err(kind) => {
                            return Err(fail(kind, i));
                        },
                    }
                }
            },
        }
        at += 1;
    }
    Ok((current, i + 1))
}

impl Args {
    /// Whether the length asked for is one the command line accepts: the
    /// request is turned down with `InvalidLength` exactly when the length
    /// is below `REQUIRED_LENGTH`.
    pub fn check_length(&self) -> (res: Result<(), PasswordError>)
        ensures
            self.length >= REQUIRED_LENGTH ==> res == Ok::<(), PasswordError>(()),
            self.length < REQUIRED_LENGTH ==> res == Err::<(), PasswordError>(
                PasswordError::InvalidLength,
            ),
    {
        if self.length < REQUIRED_LENGTH {
            Err(PasswordError::InvalidLength)
        } else {
            Ok(())
        }
    }

    /// Reads a list of arguments, the program name first, into options.
    ///
    /// Gives exactly what `read_args` says of the arguments: the options
    /// when every argument follows the grammar, else the failure at the
    /// first argument that does not.
    pub fn try_parse_from(argv: &[&str]) -> (res: Result<Args, ArgsError>)
        ensures
            match read_args(texts(argv@)) {
                Ok(options) => res matches Ok(args) && args@ == options,
                Err(e) => res matches Err(f) && f == e,
            },
    {
        let mut args: Vec<Vec<char>> = Vec::new();
        let mut k: usize = 0;
        while k < argv.len()
            invariant
                k <= argv.len(),
                args.len() == k,
                forall|n: int| 0 <= n < k ==> (#[trigger] args[n])@ == argv[n]@,
            decreases argv.len() - k,
        {
            args.push(to_chars(argv[k]));
            k += 1;
        }
        assert(buffers(args@) =~= texts(argv@));

        let ghost whole = read_from(buffers(args@), 1, Seen::nothing());
        let mut seen = Partial::nothing();
        let mut i: usize = 1;
        while i < args.len()
            invariant
                1 <= i,
                buffers(args@) == texts(argv@),
                whole == read_from(buffers(args@), 1, Seen::nothing()),
                read_from(buffers(args@), i as int, seen@) == whole,
            decreases args.len() - i,
        {
            let arg = &args[i];
            if arg.len() >= 2 && arg[0] == '-' {
                let step = if arg[1] != '-' {
                    take_cluster(&args, i, seen)
                } else if arg.len() > 2 {
                    take_long(&args, i, seen)
                } else if i + 1 < args.len() {
                    return Err(fail(ArgsErrorKind::UnknownArgument, i + 1));
                } else {
                    return Ok(seen.finish());
                };
                match step {
                    Ok((next, j)) => {
                        seen = next;
                        i = j;
                    },
                    Err(e) => {
                        return Err(e);
                    },
                }
            } else {
                return Err(fail(ArgsErrorKind::UnknownArgument, i));
            }
        }
        Ok(seen.finish())
    }
}

} // verus!
