//! The command line: its operations, and the grammar that reads them from
//! the argument list.

use vstd::prelude::*;
use vstd::string::{StrSliceExecFns, StringExecFns};
use crate::text::str_eq;

verus! {

/// A single key, with the message type to decode its value as.
#[derive(Debug)]
pub struct Key {
    pub key: String,
    pub proto: Option<String>,
}

/// A range of keys, with the message type to decode the values as.
#[derive(Debug)]
pub struct Range {
    pub start: String,
    pub end: Option<String>,
    pub proto: Option<String>,
}

/// What an operation works on.
#[derive(Debug)]
pub enum Space {
    Key(Key),
    Range(Range),
}

/// The settings to change; an absent one stays as it is.
#[derive(Debug)]
pub struct SetOpts {
    pub cluster_file: Option<String>,
    pub proto_file: Option<String>,
}

/// What to do with the persisted settings.
#[derive(Debug)]
pub enum Setup {
    Update(SetOpts),
    View,
}

/// The operation asked for.
#[derive(Debug)]
pub enum Opts {
    Delete(Space),
    Get(Space),
    Move,
    Setup(Setup),
    Reset,
}

/// Why an argument list is no operation. `at` is the index of the argument
/// that is at fault, or the length of the list where one is missing.
#[derive(Debug, Clone, Copy, PartialEq, Eq, Structural)]
pub enum ParseError {
    /// The list ends where an operation or a space is expected.
    MissingCommand { at: usize },
    /// The argument names no operation or space.
    UnknownCommand { at: usize },
    /// The option is the last argument and has no value.
    MissingValue { at: usize },
    /// The option was given before.
    DuplicateOption { at: usize },
    /// The argument starts with `-` and is no option of the operation.
    UnknownOption { at: usize },
    /// The argument is a value that the operation has no place for.
    UnexpectedArgument { at: usize },
    /// The list ends without the key, or without the start of the range.
    MissingRequired { at: usize },
}

/// The mathematical value of an optional string.
pub open spec fn opt_view(o: Option<String>) -> Option<Seq<char>> {
    match o {
        Some(s) => Some(s@),
        None => None,
    }
}

/// A key and its message type, as mathematical values.
pub struct KeyView {
    pub key: Seq<char>,
    pub proto: Option<Seq<char>>,
}

/// A range and its message type, as mathematical values.
pub struct RangeView {
    pub start: Seq<char>,
    pub end: Option<Seq<char>>,
    pub proto: Option<Seq<char>>,
}

/// What an operation works on, as a mathematical value.
pub enum SpaceView {
    Key(KeyView),
    Range(RangeView),
}

/// The settings to change, as mathematical values.
pub struct SetOptsView {
    pub cluster_file: Option<Seq<char>>,
    pub proto_file: Option<Seq<char>>,
}

/// What to do with the settings, as a mathematical value.
pub enum SetupView {
    Update(SetOptsView),
    View,
}

/// An operation, as a mathematical value.
pub enum OptsView {
    Delete(SpaceView),
    Get(SpaceView),
    Move,
    Setup(SetupView),
    Reset,
}

impl View for Key {
    type V = KeyView;

    open spec fn view(&self) -> KeyView {
        KeyView { key: self.key@, proto: opt_view(self.proto) }
    }
}

impl View for Range {
    type V = RangeView;

    open spec fn view(&self) -> RangeView {
        RangeView { start: self.start@, end: opt_view(self.end), proto: opt_view(self.proto) }
    }
}

impl View for Space {
    type V = SpaceView;

    open spec fn view(&self) -> SpaceView {
        match self {
            Space::Key(k) => SpaceView::Key(k@),
            Space::Range(r) => SpaceView::Range(r@),
        }
    }
}

impl View for SetOpts {
    type V = SetOptsView;

    open spec fn view(&self) -> SetOptsView {
        SetOptsView {
            cluster_file: opt_view(self.cluster_file),
            proto_file: opt_view(self.proto_file),
        }
    }
}

impl View for Setup {
    type V = SetupView;

    open spec fn view(&self) -> SetupView {
        match self {
            Setup::Update(s) => SetupView::Update(s@),
            Setup::View => SetupView::View,
        }
    }
}

impl View for Opts {
    type V = OptsView;

    open spec fn view(&self) -> OptsView {
        match self {
            Opts::Delete(s) => OptsView::Delete(s@),
            Opts::Get(s) => OptsView::Get(s@),
            Opts::Move => OptsView::Move,
            Opts::Setup(s) => OptsView::Setup(s@),
            Opts::Reset => OptsView::Reset,
        }
    }
}

/// The three sets of options the grammar knows.
#[derive(Clone, Copy, PartialEq, Eq, Structural)]
pub enum OptionSet {
    /// `-p`, `--proto`
    Key,
    /// `-s`, `--start`; `-e`, `--end`; `-p`, `--proto`
    Range,
    /// `-c`, `--cluster-file`; `-p`, `--proto-file`
    Settings,
}

/// The slot that an option fills within its set, if the argument is one.
pub open spec fn option_slot(set: OptionSet, arg: Seq<char>) -> Option<nat> {
    match set {
        OptionSet::Key => if arg == "-p"@ || arg == "--proto"@ {
            Some(0)
        } else {
            None
        },
        OptionSet::Range => if arg == "-s"@ || arg == "--start"@ {
            Some(0)
        } else if arg == "-e"@ || arg == "--end"@ {
            Some(1)
        } else if arg == "-p"@ || arg == "--proto"@ {
            Some(2)
        } else {
            None
        },
        OptionSet::Settings => if arg == "-c"@ || arg == "--cluster-file"@ {
            Some(0)
        } else if arg == "-p"@ || arg == "--proto-file"@ {
            Some(1)
        } else {
            None
        },
    }
}

/// Whether the argument is written as an option.
pub open spec fn is_dashed(arg: Seq<char>) -> bool {
    arg.len() > 0 && arg[0] == '-'
}

/// What has been read of an operation's arguments: the values of up to
/// three options, and the one free-standing value.
pub struct Slots {
    pub options: Seq<Option<Seq<char>>>,
    pub value: Option<Seq<char>>,
}

/// No option and no value read yet.
pub open spec fn empty_slots() -> Slots {
    Slots { options: seq![None, None, None], value: None }
}

/// Reads the arguments from index `i` on into `slots`: an option takes the
/// argument after it as its value, whatever that is; any other argument is
/// the free-standing value, where `takes_value` allows one.
pub open spec fn scan(
    set: OptionSet,
    takes_value: bool,
    args: Seq<Seq<char>>,
    i: nat,
    slots: Slots,
) -> Result<Slots, ParseError>
    decreases args.len() - i,
{
    if i >= args.len() {
        Ok(slots)
    } else {
        match option_slot(set, args[i as int]) {
            Some(k) => if slots.options[k as int] is Some {
                Err(ParseError::DuplicateOption { at: i as usize })
            } else if i + 1 >= args.len() {
                Err(ParseError::MissingValue { at: i as usize })
            } else {
                scan(
                    set,
                    takes_value,
                    args,
                    i + 2,
                    Slots {
                        options: slots.options.update(k as int, Some(args[i as int + 1])),
                        value: slots.value,
                    },
                )
            },
            None => if is_dashed(args[i as int]) {
                Err(ParseError::UnknownOption { at: i as usize })
            } else if !takes_value || slots.value is Some {
                Err(ParseError::UnexpectedArgument { at: i as usize })
            } else {
                scan(
                    set,
                    takes_value,
                    args,
                    i + 1,
                    Slots { options: slots.options, value: Some(args[i as int]) },
                )
            },
        }
    }
}

/// The space named by the argument at index 1 and described by those after.
pub open spec fn parse_space(args: Seq<Seq<char>>) -> Result<SpaceView, ParseError> {
    if args.len() < 2 {
        Err(ParseError::MissingCommand { at: args.len() as usize })
    } else if args[1] == "key"@ {
        match scan(OptionSet::Key, true, args, 2, empty_slots()) {
            Err(e) => Err(e),
            Ok(slots) => match slots.value {
                None => Err(ParseError::MissingRequired { at: args.len() as usize }),
                Some(key) => Ok(SpaceView::Key(KeyView { key, proto: slots.options[0] })),
            },
        }
    } else if args[1] == "range"@ {
        match scan(OptionSet::Range, false, args, 2, empty_slots()) {
            Err(e) => Err(e),
            Ok(slots) => match slots.options[0] {
                None => Err(ParseError::MissingRequired { at: args.len() as usize }),
                Some(start) => Ok(
                    SpaceView::Range(
                        RangeView { start, end: slots.options[1], proto: slots.options[2] },
                    ),
                ),
            },
        }
    } else {
        Err(ParseError::UnknownCommand { at: 1 })
    }
}

/// The operation that an argument list asks for. The list starts at the
/// operation's name: the program's own name is not part of it.
pub open spec fn parse_spec(args: Seq<Seq<char>>) -> Result<OptsView, ParseError> {
    if args.len() < 1 {
        Err(ParseError::MissingCommand { at: 0 })
    } else if args[0] == "delete"@ {
        match parse_space(args) {
            Ok(s) => Ok(OptsView::Delete(s)),
            Err(e) => Err(e),
        }
    } else if args[0] == "get"@ {
        match parse_space(args) {
            Ok(s) => Ok(OptsView::Get(s)),
            Err(e) => Err(e),
        }
    } else if args[0] == "move"@ {
        if args.len() > 1 {
            Err(ParseError::UnexpectedArgument { at: 1 })
        } else {
            Ok(OptsView::Move)
        }
    } else if args[0] == "reset"@ {
        if args.len() > 1 {
            Err(ParseError::UnexpectedArgument { at: 1 })
        } else {
            Ok(OptsView::Reset)
        }
    } else if args[0] == "setup"@ {
        if args.len() < 2 {
            Err(ParseError::MissingCommand { at: 1 })
        } else if args[1] == "view"@ {
            if args.len() > 2 {
                Err(ParseError::UnexpectedArgument { at: 2 })
            } else {
                Ok(OptsView::Setup(SetupView::View))
            }
        } else if args[1] == "set"@ {
            match scan(OptionSet::Settings, false, args, 2, empty_slots()) {
                Err(e) => Err(e),
                Ok(slots) => Ok(
                    OptsView::Setup(
                        SetupView::Update(
                            SetOptsView {
                                cluster_file: slots.options[0],
                                proto_file: slots.options[1],
                            },
                        ),
                    ),
                ),
            }
        } else {
            Err(ParseError::UnknownCommand { at: 1 })
        }
    } else {
        Err(ParseError::UnknownCommand { at: 0 })
    }
}

/// The executable form of `Slots`.
struct Found {
    first: Option<String>,
    second: Option<String>,
    third: Option<String>,
    value: Option<String>,
}

impl View for Found {
    type V = Slots;

    closed spec fn view(&self) -> Slots {
        Slots {
            options: seq![opt_view(self.first), opt_view(self.second), opt_view(self.third)],
            value: opt_view(self.value),
        }
    }
}

fn find_option(set: OptionSet, arg: &str) -> (r: Option<usize>)
    ensures
        match r {
            Some(k) => option_slot(set, arg@) == Some(k as nat) && k < 3,
            None => option_slot(set, arg@) is None,
        },
{
    match set {
        OptionSet::Key => if str_eq(arg, "-p") || str_eq(arg, "--proto") {
            Some(0)
        } else {
            None
        },
        OptionSet::Range => if str_eq(arg, "-s") || str_eq(arg, "--start") {
            Some(0)
        } else if str_eq(arg, "-e") || str_eq(arg, "--end") {
            Some(1)
        } else if str_eq(arg, "-p") || str_eq(arg, "--proto") {
            Some(2)
        } else {
            None
        },
        OptionSet::Settings => if str_eq(arg, "-c") || str_eq(arg, "--cluster-file") {
            Some(0)
        } else if str_eq(arg, "-p") || str_eq(arg, "--proto-file") {
            Some(1)
        } else {
            None
        },
    }
}

fn starts_with_dash(arg: &str) -> (r: bool)
    ensures
        r == is_dashed(arg@),
{
    arg.unicode_len() > 0 && arg.get_char(0) == '-'
}

fn scan_args(set: OptionSet, takes_value: bool, args: &Vec<String>) -> (r: Result<
    Found,
    ParseError,
>)
    requires
        args.len() >= 2,
    ensures
        match r {
            Ok(found) => scan(set, takes_value, args.deep_view(), 2, empty_slots()) == Ok::<
                Slots,
                ParseError,
            >(found@),
            Err(e) => scan(set, takes_value, args.deep_view(), 2, empty_slots()) == Err::<
                Slots,
                ParseError,
            >(e),
        },
{
    let mut found = Found { first: None, second: None, third: None, value: None };
    let mut i: usize = 2;
    assert(found@.options =~= empty_slots().options);
    while i < args.len()
        invariant
            2 <= i,
            scan(set, takes_value, args.deep_view(), 2, empty_slots()) == scan(
                set,
                takes_value,
                args.deep_view(),
                i as nat,
                found@,
            ),
        decreases args.len() - i,
    {
        let ghost before = found@;
        assert(args.deep_view()[i as int] == args[i as int]@);
        let arg = args[i].as_str();
        match find_option(set, arg) {
            Some(k) => {
                let taken = if k == 0 {
                    found.first.is_some()
                } else if k == 1 {
                    found.second.is_some()
                } else {
                    found.third.is_some()
                };
                if taken {
                    return Err(ParseError::DuplicateOption { at: i });
                }
                if i + 1 >= args.len() {
                    return Err(ParseError::MissingValue { at: i });
                }
                assert(args.deep_view()[i + 1] == args[i + 1]@);
                let value = args[i + 1].clone();
                if k == 0 {
                    found.first = Some(value);
                } else if k == 1 {
                    found.second = Some(value);
                } else {
                    found.third = Some(value);
                }
                assert(found@.options =~= before.options.update(
                    k as int,
                    Some(args.deep_view()[i + 1]),
                ));
                i = i + 2;
            },
            None => {
                if starts_with_dash(arg) {
                    return Err(ParseError::UnknownOption { at: i });
                }
                if !takes_value || found.value.is_some() {
                    return Err(ParseError::UnexpectedArgument { at: i });
                }
                found.value = Some(args[i].clone());
                assert(found@.options =~= before.options);
                i = i + 1;
            },
        }
    }
    Ok(found)
}

fn parse_space_args(args: &Vec<String>) -> (r: Result<Space, ParseError>)
    ensures
        match r {
            Ok(s) => parse_space(args.deep_view()) == Ok::<SpaceView, ParseError>(s@),
            Err(e) => parse_space(args.deep_view()) == Err::<SpaceView, ParseError>(e),
        },
{
    if args.len() < 2 {
        return Err(ParseError::MissingCommand { at: args.len() });
    }
    assert(args.deep_view()[1] == args[1]@);
    let name = args[1].as_str();
    if str_eq(name, "key") {
        match scan_args(OptionSet::Key, true, args) {
            Err(e) => Err(e),
            Ok(found) => match found.value {
                None => Err(ParseError::MissingRequired { at: args.len() }),
                Some(key) => Ok(Space::Key(Key { key, proto: found.first })),
            },
        }
    } else if str_eq(name, "range") {
        match scan_args(OptionSet::Range, false, args) {
            Err(e) => Err(e),
            Ok(found) => match found.first {
                None => Err(ParseError::MissingRequired { at: args.len() }),
                Some(start) => Ok(
                    Space::Range(Range { start, end: found.second, proto: found.third }),
                ),
            },
        }
    } else {
        Err(ParseError::UnknownCommand { at: 1 })
    }
}

/// Reads the operation from the argument list, which starts at the
/// operation's name. The result is the one operation that the grammar
/// `parse_spec` gives the list, or the grammar's error for it.
pub fn parse(args: &Vec<String>) -> (r: Result<Opts, ParseError>)
    ensures
        match r {
            Ok(opts) => parse_spec(args.deep_view()) == Ok::<OptsView, ParseError>(opts@),
            Err(e) => parse_spec(args.deep_view()) == Err::<OptsView, ParseError>(e),
        },
{
    if args.len() < 1 {
        return Err(ParseError::MissingCommand { at: 0 });
    }
    assert(args.deep_view()[0] == args[0]@);
    let name = args[0].as_str();
    if str_eq(name, "delete") {
        match parse_space_args(args) {
            Ok(s) => Ok(Opts::Delete(s)),
            Err(e) => Err(e),
        }
    } else if str_eq(name, "get") {
        match parse_space_args(args) {
            Ok(s) => Ok(Opts::Get(s)),
            Err(e) => Err(e),
        }
    } else if str_eq(name, "move") {
        if args.len() > 1 {
            Err(ParseError::UnexpectedArgument { at: 1 })
        } else {
            Ok(Opts::Move)
        }
    } else if str_eq(name, "reset") {
        if args.len() > 1 {
            Err(ParseError::UnexpectedArgument { at: 1 })
        } else {
            Ok(Opts::Reset)
        }
    } else if str_eq(name, "setup") {
        if args.len() < 2 {
            return Err(ParseError::MissingCommand { at: 1 });
        }
        assert(args.deep_view()[1] == args[1]@);
        let what = args[1].as_str();
        if str_eq(what, "view") {
            if args.len() > 2 {
                Err(ParseError::UnexpectedArgument { at: 2 })
            } else {
                Ok(Opts::Setup(Setup::View))
            }
        } else if str_eq(what, "set") {
            match scan_args(OptionSet::Settings, false, args) {
                Err(e) => Err(e),
                Ok(found) => Ok(
                    Opts::Setup(
                        Setup::Update(SetOpts { cluster_file: found.first, proto_file: found.second }),
                    ),
                ),
            }
        } else {
            Err(ParseError::UnknownCommand { at: 1 })
        }
    } else {
        Err(ParseError::UnknownCommand { at: 0 })
    }
}

/// How the tool is called.
pub const USAGE: &'static str =
    "usage: fdb-cli <operation>\n  get key <key> [-p <message>]\n  get range -s <start> [-e <end>] [-p <message>]\n  delete key <key> [-p <message>]\n  delete range -s <start> [-e <end>] [-p <message>]\n  setup set [-c <cluster file>] [-p <schema file>]\n  setup view\n  move\n  reset";

/// The argument at an index, and nothing where the list has none there.
pub open spec fn argument_at(args: Seq<Seq<char>>, at: usize) -> Seq<char> {
    if at < args.len() {
        args[at as int]
    } else {
        Seq::empty()
    }
}

/// What is said of an argument list that is no operation.
pub open spec fn describe_spec(e: ParseError, args: Seq<Seq<char>>) -> Seq<char> {
    match e {
        ParseError::MissingCommand { at } => "an operation is missing"@,
        ParseError::UnknownCommand { at } => "unknown operation `"@ + argument_at(args, at)
            + "`"@,
        ParseError::MissingValue { at } => "`"@ + argument_at(args, at) + "` needs a value"@,
        ParseError::DuplicateOption { at } => "`"@ + argument_at(args, at)
            + "` is given twice"@,
        ParseError::UnknownOption { at } => "unknown option `"@ + argument_at(args, at) + "`"@,
        ParseError::UnexpectedArgument { at } => "unexpected `"@ + argument_at(args, at)
            + "`"@,
        ParseError::MissingRequired { at } => "a required argument is missing"@,
    }
}

fn argument(args: &Vec<String>, at: usize) -> (s: &str)
    ensures
        s@ == argument_at(args.deep_view(), at),
{
    if at < args.len() {
        assert(args.deep_view()[at as int] == args[at as int]@);
        args[at].as_str()
    } else {
        let s = "";
        proof {
            reveal_strlit("");
            assert(s@ =~= Seq::<char>::empty());
        }
        s
    }
}

/// Says why an argument list is no operation.
pub fn describe(e: ParseError, args: &Vec<String>) -> (s: String)
    ensures
        s@ == describe_spec(e, args.deep_view()),
{
    match e {
        ParseError::MissingCommand { at } => String::from_str("an operation is missing"),
        ParseError::UnknownCommand { at } => String::from_str("unknown operation `").concat(
            argument(args, at),
        ).concat("`"),
        ParseError::MissingValue { at } => String::from_str("`").concat(
            argument(args, at),
        ).concat("` needs a value"),
        ParseError::DuplicateOption { at } => String::from_str("`").concat(
            argument(args, at),
        ).concat("` is given twice"),
        ParseError::UnknownOption { at } => String::from_str("unknown option `").concat(
            argument(args, at),
        ).concat("`"),
        ParseError::UnexpectedArgument { at } => String::from_str("unexpected `").concat(
            argument(args, at),
        ).concat("`"),
        ParseError::MissingRequired { at } => String::from_str("a required argument is missing"),
    }
}

} // verus!
