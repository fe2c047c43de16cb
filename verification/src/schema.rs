//! The command-line surface: the subcommands and the arguments of each.

use vstd::prelude::*;
use crate::matches::Matches;
use crate::text::same_text;

verus! {

/// The operations that can be selected on the command line.
#[derive(Debug, Clone, Copy, PartialEq, Eq, Structural)]
pub enum Subcommand {
    Init,
    Serve,
    Build,
    Upload,
}

/// One argument of a subcommand.
///
/// An argument with neither a long nor a short form is positional; any
/// other is an option that takes one value.
#[derive(Debug, Clone, Copy, PartialEq, Eq)]
pub struct Flag {
    /// The name under which the argument's value is recorded.
    pub name: &'static str,
    /// The form after `--`, if there is one.
    pub long: Option<&'static str>,
    /// The form after `-`, if there is one.
    pub short: Option<char>,
    /// Whether the command line must give the argument.
    pub required: bool,
    /// The line shown for the argument in help text.
    pub help: &'static str,
}

/// A [`Flag`] as plain values.
pub struct FlagView {
    pub name: Seq<char>,
    pub long: Option<Seq<char>>,
    pub short: Option<char>,
    pub required: bool,
    pub help: Seq<char>,
}

impl View for Flag {
    type V = FlagView;

    open spec fn view(&self) -> FlagView {
        FlagView {
            name: self.name@,
            long: match self.long {
                Some(l) => Some(l@),
                None => None,
            },
            short: self.short,
            required: self.required,
            help: self.help@,
        }
    }
}

impl FlagView {
    /// Whether the argument is given by position, without a `--` or `-`
    /// form.
    pub open spec fn is_positional(self) -> bool {
        self.long is None && self.short is None
    }

    /// A positional argument that may be left out.
    pub open spec fn positional(name: Seq<char>, help: Seq<char>) -> FlagView {
        FlagView { name, long: None, short: None, required: false, help }
    }

    /// An option written as `--` and its own name.
    pub open spec fn long_option(name: Seq<char>, required: bool, help: Seq<char>) -> FlagView {
        FlagView { name, long: Some(name), short: None, required, help }
    }
}

/// The views of a list of flags, in order.
pub open spec fn flag_views(flags: Seq<Flag>) -> Seq<FlagView> {
    flags.map_values(|f: Flag| f@)
}

impl Flag {
    /// A positional argument that may be left out.
    pub fn positional(name: &'static str, help: &'static str) -> (r: Flag)
        ensures
            r@ == FlagView::positional(name@, help@),
    {
        Flag { name, long: None, short: None, required: false, help }
    }

    /// An option written as `--` and its own name.
    pub fn long_option(name: &'static str, required: bool, help: &'static str) -> (r: Flag)
        ensures
            r@ == FlagView::long_option(name@, required, help@),
    {
        Flag { name, long: Some(name), short: None, required, help }
    }

    /// Whether the argument is given by position.
    pub fn is_positional(&self) -> (r: bool)
        ensures
            r == self@.is_positional(),
    {
        self.long.is_none() && self.short.is_none()
    }

    /// Whether the argument is followed by a value of its own: every
    /// argument that is not positional is.
    pub fn takes_value(&self) -> (r: bool)
        ensures
            r == !self@.is_positional(),
    {
        !self.is_positional()
    }
}

impl Subcommand {
    /// The word that selects the subcommand.
    pub open spec fn spec_name(self) -> Seq<char> {
        match self {
            Subcommand::Init => "init"@,
            Subcommand::Serve => "serve"@,
            Subcommand::Build => "build"@,
            Subcommand::Upload => "upload"@,
        }
    }

    /// The subcommand that `name` selects, if it selects one.
    pub open spec fn spec_from_name(name: Seq<char>) -> Option<Subcommand> {
        if name == "init"@ {
            Some(Subcommand::Init)
        } else if name == "serve"@ {
            Some(Subcommand::Serve)
        } else if name == "build"@ {
            Some(Subcommand::Build)
        } else if name == "upload"@ {
            Some(Subcommand::Upload)
        } else {
            None
        }
    }

    /// The one-line description of the subcommand.
    pub open spec fn spec_about(self) -> Seq<char> {
        match self {
            Subcommand::Init => "Creates a new Rojo project"@,
            Subcommand::Serve => "Serves the project's files for use with the Rojo Studio plugin."@,
            Subcommand::Build => "Generates an rbxmx model file from the project."@,
            Subcommand::Upload =>
                "Generates a place or model file out of the project and uploads it to Roblox."@,
        }
    }

    /// The arguments of the subcommand, in the order in which they are
    /// declared.
    pub open spec fn spec_flags(self) -> Seq<FlagView> {
        match self {
            Subcommand::Init => seq![
                FlagView::positional(
                    "PATH"@,
                    "Path to the place to create the project. Defaults to the current directory."@,
                ),
                FlagView::long_option(
                    "kind"@,
                    false,
                    "The kind of project to create, 'place' or 'model'. Defaults to place."@,
                ),
            ],
            Subcommand::Serve => seq![
                FlagView::positional(
                    "PROJECT"@,
                    "Path to the project to serve. Defaults to the current directory."@,
                ),
                FlagView::long_option("port"@, false, "The port to listen on. Defaults to 8000."@),
            ],
            Subcommand::Build => seq![
                FlagView::positional(
                    "PROJECT"@,
                    "Path to the project to serve. Defaults to the current directory."@,
                ),
                FlagView {
                    name: "output"@,
                    long: Some("output"@),
                    short: Some('o'),
                    required: true,
                    help: "Where to output the result."@,
                },
            ],
            Subcommand::Upload => seq![
                FlagView::positional(
                    "PROJECT"@,
                    "Path to the project to upload. Defaults to the current directory."@,
                ),
                FlagView::long_option(
                    "kind"@,
                    false,
                    "The kind of asset to generate, 'place', or 'model'. Defaults to place."@,
                ),
                FlagView::long_option("cookie"@, true, "Security cookie to authenticate with."@),
                FlagView::long_option("asset_id"@, true, "Asset ID to upload to."@),
            ],
        }
    }

    /// Whether `values` gives every argument that the subcommand requires.
    pub open spec fn spec_accepts(self, values: Map<Seq<char>, Seq<char>>) -> bool {
        forall|i: int|
            0 <= i < self.spec_flags().len() && (#[trigger] self.spec_flags()[i]).required
                ==> values.contains_key(self.spec_flags()[i].name)
    }

    /// The four subcommands, in the order in which they are declared.
    pub fn all() -> (r: Vec<Subcommand>)
        ensures
            r@ == seq![Subcommand::Init, Subcommand::Serve, Subcommand::Build, Subcommand::Upload],
    {
        let r = vec![Subcommand::Init, Subcommand::Serve, Subcommand::Build, Subcommand::Upload];
        assert(r@ =~= seq![
            Subcommand::Init,
            Subcommand::Serve,
            Subcommand::Build,
            Subcommand::Upload,
        ]);
        r
    }

    /// The word that selects the subcommand.
    pub fn name(self) -> (r: &'static str)
        ensures
            r@ == self.spec_name(),
    {
        match self {
            Subcommand::Init => "init",
            Subcommand::Serve => "serve",
            Subcommand::Build => "build",
            Subcommand::Upload => "upload",
        }
    }

    /// The subcommand that `name` selects; `None` where `name` is none of
    /// the four words.
    pub fn from_name(name: &str) -> (r: Option<Subcommand>)
        ensures
            r == Self::spec_from_name(name@),
    {
        if same_text(name, "init") {
            Some(Subcommand::Init)
        } else if same_text(name, "serve") {
            Some(Subcommand::Serve)
        } else if same_text(name, "build") {
            Some(Subcommand::Build)
        } else if same_text(name, "upload") {
            Some(Subcommand::Upload)
        } else {
            None
        }
    }

    /// The one-line description of the subcommand.
    pub fn about(self) -> (r: &'static str)
        ensures
            r@ == self.spec_about(),
    {
        match self {
            Subcommand::Init => "Creates a new Rojo project",
            Subcommand::Serve => "Serves the project's files for use with the Rojo Studio plugin.",
            Subcommand::Build => "Generates an rbxmx model file from the project.",
            Subcommand::Upload =>
                "Generates a place or model file out of the project and uploads it to Roblox.",
        }
    }

    /// The arguments of the subcommand, in the order in which they are
    /// declared.
    pub fn flags(self) -> (r: Vec<Flag>)
        ensures
            flag_views(r@) == self.spec_flags(),
    {
        let r = match self {
            Subcommand::Init => vec![
                Flag::positional(
                    "PATH",
                    "Path to the place to create the project. Defaults to the current directory.",
                ),
                Flag::long_option(
                    "kind",
                    false,
                    "The kind of project to create, 'place' or 'model'. Defaults to place.",
                ),
            ],
            Subcommand::Serve => vec![
                Flag::positional(
                    "PROJECT",
                    "Path to the project to serve. Defaults to the current directory.",
                ),
                Flag::long_option("port", false, "The port to listen on. Defaults to 8000."),
            ],
            Subcommand::Build => vec![
                Flag::positional(
                    "PROJECT",
                    "Path to the project to serve. Defaults to the current directory.",
                ),
                Flag {
                    name: "output",
                    long: Some("output"),
                    short: Some('o'),
                    required: true,
                    help: "Where to output the result.",
                },
            ],
            Subcommand::Upload => vec![
                Flag::positional(
                    "PROJECT",
                    "Path to the project to upload. Defaults to the current directory.",
                ),
                Flag::long_option(
                    "kind",
                    false,
                    "The kind of asset to generate, 'place', or 'model'. Defaults to place.",
                ),
                Flag::long_option("cookie", true, "Security cookie to authenticate with."),
                Flag::long_option("asset_id", true, "Asset ID to upload to."),
            ],
        };
        assert(flag_views(r@) =~= self.spec_flags());
        r
    }

    /// Whether `matches` gives every argument that the subcommand requires.
    pub fn accepts(self, matches: &Matches) -> (r: bool)
        ensures
            r == self.spec_accepts(matches@),
    {
        let flags = self.flags();
        let mut i: usize = 0;
        while i < flags.len()
            invariant
                i <= flags@.len(),
                flag_views(flags@) == self.spec_flags(),
                forall|j: int|
                    0 <= j < i && (#[trigger] self.spec_flags()[j]).required
                        ==> matches@.contains_key(self.spec_flags()[j].name),
            decreases flags@.len() - i,
        {
            assert(flag_views(flags@)[i as int] == flags@[i as int]@);
            if flags[i].required && !matches.is_present(flags[i].name) {
                proof {
                    let missing = self.spec_flags()[i as int];
                    assert(missing.required && !matches@.contains_key(missing.name));
                }
                return false;
            }
            i = i + 1;
        }
        true
    }
}

/// Each subcommand is selected by its own word and by no other.
pub proof fn lemma_name_selects(subcommand: Subcommand, name: Seq<char>)
    ensures
        Subcommand::spec_from_name(subcommand.spec_name()) == Some(subcommand),
        Subcommand::spec_from_name(name) == Some(subcommand) ==> name == subcommand.spec_name(),
{
    reveal_strlit("init");
    reveal_strlit("serve");
    reveal_strlit("build");
    reveal_strlit("upload");
    assert("init"@.len() == 4 && "serve"@.len() == 5 && "build"@.len() == 5 && "upload"@.len()
        == 6);
    assert("serve"@[0] != "build"@[0]);
}

/// Only `build` and `upload` require arguments: `build` its output,
/// `upload` its cookie and its asset id.
pub proof fn lemma_required_arguments(subcommand: Subcommand, values: Map<Seq<char>, Seq<char>>)
    ensures
        subcommand.spec_accepts(values) <==> match subcommand {
            Subcommand::Init | Subcommand::Serve => true,
            Subcommand::Build => values.contains_key("output"@),
            Subcommand::Upload => values.contains_key("cookie"@) && values.contains_key(
                "asset_id"@,
            ),
        },
{
    let flags = subcommand.spec_flags();
    match subcommand {
        Subcommand::Init | Subcommand::Serve => {
            assert(!flags[0].required && !flags[1].required);
        },
        Subcommand::Build => {
            assert(!flags[0].required && flags[1].required);
        },
        Subcommand::Upload => {
            assert(!flags[0].required && !flags[1].required && flags[2].required
                && flags[3].required);
        },
    }
}

} // verus!
