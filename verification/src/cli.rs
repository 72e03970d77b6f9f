use vstd::prelude::*;

verus! {

/// One parsed command-line request: a Pokémon lookup with its display
/// switches, a type lookup with its display switches and optional matchup
/// types, or a nature lookup.
#[derive(Debug, Clone)]
pub enum Request {
    PokemonLookup {
        name: String,
        show_stats: bool,
        show_ability: bool,
        show_basic: bool,
        show_all: bool,
    },
    TypeLookup {
        name: String,
        show_defense: bool,
        show_offense: bool,
        compare: bool,
        primary: Option<String>,
        secondary: Option<String>,
    },
    NatureLookup { name: String },
}

/// A request with every string read as its character sequence.
pub enum RequestGhost {
    PokemonLookup {
        name: Seq<char>,
        show_stats: bool,
        show_ability: bool,
        show_basic: bool,
        show_all: bool,
    },
    TypeLookup {
        name: Seq<char>,
        show_defense: bool,
        show_offense: bool,
        compare: bool,
        primary: Option<Seq<char>>,
        secondary: Option<Seq<char>>,
    },
    NatureLookup { name: Seq<char> },
}

impl View for Request {
    type V = RequestGhost;

    open spec fn view(&self) -> RequestGhost {
        match self {
            Request::PokemonLookup { name, show_stats, show_ability, show_basic, show_all } => {
                RequestGhost::PokemonLookup {
                    name: name@,
                    show_stats: *show_stats,
                    show_ability: *show_ability,
                    show_basic: *show_basic,
                    show_all: *show_all,
                }
            },
            Request::TypeLookup {
                name,
                show_defense,
                show_offense,
                compare,
                primary,
                secondary,
            } => {
                RequestGhost::TypeLookup {
                    name: name@,
                    show_defense: *show_defense,
                    show_offense: *show_offense,
                    compare: *compare,
                    primary: match primary {
                        Some(p) => Some(p@),
                        None => None,
                    },
                    secondary: match secondary {
                        Some(s) => Some(s@),
                        None => None,
                    },
                }
            },
            Request::NatureLookup { name } => RequestGhost::NatureLookup { name: name@ },
        }
    }
}

/// Every way a command line can fail to parse, each with its own
/// user-facing message.
#[derive(Clone, Copy, Debug, PartialEq, Eq, Structural)]
pub enum UsageError {
    MissingSubcommand,
    UnknownSubcommand,
    MissingName,
    UnexpectedArgument,
    UnknownFlag,
}

impl UsageError {
    /// The exact message that each parse failure prints.
    pub open spec fn spec_message(self) -> Seq<char> {
        match self {
            UsageError::MissingSubcommand => "Expected a subcommand: pokemon, type or nature."@,
            UsageError::UnknownSubcommand => "Unknown subcommand: expected pokemon, type or nature."@,
            UsageError::MissingName => "Expected a name to look up."@,
            UsageError::UnexpectedArgument => "Too many arguments."@,
            UsageError::UnknownFlag => "Unknown flag."@,
        }
    }

    /// The message of this parse failure, exactly as it is printed.
    pub fn message(&self) -> (r: String)
        ensures
            r@ == self.spec_message(),
    {
        match self {
            UsageError::MissingSubcommand => String::from_str(
                "Expected a subcommand: pokemon, type or nature.",
            ),
            UsageError::UnknownSubcommand => String::from_str(
                "Unknown subcommand: expected pokemon, type or nature.",
            ),
            UsageError::MissingName => String::from_str("Expected a name to look up."),
            UsageError::UnexpectedArgument => String::from_str("Too many arguments."),
            UsageError::UnknownFlag => String::from_str("Unknown flag."),
        }
    }
}

/// An argument written as a flag: it starts with a dash.
pub open spec fn is_flag(a: Seq<char>) -> bool {
    a.len() > 0 && a[0] == '-'
}

/// The arguments that are not flags, in order.
pub open spec fn positionals(t: Seq<Seq<char>>) -> Seq<Seq<char>>
    decreases t.len(),
{
    if t.len() == 0 {
        Seq::empty()
    } else if is_flag(t.last()) {
        positionals(t.drop_last())
    } else {
        positionals(t.drop_last()).push(t.last())
    }
}

/// Whether some argument is written as a flag and names the short or the
/// long form.
pub open spec fn has_flag(t: Seq<Seq<char>>, short: Seq<char>, long: Seq<char>) -> bool {
    exists|i: int| 0 <= i < t.len() && is_flag(t[i]) && (t[i] == short || t[i] == long)
}

/// One more argument changes what the earlier ones spell only by what it
/// is itself: a flag that names one of the two forms turns the switch on,
/// anything else leaves it.
proof fn lemma_has_flag_push(s: Seq<Seq<char>>, x: Seq<char>, short: Seq<char>, long: Seq<char>)
    ensures
        has_flag(s.push(x), short, long) == (has_flag(s, short, long) || (is_flag(x) && (x == short
            || x == long))),
{
    if has_flag(s, short, long) {
        let i = choose|i: int| 0 <= i < s.len() && is_flag(s[i]) && (s[i] == short || s[i] == long);
        assert(s.push(x)[i] == s[i]);
    }
    if is_flag(x) && (x == short || x == long) {
        assert(s.push(x)[s.len() as int] == x);
    }
    if has_flag(s.push(x), short, long) {
        let i = choose|i: int|
            0 <= i < s.push(x).len() && is_flag(s.push(x)[i]) && (s.push(x)[i] == short || s.push(
                x,
            )[i] == long);
        if i < s.len() {
            assert(s[i] == s.push(x)[i]);
        } else {
            assert(s.push(x)[i] == x);
        }
    }
}

/// One more argument extends the positionals exactly when it is not a
/// flag.
proof fn lemma_positionals_push(s: Seq<Seq<char>>, x: Seq<char>)
    ensures
        positionals(s.push(x)) == if is_flag(x) {
            positionals(s)
        } else {
            positionals(s).push(x)
        },
{
    assert(s.push(x).drop_last() =~= s);
    assert(s.push(x).last() == x);
}

/// The flags the pokemon subcommand knows.
pub open spec fn known_pokemon_flag(a: Seq<char>) -> bool {
    a == "-s"@ || a == "--stat"@ || a == "-b"@ || a == "--ability"@ || a == "--no-basic"@ || a
        == "-a"@ || a == "--all"@
}

/// The flags the type subcommand knows.
pub open spec fn known_type_flag(a: Seq<char>) -> bool {
    a == "-d"@ || a == "--defense"@ || a == "-o"@ || a == "--offense"@ || a == "-a"@ || a
        == "--against"@
}

/// What the arguments after the pokemon subcommand parse to: a flag the
/// subcommand does not know fails, then exactly one positional name is
/// required; the switches are on when their short or long form occurs,
/// and the basic part is on unless it was switched off.
pub open spec fn parse_pokemon_spec(t: Seq<Seq<char>>) -> Result<RequestGhost, UsageError> {
    if exists|i: int| 0 <= i < t.len() && is_flag(t[i]) && !known_pokemon_flag(t[i]) {
        Err(UsageError::UnknownFlag)
    } else if positionals(t).len() == 0 {
        Err(UsageError::MissingName)
    } else if positionals(t).len() > 1 {
        Err(UsageError::UnexpectedArgument)
    } else {
        Ok(
            RequestGhost::PokemonLookup {
                name: positionals(t)[0],
                show_stats: has_flag(t, "-s"@, "--stat"@),
                show_ability: has_flag(t, "-b"@, "--ability"@),
                show_basic: !has_flag(t, "--no-basic"@, "--no-basic"@),
                show_all: has_flag(t, "-a"@, "--all"@),
            },
        )
    }
}

/// What the arguments after the type subcommand parse to: a flag the
/// subcommand does not know fails, then one to three positionals are
/// required — the name, then the optional primary and secondary matchup
/// types, where a missing position or the sentinel word null means the
/// type is absent.
pub open spec fn parse_type_spec(t: Seq<Seq<char>>) -> Result<RequestGhost, UsageError> {
    if exists|i: int| 0 <= i < t.len() && is_flag(t[i]) && !known_type_flag(t[i]) {
        Err(UsageError::UnknownFlag)
    } else if positionals(t).len() == 0 {
        Err(UsageError::MissingName)
    } else if positionals(t).len() > 3 {
        Err(UsageError::UnexpectedArgument)
    } else {
        Ok(
            RequestGhost::TypeLookup {
                name: positionals(t)[0],
                show_defense: has_flag(t, "-d"@, "--defense"@),
                show_offense: has_flag(t, "-o"@, "--offense"@),
                compare: has_flag(t, "-a"@, "--against"@),
                primary: if positionals(t).len() >= 2 && positionals(t)[1] != "null"@ {
                    Some(positionals(t)[1])
                } else {
                    None
                },
                secondary: if positionals(t).len() >= 3 && positionals(t)[2] != "null"@ {
                    Some(positionals(t)[2])
                } else {
                    None
                },
            },
        )
    }
}

/// What the arguments after the nature subcommand parse to: the
/// subcommand knows no flags, and exactly one positional name is
/// required.
pub open spec fn parse_nature_spec(t: Seq<Seq<char>>) -> Result<RequestGhost, UsageError> {
    if exists|i: int| 0 <= i < t.len() && is_flag(t[i]) {
        Err(UsageError::UnknownFlag)
    } else if positionals(t).len() == 0 {
        Err(UsageError::MissingName)
    } else if positionals(t).len() > 1 {
        Err(UsageError::UnexpectedArgument)
    } else {
        Ok(RequestGhost::NatureLookup { name: positionals(t)[0] })
    }
}

/// What a whole argument list parses to: the first argument picks the
/// subcommand, the rest belong to it.
pub open spec fn parse_spec(args: Seq<Seq<char>>) -> Result<RequestGhost, UsageError> {
    if args.len() == 0 {
        Err(UsageError::MissingSubcommand)
    } else if args[0] == "pokemon"@ {
        parse_pokemon_spec(args.drop_first())
    } else if args[0] == "type"@ {
        parse_type_spec(args.drop_first())
    } else if args[0] == "nature"@ {
        parse_nature_spec(args.drop_first())
    } else {
        Err(UsageError::UnknownSubcommand)
    }
}

/// A parse outcome with its request read as character sequences.
pub open spec fn parse_result_view(r: Result<Request, UsageError>) -> Result<
    RequestGhost,
    UsageError,
> {
    match r {
        Ok(q) => Ok(q@),
        Err(e) => Err(e),
    }
}

/// Whether two strings hold the same characters.
pub fn str_eq(a: &String, b: &str) -> (r: bool)
    ensures
        r == (a@ == b@),
{
    let x = a.as_str();
    let n = x.unicode_len();
    if n != b.unicode_len() {
        return false;
    }
    let mut i: usize = 0;
    while i < n
        invariant
            i <= n,
            n == x@.len() == b@.len(),
            x@ == a@,
            forall|j: int| 0 <= j < i ==> x@[j] == b@[j],
        decreases n - i,
    {
        if x.get_char(i) != b.get_char(i) {
            return false;
        }
        i = i + 1;
    }
    proof {
        assert(a@ =~= b@);
    }
    true
}

/// Whether the argument is written as a flag.
fn starts_with_dash(s: &String) -> (r: bool)
    ensures
        r == is_flag(s@),
{
    let x = s.as_str();
    x.unicode_len() > 0 && x.get_char(0) == '-'
}

/// Parse the arguments after the pokemon subcommand.
fn parse_pokemon(args: &Vec<String>) -> (r: Result<Request, UsageError>)
    requires
        args@.len() >= 1,
    ensures
        parse_result_view(r) == parse_pokemon_spec(args.deep_view().drop_first()),
{
    let ghost t = args.deep_view().drop_first();
    let mut stats = false;
    let mut ability = false;
    let mut no_basic = false;
    let mut all = false;
    let mut pos: Vec<String> = Vec::new();
    let mut i: usize = 1;
    while i < args.len()
        invariant
            1 <= i <= args@.len(),
            t == args.deep_view().drop_first(),
            pos.deep_view() =~= positionals(t.take(i - 1)),
            stats == has_flag(t.take(i - 1), "-s"@, "--stat"@),
            ability == has_flag(t.take(i - 1), "-b"@, "--ability"@),
            no_basic == has_flag(t.take(i - 1), "--no-basic"@, "--no-basic"@),
            all == has_flag(t.take(i - 1), "-a"@, "--all"@),
            forall|j: int| 0 <= j < i - 1 ==> !(is_flag(t[j]) && !known_pokemon_flag(t[j])),
        decreases args@.len() - i,
    {
        let a = &args[i];
        proof {
            assert(t[i - 1] == args.deep_view()[i as int]);
            assert(t.take(i as int) =~= t.take(i - 1).push(t[i - 1]));
        }
        if starts_with_dash(a) {
            let mut known = false;
            if str_eq(a, "-s") || str_eq(a, "--stat") {
                stats = true;
                known = true;
            }
            if str_eq(a, "-b") || str_eq(a, "--ability") {
                ability = true;
                known = true;
            }
            if str_eq(a, "--no-basic") {
                no_basic = true;
                known = true;
            }
            if str_eq(a, "-a") || str_eq(a, "--all") {
                all = true;
                known = true;
            }
            if !known {
                return Err(UsageError::UnknownFlag);
            }
        } else {
            let ghost prev_dv = pos.deep_view();
            pos.push(a.clone());
            proof {
                assert(pos.deep_view() =~= prev_dv.push(t[i - 1]));
            }
        }
        proof {
            lemma_positionals_push(t.take(i - 1), t[i - 1]);
            lemma_has_flag_push(t.take(i - 1), t[i - 1], "-s"@, "--stat"@);
            lemma_has_flag_push(t.take(i - 1), t[i - 1], "-b"@, "--ability"@);
            lemma_has_flag_push(t.take(i - 1), t[i - 1], "--no-basic"@, "--no-basic"@);
            lemma_has_flag_push(t.take(i - 1), t[i - 1], "-a"@, "--all"@);
        }
        i = i + 1;
    }
    proof {
        assert(t.take(args@.len() - 1) =~= t);
    }
    if pos.len() == 0 {
        Err(UsageError::MissingName)
    } else if pos.len() > 1 {
        Err(UsageError::UnexpectedArgument)
    } else {
        Ok(
            Request::PokemonLookup {
                name: pos[0].clone(),
                show_stats: stats,
                show_ability: ability,
                show_basic: !no_basic,
                show_all: all,
            },
        )
    }
}

/// Parse the arguments after the type subcommand.
fn parse_type(args: &Vec<String>) -> (r: Result<Request, UsageError>)
    requires
        args@.len() >= 1,
    ensures
        parse_result_view(r) == parse_type_spec(args.deep_view().drop_first()),
{
    let ghost t = args.deep_view().drop_first();
    let mut defense = false;
    let mut offense = false;
    let mut against = false;
    let mut pos: Vec<String> = Vec::new();
    let mut i: usize = 1;
    while i < args.len()
        invariant
            1 <= i <= args@.len(),
            t == args.deep_view().drop_first(),
            pos.deep_view() =~= positionals(t.take(i - 1)),
            defense == has_flag(t.take(i - 1), "-d"@, "--defense"@),
            offense == has_flag(t.take(i - 1), "-o"@, "--offense"@),
            against == has_flag(t.take(i - 1), "-a"@, "--against"@),
            forall|j: int| 0 <= j < i - 1 ==> !(is_flag(t[j]) && !known_type_flag(t[j])),
        decreases args@.len() - i,
    {
        let a = &args[i];
        proof {
            assert(t[i - 1] == args.deep_view()[i as int]);
            assert(t.take(i as int) =~= t.take(i - 1).push(t[i - 1]));
        }
        if starts_with_dash(a) {
            let mut known = false;
            if str_eq(a, "-d") || str_eq(a, "--defense") {
                defense = true;
                known = true;
            }
            if str_eq(a, "-o") || str_eq(a, "--offense") {
                offense = true;
                known = true;
            }
            if str_eq(a, "-a") || str_eq(a, "--against") {
                against = true;
                known = true;
            }
            if !known {
                return Err(UsageError::UnknownFlag);
            }
        } else {
            let ghost prev_dv = pos.deep_view();
            pos.push(a.clone());
            proof {
                assert(pos.deep_view() =~= prev_dv.push(t[i - 1]));
            }
        }
        proof {
            lemma_positionals_push(t.take(i - 1), t[i - 1]);
            lemma_has_flag_push(t.take(i - 1), t[i - 1], "-d"@, "--defense"@);
            lemma_has_flag_push(t.take(i - 1), t[i - 1], "-o"@, "--offense"@);
            lemma_has_flag_push(t.take(i - 1), t[i - 1], "-a"@, "--against"@);
        }
        i = i + 1;
    }
    proof {
        assert(t.take(args@.len() - 1) =~= t);
    }
    if pos.len() == 0 {
        Err(UsageError::MissingName)
    } else if pos.len() > 3 {
        Err(UsageError::UnexpectedArgument)
    } else {
        let primary: Option<String> = if pos.len() >= 2 && !str_eq(&pos[1], "null") {
            Some(pos[1].clone())
        } else {
            None
        };
        let secondary: Option<String> = if pos.len() >= 3 && !str_eq(&pos[2], "null") {
            Some(pos[2].clone())
        } else {
            None
        };
        Ok(
            Request::TypeLookup {
                name: pos[0].clone(),
                show_defense: defense,
                show_offense: offense,
                compare: against,
                primary,
                secondary,
            },
        )
    }
}

/// Parse the arguments after the nature subcommand.
fn parse_nature(args: &Vec<String>) -> (r: Result<Request, UsageError>)
    requires
        args@.len() >= 1,
    ensures
        parse_result_view(r) == parse_nature_spec(args.deep_view().drop_first()),
{
    let ghost t = args.deep_view().drop_first();
    let mut pos: Vec<String> = Vec::new();
    let mut i: usize = 1;
    while i < args.len()
        invariant
            1 <= i <= args@.len(),
            t == args.deep_view().drop_first(),
            pos.deep_view() =~= positionals(t.take(i - 1)),
            forall|j: int| 0 <= j < i - 1 ==> !is_flag(t[j]),
        decreases args@.len() - i,
    {
        let a = &args[i];
        proof {
            assert(t[i - 1] == args.deep_view()[i as int]);
            assert(t.take(i as int) =~= t.take(i - 1).push(t[i - 1]));
        }
        if starts_with_dash(a) {
            return Err(UsageError::UnknownFlag);
        } else {
            let ghost prev_dv = pos.deep_view();
            pos.push(a.clone());
            proof {
                assert(pos.deep_view() =~= prev_dv.push(t[i - 1]));
            }
        }
        proof {
            lemma_positionals_push(t.take(i - 1), t[i - 1]);
        }
        i = i + 1;
    }
    proof {
        assert(t.take(args@.len() - 1) =~= t);
    }
    if pos.len() == 0 {
        Err(UsageError::MissingName)
    } else if pos.len() > 1 {
        Err(UsageError::UnexpectedArgument)
    } else {
        Ok(Request::NatureLookup { name: pos[0].clone() })
    }
}

/// Parse a whole argument list, the program name already stripped, into
/// exactly one request, or into the usage error that the list earns.
pub fn parse(args: &Vec<String>) -> (r: Result<Request, UsageError>)
    ensures
        parse_result_view(r) == parse_spec(args.deep_view()),
{
    if args.len() == 0 {
        return Err(UsageError::MissingSubcommand);
    }
    proof {
        assert(args.deep_view()[0] == args@[0]@);
    }
    if str_eq(&args[0], "pokemon") {
        parse_pokemon(args)
    } else if str_eq(&args[0], "type") {
        parse_type(args)
    } else if str_eq(&args[0], "nature") {
        parse_nature(args)
    } else {
        Err(UsageError::UnknownSubcommand)
    }
}

} // verus!
