use vstd::prelude::*;
use vstd::string::StringExecFns;
use vstd::utf8::is_ascii_chars;

use tracing_subscriber::filter::Directive;
use tracing_subscriber::filter::ParseError;

verus! {

/// A tracing event recorded by a worker, as it is sent to the orchestrator.
pub struct NewTraceEvent {
    pub level: String,
    pub target: String,
    pub message: String,
}

/// Events carried by the tracing layer.
pub enum TraceEvent {
    NewEvent(NewTraceEvent),
}

/// Why tracing could not be set up.
#[derive(Debug, Clone, Copy, PartialEq, Eq)]
pub enum TraceError {
    /// The level directive was refused by `tracing_subscriber`.
    InvalidDirective,
}

#[verifier::external_type_specification]
#[verifier::external_body]
pub struct ExDirective(Directive);

#[verifier::external_type_specification]
#[verifier::external_body]
pub struct ExDirectiveParseError(ParseError);

/// Whether `tracing_subscriber` accepts `text` as a filter directive.
pub uninterp spec fn directive_parses(text: Seq<char>) -> bool;

/// Whether every character of `s` is a lowercase ASCII letter, and there is
/// at least one.
pub open spec fn is_lower_ascii_word(s: Seq<char>) -> bool {
    s.len() > 0 && forall|i: int| 0 <= i < s.len() ==> 'a' <= #[trigger] s[i] <= 'z'
}

/// Whether `l` names one of the levels `warn`, `info`, `debug` or `trace`.
pub open spec fn is_level_name(l: Seq<char>) -> bool {
    l == "warn"@ || l == "info"@ || l == "debug"@ || l == "trace"@
}

/// Whether `text` has the form `<target>=<level>`, with a target of
/// lowercase ASCII letters and one of the four levels.
pub open spec fn is_target_level(text: Seq<char>) -> bool {
    exists|target: Seq<char>, level: Seq<char>|
        #![trigger is_lower_ascii_word(target), is_level_name(level)]
        is_lower_ascii_word(target) && is_level_name(level) && text == target + "="@ + level
}

/// A parsed filter directive together with the text it was parsed from.
pub struct LevelDirective {
    directive: Directive,
    source: String,
}

impl View for LevelDirective {
    type V = Seq<char>;

    /// The text the directive was parsed from.
    closed spec fn view(&self) -> Seq<char> {
        self.source@
    }
}

impl LevelDirective {
    /// The text the directive was parsed from.
    pub fn source_text(&self) -> (s: String)
        ensures
            s@ == self@,
    {
        self.source.clone()
    }

    /// The parsed directive, for installing in a filter.
    pub fn into_directive(self) -> Directive {
        self.directive
    }
}

/// Parses a filter directive.
///
/// Trusted: calls `<tracing_subscriber::filter::Directive as FromStr>::from_str`.
/// The contract claims that success is a function of the text, named
/// `directive_parses`; that the parsed value remembers its text (only this
/// function builds a `LevelDirective`); and that a text of the form
/// `<target>=<level>`, with a target of lowercase ASCII letters and a level
/// among `warn`, `info`, `debug`, `trace`, is accepted: `Directive::parse`
/// reads the target up to `=`, keeps the rest as the level, and
/// `LevelFilter::from_str` accepts those four names. The parser slices the
/// untrimmed text with indices taken from the trimmed one, which panics on
/// some non-ASCII texts, and parses `[...]` spans and fields with further
/// code; so the text must be ASCII and hold no `[`.
#[verifier::external_body]
fn parse_directive(text: String) -> (res: Result<LevelDirective, ParseError>)
    requires
        is_ascii_chars(text@),
        !text@.contains('['),
    ensures
        res is Ok <==> directive_parses(text@),
        res matches Ok(d) ==> d@ == text@,
        is_target_level(text@) ==> res is Ok,
{
    match text.as_str().parse::<Directive>() {
        Ok(directive) => Ok(LevelDirective { directive, source: text }),
        Err(e) => Err(e),
    }
}

/// The level that a verbosity count selects: one `-v` gives `info`, two
/// give `debug`, three give `trace`, anything else `warn`.
pub open spec fn level_name(verbose_n: u64) -> Seq<char> {
    if verbose_n == 1 {
        "info"@
    } else if verbose_n == 2 {
        "debug"@
    } else if verbose_n == 3 {
        "trace"@
    } else {
        "warn"@
    }
}

/// The filter directive for this crate's own events at a verbosity.
pub open spec fn level_directive(verbose_n: u64) -> Seq<char> {
    "fuzzy="@ + level_name(verbose_n)
}

/// The directive for each verbosity count: one `-v` gives `fuzzy=info`,
/// two give `fuzzy=debug`, three give `fuzzy=trace`, and any other count,
/// none or more than three, gives `fuzzy=warn`.
pub proof fn lemma_level_directive_table(n: u64)
    ensures
        n == 1 ==> level_directive(n) == "fuzzy=info"@,
        n == 2 ==> level_directive(n) == "fuzzy=debug"@,
        n == 3 ==> level_directive(n) == "fuzzy=trace"@,
        n != 1 && n != 2 && n != 3 ==> level_directive(n) == "fuzzy=warn"@,
{
    reveal_strlit("fuzzy=");
    reveal_strlit("info");
    reveal_strlit("debug");
    reveal_strlit("trace");
    reveal_strlit("warn");
    reveal_strlit("fuzzy=info");
    reveal_strlit("fuzzy=debug");
    reveal_strlit("fuzzy=trace");
    reveal_strlit("fuzzy=warn");
    assert("fuzzy="@ + "info"@ =~= "fuzzy=info"@);
    assert("fuzzy="@ + "debug"@ =~= "fuzzy=debug"@);
    assert("fuzzy="@ + "trace"@ =~= "fuzzy=trace"@);
    assert("fuzzy="@ + "warn"@ =~= "fuzzy=warn"@);
}

/// Configures the global tracing subscriber from a verbosity count.
pub struct Tracer {
    verbose_n: u64,
}

impl Tracer {
    /// The verbosity count this tracer was made with.
    pub closed spec fn verbosity(self) -> u64 {
        self.verbose_n
    }

    pub fn new(verbose_n: u64) -> (t: Self)
        ensures
            t.verbosity() == verbose_n,
    {
        Self { verbose_n }
    }

    /// The text of the filter directive that this tracer installs.
    pub fn directive_text(&self) -> (res: String)
        ensures
            res@ == level_directive(self.verbosity()),
            self.verbosity() == 1 ==> res@ == "fuzzy=info"@,
            self.verbosity() == 2 ==> res@ == "fuzzy=debug"@,
            self.verbosity() == 3 ==> res@ == "fuzzy=trace"@,
            self.verbosity() != 1 && self.verbosity() != 2 && self.verbosity() != 3 ==> res@
                == "fuzzy=warn"@,
    {
        proof {
            lemma_level_directive_table(self.verbose_n);
        }
        let level = if self.verbose_n == 1 {
            "info"
        } else if self.verbose_n == 2 {
            "debug"
        } else if self.verbose_n == 3 {
            "trace"
        } else {
            "warn"
        };
        String::from_str("fuzzy=").concat(level)
    }

    /// The parsed filter directive that this tracer installs, parsed from
    /// `directive_text`; it is always accepted.
    pub fn directive(&self) -> (res: Result<LevelDirective, TraceError>)
        ensures
            res is Ok,
            directive_parses(level_directive(self.verbosity())),
            res matches Ok(d) ==> d@ == level_directive(self.verbosity()),
            self.verbosity() == 1 ==> res->Ok_0@ == "fuzzy=info"@,
            self.verbosity() == 2 ==> res->Ok_0@ == "fuzzy=debug"@,
            self.verbosity() == 3 ==> res->Ok_0@ == "fuzzy=trace"@,
            self.verbosity() != 1 && self.verbosity() != 2 && self.verbosity() != 3
                ==> res->Ok_0@ == "fuzzy=warn"@,
    {
        proof {
            lemma_level_directive_table(self.verbose_n);
        }
        let text = self.directive_text();
        proof {
            reveal_strlit("fuzzy=");
            reveal_strlit("fuzzy");
            reveal_strlit("=");
            reveal_strlit("info");
            reveal_strlit("debug");
            reveal_strlit("trace");
            reveal_strlit("warn");
            let target = "fuzzy"@;
            let level = level_name(self.verbosity());
            assert("fuzzy="@ =~= target + "="@);
            assert(text@ =~= target + "="@ + level);
            assert(is_lower_ascii_word(target));
            assert(is_level_name(level));
            assert(is_ascii_chars(text@));
            assert(!text@.contains('['));
        }
        match parse_directive(text) {
            Ok(d) => Ok(d),
            Err(_) => Err(TraceError::InvalidDirective),
        }
    }
}

} // verus!
