//! Run-wide configuration: the detected framework, the chosen architecture
//! pattern, the forbidden-import rules and the method-length limit.

use crate::ai::SuggestedRule;
use crate::json::{
    json_is_valid, json_number, json_number_at, json_pairs, json_pairs_at, json_parses, json_text,
    json_text_at, pair_texts,
};
use vstd::prelude::*;

verus! {

/// Web framework of the project under analysis.
#[derive(Debug, Clone, Copy, PartialEq, Eq, Structural)]
pub enum Framework {
    NestJS,
    React,
    Angular,
    Express,
    Unknown,
}

impl Framework {
    /// The display name of a framework.
    pub open spec fn name(self) -> Seq<char> {
        match self {
            Framework::NestJS => "NestJS"@,
            Framework::React => "React"@,
            Framework::Angular => "Angular"@,
            Framework::Express => "Express"@,
            Framework::Unknown => "Unknown"@,
        }
    }

    pub fn as_str(&self) -> (s: &str)
        ensures
            s@ == self.name(),
    {
        match self {
            Framework::NestJS => "NestJS",
            Framework::React => "React",
            Framework::Angular => "Angular",
            Framework::Express => "Express",
            Framework::Unknown => "Unknown",
        }
    }

    /// The framework chosen at position `index` of the selection menu
    /// (NestJS, React, Angular, Express, Unknown); any later position is
    /// `Unknown`.
    pub fn from_index(index: usize) -> (f: Framework)
        ensures
            f == (if index == 0 {
                Framework::NestJS
            } else if index == 1 {
                Framework::React
            } else if index == 2 {
                Framework::Angular
            } else if index == 3 {
                Framework::Express
            } else {
                Framework::Unknown
            }),
    {
        if index == 0 {
            Framework::NestJS
        } else if index == 1 {
            Framework::React
        } else if index == 2 {
            Framework::Angular
        } else if index == 3 {
            Framework::Express
        } else {
            Framework::Unknown
        }
    }
}

/// Architecture pattern recorded in the configuration. It is carried along
/// and never consulted by the checks.
#[derive(Debug, Clone, Copy, PartialEq, Eq, Structural)]
pub enum ArchPattern {
    Hexagonal,
    Clean,
    MVC,
    Ninguno,
}

impl ArchPattern {
    /// The pattern that a configuration file's `architecture_pattern` text
    /// selects: each pattern by its name, `MVC` for anything else.
    pub open spec fn of_name(name: Seq<char>) -> ArchPattern {
        if name == "Hexagonal"@ {
            ArchPattern::Hexagonal
        } else if name == "Clean"@ {
            ArchPattern::Clean
        } else if name == "Ninguno"@ {
            ArchPattern::Ninguno
        } else {
            ArchPattern::MVC
        }
    }

    pub fn from_name(name: &str) -> (p: ArchPattern)
        ensures
            p == Self::of_name(name@),
    {
        if crate::text::same_text(name, "Hexagonal") {
            ArchPattern::Hexagonal
        } else if crate::text::same_text(name, "Clean") {
            ArchPattern::Clean
        } else if crate::text::same_text(name, "Ninguno") {
            ArchPattern::Ninguno
        } else {
            ArchPattern::MVC
        }
    }

    /// The pattern chosen at position `index` of the selection menu
    /// (Hexagonal, Clean, MVC, Ninguno); any later position is `Ninguno`.
    pub fn from_index(index: usize) -> (p: ArchPattern)
        ensures
            p == (if index == 0 {
                ArchPattern::Hexagonal
            } else if index == 1 {
                ArchPattern::Clean
            } else if index == 2 {
                ArchPattern::MVC
            } else {
                ArchPattern::Ninguno
            }),
    {
        if index == 0 {
            ArchPattern::Hexagonal
        } else if index == 1 {
            ArchPattern::Clean
        } else if index == 2 {
            ArchPattern::MVC
        } else {
            ArchPattern::Ninguno
        }
    }
}

/// A forbidden import: a file whose path contains `from` may not import a
/// module whose specifier contains `to`. Both are compared without regard to
/// letter case.
#[derive(Debug)]
pub struct ForbiddenRule {
    pub from: String,
    pub to: String,
}

impl Clone for ForbiddenRule {
    fn clone(&self) -> (r: ForbiddenRule)
        ensures
            r == *self,
    {
        ForbiddenRule { from: self.from.clone(), to: self.to.clone() }
    }
}

/// A service that can be asked to suggest an initial rule set.
#[derive(Debug, Clone, Copy, PartialEq, Eq, Structural)]
pub enum AIProvider {
    Claude,
    Gemini,
    OpenAI,
    Groq,
    Ollama,
    Kimi,
    DeepSeek,
}

/// How to reach one such service.
#[derive(Debug)]
pub struct AIConfig {
    pub name: String,
    pub provider: AIProvider,
    pub api_url: String,
    pub api_key: String,
    pub model: String,
}

impl Clone for AIConfig {
    fn clone(&self) -> (r: AIConfig)
        ensures
            r == *self,
    {
        AIConfig {
            name: self.name.clone(),
            provider: self.provider,
            api_url: self.api_url.clone(),
            api_key: self.api_key.clone(),
            model: self.model.clone(),
        }
    }
}

/// The immutable configuration of one run.
#[derive(Debug)]
pub struct LinterContext {
    pub max_lines: usize,
    pub framework: Framework,
    pub pattern: ArchPattern,
    pub forbidden_imports: Vec<ForbiddenRule>,
}

/// The method-length limit used when the configuration gives none.
pub const DEFAULT_MAX_LINES: usize = 40;

/// Why a configuration could not be used.
#[derive(Debug, Clone, Copy, PartialEq, Eq, Structural)]
pub enum ConfigError {
    /// The configuration text is not JSON.
    Malformed,
}

/// The patterns of a list of rules, as pairs of `from` and `to`.
pub open spec fn rule_texts(rules: Seq<ForbiddenRule>) -> Seq<(Seq<char>, Seq<char>)> {
    Seq::new(rules.len(), |i: int| (rules[i].from@, rules[i].to@))
}

/// The pairs at or after `from` that give both patterns, in order.
pub open spec fn complete_pairs(
    pairs: Seq<(Option<Seq<char>>, Option<Seq<char>>)>,
    from: int,
) -> Seq<(Seq<char>, Seq<char>)>
    decreases pairs.len() - from,
{
    if from < 0 || from >= pairs.len() {
        Seq::empty()
    } else {
        match pairs[from] {
            (Some(a), Some(b)) => seq![(a, b)] + complete_pairs(pairs, from + 1),
            _ => complete_pairs(pairs, from + 1),
        }
    }
}

/// The rules that a list of pairs gives: one for each pair with both
/// patterns, in order. A pair that lacks one is passed over.
pub fn rules_from_pairs(pairs: Vec<(Option<String>, Option<String>)>) -> (rules: Vec<ForbiddenRule>)
    ensures
        rule_texts(rules@) == complete_pairs(pair_texts(pairs@), 0),
{
    let ghost all = pair_texts(pairs@);
    let mut rules: Vec<ForbiddenRule> = Vec::new();
    let mut i: usize = 0;
    while i < pairs.len()
        invariant
            i <= pairs.len(),
            all == pair_texts(pairs@),
            rule_texts(rules@) + complete_pairs(all, i as int) == complete_pairs(all, 0),
        decreases pairs.len() - i,
    {
        let ghost before = rule_texts(rules@);
        match &pairs[i] {
            (Some(from), Some(to)) => {
                rules.push(ForbiddenRule { from: from.clone(), to: to.clone() });
                assert(rule_texts(rules@) =~= before + seq![(from@, to@)]);
                assert(all[i as int] == (Some(from@), Some(to@)));
                assert(rule_texts(rules@) + complete_pairs(all, i + 1) =~= before + complete_pairs(
                    all,
                    i as int,
                ));
            },
            _ => {
                assert(!(all[i as int].0 is Some && all[i as int].1 is Some));
            },
        }
        i += 1;
    }
    assert(rule_texts(rules@) + Seq::<(Seq<char>, Seq<char>)>::empty() =~= rule_texts(rules@));
    rules
}

/// The context that a configuration text describes, given that the text is
/// JSON: the number under `max_lines_per_function`, or the default; the
/// pattern that the text under `architecture_pattern` selects, `MVC` where
/// there is none; and a rule for each item of `forbidden_imports` that has
/// both a `from` and a `to`.
pub open spec fn describes(text: Seq<char>, framework: Framework, ctx: LinterContext) -> bool {
    &&& ctx.framework == framework
    &&& ctx.max_lines == (match json_number_at(text, "max_lines_per_function"@) {
        Some(n) => n as usize,
        None => DEFAULT_MAX_LINES,
    })
    &&& ctx.pattern == (match json_text_at(text, "architecture_pattern"@) {
        Some(name) => ArchPattern::of_name(name),
        None => ArchPattern::MVC,
    })
    &&& rule_texts(ctx.forbidden_imports@) == (match json_pairs_at(
        text,
        "forbidden_imports"@,
        "from"@,
        "to"@,
    ) {
        Some(pairs) => complete_pairs(pairs, 0),
        None => Seq::empty(),
    })
}

/// Reads the context of a run from the text of a configuration file. A text
/// that is not JSON is refused; any other text gives a context, with the
/// defaults in place of what it lacks.
pub fn context_from_json(text: &str, framework: Framework) -> (r: Result<LinterContext, ConfigError>)
    ensures
        match r {
            Ok(ctx) => json_is_valid(text@) && describes(text@, framework, ctx),
            Err(e) => !json_is_valid(text@) && e == ConfigError::Malformed,
        },
{
    if !json_parses(text) {
        return Err(ConfigError::Malformed);
    }
    let max_lines = match json_number(text, "max_lines_per_function") {
        Some(n) => {
            #[verifier::truncate]
            let limit = n as usize;
            limit
        },
        None => DEFAULT_MAX_LINES,
    };
    let pattern = match json_text(text, "architecture_pattern") {
        Some(name) => ArchPattern::from_name(name.as_str()),
        None => ArchPattern::MVC,
    };
    let forbidden_imports = match json_pairs(text, "forbidden_imports", "from", "to") {
        Some(pairs) => rules_from_pairs(pairs),
        None => {
            let none: Vec<ForbiddenRule> = Vec::new();
            assert(rule_texts(none@) =~= Seq::empty());
            none
        },
    };
    Ok(LinterContext { max_lines, framework, pattern, forbidden_imports })
}

/// The rules that the chosen suggestions give: the patterns of each, in
/// order, without its reason.
pub fn rules_from_suggestions(suggestions: Vec<SuggestedRule>) -> (rules: Vec<ForbiddenRule>)
    ensures
        rules@.len() == suggestions@.len(),
        forall|i: int|
            0 <= i < rules@.len() ==> (#[trigger] rules@[i]).from@ == suggestions@[i].from@
                && rules@[i].to@ == suggestions@[i].to@,
{
    let mut rules: Vec<ForbiddenRule> = Vec::new();
    let mut i: usize = 0;
    while i < suggestions.len()
        invariant
            i <= suggestions.len(),
            rules@.len() == i,
            forall|j: int|
                0 <= j < i ==> (#[trigger] rules@[j]).from@ == suggestions@[j].from@
                    && rules@[j].to@ == suggestions@[j].to@,
        decreases suggestions.len() - i,
    {
        rules.push(
            ForbiddenRule { from: suggestions[i].from.clone(), to: suggestions[i].to.clone() },
        );
        i += 1;
    }
    rules
}

/// The context of a project that was set up from suggestions: the chosen
/// rules, the chosen limit, and `MVC` as its pattern.
pub fn context_from_wizard(
    suggestions: Vec<SuggestedRule>,
    max_lines: usize,
    framework: Framework,
) -> (ctx: LinterContext)
    ensures
        ctx.max_lines == max_lines,
        ctx.framework == framework,
        ctx.pattern == ArchPattern::MVC,
        ctx.forbidden_imports@.len() == suggestions@.len(),
        forall|i: int|
            0 <= i < suggestions@.len() ==> (#[trigger] ctx.forbidden_imports@[i]).from@
                == suggestions@[i].from@ && ctx.forbidden_imports@[i].to@ == suggestions@[i].to@,
{
    LinterContext {
        max_lines,
        framework,
        pattern: ArchPattern::MVC,
        forbidden_imports: rules_from_suggestions(suggestions),
    }
}

} // verus!
