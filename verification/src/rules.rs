//! Ordered match rules and first-match-wins target resolution.

use vstd::prelude::*;
use vstd::string::StrSliceExecFns;
use vstd::string::StringExecFns;
use crate::config::BitrateType;
use crate::config::Transcode;
use crate::pattern::CompiledPattern;
use crate::pattern::escape_literal;
use crate::pattern::glob_compiles;
use crate::pattern::glob_regex_of;
use crate::pattern::glob_to_regex;
use crate::pattern::regex_compiles;
use crate::pattern::regex_escaped;
use crate::pattern::regex_match;

verus! {

/// One loaded rule: the compiled patterns of its pattern set, any of which
/// may match, and the target the rule assigns.
#[derive(Debug)]
pub struct TranscodeMatch {
    pub regexes: Vec<CompiledPattern>,
    pub to: Transcode,
}

/// Whether any pattern of `rule` matches the relative path `input`.
pub open spec fn rule_matches(rule: TranscodeMatch, input: Seq<u8>) -> bool {
    exists|i: int|
        0 <= i < rule.regexes@.len() && regex_match(
            rule.regexes@[i].pattern(),
            rule.regexes@[i].case_insensitive(),
            input,
        )
}

/// The target of the first rule whose pattern set matches `input`, or `None`
/// when no rule matches and the file is excluded from the run.
pub open spec fn spec_resolve(rules: Seq<TranscodeMatch>, input: Seq<u8>) -> Option<Transcode>
    decreases rules.len(),
{
    if rules.len() == 0 {
        None
    } else if rule_matches(rules[0], input) {
        Some(rules[0].to)
    } else {
        spec_resolve(rules.drop_first(), input)
    }
}

/// Resolves the relative path `input` against `rules` in declaration order.
pub fn resolve(rules: &Vec<TranscodeMatch>, input: &[u8]) -> (r: Option<Transcode>)
    ensures
        r == spec_resolve(rules@, input@),
{
    proof {
        assert(rules@.subrange(0, rules@.len() as int) =~= rules@);
    }
    let mut k: usize = 0;
    while k < rules.len()
        invariant
            0 <= k <= rules@.len(),
            spec_resolve(rules@, input@) == spec_resolve(
                rules@.subrange(k as int, rules@.len() as int),
                input@,
            ),
        decreases rules@.len() - k,
    {
        let ghost tail = rules@.subrange(k as int, rules@.len() as int);
        proof {
            assert(tail[0] == rules@[k as int]);
        }
        let rule = &rules[k];
        let mut j: usize = 0;
        while j < rule.regexes.len()
            invariant
                0 <= j <= rules@[k as int].regexes@.len(),
                0 <= k < rules@.len(),
                *rule == rules@[k as int],
                tail == rules@.subrange(k as int, rules@.len() as int),
                spec_resolve(rules@, input@) == spec_resolve(tail, input@),
                forall|i: int|
                    0 <= i < j ==> !regex_match(
                        rules@[k as int].regexes@[i].pattern(),
                        rules@[k as int].regexes@[i].case_insensitive(),
                        input@,
                    ),
            decreases rules@[k as int].regexes@.len() - j,
        {
            if rule.regexes[j].is_match(input) {
                proof {
                    assert(tail[0] == rules@[k as int]);
                    assert(regex_match(
                        tail[0].regexes@[j as int].pattern(),
                        tail[0].regexes@[j as int].case_insensitive(),
                        input@,
                    ));
                    assert(rule_matches(tail[0], input@));
                }
                return Some(rule.to);
            }
            j += 1;
        }
        proof {
            assert(tail[0] == rules@[k as int]);
            assert(!rule_matches(tail[0], input@));
            assert(tail.drop_first() =~= rules@.subrange(k as int + 1, rules@.len() as int));
        }
        k += 1;
    }
    None
}

/// The run configuration: the `from` and `to` directories (as byte-string
/// paths), the loaded rules in declaration order, and the optional
/// concurrency limit. Immutable once loaded and shared read-only by every
/// job.
#[derive(Debug)]
pub struct Config {
    pub from: Vec<u8>,
    pub to: Vec<u8>,
    pub matches: Vec<TranscodeMatch>,
    pub jobs: Option<usize>,
}

/// One rule as it stands in the configuration, before compilation: at most
/// one of a glob or a free-form regular expression, plus any number of
/// literal extensions. Giving both a glob and a regex to the same rule is
/// ambiguous and rejected at load time.
#[derive(Debug)]
pub struct TranscodeMatchFile {
    pub glob: Option<String>,
    pub regex: Option<String>,
    pub extensions: Vec<String>,
    pub to: Transcode,
}

/// Why loading the rules failed.
#[derive(Debug)]
pub enum ConfigError {
    /// A rule gives both a glob and a free-form regular expression.
    AmbiguousRule,
    /// A pattern of a rule does not compile.
    BadPattern { message: String },
}

/// The abstract kind of a rule's load-time fault.
#[derive(Clone, Copy, Debug, PartialEq, Eq, Structural)]
pub enum RuleFault {
    Ambiguous,
    BadPattern,
}

/// A configured extension may be written with or without its leading dot;
/// the dot the pattern adds is not doubled.
pub open spec fn strip_leading_dot(e: Seq<char>) -> Seq<char> {
    if e.len() > 0 && e[0] == '.' {
        e.drop_first()
    } else {
        e
    }
}

/// The regular expression a literal extension is turned into: the escaped
/// extension (leading dot dropped), preceded by a literal dot, anchored at
/// the end of the path.
pub open spec fn ext_pattern(e: Seq<char>) -> Seq<char> {
    "\\."@ + regex_escaped(strip_leading_dot(e)) + "$"@
}

/// The built-in pattern used when a rule (or the whole rule list) gives no
/// pattern: files ending in `.flac` or `.wav`, case-insensitively.
pub open spec fn default_pattern() -> Seq<char> {
    "\\.(flac|wav)$"@
}

/// The pattern texts (with their case-insensitivity flags) a rule's three
/// pattern slots yield, in slot order.
pub open spec fn listed_patterns(r: TranscodeMatchFile) -> Seq<(Seq<char>, bool)> {
    (match r.glob {
        Some(g) => seq![(glob_regex_of(g@), false)],
        None => Seq::<(Seq<char>, bool)>::empty(),
    }) + (match r.regex {
        Some(x) => seq![(x@, true)],
        None => Seq::<(Seq<char>, bool)>::empty(),
    }) + r.extensions@.map_values(|e: String| (ext_pattern(e@), true))
}

/// The pattern texts a rule compiles to: its own, or the built-in default
/// when it gives none.
pub open spec fn rule_patterns(r: TranscodeMatchFile) -> Seq<(Seq<char>, bool)> {
    if listed_patterns(r).len() == 0 {
        seq![(default_pattern(), true)]
    } else {
        listed_patterns(r)
    }
}

/// The load-time fault of a single rule, if any: ambiguity first, then any
/// pattern that the engines reject.
pub open spec fn rule_fault(r: TranscodeMatchFile) -> Option<RuleFault> {
    if r.glob is Some && r.regex is Some {
        Some(RuleFault::Ambiguous)
    } else if (r.glob matches Some(g) && !glob_compiles(g@)) || (exists|i: int|
        0 <= i < rule_patterns(r).len() && !regex_compiles(
            rule_patterns(r)[i].0,
            rule_patterns(r)[i].1,
        )) {
        Some(RuleFault::BadPattern)
    } else {
        None
    }
}

/// The pattern texts and flags a compiled rule holds.
pub open spec fn rule_view(m: TranscodeMatch) -> Seq<(Seq<char>, bool)> {
    m.regexes@.map_values(|p: CompiledPattern| (p.pattern(), p.case_insensitive()))
}

/// Compiles one configured rule: rejects an ambiguous rule, derives a regex
/// from each pattern slot, and falls back to the built-in default pattern
/// when the rule gives none.
pub fn compile_rule(src: &TranscodeMatchFile) -> (r: Result<TranscodeMatch, ConfigError>)
    ensures
        r is Ok <==> rule_fault(*src) is None,
        r matches Ok(m) ==> rule_view(m) == rule_patterns(*src) && m.to == src.to,
        r matches Err(e) ==> (e is AmbiguousRule <==> rule_fault(*src) == Some(
            RuleFault::Ambiguous,
        )),
{
    if src.glob.is_some() && src.regex.is_some() {
        return Err(ConfigError::AmbiguousRule);
    }
    let ghost listed = listed_patterns(*src);
    let mut pats: Vec<CompiledPattern> = Vec::new();
    match &src.glob {
        Some(g) => {
            proof {
                assert(listed[0] == (glob_regex_of(g@), false));
            }
            let derived = match glob_to_regex(g.as_str()) {
                Ok(d) => d,
                Err(e) => {
                    return Err(ConfigError::BadPattern { message: e.message });
                },
            };
            match CompiledPattern::compile(derived.as_str(), false) {
                Ok(p) => {
                    pats.push(p);
                },
                Err(e) => {
                    proof {
                        assert(!regex_compiles(rule_patterns(*src)[0].0, rule_patterns(*src)[0].1));
                    }
                    return Err(ConfigError::BadPattern { message: e.message });
                },
            }
        },
        None => {},
    }
    match &src.regex {
        Some(x) => {
            proof {
                assert(listed[0] == (x@, true));
            }
            match CompiledPattern::compile(x.as_str(), true) {
                Ok(p) => {
                    pats.push(p);
                },
                Err(e) => {
                    proof {
                        assert(!regex_compiles(rule_patterns(*src)[0].0, rule_patterns(*src)[0].1));
                    }
                    return Err(ConfigError::BadPattern { message: e.message });
                },
            }
        },
        None => {},
    }
    let ghost base = pats@.len() as int;
    proof {
        assert(pats@.map_values(|p: CompiledPattern| (p.pattern(), p.case_insensitive()))
            =~= listed.take(base));
    }
    let mut i: usize = 0;
    while i < src.extensions.len()
        invariant
            0 <= i <= src.extensions@.len(),
            listed == listed_patterns(*src),
            base == listed.len() - src.extensions@.len(),
            0 <= base <= 1,
            pats@.len() == base + i,
            pats@.map_values(|p: CompiledPattern| (p.pattern(), p.case_insensitive())) =~= listed
                .take(base + i),
            src.glob matches Some(g) ==> glob_compiles(g@),
            forall|k: int|
                0 <= k < base + i ==> regex_compiles(#[trigger] listed[k].0, listed[k].1),
        decreases src.extensions@.len() - i,
    {
        let ext = src.extensions[i].as_str();
        let elen = ext.unicode_len();
        let stripped: &str = if elen > 0 && ext.get_char(0) == '.' {
            ext.substring_char(1, elen)
        } else {
            ext
        };
        proof {
            assert(stripped@ =~= strip_leading_dot(src.extensions@[i as int]@));
        }
        let esc = escape_literal(stripped);
        let mut pat = String::from_str("\\.");
        pat.append(esc.as_str());
        pat.append("$");
        proof {
            assert(pat@ =~= ext_pattern(src.extensions@[i as int]@));
            assert(listed[base + i] == (ext_pattern(src.extensions@[i as int]@), true));
        }
        match CompiledPattern::compile(pat.as_str(), true) {
            Ok(p) => {
                pats.push(p);
                proof {
                    assert(pats@.map_values(
                        |p: CompiledPattern| (p.pattern(), p.case_insensitive()),
                    ) =~= listed.take(base + i + 1));
                }
            },
            Err(e) => {
                proof {
                    assert(!regex_compiles(rule_patterns(*src)[base + i].0, rule_patterns(
                        *src,
                    )[base + i].1));
                }
                return Err(ConfigError::BadPattern { message: e.message });
            },
        }
        i += 1;
    }
    if pats.len() == 0 {
        proof {
            assert(listed.len() == 0);
        }
        match CompiledPattern::compile("\\.(flac|wav)$", true) {
            Ok(p) => {
                pats.push(p);
            },
            Err(e) => {
                proof {
                    assert(!regex_compiles(rule_patterns(*src)[0].0, rule_patterns(*src)[0].1));
                }
                return Err(ConfigError::BadPattern { message: e.message });
            },
        }
        let m = TranscodeMatch { regexes: pats, to: src.to };
        proof {
            assert(rule_view(m) =~= rule_patterns(*src));
        }
        return Ok(m);
    }
    let m = TranscodeMatch { regexes: pats, to: src.to };
    proof {
        assert(listed.take(base + src.extensions@.len() as int) =~= listed);
        assert(rule_view(m) =~= rule_patterns(*src));
    }
    Ok(m)
}

/// The first load-time fault in the rule list, if any.
pub open spec fn first_fault(rules: Seq<TranscodeMatchFile>) -> Option<RuleFault>
    decreases rules.len(),
{
    if rules.len() == 0 {
        None
    } else if rule_fault(rules[0]) is Some {
        rule_fault(rules[0])
    } else {
        first_fault(rules.drop_first())
    }
}

/// Compiles the whole configured rule list in order, stopping at the first
/// faulty rule. An empty list yields the single built-in rule: the default
/// pattern targeting the default Opus encode.
pub fn compile_matches(srcs: &Vec<TranscodeMatchFile>) -> (r: Result<
    Vec<TranscodeMatch>,
    ConfigError,
>)
    ensures
        srcs@.len() > 0 ==> (r is Ok <==> first_fault(srcs@) is None),
        srcs@.len() > 0 ==> (r matches Err(e) ==> (e is AmbiguousRule <==> first_fault(srcs@)
            == Some(RuleFault::Ambiguous))),
        srcs@.len() > 0 ==> (r matches Ok(ms) ==> ms@.len() == srcs@.len() && (forall|k: int|
            0 <= k < srcs@.len() ==> rule_view(#[trigger] ms@[k]) == rule_patterns(srcs@[k])
                && ms@[k].to == srcs@[k].to)),
        srcs@.len() == 0 ==> (r is Ok <==> regex_compiles(default_pattern(), true)),
        srcs@.len() == 0 ==> (r matches Ok(ms) ==> ms@.len() == 1 && rule_view(ms@[0]) == seq![
            (default_pattern(), true),
        ] && ms@[0].to == (Transcode::Opus { bitrate: 160, bitrate_type: BitrateType::Vbr })),
        srcs@.len() == 0 ==> (r matches Err(e) ==> e is BadPattern),
{
    if srcs.len() == 0 {
        match CompiledPattern::compile("\\.(flac|wav)$", true) {
            Ok(p) => {
                let mut pats: Vec<CompiledPattern> = Vec::new();
                pats.push(p);
                let m = TranscodeMatch { regexes: pats, to: Transcode::default() };
                proof {
                    assert(rule_view(m) =~= seq![(default_pattern(), true)]);
                }
                let mut out: Vec<TranscodeMatch> = Vec::new();
                out.push(m);
                return Ok(out);
            },
            Err(e) => {
                return Err(ConfigError::BadPattern { message: e.message });
            },
        }
    }
    proof {
        assert(srcs@.subrange(0, srcs@.len() as int) =~= srcs@);
    }
    let mut out: Vec<TranscodeMatch> = Vec::new();
    let mut k: usize = 0;
    while k < srcs.len()
        invariant
            0 <= k <= srcs@.len(),
            out@.len() == k,
            first_fault(srcs@) == first_fault(srcs@.subrange(k as int, srcs@.len() as int)),
            forall|j: int|
                0 <= j < k ==> rule_fault(#[trigger] srcs@[j]) is None,
            forall|j: int|
                0 <= j < k ==> rule_view(#[trigger] out@[j]) == rule_patterns(srcs@[j])
                    && out@[j].to == srcs@[j].to,
        decreases srcs@.len() - k,
    {
        let ghost tail = srcs@.subrange(k as int, srcs@.len() as int);
        proof {
            assert(tail[0] == srcs@[k as int]);
            assert(tail.drop_first() =~= srcs@.subrange(k as int + 1, srcs@.len() as int));
        }
        match compile_rule(&srcs[k]) {
            Ok(m) => {
                out.push(m);
            },
            Err(e) => {
                proof {
                    assert(first_fault(tail) == rule_fault(srcs@[k as int]));
                }
                return Err(e);
            },
        }
        k += 1;
    }
    proof {
        assert(srcs@.subrange(srcs@.len() as int, srcs@.len() as int) =~= Seq::<
            TranscodeMatchFile,
        >::empty());
    }
    Ok(out)
}

/// First match wins: when a file matches rule `i` and also some later rule
/// `j`, and no rule before `i` matches it, the resolved target is rule `i`'s
/// — the later match never takes part.
pub proof fn lemma_first_match_wins(rules: Seq<TranscodeMatch>, input: Seq<u8>, i: int, j: int)
    requires
        0 <= i < j < rules.len(),
        rule_matches(rules[i], input),
        rule_matches(rules[j], input),
        forall|k: int| 0 <= k < i ==> !rule_matches(rules[k], input),
    ensures
        spec_resolve(rules, input) == Some(rules[i].to),
    decreases i,
{
    if i == 0 {
    } else {
        lemma_first_match_wins(rules.drop_first(), input, i - 1, j - 1);
    }
}

} // verus!
