//! Pattern matching over decoded text: configured regex fragments are joined
//! into one alternation, compiled once per analysis run, and then asked
//! whether they match anywhere in a given text.

use vstd::prelude::*;
use vstd::string::StringExecFns;

verus! {

#[verifier::external_type_specification]
#[verifier::external_body]
pub struct ExRegex(regex::Regex);

/// Whether `regex::Regex::new` accepts `pattern`.
pub uninterp spec fn regex_compiles(pattern: Seq<char>) -> bool;

/// Whether the regex compiled from `pattern` matches anywhere in `text`.
/// Both are functions of their arguments alone: the regex engine is
/// deterministic in the pattern and the haystack.
pub uninterp spec fn regex_matches(pattern: Seq<char>, text: Seq<char>) -> bool;

/// A compiled pattern together with its source text. The `re` field is always
/// the compilation of `source`: both fields are private and only `new` builds
/// a value.
pub struct CompiledPattern {
    re: regex::Regex,
    source: String,
}

impl CompiledPattern {
    /// The pattern text this value was compiled from.
    pub closed spec fn source_view(self) -> Seq<char> {
        self.source@
    }

    /// Relies on regex::Regex::new: it returns Ok exactly on syntactically
    /// valid patterns, and the compiled value matches per the pattern handed in.
    #[verifier::external_body]
    pub fn new(pattern: &String) -> (r: Option<CompiledPattern>)
        ensures
            r matches Some(c) ==> c.source_view() == pattern@,
            r is Some <==> regex_compiles(pattern@),
    {
        match regex::Regex::new(pattern.as_str()) {
            Ok(re) => Some(CompiledPattern { re, source: pattern.clone() }),
            Err(_) => None,
        }
    }

    /// Relies on regex::Regex::is_match: whether the compiled pattern matches
    /// anywhere in `text`; deterministic in the pattern and the text.
    #[verifier::external_body]
    pub fn is_match(&self, text: &String) -> (r: bool)
        ensures
            r == regex_matches(self.source_view(), text@),
    {
        self.re.is_match(text.as_str())
    }
}

/// A matcher is either a compiled alternation or, for an empty fragment
/// list, one that never matches.
pub enum Matcher {
    Never,
    Compiled(CompiledPattern),
}

/// The pattern a matcher was compiled from; nothing for the never-matching one.
pub open spec fn matcher_view(m: Matcher) -> Option<Seq<char>> {
    match m {
        Matcher::Never => None,
        Matcher::Compiled(c) => Some(c.source_view()),
    }
}

/// What a matcher of the given pattern says of `text`: a missing pattern
/// never matches.
pub open spec fn pattern_matches(mv: Option<Seq<char>>, text: Seq<char>) -> bool {
    match mv {
        None => false,
        Some(p) => regex_matches(p, text),
    }
}

/// Whether the matcher matches anywhere in `text`.
pub fn matcher_is_match(m: &Matcher, text: &String) -> (r: bool)
    ensures
        r == pattern_matches(matcher_view(*m), text@),
{
    match m {
        Matcher::Never => false,
        Matcher::Compiled(c) => c.is_match(text),
    }
}

/// The fragments joined with `|` between consecutive ones.
pub open spec fn spec_join(frags: Seq<Seq<char>>) -> Seq<char>
    decreases frags.len(),
{
    if frags.len() == 0 {
        Seq::empty()
    } else if frags.len() == 1 {
        frags[0]
    } else {
        spec_join(frags.drop_last()) + "|"@ + frags.last()
    }
}

/// The pattern a fragment list compiles to: none for an empty list, which
/// must degrade to "never matches", else the joined alternation.
pub open spec fn spec_pattern_of(frags: Seq<Seq<char>>) -> Option<Seq<char>> {
    if frags.len() == 0 {
        None
    } else {
        Some(spec_join(frags))
    }
}

/// Whether a fragment list yields a matcher: an empty list always does,
/// else the joined alternation has to compile.
pub open spec fn spec_fragments_ok(frags: Seq<Seq<char>>) -> bool {
    frags.len() == 0 || regex_compiles(spec_join(frags))
}

/// Join the fragments with `|` between consecutive ones.
pub fn join_fragments(frags: &Vec<String>) -> (r: String)
    ensures
        r@ == spec_join(frags.deep_view()),
{
    let mut acc = String::new();
    let n: usize = frags.len();
    let mut i: usize = 0;
    while i < n
        invariant
            n == frags@.len(),
            i <= n,
            acc@ == spec_join(frags.deep_view().take(i as int)),
        decreases n - i,
    {
        if i > 0 {
            acc.append("|");
        }
        acc.append(frags[i].as_str());
        proof {
            let fv = frags.deep_view();
            assert(fv.take(i + 1).drop_last() =~= fv.take(i as int));
            assert(fv.take(i + 1).last() == fv[i as int]);
            assert(acc@ =~= spec_join(fv.take(i + 1)));
        }
        i += 1;
    }
    proof {
        assert(frags.deep_view().take(n as int) =~= frags.deep_view());
    }
    acc
}

/// Build the matcher for a fragment list: never-matching for an empty list,
/// else the compiled alternation; nothing if that alternation does not compile.
pub fn build_matcher(frags: &Vec<String>) -> (r: Option<Matcher>)
    ensures
        r matches Some(m) ==> matcher_view(m) == spec_pattern_of(frags.deep_view()),
        r is Some <==> spec_fragments_ok(frags.deep_view()),
{
    if frags.len() == 0 {
        Some(Matcher::Never)
    } else {
        let joined = join_fragments(frags);
        match CompiledPattern::new(&joined) {
            Some(c) => Some(Matcher::Compiled(c)),
            None => None,
        }
    }
}

} // verus!
