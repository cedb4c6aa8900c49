//! Sign text filter patterns: anchored prefixes and free-form expressions,
//! compiled into one pattern set through the regex crate.

use vstd::prelude::*;
use regex::RegexSet;

verus! {

#[verifier::external_type_specification]
#[verifier::external_body]
pub struct ExRegexSet(RegexSet);

#[verifier::external_type_specification]
#[verifier::external_body]
pub struct ExRegexError(regex::Error);

/// The pattern texts a compiled pattern set was built from, in order
pub uninterp spec fn regex_set_patterns(rs: RegexSet) -> Seq<Seq<char>>;

/// Whether any pattern of a pattern list matches a text
pub uninterp spec fn regex_set_match(patterns: Seq<Seq<char>>, text: Seq<char>) -> bool;

/// The escaped form of a text, matching that text literally as an expression
pub uninterp spec fn regex_escaped(s: Seq<char>) -> Seq<char>;

/// Whether a list of patterns compiles to a pattern set
pub uninterp spec fn regex_compilable(patterns: Seq<Seq<char>>) -> bool;

/// Relies on `regex::RegexSet::new`: under its default configuration,
/// whether the patterns compile depends on the pattern texts alone; on
/// success the set holds exactly the given patterns in order.
#[verifier::external_body]
fn regex_set_new(patterns: &Vec<String>) -> (r: Result<RegexSet, regex::Error>)
    ensures
        r is Ok <==> regex_compilable(patterns.deep_view()),
        r is Ok ==> regex_set_patterns(r->Ok_0) == patterns.deep_view(),
{
    RegexSet::new(patterns)
}

/// Relies on `regex::RegexSet::is_match`: whether any pattern of the set
/// matches the text; the result depends on the patterns and the text alone.
#[verifier::external_body]
pub fn regex_set_is_match(rs: &RegexSet, text: &str) -> (r: bool)
    ensures
        r == regex_set_match(regex_set_patterns(*rs), text@),
{
    rs.is_match(text)
}

/// Relies on `regex::RegexSet::len`: the number of patterns in the set.
#[verifier::external_body]
pub fn regex_set_len(rs: &RegexSet) -> (r: usize)
    ensures
        r == regex_set_patterns(*rs).len(),
{
    rs.len()
}

/// Relies on `regex::escape`: the escaped text, whose characters depend on
/// the input text alone.
#[verifier::external_body]
fn regex_escape(s: &str) -> (r: String)
    ensures
        r@ == regex_escaped(s@),
{
    regex::escape(s)
}

/// An error of building the pipeline configuration
#[derive(Clone, Copy, PartialEq, Eq, Structural, Debug)]
pub enum ConfigError {
    /// A sign text filter pattern failed to compile
    BadSignPattern,
}

/// The pattern texts the sign filters compile to: each prefix anchored at the
/// start of the text and escaped to match literally, then every free-form
/// expression unchanged
pub open spec fn spec_sign_patterns(prefixes: Seq<Seq<char>>, filters: Seq<Seq<char>>) -> Seq<
    Seq<char>,
> {
    prefixes.map_values(|p: Seq<char>| seq!['^'] + regex_escaped(p)) + filters
}

/// Compiles the sign prefixes and sign filters into one pattern set
///
/// Prefix patterns are anchored at the start of the text; free-form filter
/// expressions are taken as written. This fails, and only fails, when the
/// pattern list does not compile: a malformed filter expression is a startup
/// error.
pub fn compile_sign_patterns(prefixes: &Vec<String>, filters: &Vec<String>) -> (r: Result<
    RegexSet,
    ConfigError,
>)
    ensures
        r is Ok <==> regex_compilable(
            spec_sign_patterns(prefixes.deep_view(), filters.deep_view()),
        ),
        r is Ok ==> regex_set_patterns(r->Ok_0) == spec_sign_patterns(
            prefixes.deep_view(),
            filters.deep_view(),
        ),
{
    let mut patterns: Vec<String> = Vec::new();
    let mut i: usize = 0;
    while i < prefixes.len()
        invariant
            i <= prefixes@.len(),
            patterns@.len() == i,
            forall|k: int|
                0 <= k < i ==> #[trigger] patterns.deep_view()[k] == seq!['^'] + regex_escaped(
                    prefixes.deep_view()[k],
                ),
        decreases prefixes@.len() - i,
    {
        let mut anchored = String::new();
        anchored.push('^');
        let escaped = regex_escape(prefixes[i].as_str());
        anchored.push_str(escaped.as_str());
        let ghost before = patterns;
        patterns.push(anchored);
        proof {
            assert(patterns.deep_view()[i as int] =~= seq!['^'] + regex_escaped(
                prefixes.deep_view()[i as int],
            ));
            assert forall|k: int| 0 <= k < i implies #[trigger] patterns.deep_view()[k]
                == seq!['^'] + regex_escaped(prefixes.deep_view()[k]) by {
                assert(before.deep_view()[k] == seq!['^'] + regex_escaped(
                    prefixes.deep_view()[k],
                ));
                assert(patterns.deep_view()[k] == patterns@[k].deep_view());
                assert(patterns@[k] == before@[k]);
            }
        }
        i += 1;
    }
    let ghost n_prefixes = prefixes.deep_view().len();
    let mut j: usize = 0;
    while j < filters.len()
        invariant
            j <= filters@.len(),
            n_prefixes == prefixes.deep_view().len(),
            patterns@.len() == n_prefixes + j,
            forall|k: int|
                0 <= k < n_prefixes ==> #[trigger] patterns.deep_view()[k] == seq!['^']
                    + regex_escaped(prefixes.deep_view()[k]),
            forall|k: int|
                n_prefixes <= k < n_prefixes + j ==> #[trigger] patterns.deep_view()[k]
                    == filters.deep_view()[k - n_prefixes],
        decreases filters@.len() - j,
    {
        let ghost before = patterns;
        patterns.push(filters[j].clone());
        proof {
            assert(patterns.deep_view()[n_prefixes + j] == filters.deep_view()[j as int]);
            assert forall|k: int| 0 <= k < n_prefixes + j implies #[trigger] patterns.deep_view()[k]
                == before.deep_view()[k] by {
                assert(patterns.deep_view()[k] == patterns@[k].deep_view());
                assert(patterns@[k] == before@[k]);
                assert(before.deep_view()[k] == before@[k].deep_view());
            }
        }
        j += 1;
    }
    proof {
        let target = spec_sign_patterns(prefixes.deep_view(), filters.deep_view());
        assert forall|k: int| 0 <= k < patterns.deep_view().len() implies patterns.deep_view()[k]
            == target[k] by {
            if k < n_prefixes {
                assert(target[k] == seq!['^'] + regex_escaped(prefixes.deep_view()[k]));
            } else {
                assert(target[k] == filters.deep_view()[k - n_prefixes]);
            }
        }
        assert(patterns.deep_view() =~~= target);
    }
    match regex_set_new(&patterns) {
        Ok(rs) => Ok(rs),
        Err(_) => Err(ConfigError::BadSignPattern),
    }
}

/// Whether a record with the given display text is kept: it matches any
/// configured pattern, or no patterns are configured at all
pub open spec fn spec_keep(patterns: Seq<Seq<char>>, text: Seq<char>) -> bool {
    patterns.len() == 0 || regex_set_match(patterns, text)
}

/// Decides whether a record with the given display text is kept
pub fn keep_text(rs: &RegexSet, text: &str) -> (r: bool)
    ensures
        r == spec_keep(regex_set_patterns(*rs), text@),
{
    regex_set_len(rs) == 0 || regex_set_is_match(rs, text)
}

} // verus!
