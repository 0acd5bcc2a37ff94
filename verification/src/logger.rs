//! Which log messages are kept.

use std::str::FromStr;
use tracing_subscriber::filter::Directive;
use vstd::prelude::*;

verus! {

/// Declares `tracing_subscriber::EnvFilter`.
#[verifier::external_type_specification]
#[verifier::external_body]
pub struct ExEnvFilter(tracing_subscriber::EnvFilter);

/// Stands for all targets that have no level of their own.
pub open spec fn every_target() -> Seq<char> {
    seq![]
}

/// The level that a filter has for each target, of its directives that name neither a span nor a
/// field.
pub uninterp spec fn filter_levels(filter: tracing_subscriber::EnvFilter) -> Map<
    Seq<char>,
    Seq<char>,
>;

/// `level` is the name of a level.
pub open spec fn is_level(level: Seq<char>) -> bool {
    level == "error"@ || level == "warn"@ || level == "info"@ || level == "debug"@ || level
        == "trace"@
}

/// `target` is a plain crate name.
pub open spec fn is_target(target: Seq<char>) -> bool {
    &&& target.len() > 0
    &&& forall|i: int|
        #![trigger target[i]]
        0 <= i < target.len() ==> ('a' <= target[i] <= 'z' || target[i] == '_')
}

/// Calls `EnvFilter::new` on the name of a level: the filter has that level for all targets, and
/// nothing else.
#[verifier::external_body]
fn filter_at(level: &str) -> (r: tracing_subscriber::EnvFilter)
    requires
        is_level(level@),
    ensures
        filter_levels(r) == map![every_target() => level@],
{
    tracing_subscriber::EnvFilter::new(level)
}

/// Calls `EnvFilter::add_directive` with the directive that gives a target a level. The level
/// takes the place of the one that the target had, and the other targets keep theirs. The text
/// of a plain crate name, `=` and the name of a level is parsed by `Directive::from_str` without
/// an error.
#[verifier::external_body]
fn with_level(filter: tracing_subscriber::EnvFilter, target: &str, level: &str) -> (r:
    tracing_subscriber::EnvFilter)
    requires
        is_target(target@),
        is_level(level@),
    ensures
        filter_levels(r) == filter_levels(filter).insert(target@, level@),
{
    filter.add_directive(Directive::from_str(&format!("{target}={level}")).unwrap())
}

/// The level of the compositor and of the library it is built on.
pub open spec fn own_level(debug: bool) -> Seq<char> {
    if debug {
        "debug"@
    } else {
        "warn"@
    }
}

/// The level of everything that has none of its own.
pub open spec fn base_level(debug: bool) -> Seq<char> {
    if debug {
        "info"@
    } else {
        "warn"@
    }
}

/// The levels that hold where nothing else is asked for. Text rendering and the event loop only
/// report errors.
pub open spec fn default_levels(debug: bool) -> Map<Seq<char>, Seq<char>> {
    map![
        every_target() => base_level(debug),
        "cosmic_text"@ => "error"@,
        "calloop"@ => "error"@,
        "smithay"@ => own_level(debug),
        "wmde_comp"@ => own_level(debug),
    ]
}

/// The filter that holds where nothing else is asked for, in a build with or without debug
/// assertions.
pub fn default_filter(debug: bool) -> (r: tracing_subscriber::EnvFilter)
    ensures
        filter_levels(r) == default_levels(debug),
{
    let base = if debug {
        "info"
    } else {
        "warn"
    };
    let own = if debug {
        "debug"
    } else {
        "warn"
    };
    proof {
        reveal_strlit("cosmic_text");
        reveal_strlit("calloop");
        reveal_strlit("smithay");
        reveal_strlit("wmde_comp");
    }
    let filter = with_level(filter_at(base), "cosmic_text", "error");
    let filter = with_level(filter, "calloop", "error");
    let filter = with_level(filter, "smithay", own);
    with_level(filter, "wmde_comp", own)
}

/// The filter to log by. One that the environment asks for is taken as it is: the default levels
/// are not added to it, so that they cannot keep back what was asked for.
pub fn choose_filter(asked_for: Option<tracing_subscriber::EnvFilter>, debug: bool) -> (r:
    tracing_subscriber::EnvFilter)
    ensures
        asked_for matches Some(filter) ==> r == filter,
        asked_for is None ==> filter_levels(r) == default_levels(debug),
{
    match asked_for {
        Some(filter) => filter,
        None => default_filter(debug),
    }
}

/// By default each of the four crates that are named has a level of its own, which the others do
/// not override, and everything else shares one.
pub proof fn law_defaults_are_apart(debug: bool)
    ensures
        default_levels(debug).dom().len() == 5,
        default_levels(debug)["cosmic_text"@] == "error"@,
        default_levels(debug)["calloop"@] == "error"@,
        default_levels(debug)["smithay"@] == own_level(debug),
        default_levels(debug)["wmde_comp"@] == own_level(debug),
        default_levels(debug)[every_target()] == base_level(debug),
{
    reveal_strlit("cosmic_text");
    reveal_strlit("calloop");
    reveal_strlit("smithay");
    reveal_strlit("wmde_comp");
    assert("cosmic_text"@.len() == 11 && "calloop"@.len() == 7 && "smithay"@.len() == 7
        && "wmde_comp"@.len() == 9);
    assert("calloop"@[0] != "smithay"@[0]);
}

} // verus!
