use tracing_subscriber::EnvFilter;
use wmde_comp::logger::{choose_filter, default_filter};

fn directives(filter: &EnvFilter) -> Vec<String> {
    let mut parts: Vec<String> = filter.to_string().split(',').map(|s| s.to_string()).collect();
    parts.sort();
    parts
}

#[test]
fn a_debug_build_says_more() {
    assert_eq!(
        directives(&default_filter(true)),
        ["calloop=error", "cosmic_text=error", "info", "smithay=debug", "wmde_comp=debug"]
    );
}

#[test]
fn a_release_build_warns() {
    assert_eq!(
        directives(&default_filter(false)),
        ["calloop=error", "cosmic_text=error", "smithay=warn", "warn", "wmde_comp=warn"]
    );
}

#[test]
fn what_is_asked_for_is_not_added_to() {
    let asked_for = EnvFilter::new("smithay::backend=trace");
    assert_eq!(directives(&choose_filter(Some(asked_for), true)), ["smithay::backend=trace"]);
    assert_eq!(
        directives(&choose_filter(None, true)),
        directives(&default_filter(true))
    );
}
